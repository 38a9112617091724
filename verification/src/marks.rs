//! Board annotations: the arrows and marked squares a user draws with
//! right-button drags while studying a position.
//!
//! A drag between two squares toggles the arrow between them; a drag that
//! starts and ends on one square toggles the mark on it. A left press
//! clears everything. No annotation ever appears twice.

use vstd::prelude::*;

verus! {

/// An arrow drawn from one square to another.
#[derive(Clone, Copy, PartialEq, Eq, Structural, Debug)]
pub struct Arrow {
    pub from: u8,
    pub to: u8,
}

/// A sequence with the first occurrence of `x` taken out.
pub open spec fn drop_first<T>(s: Seq<T>, x: T) -> Seq<T>
    decreases s.len(),
{
    if s.len() == 0 {
        s
    } else if s[0] == x {
        s.subrange(1, s.len() as int)
    } else {
        seq![s[0]] + drop_first(s.subrange(1, s.len() as int), x)
    }
}

proof fn lemma_drop_first_index<T>(s: Seq<T>, x: T, i: int)
    requires
        0 <= i < s.len(),
        s[i] == x,
        forall|j: int| 0 <= j < i ==> s[j] != x,
    ensures
        drop_first(s, x) == s.subrange(0, i) + s.subrange(i + 1, s.len() as int),
    decreases i,
{
    if i == 0 {
        assert(drop_first(s, x) =~= s.subrange(0, 0) + s.subrange(1, s.len() as int));
    } else {
        let tail = s.subrange(1, s.len() as int);
        lemma_drop_first_index(tail, x, i - 1);
        assert(tail.subrange(0, i - 1) =~= s.subrange(1, i));
        assert(tail.subrange(i, tail.len() as int) =~= s.subrange(i + 1, s.len() as int));
        assert(drop_first(s, x) =~= s.subrange(0, i) + s.subrange(i + 1, s.len() as int));
    }
}

/// The user's annotations.
#[derive(Clone, Debug)]
pub struct BoardMarks {
    pub arrows: Vec<Arrow>,
    pub marked: Vec<u8>,
}

/// The annotations after a right-button drag from `from` to `to`: a drag
/// between two squares adds the arrow between them, or takes it away if
/// it is already drawn; a drag within one square does the same with the
/// mark on that square.
pub open spec fn toggle_model(arrows: Seq<Arrow>, marked: Seq<u8>, from: u8, to: u8) -> (
    Seq<Arrow>,
    Seq<u8>,
) {
    let a = Arrow { from, to };
    if from != to && !arrows.contains(a) {
        (arrows.push(a), marked)
    } else if arrows.contains(a) {
        (drop_first(arrows, a), marked)
    } else if !marked.contains(to) {
        (arrows, marked.push(to))
    } else {
        (arrows, drop_first(marked, to))
    }
}

fn arrows_contain(v: &Vec<Arrow>, a: Arrow) -> (r: bool)
    ensures
        r == v@.contains(a),
{
    let n = v.len();
    let mut i: usize = 0;
    while i < n
        invariant
            0 <= i <= n == v@.len(),
            forall|j: int| 0 <= j < i ==> v@[j] != a,
        decreases n - i,
    {
        if v[i].from == a.from && v[i].to == a.to {
            return true;
        }
        i = i + 1;
    }
    false
}

fn drop_first_arrow(v: &mut Vec<Arrow>, a: Arrow)
    ensures
        final(v)@ == drop_first(old(v)@, a),
{
    let n = v.len();
    let mut i: usize = 0;
    while i < n && !(v[i].from == a.from && v[i].to == a.to)
        invariant
            0 <= i <= n == v@.len(),
            v@ == old(v)@,
            forall|j: int| 0 <= j < i ==> old(v)@[j] != a,
        decreases n - i,
    {
        i = i + 1;
    }
    if i < n {
        v.remove(i);
        proof {
            lemma_drop_first_index(old(v)@, a, i as int);
            assert(v@ =~= drop_first(old(v)@, a));
        }
    } else {
        proof {
            lemma_drop_first_none(v@, a);
        }
    }
}

proof fn lemma_drop_first_none<T>(s: Seq<T>, x: T)
    requires
        forall|j: int| 0 <= j < s.len() ==> s[j] != x,
    ensures
        drop_first(s, x) == s,
    decreases s.len(),
{
    if s.len() > 0 {
        lemma_drop_first_none(s.subrange(1, s.len() as int), x);
        assert(drop_first(s, x) =~= s);
    }
}

fn marked_contain(v: &Vec<u8>, sq: u8) -> (r: bool)
    ensures
        r == v@.contains(sq),
{
    let n = v.len();
    let mut i: usize = 0;
    while i < n
        invariant
            0 <= i <= n == v@.len(),
            forall|j: int| 0 <= j < i ==> v@[j] != sq,
        decreases n - i,
    {
        if v[i] == sq {
            return true;
        }
        i = i + 1;
    }
    false
}

fn drop_first_mark(v: &mut Vec<u8>, sq: u8)
    ensures
        final(v)@ == drop_first(old(v)@, sq),
{
    let n = v.len();
    let mut i: usize = 0;
    while i < n && v[i] != sq
        invariant
            0 <= i <= n == v@.len(),
            v@ == old(v)@,
            forall|j: int| 0 <= j < i ==> old(v)@[j] != sq,
        decreases n - i,
    {
        i = i + 1;
    }
    if i < n {
        v.remove(i);
        proof {
            lemma_drop_first_index(old(v)@, sq, i as int);
            assert(v@ =~= drop_first(old(v)@, sq));
        }
    } else {
        proof {
            lemma_drop_first_none(v@, sq);
        }
    }
}

impl BoardMarks {
    /// No annotations.
    pub fn empty() -> (r: BoardMarks)
        ensures
            r.arrows@ == Seq::<Arrow>::empty(),
            r.marked@ == Seq::<u8>::empty(),
    {
        BoardMarks { arrows: Vec::new(), marked: Vec::new() }
    }

    /// Toggles the annotation a completed right-button drag names,
    /// exactly as [`toggle_model`] says.
    pub fn toggle(&mut self, from: u8, to: u8)
        ensures
            (final(self).arrows@, final(self).marked@) == toggle_model(
                old(self).arrows@,
                old(self).marked@,
                from,
                to,
            ),
    {
        let a = Arrow { from, to };
        let has_arrow = arrows_contain(&self.arrows, a);
        if from != to && !has_arrow {
            self.arrows.push(a);
        } else if has_arrow {
            drop_first_arrow(&mut self.arrows, a);
        } else if !marked_contain(&self.marked, to) {
            self.marked.push(to);
        } else {
            drop_first_mark(&mut self.marked, to);
        }
    }

    /// Clears every annotation, as a left press on the board does.
    pub fn clear(&mut self)
        ensures
            final(self).arrows@ == Seq::<Arrow>::empty(),
            final(self).marked@ == Seq::<u8>::empty(),
    {
        self.arrows = Vec::new();
        self.marked = Vec::new();
    }
}

} // verus!
