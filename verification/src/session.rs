//! The authoritative match object: current position handle, two clocks,
//! two side slots with their handshake phase, and termination detection.
//!
//! The session owns no chess rules. Each tick the caller hands it the
//! position oracle's answers about the current position — the legal-move
//! set as plain from/to/promotion codes, the check and draw flags — and
//! the session takes every decision on them: which terminal condition
//! wins, whether a candidate move may be applied, and how the clocks move.
//!
//! The whole step is mirrored by the spec function [`tick_model`], and
//! `tick` promises to change the session exactly as the model says.

use vstd::prelude::*;

use crate::config::{
    effective_fen, fen_turn, parse_ms, parse_seconds_as_ms, start_fen, text_is_blank, ConfigError,
    Settings,
};
use crate::handshake::{step_action, step_phase, EngineInitPhase, HandshakeAction};
use crate::moves::{Color, MoveIntent};

verus! {

/// The terminal result of a match, or `Ongoing`. `CheckmateFor` names the
/// winner; `TimeForfeitFor` and `ProcessFailureFor` name the side whose
/// clock ran out or whose process died. Once the outcome is not
/// `Ongoing`, the session stops accepting moves.
#[derive(Clone, Copy, PartialEq, Eq, Structural, Debug)]
pub enum Outcome {
    Ongoing,
    CheckmateFor(Color),
    StalemateDraw,
    RepetitionDraw,
    FiftyMoveDraw,
    InsufficientMaterialDraw,
    TimeForfeitFor(Color),
    ProcessFailureFor(Color),
}

impl Outcome {
    /// The message each terminal outcome shows; a forfeited or failed
    /// side's opponent is announced as the winner.
    pub open spec fn message_spec(self) -> Seq<char> {
        match self {
            Outcome::Ongoing => ""@,
            Outcome::CheckmateFor(Color::White) => "White Wins By Checkmate"@,
            Outcome::CheckmateFor(Color::Black) => "Black Wins By Checkmate"@,
            Outcome::StalemateDraw => "Draw By Stalemate"@,
            Outcome::RepetitionDraw => "Draw By Three-Fold Repetition"@,
            Outcome::FiftyMoveDraw => "Draw By Fifty Move Rule"@,
            Outcome::InsufficientMaterialDraw => "Draw By Insufficient Material"@,
            Outcome::TimeForfeitFor(Color::White) => "Black Wins On Time"@,
            Outcome::TimeForfeitFor(Color::Black) => "White Wins On Time"@,
            Outcome::ProcessFailureFor(Color::White) => "White Engine Failed"@,
            Outcome::ProcessFailureFor(Color::Black) => "Black Engine Failed"@,
        }
    }

    /// The outcome message when terminal; nothing while the match is
    /// ongoing.
    pub fn message(&self) -> (r: Option<String>)
        ensures
            r is Some <==> *self != Outcome::Ongoing,
            r is Some ==> r->Some_0@ == self.message_spec(),
    {
        match self {
            Outcome::Ongoing => None,
            Outcome::CheckmateFor(Color::White) => Some(
                String::from_str("White Wins By Checkmate"),
            ),
            Outcome::CheckmateFor(Color::Black) => Some(
                String::from_str("Black Wins By Checkmate"),
            ),
            Outcome::StalemateDraw => Some(String::from_str("Draw By Stalemate")),
            Outcome::RepetitionDraw => Some(String::from_str("Draw By Three-Fold Repetition")),
            Outcome::FiftyMoveDraw => Some(String::from_str("Draw By Fifty Move Rule")),
            Outcome::InsufficientMaterialDraw => Some(
                String::from_str("Draw By Insufficient Material"),
            ),
            Outcome::TimeForfeitFor(Color::White) => Some(String::from_str("Black Wins On Time")),
            Outcome::TimeForfeitFor(Color::Black) => Some(String::from_str("White Wins On Time")),
            Outcome::ProcessFailureFor(Color::White) => Some(
                String::from_str("White Engine Failed"),
            ),
            Outcome::ProcessFailureFor(Color::Black) => Some(
                String::from_str("Black Engine Failed"),
            ),
        }
    }
}

/// What the position oracle says about the current position, read once
/// per tick. The legal-move set comes as plain from/to/promotion codes;
/// an intent is applied only if it appears here.
#[derive(Clone, Debug)]
pub struct TickFacts {
    pub legal: Vec<MoveIntent>,
    pub in_check: bool,
    pub threefold: bool,
    pub fifty: bool,
    pub insufficient_white: bool,
    pub insufficient_black: bool,
}

/// The oracle facts as a mathematical value.
pub struct FactsModel {
    pub legal: Seq<MoveIntent>,
    pub in_check: bool,
    pub threefold: bool,
    pub fifty: bool,
    pub insufficient_white: bool,
    pub insufficient_black: bool,
}

impl View for TickFacts {
    type V = FactsModel;

    open spec fn view(&self) -> FactsModel {
        FactsModel {
            legal: self.legal@,
            in_check: self.in_check,
            threefold: self.threefold,
            fifty: self.fifty,
            insufficient_white: self.insufficient_white,
            insufficient_black: self.insufficient_black,
        }
    }
}

/// One side of the match: whether an external process controls it, the
/// handshake phase of that process, the remaining clock, the per-move
/// increment, and whether the clock has been decremented at least once.
#[derive(Clone, Copy, PartialEq, Eq, Structural, Debug)]
pub struct SideSlot {
    pub engine: bool,
    pub phase: EngineInitPhase,
    pub clock_ms: u64,
    pub increment_ms: u64,
    pub ticked: bool,
}

/// The session as a mathematical value: the slot fields are plain, the
/// history is the sequence of applied moves since the starting position.
#[verifier::ext_equal]
pub struct SessionModel {
    pub start_fen: Seq<char>,
    pub white: SideSlot,
    pub black: SideSlot,
    pub turn: Color,
    pub history: Seq<MoveIntent>,
    pub outcome: Outcome,
}

impl SessionModel {
    /// The slot of one side.
    pub open spec fn slot(self, c: Color) -> SideSlot {
        match c {
            Color::White => self.white,
            Color::Black => self.black,
        }
    }

    /// The remaining clock of one side.
    pub open spec fn clock(self, c: Color) -> u64 {
        self.slot(c).clock_ms
    }

    /// Replaces the slot of one side.
    pub open spec fn with_slot(self, c: Color, sl: SideSlot) -> SessionModel {
        match c {
            Color::White => SessionModel { white: sl, ..self },
            Color::Black => SessionModel { black: sl, ..self },
        }
    }
}

/// Which side has flagged: a clock that holds zero after having been
/// decremented at least once. White's loss is checked first — a
/// documented tie-break, unreachable under correct decrementing since
/// only the side to move is decremented each tick.
pub open spec fn time_outcome(s: SessionModel) -> Outcome {
    if s.white.clock_ms == 0 && s.white.ticked {
        Outcome::TimeForfeitFor(Color::White)
    } else if s.black.clock_ms == 0 && s.black.ticked {
        Outcome::TimeForfeitFor(Color::Black)
    } else {
        Outcome::Ongoing
    }
}

/// The terminal condition a tick reports: the first matching condition in
/// the fixed order dead-position (checkmate or stalemate), repetition,
/// fifty-move, insufficient material on both sides, then time
/// forfeiture.
pub open spec fn facts_outcome(s: SessionModel, f: FactsModel) -> Outcome {
    if f.legal.len() == 0 {
        if f.in_check {
            Outcome::CheckmateFor(s.turn.flip())
        } else {
            Outcome::StalemateDraw
        }
    } else if f.threefold {
        Outcome::RepetitionDraw
    } else if f.fifty {
        Outcome::FiftyMoveDraw
    } else if f.insufficient_white && f.insufficient_black {
        Outcome::InsufficientMaterialDraw
    } else {
        time_outcome(s)
    }
}

/// The session after a move is applied: the move joins the history, the
/// mover's own increment joins the mover's clock, the opponent's clock is
/// untouched, and the turn passes.
pub open spec fn apply_move_model(s: SessionModel, m: MoveIntent) -> SessionModel {
    let mover = s.slot(s.turn);
    let bumped = SideSlot {
        clock_ms: mover.clock_ms.saturating_add(mover.increment_ms),
        ..mover
    };
    SessionModel {
        turn: s.turn.flip(),
        history: s.history.push(m),
        ..s.with_slot(s.turn, bumped)
    }
}

/// The session after the clock of the side to move is decremented by the
/// elapsed wall time, floored at zero, and marked as having been
/// decremented.
pub open spec fn run_clock_model(s: SessionModel, elapsed_ms: u64) -> SessionModel {
    let sl = s.slot(s.turn);
    s.with_slot(
        s.turn,
        SideSlot { clock_ms: sl.clock_ms.saturating_sub(elapsed_ms), ticked: true, ..sl },
    )
}

/// One tick of the session, in order: report the first matching terminal
/// condition and freeze if there is one; otherwise apply the proposed
/// move if and only if it appears in the oracle's legal-move set, then
/// decrement the clock of the side now to move. A terminal session never
/// changes.
pub open spec fn tick_model(
    s: SessionModel,
    input: Option<MoveIntent>,
    f: FactsModel,
    elapsed_ms: u64,
) -> SessionModel {
    if s.outcome != Outcome::Ongoing {
        s
    } else {
        let oc = facts_outcome(s, f);
        if oc != Outcome::Ongoing {
            SessionModel { outcome: oc, ..s }
        } else {
            let moved = if input is Some && f.legal.contains(input->Some_0) {
                apply_move_model(s, input->Some_0)
            } else {
                s
            };
            run_clock_model(moved, elapsed_ms)
        }
    }
}

/// The immutable view published once per tick: a clone of the position
/// handle (the starting-position record plus the applied moves), the
/// outcome, and the presentation-facing clock and handshake readings.
/// The live session is never exposed.
#[derive(Clone, Debug)]
pub struct SessionSnapshot {
    pub start_fen: String,
    pub history: Vec<MoveIntent>,
    pub outcome: Outcome,
    pub turn: Color,
    pub white_clock_ms: u64,
    pub black_clock_ms: u64,
    pub white_phase: EngineInitPhase,
    pub black_phase: EngineInitPhase,
}

/// Whether a snapshot reads back exactly the given session value.
pub open spec fn snap_matches(snap: SessionSnapshot, s: SessionModel) -> bool {
    &&& snap.start_fen@ == s.start_fen
    &&& snap.history@ == s.history
    &&& snap.outcome == s.outcome
    &&& snap.turn == s.turn
    &&& snap.white_clock_ms == s.white.clock_ms
    &&& snap.black_clock_ms == s.black.clock_ms
    &&& snap.white_phase == s.white.phase
    &&& snap.black_phase == s.black.phase
}

/// Tells whether the oracle's legal-move set holds this exact candidate.
fn contains_intent(v: &Vec<MoveIntent>, m: MoveIntent) -> (r: bool)
    ensures
        r == v@.contains(m),
{
    let n = v.len();
    let mut i: usize = 0;
    while i < n
        invariant
            0 <= i <= n == v@.len(),
            forall|j: int| 0 <= j < i ==> v@[j] != m,
        decreases n - i,
    {
        if v[i] == m {
            return true;
        }
        i = i + 1;
    }
    false
}

fn copy_intents(v: &Vec<MoveIntent>) -> (r: Vec<MoveIntent>)
    ensures
        r@ == v@,
{
    let mut r: Vec<MoveIntent> = Vec::new();
    let n = v.len();
    let mut i: usize = 0;
    while i < n
        invariant
            0 <= i <= n == v@.len(),
            r@ == v@.subrange(0, i as int),
        decreases n - i,
    {
        r.push(v[i]);
        proof {
            assert(r@ =~= v@.subrange(0, i + 1));
        }
        i = i + 1;
    }
    proof {
        assert(v@.subrange(0, n as int) =~= v@);
    }
    r
}

/// The authoritative match object. Constructed once per match from the
/// settings; owned by one worker; observed only through snapshots.
#[derive(Debug)]
pub struct Session {
    pub start_fen: String,
    pub white: SideSlot,
    pub black: SideSlot,
    pub turn: Color,
    pub history: Vec<MoveIntent>,
    pub outcome: Outcome,
}

impl View for Session {
    type V = SessionModel;

    open spec fn view(&self) -> SessionModel {
        SessionModel {
            start_fen: self.start_fen@,
            white: self.white,
            black: self.black,
            turn: self.turn,
            history: self.history@,
            outcome: self.outcome,
        }
    }
}

/// The session value a fresh match starts from, given the readable
/// settings: full clocks, no decrement recorded yet, empty history, both
/// handshake phases at the start, outcome ongoing.
pub open spec fn initial_model(settings: Settings) -> SessionModel {
    let fen = effective_fen(settings.position_fen@);
    SessionModel {
        start_fen: fen,
        white: SideSlot {
            engine: settings.white_engine_path is Some,
            phase: EngineInitPhase::SendUci,
            clock_ms: (crate::digits::dec_value(settings.wtime_s@) * 1000) as u64,
            increment_ms: crate::digits::dec_value(settings.wincrement_ms@) as u64,
            ticked: false,
        },
        black: SideSlot {
            engine: settings.black_engine_path is Some,
            phase: EngineInitPhase::SendUci,
            clock_ms: (crate::digits::dec_value(settings.btime_s@) * 1000) as u64,
            increment_ms: crate::digits::dec_value(settings.bincrement_ms@) as u64,
            ticked: false,
        },
        turn: fen_turn(fen)->Some_0,
        history: Seq::empty(),
        outcome: Outcome::Ongoing,
    }
}

impl Session {
    /// Builds the session for one match. Succeeds exactly when every
    /// time-control field reads as a whole number and the
    /// starting-position record says whose turn it is; otherwise reports
    /// the first failing field. No clock has been decremented yet, so no
    /// time forfeiture can be reported before the first tick.
    pub fn new(settings: &Settings) -> (r: Result<Session, ConfigError>)
        ensures
            r is Ok <==> settings.parses(),
            r is Ok ==> r->Ok_0@ == initial_model(*settings),
            r is Err ==> r->Err_0 == settings.first_error(),
    {
        let wtime_ms = match parse_seconds_as_ms(settings.wtime_s.as_str()) {
            Some(v) => v,
            _ => {
                return Err(ConfigError::InvalidNumber(crate::config::TimeField::WhiteTime));
            },
        };
        let btime_ms = match parse_seconds_as_ms(settings.btime_s.as_str()) {
            Some(v) => v,
            _ => {
                return Err(ConfigError::InvalidNumber(crate::config::TimeField::BlackTime));
            },
        };
        let winc_ms = match parse_ms(settings.wincrement_ms.as_str()) {
            Some(v) => v,
            _ => {
                return Err(ConfigError::InvalidNumber(crate::config::TimeField::WhiteIncrement));
            },
        };
        let binc_ms = match parse_ms(settings.bincrement_ms.as_str()) {
            Some(v) => v,
            _ => {
                return Err(ConfigError::InvalidNumber(crate::config::TimeField::BlackIncrement));
            },
        };
        let fen = if text_is_blank(settings.position_fen.as_str()) {
            String::from_str(start_fen())
        } else {
            settings.position_fen.clone()
        };
        let turn = match crate::config::side_to_move_of_fen(fen.as_str()) {
            Some(c) => c,
            _ => {
                return Err(ConfigError::UnreadablePosition);
            },
        };
        let s = Session {
            start_fen: fen,
            white: SideSlot {
                engine: settings.white_engine_path.is_some(),
                phase: EngineInitPhase::SendUci,
                clock_ms: wtime_ms,
                increment_ms: winc_ms,
                ticked: false,
            },
            black: SideSlot {
                engine: settings.black_engine_path.is_some(),
                phase: EngineInitPhase::SendUci,
                clock_ms: btime_ms,
                increment_ms: binc_ms,
                ticked: false,
            },
            turn,
            history: Vec::new(),
            outcome: Outcome::Ongoing,
        };
        proof {
            assert(s@ =~= initial_model(*settings));
        }
        Ok(s)
    }

    /// Publishes the session as an immutable snapshot; the only channel
    /// by which the presentation layer observes progress.
    pub fn snapshot(&self) -> (r: SessionSnapshot)
        ensures
            snap_matches(r, self@),
    {
        SessionSnapshot {
            start_fen: self.start_fen.clone(),
            history: copy_intents(&self.history),
            outcome: self.outcome,
            turn: self.turn,
            white_clock_ms: self.white.clock_ms,
            black_clock_ms: self.black.clock_ms,
            white_phase: self.white.phase,
            black_phase: self.black.phase,
        }
    }

    /// The terminal condition the current facts report, if any.
    fn compute_outcome(&self, facts: &TickFacts) -> (r: Outcome)
        ensures
            r == facts_outcome(self@, facts@),
    {
        if facts.legal.len() == 0 {
            if facts.in_check {
                Outcome::CheckmateFor(self.turn.other())
            } else {
                Outcome::StalemateDraw
            }
        } else if facts.threefold {
            Outcome::RepetitionDraw
        } else if facts.fifty {
            Outcome::FiftyMoveDraw
        } else if facts.insufficient_white && facts.insufficient_black {
            Outcome::InsufficientMaterialDraw
        } else if self.white.clock_ms == 0 && self.white.ticked {
            Outcome::TimeForfeitFor(Color::White)
        } else if self.black.clock_ms == 0 && self.black.ticked {
            Outcome::TimeForfeitFor(Color::Black)
        } else {
            Outcome::Ongoing
        }
    }

    /// One tick of the match, exactly as [`tick_model`] says: report the
    /// first matching terminal condition, else apply `input` if and only
    /// if the oracle's legal-move set holds it (an absent or illegal
    /// intent is discarded silently and changes nothing but the clock),
    /// then decrement the clock of the side now to move by the elapsed
    /// wall time, floored at zero. Returns the published snapshot.
    pub fn tick(&mut self, input: Option<MoveIntent>, facts: &TickFacts, elapsed_ms: u64) -> (snap:
        SessionSnapshot)
        ensures
            final(self)@ == tick_model(old(self)@, input, facts@, elapsed_ms),
            snap_matches(snap, final(self)@),
    {
        if !matches!(self.outcome, Outcome::Ongoing) {
            return self.snapshot();
        }
        let oc = self.compute_outcome(facts);
        if !matches!(oc, Outcome::Ongoing) {
            self.outcome = oc;
            proof {
                assert(self@ =~= tick_model(old(self)@, input, facts@, elapsed_ms));
            }
            return self.snapshot();
        }
        if let Some(m) = input {
            if contains_intent(&facts.legal, m) {
                self.history.push(m);
                match self.turn {
                    Color::White => {
                        self.white.clock_ms = self.white.clock_ms.saturating_add(
                            self.white.increment_ms,
                        );
                    },
                    Color::Black => {
                        self.black.clock_ms = self.black.clock_ms.saturating_add(
                            self.black.increment_ms,
                        );
                    },
                }
                self.turn = self.turn.other();
                proof {
                    assert(self@ =~= apply_move_model(old(self)@, m));
                }
            }
        }
        let ghost moved = self@;
        match self.turn {
            Color::White => {
                self.white.clock_ms = self.white.clock_ms.saturating_sub(elapsed_ms);
                self.white.ticked = true;
            },
            Color::Black => {
                self.black.clock_ms = self.black.clock_ms.saturating_sub(elapsed_ms);
                self.black.ticked = true;
            },
        }
        proof {
            assert(self@ =~= run_clock_model(moved, elapsed_ms));
            assert(self@ =~= tick_model(old(self)@, input, facts@, elapsed_ms));
        }
        self.snapshot()
    }

    /// Advances the handshake of each process-owning slot by one tick and
    /// hands back the command to write to each process. A human slot
    /// never moves and never gets a command. Nothing else of the session
    /// changes.
    pub fn handshake_tick(&mut self, white_ack: bool, black_ack: bool) -> (r: (
        HandshakeAction,
        HandshakeAction,
    ))
        ensures
            r.0 == if old(self).white.engine {
                step_action(old(self).white.phase)
            } else {
                HandshakeAction::Idle
            },
            r.1 == if old(self).black.engine {
                step_action(old(self).black.phase)
            } else {
                HandshakeAction::Idle
            },
            final(self).white.phase == if old(self).white.engine {
                step_phase(old(self).white.phase, white_ack)
            } else {
                old(self).white.phase
            },
            final(self).black.phase == if old(self).black.engine {
                step_phase(old(self).black.phase, black_ack)
            } else {
                old(self).black.phase
            },
            final(self)@ == (SessionModel {
                white: SideSlot { phase: final(self).white.phase, ..old(self).white },
                black: SideSlot { phase: final(self).black.phase, ..old(self).black },
                ..old(self)@
            }),
    {
        let mut wa = HandshakeAction::Idle;
        let mut ba = HandshakeAction::Idle;
        if self.white.engine {
            let (a, p) = crate::handshake::handshake_step(self.white.phase, white_ack);
            wa = a;
            self.white.phase = p;
        }
        if self.black.engine {
            let (a, p) = crate::handshake::handshake_step(self.black.phase, black_ack);
            ba = a;
            self.black.phase = p;
        }
        proof {
            assert(self@ =~= SessionModel {
                white: SideSlot { phase: self.white.phase, ..old(self).white },
                black: SideSlot { phase: self.black.phase, ..old(self).black },
                ..old(self)@
            });
        }
        (wa, ba)
    }

    /// Whether every slot is ready for moves: each process-owning slot
    /// has finished its handshake. A move request is only ever issued to
    /// a ready slot.
    pub open spec fn ready_spec(self) -> bool {
        &&& self.white.engine ==> self.white.phase == EngineInitPhase::End
        &&& self.black.engine ==> self.black.phase == EngineInitPhase::End
    }

    /// Tells whether every slot is ready for moves.
    pub fn all_ready(&self) -> (r: bool)
        ensures
            r == self.ready_spec(),
    {
        (!self.white.engine || matches!(self.white.phase, EngineInitPhase::End)) && (!self.black.engine
            || matches!(self.black.phase, EngineInitPhase::End))
    }

    /// Records that the process of `side` died or broke its pipe: fatal
    /// to this match. The session must not proceed with a dead side, so
    /// the match ends with a distinct outcome rather than a crash. A
    /// session already terminal is unchanged.
    pub fn process_failed(&mut self, side: Color)
        ensures
            final(self)@ == if old(self)@.outcome == Outcome::Ongoing {
                SessionModel { outcome: Outcome::ProcessFailureFor(side), ..old(self)@ }
            } else {
                old(self)@
            },
    {
        if matches!(self.outcome, Outcome::Ongoing) {
            self.outcome = Outcome::ProcessFailureFor(side);
        }
        proof {
            assert(self@ =~= if old(self)@.outcome == Outcome::Ongoing {
                SessionModel { outcome: Outcome::ProcessFailureFor(side), ..old(self)@ }
            } else {
                old(self)@
            });
        }
    }

    /// One pass of the worker that runs the session: poll the
    /// cancellation flag first and exit promptly without touching
    /// anything, else run the tick and publish its snapshot.
    pub fn worker_step(
        &mut self,
        cancel: bool,
        input: Option<MoveIntent>,
        facts: &TickFacts,
        elapsed_ms: u64,
    ) -> (r: Option<SessionSnapshot>)
        ensures
            cancel ==> r is None && final(self)@ == old(self)@,
            !cancel ==> {
                &&& final(self)@ == tick_model(old(self)@, input, facts@, elapsed_ms)
                &&& r is Some
                &&& snap_matches(r->Some_0, final(self)@)
            },
    {
        if cancel {
            return None;
        }
        Some(self.tick(input, facts, elapsed_ms))
    }
}

/// With an empty legal-move set the outcome is checkmate for the opponent
/// of the side to move exactly when that side stands in check, and
/// stalemate otherwise — whatever the draw flags and clocks say, the dead
/// position is the first condition in the fixed order.
pub proof fn lemma_dead_position_outcome(s: SessionModel, f: FactsModel)
    requires
        f.legal.len() == 0,
    ensures
        f.in_check ==> facts_outcome(s, f) == Outcome::CheckmateFor(s.turn.flip()),
        !f.in_check ==> facts_outcome(s, f) == Outcome::StalemateDraw,
{
}

/// Forfeiture requires a preceding decrement: while neither clock has
/// been decremented — as before the first tick of a match — no tick
/// reports a time forfeiture, even with both clocks at zero.
pub proof fn lemma_no_forfeit_before_first_decrement(s: SessionModel, f: FactsModel)
    requires
        !s.white.ticked,
        !s.black.ticked,
    ensures
        !(facts_outcome(s, f) is TimeForfeitFor),
{
}

/// The session after `n` ticks that all carry the same input, facts and
/// elapsed time.
pub open spec fn repeat_tick(
    s: SessionModel,
    input: Option<MoveIntent>,
    f: FactsModel,
    elapsed_ms: u64,
    n: nat,
) -> SessionModel
    decreases n,
{
    if n == 0 {
        s
    } else {
        tick_model(repeat_tick(s, input, f, elapsed_ms, (n - 1) as nat), input, f, elapsed_ms)
    }
}

/// An intent not present in the legal-move set never mutates the
/// position: ticking any number of times with it leaves the starting
/// record, the move history — and so the position they denote — and the
/// turn exactly where they began.
pub proof fn lemma_illegal_intent_never_mutates(
    s: SessionModel,
    input: Option<MoveIntent>,
    f: FactsModel,
    elapsed_ms: u64,
    n: nat,
)
    requires
        input is Some ==> !f.legal.contains(input->Some_0),
    ensures
        repeat_tick(s, input, f, elapsed_ms, n).start_fen == s.start_fen,
        repeat_tick(s, input, f, elapsed_ms, n).history == s.history,
        repeat_tick(s, input, f, elapsed_ms, n).turn == s.turn,
    decreases n,
{
    if n > 0 {
        lemma_illegal_intent_never_mutates(s, input, f, elapsed_ms, (n - 1) as nat);
    }
}

/// Time accounting across a move. Consider a tick that only lets time
/// pass (no move resolves, `e1` elapses) followed by the tick in which
/// the side to move plays `m`. Afterward the mover's clock reads what it
/// held before its last decrement, less that elapsed time (floored at
/// zero), plus the mover's own increment. The move leaves the opponent's
/// clock untouched: the opponent, now to move, loses only the regular
/// per-tick decrement `e2`, and nothing at all when no time has passed.
pub proof fn lemma_time_accounting(
    s: SessionModel,
    f1: FactsModel,
    f2: FactsModel,
    m: MoveIntent,
    e1: u64,
    e2: u64,
)
    requires
        s.outcome == Outcome::Ongoing,
        facts_outcome(s, f1) == Outcome::Ongoing,
        facts_outcome(tick_model(s, Option::<MoveIntent>::None, f1, e1), f2) == Outcome::Ongoing,
        f2.legal.contains(m),
        s.clock(s.turn).saturating_sub(e1) + s.slot(s.turn).increment_ms <= u64::MAX,
    ensures
        ({
            let s2 = tick_model(tick_model(s, Option::<MoveIntent>::None, f1, e1), Some(m), f2, e2);
            &&& s2.clock(s.turn) == s.clock(s.turn).saturating_sub(e1) + s.slot(
                s.turn,
            ).increment_ms
            &&& s2.clock(s.turn.flip()) == s.clock(s.turn.flip()).saturating_sub(e2)
            &&& e2 == 0 ==> s2.clock(s.turn.flip()) == s.clock(s.turn.flip())
        }),
{
}

} // verus!
