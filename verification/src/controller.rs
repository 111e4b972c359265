//! The turn controller.
//!
//! An explicit state machine coordinates an interactive player and a
//! background computation over one shared game state. Every transition
//! is a pure function of the previous state and one event; collaborator
//! answers (legal destinations, move legality, the computed reply, the
//! move description) enter as event payloads, and outside work the
//! machine cannot do itself (spawning the worker, applying a move and
//! fetching its description) leaves as a command for the caller.
//!
//! A reset that arrives while a computation is in flight bumps a
//! generation counter; the stale result, once delivered, is discarded
//! instead of being applied to the freshly reset game state.

use crate::highlight::{
    spec_blank_map, spec_last_move_map, spec_mirrored, spec_source_map, HighlightMap,
};
use crate::status::{compose_engine_title, spec_engine_title};
use vstd::prelude::*;

verus! {

/// Who acts for one side: the interactive player or the background
/// computation.
#[derive(Copy, Clone, Debug, PartialEq, Eq, Structural)]
pub enum PlayerKind {
    Human,
    Engine,
}

impl PlayerKind {
    /// Numeric code of the actor kind.
    pub fn as_u8(self) -> (r: u8)
        ensures
            r == (if self is Human {
                0u8
            } else {
                1u8
            }),
    {
        match self {
            PlayerKind::Human => 0,
            PlayerKind::Engine => 1,
        }
    }
}

/// The phase of the turn state machine; exactly one is active per
/// control-loop iteration.
#[derive(Copy, Clone, Debug, PartialEq, Eq, Structural)]
pub enum TurnState {
    /// A computation reported a forced end: absorbing.
    GameOver,
    /// Decide whose turn it is from the move counter and the player
    /// assignment.
    DecideTurn,
    /// The interactive player is expected to pick an origin square.
    AwaitSource,
    /// The interactive player is expected to pick a destination square.
    AwaitDestination,
    /// A background computation is in flight.
    EngineThinking,
}

/// A move application the caller was commanded to perform and whose
/// description has not come back yet.
#[derive(Copy, Clone, Debug, PartialEq, Eq, Structural)]
pub enum Pending {
    /// No move application is outstanding.
    Nothing,
    /// The interactive player's move: its description becomes the status
    /// line as it is.
    HumanMove,
    /// A computed move: the status line is composed from the description,
    /// the score and the forced-end distance.
    EngineMove { score: i64, ply_distance: i64 },
    /// A computed move that already ended the game: the status line is
    /// already set and the description is discarded.
    EngineTerminal,
}

/// One input to the state machine.
pub enum Event {
    /// A deferred "new game" was applied to the shared game state.
    Reset,
    /// The display rotation was toggled.
    ToggleRotation,
    /// One side's actor kind was reconfigured (side 0 moves first).
    SetPlayer { side: u8, kind: PlayerKind },
    /// A DecideTurn iteration, carrying the shared state's move counter.
    Decide { move_counter: u64 },
    /// A click while awaiting an origin, with the collaborator's legal
    /// destinations from that square.
    SourceClick { square: u8, targets: Vec<u8> },
    /// A click while awaiting a destination, with the collaborator's
    /// legality verdict for the selected origin and this square.
    DestClick { square: u8, collab_valid: bool },
    /// The background computation's result, tagged with the generation
    /// it was dispatched under.
    WorkerResult {
        generation: u64,
        src: u8,
        dst: u8,
        score: i64,
        flag: i64,
        ply_distance: i64,
    },
    /// A commanded move application completed; carries the collaborator's
    /// move description.
    MoveApplied { desc: String },
    /// The receive handle was found missing while a computation was
    /// supposedly in flight: recover to DecideTurn.
    ReceiverMissing,
}

/// What the caller must do after a step.
#[derive(Copy, Clone, Debug, PartialEq, Eq, Structural)]
pub enum Command {
    /// Nothing.
    Idle,
    /// Spawn exactly one background computation under this generation.
    Dispatch { generation: u64 },
    /// Apply the move on the shared game state and hand back its
    /// description as a MoveApplied event.
    ApplyMove { from: u8, to: u8 },
}

/// Mathematical model of the controller.
#[verifier::ext_equal]
pub ghost struct Model {
    pub phase: TurnState,
    pub rotated: bool,
    pub white: PlayerKind,
    pub black: PlayerKind,
    pub selected: Option<u8>,
    pub tags: Seq<i8>,
    pub title: Seq<char>,
    pub has_receiver: bool,
    pub generation: u64,
    pub dispatch_generation: u64,
    pub pending: Pending,
    pub terminal_marker: i64,
    pub max_score: i64,
}

/// Mathematical model of one event.
pub ghost enum EventModel {
    Reset,
    ToggleRotation,
    SetPlayer { side: u8, kind: PlayerKind },
    Decide { move_counter: u64 },
    SourceClick { square: u8, targets: Seq<u8> },
    DestClick { square: u8, collab_valid: bool },
    WorkerResult {
        generation: u64,
        src: u8,
        dst: u8,
        score: i64,
        flag: i64,
        ply_distance: i64,
    },
    MoveApplied { desc: Seq<char> },
    ReceiverMissing,
}

impl View for Event {
    type V = EventModel;

    open spec fn view(&self) -> EventModel {
        match self {
            Event::Reset => EventModel::Reset,
            Event::ToggleRotation => EventModel::ToggleRotation,
            Event::SetPlayer { side, kind } => EventModel::SetPlayer { side: *side, kind: *kind },
            Event::Decide { move_counter } => EventModel::Decide { move_counter: *move_counter },
            Event::SourceClick { square, targets } => EventModel::SourceClick {
                square: *square,
                targets: targets@,
            },
            Event::DestClick { square, collab_valid } => EventModel::DestClick {
                square: *square,
                collab_valid: *collab_valid,
            },
            Event::WorkerResult { generation, src, dst, score, flag, ply_distance } => EventModel::WorkerResult {
                generation: *generation,
                src: *src,
                dst: *dst,
                score: *score,
                flag: *flag,
                ply_distance: *ply_distance,
            },
            Event::MoveApplied { desc } => EventModel::MoveApplied { desc: desc@ },
            Event::ReceiverMissing => EventModel::ReceiverMissing,
        }
    }
}

impl EventModel {
    /// Bounds the collaborator owes on event payloads: squares are board
    /// squares and the forced-end distance is a ply count.
    pub open spec fn wf(self) -> bool {
        match self {
            EventModel::SetPlayer { side, .. } => side < 2,
            EventModel::SourceClick { square, targets } => square < 64 && (forall|k: int|
                0 <= k < targets.len() ==> targets[k] < 64),
            EventModel::DestClick { square, .. } => square < 64,
            EventModel::WorkerResult { src, dst, ply_distance, .. } => src < 64 && dst < 64 && 0
                <= ply_distance,
            _ => true,
        }
    }
}

impl Model {
    /// The controller's invariant: the highlight map covers the board, a
    /// selection is a board square and is present whenever a destination
    /// is awaited, the receive handle exists only while a computation is
    /// in flight, the dispatched generation never runs ahead, the
    /// canonical maximal score is non-negative, and a pending computed
    /// move carries a ply count.
    pub open spec fn wf(self) -> bool {
        &&& self.tags.len() == 64
        &&& (self.selected matches Some(s) ==> s < 64)
        &&& (self.phase is AwaitDestination ==> self.selected is Some)
        &&& (self.has_receiver ==> self.phase is EngineThinking)
        &&& self.dispatch_generation <= self.generation
        &&& 0 <= self.max_score
        &&& (self.pending matches Pending::EngineMove { ply_distance, .. } ==> 0 <= ply_distance)
    }
}

/// The transition function: the model after consuming one event.
pub open spec fn spec_step(pre: Model, ev: EventModel) -> Model {
    match ev {
        EventModel::Reset => Model {
            generation: (pre.generation + 1) as u64,
            tags: spec_blank_map(),
            selected: None,
            pending: Pending::Nothing,
            phase: if pre.has_receiver {
                TurnState::EngineThinking
            } else {
                TurnState::DecideTurn
            },
            ..pre
        },
        EventModel::ToggleRotation => Model {
            rotated: !pre.rotated,
            tags: spec_mirrored(pre.tags),
            ..pre
        },
        EventModel::SetPlayer { side, kind } => Model {
            white: if side == 0 {
                kind
            } else {
                pre.white
            },
            black: if side == 1 {
                kind
            } else {
                pre.black
            },
            phase: if pre.phase is GameOver {
                TurnState::GameOver
            } else if pre.has_receiver {
                pre.phase
            } else {
                TurnState::DecideTurn
            },
            ..pre
        },
        EventModel::Decide { move_counter } => if pre.phase is DecideTurn {
            if (if move_counter % 2 == 0 {
                pre.white
            } else {
                pre.black
            }) is Human {
                Model { phase: TurnState::AwaitSource, ..pre }
            } else {
                Model {
                    phase: TurnState::EngineThinking,
                    has_receiver: true,
                    dispatch_generation: pre.generation,
                    ..pre
                }
            }
        } else {
            pre
        },
        EventModel::SourceClick { square, targets } => if pre.phase is AwaitSource {
            Model {
                tags: spec_source_map(pre.rotated, square as int, targets),
                selected: Some(square),
                phase: TurnState::AwaitDestination,
                ..pre
            }
        } else {
            pre
        },
        EventModel::DestClick { square, collab_valid } => if pre.phase is AwaitDestination
            && pre.selected is Some {
            let from = pre.selected->0;
            if square != from && collab_valid {
                Model {
                    tags: spec_last_move_map(pre.rotated, from as int, square as int),
                    selected: None,
                    phase: TurnState::DecideTurn,
                    pending: Pending::HumanMove,
                    ..pre
                }
            } else {
                Model {
                    title: "invalid move, ignored."@,
                    tags: spec_blank_map(),
                    selected: None,
                    phase: TurnState::DecideTurn,
                    ..pre
                }
            }
        } else {
            pre
        },
        EventModel::WorkerResult { generation, src, dst, score, flag, ply_distance } => if pre.phase
            is EngineThinking && pre.has_receiver {
            if generation != pre.generation {
                Model { has_receiver: false, phase: TurnState::DecideTurn, ..pre }
            } else if flag == pre.terminal_marker {
                Model {
                    has_receiver: false,
                    phase: TurnState::GameOver,
                    title: " Checkmate, game terminated!"@,
                    ..pre
                }
            } else if ply_distance == 2 && score == pre.max_score {
                Model {
                    has_receiver: false,
                    phase: TurnState::GameOver,
                    title: " Checkmate, game terminated!"@,
                    tags: spec_last_move_map(pre.rotated, src as int, dst as int),
                    pending: Pending::EngineTerminal,
                    ..pre
                }
            } else {
                Model {
                    has_receiver: false,
                    phase: TurnState::DecideTurn,
                    tags: spec_last_move_map(pre.rotated, src as int, dst as int),
                    pending: Pending::EngineMove { score, ply_distance },
                    ..pre
                }
            }
        } else {
            pre
        },
        EventModel::MoveApplied { desc } => match pre.pending {
            Pending::Nothing => pre,
            Pending::HumanMove => Model { title: desc, pending: Pending::Nothing, ..pre },
            Pending::EngineMove { score, ply_distance } => Model {
                title: spec_engine_title(
                    desc,
                    score as int,
                    ply_distance as int,
                    pre.max_score as int / 2,
                ),
                pending: Pending::Nothing,
                ..pre
            },
            Pending::EngineTerminal => Model { pending: Pending::Nothing, ..pre },
        },
        EventModel::ReceiverMissing => if pre.phase is EngineThinking && !pre.has_receiver {
            Model { phase: TurnState::DecideTurn, ..pre }
        } else {
            pre
        },
    }
}

/// The command issued while consuming one event.
pub open spec fn spec_step_command(pre: Model, ev: EventModel) -> Command {
    match ev {
        EventModel::Decide { move_counter } => if pre.phase is DecideTurn && (if move_counter % 2
            == 0 {
            pre.white
        } else {
            pre.black
        }) is Engine {
            Command::Dispatch { generation: pre.generation }
        } else {
            Command::Idle
        },
        EventModel::DestClick { square, collab_valid } => if pre.phase is AwaitDestination
            && pre.selected is Some && square != pre.selected->0 && collab_valid {
            Command::ApplyMove { from: pre.selected->0, to: square }
        } else {
            Command::Idle
        },
        EventModel::WorkerResult { generation, src, dst, score, flag, ply_distance } => if pre.phase
            is EngineThinking && pre.has_receiver && generation == pre.generation && flag
            != pre.terminal_marker {
            Command::ApplyMove { from: src, to: dst }
        } else {
            Command::Idle
        },
        _ => Command::Idle,
    }
}

/// The controller's initial model: white is interactive, black is the
/// computation, the display starts rotated, and the first turn is to be
/// decided.
pub open spec fn spec_initial(terminal_marker: i64, max_score: i64) -> Model {
    Model {
        phase: TurnState::DecideTurn,
        rotated: true,
        white: PlayerKind::Human,
        black: PlayerKind::Engine,
        selected: None,
        tags: spec_blank_map(),
        title: "Tiny chess"@,
        has_receiver: false,
        generation: 0,
        dispatch_generation: 0,
        pending: Pending::Nothing,
        terminal_marker,
        max_score,
    }
}

/// The turn controller: the state machine plus the highlight projection
/// and status line it maintains.
pub struct Controller {
    pub state: TurnState,
    pub rotated: bool,
    pub white: PlayerKind,
    pub black: PlayerKind,
    pub selected: Option<u8>,
    pub tags: HighlightMap,
    pub title: String,
    pub has_receiver: bool,
    pub generation: u64,
    pub dispatch_generation: u64,
    pub pending: Pending,
    pub terminal_marker: i64,
    pub max_score: i64,
}

impl Controller {
    /// The controller's mathematical model.
    pub open spec fn model(self) -> Model {
        Model {
            phase: self.state,
            rotated: self.rotated,
            white: self.white,
            black: self.black,
            selected: self.selected,
            tags: self.tags@,
            title: self.title@,
            has_receiver: self.has_receiver,
            generation: self.generation,
            dispatch_generation: self.dispatch_generation,
            pending: self.pending,
            terminal_marker: self.terminal_marker,
            max_score: self.max_score,
        }
    }

    /// The controller's invariant.
    pub open spec fn inv(self) -> bool {
        self.model().wf()
    }

    /// A fresh controller, bound to the collaborator's terminal-state
    /// marker and canonical maximal score.
    pub fn new(terminal_marker: i64, max_score: i64) -> (c: Controller)
        requires
            0 <= max_score,
        ensures
            c.inv(),
            c.model() == spec_initial(terminal_marker, max_score),
    {
        let c = Controller {
            state: TurnState::DecideTurn,
            rotated: true,
            white: PlayerKind::Human,
            black: PlayerKind::Engine,
            selected: None,
            tags: HighlightMap::new(),
            title: "Tiny chess".to_owned(),
            has_receiver: false,
            generation: 0,
            dispatch_generation: 0,
            pending: Pending::Nothing,
            terminal_marker,
            max_score,
        };
        proof {
            assert(c.model() =~= spec_initial(terminal_marker, max_score));
        }
        c
    }

    /// Consume one event: mutate the controller as the transition
    /// function says and return the command the caller must perform.
    pub fn step(&mut self, ev: Event) -> (cmd: Command)
        requires
            old(self).inv(),
            ev@.wf(),
            ev@ is Reset ==> old(self).generation < u64::MAX,
        ensures
            final(self).inv(),
            final(self).model() == spec_step(old(self).model(), ev@),
            cmd == spec_step_command(old(self).model(), ev@),
    {
        let ghost pre = self.model();
        match ev {
            Event::Reset => {
                self.generation = self.generation + 1;
                self.tags.clear();
                self.selected = None;
                self.pending = Pending::Nothing;
                if !self.has_receiver {
                    self.state = TurnState::DecideTurn;
                }
                proof {
                    assert(self.model() =~= spec_step(pre, EventModel::Reset));
                }
                Command::Idle
            },
            Event::ToggleRotation => {
                self.rotated = !self.rotated;
                self.tags.mirror();
                proof {
                    assert(self.model() =~= spec_step(pre, EventModel::ToggleRotation));
                }
                Command::Idle
            },
            Event::SetPlayer { side, kind } => {
                if side == 0 {
                    self.white = kind;
                } else {
                    self.black = kind;
                }
                if !(self.state == TurnState::GameOver) && !self.has_receiver {
                    self.state = TurnState::DecideTurn;
                }
                proof {
                    assert(self.model() =~= spec_step(pre, ev@));
                }
                Command::Idle
            },
            Event::Decide { move_counter } => {
                if self.state == TurnState::DecideTurn {
                    let kind = if move_counter % 2 == 0 {
                        self.white
                    } else {
                        self.black
                    };
                    match kind {
                        PlayerKind::Human => {
                            self.state = TurnState::AwaitSource;
                            proof {
                                assert(self.model() =~= spec_step(pre, ev@));
                            }
                            Command::Idle
                        },
                        PlayerKind::Engine => {
                            self.state = TurnState::EngineThinking;
                            self.has_receiver = true;
                            self.dispatch_generation = self.generation;
                            proof {
                                assert(self.model() =~= spec_step(pre, ev@));
                            }
                            Command::Dispatch { generation: self.generation }
                        },
                    }
                } else {
                    Command::Idle
                }
            },
            Event::SourceClick { square, targets } => {
                if self.state == TurnState::AwaitSource {
                    self.tags.mark_source(self.rotated, square, &targets);
                    self.selected = Some(square);
                    self.state = TurnState::AwaitDestination;
                    proof {
                        assert(self.model() =~= spec_step(pre, ev@));
                    }
                }
                Command::Idle
            },
            Event::DestClick { square, collab_valid } => {
                if self.state == TurnState::AwaitDestination {
                    let from = self.selected.unwrap();
                    if square != from && collab_valid {
                        self.tags.mark_last_move(self.rotated, from, square);
                        self.selected = None;
                        self.state = TurnState::DecideTurn;
                        self.pending = Pending::HumanMove;
                        proof {
                            assert(self.model() =~= spec_step(pre, ev@));
                        }
                        Command::ApplyMove { from, to: square }
                    } else {
                        self.title = "invalid move, ignored.".to_owned();
                        self.tags.clear();
                        self.selected = None;
                        self.state = TurnState::DecideTurn;
                        proof {
                            assert(self.model() =~= spec_step(pre, ev@));
                        }
                        Command::Idle
                    }
                } else {
                    Command::Idle
                }
            },
            Event::WorkerResult { generation, src, dst, score, flag, ply_distance } => {
                if self.state == TurnState::EngineThinking && self.has_receiver {
                    self.has_receiver = false;
                    if generation != self.generation {
                        self.state = TurnState::DecideTurn;
                        proof {
                            assert(self.model() =~= spec_step(pre, ev@));
                        }
                        Command::Idle
                    } else if flag == self.terminal_marker {
                        self.title = " Checkmate, game terminated!".to_owned();
                        self.state = TurnState::GameOver;
                        proof {
                            assert(self.model() =~= spec_step(pre, ev@));
                        }
                        Command::Idle
                    } else if ply_distance == 2 && score == self.max_score {
                        self.tags.mark_last_move(self.rotated, src, dst);
                        self.title = " Checkmate, game terminated!".to_owned();
                        self.state = TurnState::GameOver;
                        self.pending = Pending::EngineTerminal;
                        proof {
                            assert(self.model() =~= spec_step(pre, ev@));
                        }
                        Command::ApplyMove { from: src, to: dst }
                    } else {
                        self.tags.mark_last_move(self.rotated, src, dst);
                        self.state = TurnState::DecideTurn;
                        self.pending = Pending::EngineMove { score, ply_distance };
                        proof {
                            assert(self.model() =~= spec_step(pre, ev@));
                        }
                        Command::ApplyMove { from: src, to: dst }
                    }
                } else {
                    Command::Idle
                }
            },
            Event::MoveApplied { desc } => {
                match self.pending {
                    Pending::Nothing => {},
                    Pending::HumanMove => {
                        self.title = desc;
                        self.pending = Pending::Nothing;
                    },
                    Pending::EngineMove { score, ply_distance } => {
                        let half = (self.max_score as u64 / 2) as i64;
                        assert(half == self.max_score as int / 2);
                        self.title = compose_engine_title(desc, score, ply_distance, half);
                        self.pending = Pending::Nothing;
                    },
                    Pending::EngineTerminal => {
                        self.pending = Pending::Nothing;
                    },
                }
                proof {
                    assert(self.model() =~= spec_step(pre, ev@));
                }
                Command::Idle
            },
            Event::ReceiverMissing => {
                if self.state == TurnState::EngineThinking && !self.has_receiver {
                    self.state = TurnState::DecideTurn;
                }
                Command::Idle
            },
        }
    }
}

/// At most one computation is ever in flight: a step commands a dispatch
/// only when no receive handle is held, and every step keeps the
/// invariant that a receive handle exists only in the WorkerInFlight
/// phase.
pub proof fn lemma_at_most_one_dispatch(pre: Model, ev: EventModel)
    requires
        pre.wf(),
        ev.wf(),
        ev is Reset ==> pre.generation < u64::MAX,
    ensures
        spec_step_command(pre, ev) is Dispatch ==> !pre.has_receiver,
        spec_step(pre, ev).wf(),
{
}

/// The turn phase after a step depends on the previous model and the
/// event alone: the transition function consumes no clock and no redraw
/// count, so equal inputs give equal phases.
pub proof fn lemma_phase_deterministic(pre1: Model, pre2: Model, ev1: EventModel, ev2: EventModel)
    requires
        pre1 == pre2,
        ev1 == ev2,
    ensures
        spec_step(pre1, ev1).phase == spec_step(pre2, ev2).phase,
        spec_step_command(pre1, ev1) == spec_step_command(pre2, ev2),
{
}

/// Toggling the display rotation twice in succession restores the whole
/// controller, the highlight map included, to its pre-toggle value.
pub proof fn lemma_toggle_rotation_involutive(m: Model)
    requires
        m.wf(),
    ensures
        spec_step(spec_step(m, EventModel::ToggleRotation), EventModel::ToggleRotation) == m,
{
    crate::highlight::lemma_mirror_involutive(m.tags);
    assert(spec_step(spec_step(m, EventModel::ToggleRotation), EventModel::ToggleRotation) =~= m);
}

/// An accepted half-turn — an origin click followed by a destination
/// click the collaborator approves — leaves exactly the two move
/// endpoints tagged as last-move and every other square clear, whatever
/// the highlight map held before. Every sequence of accepted pairs ends
/// each half-turn back in this shape, since the law holds of any
/// well-formed starting state.
pub proof fn lemma_accepted_move_highlights(m: Model, from: u8, targets: Seq<u8>, to: u8)
    requires
        m.wf(),
        m.phase is AwaitSource,
        from < 64,
        to < 64,
        to != from,
        forall|k: int| 0 <= k < targets.len() ==> targets[k] < 64,
    ensures
        spec_step(
            spec_step(m, EventModel::SourceClick { square: from, targets }),
            EventModel::DestClick { square: to, collab_valid: true },
        ).tags == spec_last_move_map(m.rotated, from as int, to as int),
        spec_last_move_map(m.rotated, from as int, to as int)[crate::board::spec_square_pos(
            m.rotated,
            from as int,
        )] == crate::highlight::TAG_LAST_MOVE,
        spec_last_move_map(m.rotated, from as int, to as int)[crate::board::spec_square_pos(
            m.rotated,
            to as int,
        )] == crate::highlight::TAG_LAST_MOVE,
        crate::board::spec_square_pos(m.rotated, from as int) != crate::board::spec_square_pos(
            m.rotated,
            to as int,
        ),
        forall|i: int|
            0 <= i < 64 && i != crate::board::spec_square_pos(m.rotated, from as int) && i
                != crate::board::spec_square_pos(m.rotated, to as int) ==> spec_last_move_map(
                m.rotated,
                from as int,
                to as int,
            )[i] == crate::highlight::TAG_NONE,
{
    crate::highlight::lemma_last_move_exactly_two(m.rotated, from as int, to as int);
}

/// A result from a computation dispatched before the last reset is
/// discarded: the controller returns to DecideTurn with the receive
/// handle cleared, commands no move application, and leaves the
/// highlight map, the status line and everything else untouched.
pub proof fn lemma_stale_result_discarded(m: Model, ev: EventModel)
    requires
        m.wf(),
        m.phase is EngineThinking,
        m.has_receiver,
        (ev matches EventModel::WorkerResult { generation, .. } && generation != m.generation),
    ensures
        spec_step(m, ev) == (Model { has_receiver: false, phase: TurnState::DecideTurn, ..m }),
        spec_step_command(m, ev) == Command::Idle,
{
    assert(spec_step(m, ev) =~= Model { has_receiver: false, phase: TurnState::DecideTurn, ..m });
}

} // verus!
