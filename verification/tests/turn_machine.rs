use turncore::controller::{Command, Controller, Event, PlayerKind, TurnState};
use turncore::highlight::{TAG_LAST_MOVE, TAG_NONE, TAG_SELECTED, TAG_TARGET};

const MARKER: i64 = 7;
const MAX_SCORE: i64 = 40000;

fn fresh() -> Controller {
    Controller::new(MARKER, MAX_SCORE)
}

fn all_tags(c: &Controller) -> Vec<i8> {
    (0..64usize).map(|i| c.tags.get(i)).collect()
}

#[test]
fn decide_turn_human_first() {
    // Side-to-move counter 0 with [Human, Engine] resolves to AwaitSource.
    let mut c = fresh();
    assert_eq!(c.state, TurnState::DecideTurn);
    let cmd = c.step(Event::Decide { move_counter: 0 });
    assert_eq!(cmd, Command::Idle);
    assert_eq!(c.state, TurnState::AwaitSource);
    assert!(!c.has_receiver);
}

#[test]
fn decide_turn_engine_dispatches_once() {
    let mut c = fresh();
    let cmd = c.step(Event::Decide { move_counter: 1 });
    assert_eq!(cmd, Command::Dispatch { generation: 0 });
    assert_eq!(c.state, TurnState::EngineThinking);
    assert!(c.has_receiver);
    // While the receive handle is held, no further decision and hence no
    // second dispatch can happen.
    let cmd = c.step(Event::Decide { move_counter: 1 });
    assert_eq!(cmd, Command::Idle);
    assert_eq!(c.state, TurnState::EngineThinking);
    assert!(c.has_receiver);
}

#[test]
fn source_click_without_targets_marks_only_selection() {
    // A clicked origin with no legal destinations leaves only that square
    // marked as selected.
    let mut c = fresh();
    c.step(Event::Decide { move_counter: 0 });
    let cmd = c.step(Event::SourceClick { square: 12, targets: vec![] });
    assert_eq!(cmd, Command::Idle);
    assert_eq!(c.state, TurnState::AwaitDestination);
    // The display starts rotated, so square 12 shows at position 63 - 12.
    for i in 0..64usize {
        if i == 63 - 12 {
            assert_eq!(c.tags.get(i), TAG_SELECTED);
        } else {
            assert_eq!(c.tags.get(i), TAG_NONE);
        }
    }
    // Any destination click is then rejected: status message and all-clear map.
    let cmd = c.step(Event::DestClick { square: 30, collab_valid: false });
    assert_eq!(cmd, Command::Idle);
    assert_eq!(c.state, TurnState::DecideTurn);
    assert_eq!(c.title, "invalid move, ignored.");
    assert!(all_tags(&c).iter().all(|&t| t == TAG_NONE));
}

#[test]
fn source_click_marks_targets() {
    let mut c = fresh();
    c.step(Event::ToggleRotation); // un-rotated display for plain indices
    c.step(Event::Decide { move_counter: 0 });
    c.step(Event::SourceClick { square: 8, targets: vec![16, 24] });
    assert_eq!(c.tags.get(8), TAG_SELECTED);
    assert_eq!(c.tags.get(16), TAG_TARGET);
    assert_eq!(c.tags.get(24), TAG_TARGET);
    let marked: usize = all_tags(&c).iter().filter(|&&t| t != TAG_NONE).count();
    assert_eq!(marked, 3);
}

#[test]
fn accepted_move_tags_exactly_two_squares() {
    let mut c = fresh();
    c.step(Event::Decide { move_counter: 0 });
    c.step(Event::SourceClick { square: 8, targets: vec![16, 24] });
    let cmd = c.step(Event::DestClick { square: 16, collab_valid: true });
    assert_eq!(cmd, Command::ApplyMove { from: 8, to: 16 });
    assert_eq!(c.state, TurnState::DecideTurn);
    // Rotated display: endpoints show mirrored.
    for i in 0..64usize {
        if i == 63 - 8 || i == 63 - 16 {
            assert_eq!(c.tags.get(i), TAG_LAST_MOVE);
        } else {
            assert_eq!(c.tags.get(i), TAG_NONE);
        }
    }
    // The commanded application reports back the move description.
    c.step(Event::MoveApplied { desc: "e2e3".to_string() });
    assert_eq!(c.title, "e2e3");
}

#[test]
fn destination_equal_to_origin_is_rejected() {
    // Even a collaborator-approved move is invalid when the destination
    // equals the origin.
    let mut c = fresh();
    c.step(Event::Decide { move_counter: 0 });
    c.step(Event::SourceClick { square: 9, targets: vec![17] });
    let cmd = c.step(Event::DestClick { square: 9, collab_valid: true });
    assert_eq!(cmd, Command::Idle);
    assert_eq!(c.state, TurnState::DecideTurn);
    assert_eq!(c.title, "invalid move, ignored.");
    assert!(all_tags(&c).iter().all(|&t| t == TAG_NONE));
}

#[test]
fn rotation_toggle_twice_restores_highlights() {
    let mut c = fresh();
    c.step(Event::Decide { move_counter: 0 });
    c.step(Event::SourceClick { square: 12, targets: vec![20, 28] });
    let before = all_tags(&c);
    let rotated_before = c.rotated;
    c.step(Event::ToggleRotation);
    // One toggle mirrors the map in place.
    let mirrored = all_tags(&c);
    for i in 0..64usize {
        assert_eq!(mirrored[i], before[63 - i]);
    }
    c.step(Event::ToggleRotation);
    assert_eq!(all_tags(&c), before);
    assert_eq!(c.rotated, rotated_before);
}

#[test]
fn checkmate_flag_reaches_terminal_state() {
    // A result carrying the terminal marker fixes the status line, enters
    // GameOver, and nothing is ever dispatched again.
    let mut c = fresh();
    let cmd = c.step(Event::Decide { move_counter: 1 });
    assert_eq!(cmd, Command::Dispatch { generation: 0 });
    let cmd = c.step(Event::WorkerResult {
        generation: 0,
        src: 0,
        dst: 1,
        score: 0,
        flag: MARKER,
        ply_distance: 0,
    });
    assert_eq!(cmd, Command::Idle);
    assert_eq!(c.state, TurnState::GameOver);
    assert_eq!(c.title, " Checkmate, game terminated!");
    assert!(!c.has_receiver);
    for counter in 0..4u64 {
        let cmd = c.step(Event::Decide { move_counter: counter });
        assert_eq!(cmd, Command::Idle);
        assert_eq!(c.state, TurnState::GameOver);
    }
    // Reconfiguring a player does not resurrect a finished game.
    c.step(Event::SetPlayer { side: 0, kind: PlayerKind::Engine });
    assert_eq!(c.state, TurnState::GameOver);
}

#[test]
fn immediate_mate_overrides_generic_report() {
    // Maximal score at ply distance 2 ends the game instead of formatting
    // the generic forced-end note.
    let mut c = fresh();
    c.step(Event::Decide { move_counter: 1 });
    let cmd = c.step(Event::WorkerResult {
        generation: 0,
        src: 10,
        dst: 18,
        score: MAX_SCORE,
        flag: 0,
        ply_distance: 2,
    });
    assert_eq!(cmd, Command::ApplyMove { from: 10, to: 18 });
    assert_eq!(c.state, TurnState::GameOver);
    assert_eq!(c.title, " Checkmate, game terminated!");
    // The description of the applied move does not overwrite the verdict.
    c.step(Event::MoveApplied { desc: "Qh7".to_string() });
    assert_eq!(c.title, " Checkmate, game terminated!");
}

#[test]
fn engine_move_composes_status_line() {
    let mut c = fresh();
    c.step(Event::Decide { move_counter: 1 });
    let cmd = c.step(Event::WorkerResult {
        generation: 0,
        src: 57,
        dst: 42,
        score: 150,
        flag: 0,
        ply_distance: 0,
    });
    assert_eq!(cmd, Command::ApplyMove { from: 57, to: 42 });
    assert_eq!(c.state, TurnState::DecideTurn);
    // Rotated display: endpoints mirrored.
    assert_eq!(c.tags.get(63 - 57), TAG_LAST_MOVE);
    assert_eq!(c.tags.get(63 - 42), TAG_LAST_MOVE);
    c.step(Event::MoveApplied { desc: "Nb8c6".to_string() });
    assert_eq!(c.title, "Nb8c6 (scr: 150)");
}

#[test]
fn forced_end_annotation_positive_and_negative() {
    // |score| above half the canonical maximum adds the forced-end note:
    // distance/2 - 1 moves when the score is positive, distance/2 + 1 when
    // negative.
    let mut c = fresh();
    c.step(Event::Decide { move_counter: 1 });
    c.step(Event::WorkerResult {
        generation: 0,
        src: 1,
        dst: 2,
        score: 25000,
        flag: 0,
        ply_distance: 6,
    });
    c.step(Event::MoveApplied { desc: "Rd1".to_string() });
    assert_eq!(c.title, "Rd1 (scr: 25000) Checkmate in 2");

    let mut c = fresh();
    c.step(Event::Decide { move_counter: 1 });
    c.step(Event::WorkerResult {
        generation: 0,
        src: 1,
        dst: 2,
        score: -25000,
        flag: 0,
        ply_distance: 6,
    });
    c.step(Event::MoveApplied { desc: "Kg8".to_string() });
    assert_eq!(c.title, "Kg8 (scr: -25000) Checkmate in 4");
}

#[test]
fn reset_discards_stale_result() {
    // A reset while a computation is in flight bumps the generation; the
    // stale result is dropped instead of touching the fresh game state.
    let mut c = fresh();
    c.step(Event::Decide { move_counter: 1 });
    assert!(c.has_receiver);
    let cmd = c.step(Event::Reset);
    assert_eq!(cmd, Command::Idle);
    assert_eq!(c.generation, 1);
    // Still draining the in-flight computation.
    assert_eq!(c.state, TurnState::EngineThinking);
    assert!(c.has_receiver);
    let cmd = c.step(Event::WorkerResult {
        generation: 0,
        src: 3,
        dst: 4,
        score: 999,
        flag: 0,
        ply_distance: 0,
    });
    // No move application is commanded and nothing was painted.
    assert_eq!(cmd, Command::Idle);
    assert_eq!(c.state, TurnState::DecideTurn);
    assert!(!c.has_receiver);
    assert!(all_tags(&c).iter().all(|&t| t == TAG_NONE));
    // The next dispatch runs under the new generation.
    let cmd = c.step(Event::Decide { move_counter: 1 });
    assert_eq!(cmd, Command::Dispatch { generation: 1 });
}

#[test]
fn reset_without_receiver_returns_to_deciding() {
    let mut c = fresh();
    c.step(Event::Decide { move_counter: 0 });
    c.step(Event::SourceClick { square: 12, targets: vec![20] });
    let cmd = c.step(Event::Reset);
    assert_eq!(cmd, Command::Idle);
    assert_eq!(c.state, TurnState::DecideTurn);
    assert!(all_tags(&c).iter().all(|&t| t == TAG_NONE));
}

#[test]
fn set_player_reevaluates_turn() {
    let mut c = fresh();
    c.step(Event::Decide { move_counter: 0 });
    assert_eq!(c.state, TurnState::AwaitSource);
    c.step(Event::SetPlayer { side: 0, kind: PlayerKind::Engine });
    assert_eq!(c.state, TurnState::DecideTurn);
    let cmd = c.step(Event::Decide { move_counter: 0 });
    assert_eq!(cmd, Command::Dispatch { generation: 0 });
    assert_eq!(c.state, TurnState::EngineThinking);
}

#[test]
fn missing_receiver_recovers_to_deciding() {
    // The should-be-unreachable anomaly degrades to a safe re-evaluation.
    let mut c = fresh();
    c.state = TurnState::EngineThinking;
    c.has_receiver = false;
    let cmd = c.step(Event::ReceiverMissing);
    assert_eq!(cmd, Command::Idle);
    assert_eq!(c.state, TurnState::DecideTurn);
}
