use turncore::board::{idx, rotated_coords, square_pos};
use turncore::controller::PlayerKind;
use turncore::status::compose_engine_title;

#[test]
fn square_indexing() {
    assert_eq!(idx(0, 0), 0);
    assert_eq!(idx(1, 2), 10);
    assert_eq!(idx(7, 7), 63);
}

#[test]
fn coordinate_rotation() {
    assert_eq!(rotated_coords(false, 3, 4), (3, 4));
    assert_eq!(rotated_coords(true, 0, 0), (7, 7));
    assert_eq!(rotated_coords(true, 3, 4), (4, 3));
    assert_eq!(square_pos(false, 12), 12);
    assert_eq!(square_pos(true, 12), 51);
}

#[test]
fn player_kind_codes() {
    assert_eq!(PlayerKind::Human.as_u8(), 0);
    assert_eq!(PlayerKind::Engine.as_u8(), 1);
}

#[test]
fn status_line_plain_score() {
    // Below the forced-end threshold only the score is appended; a
    // negative value keeps its sign.
    let t = compose_engine_title("Qxf7".to_string(), -42, 0, 20000);
    assert_eq!(t, "Qxf7 (scr: -42)");
    let t = compose_engine_title("a2a4".to_string(), 0, 0, 20000);
    assert_eq!(t, "a2a4 (scr: 0)");
}

#[test]
fn status_line_forced_end() {
    let t = compose_engine_title("Rd8".to_string(), 20001, 8, 20000);
    assert_eq!(t, "Rd8 (scr: 20001) Checkmate in 3");
    let t = compose_engine_title("Kf1".to_string(), -20001, 8, 20000);
    assert_eq!(t, "Kf1 (scr: -20001) Checkmate in 5");
}
