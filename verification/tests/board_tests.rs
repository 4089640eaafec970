use tictactoe::board::{Board, Field, GameError, Mark};

#[test]
fn test_next() {
    assert_eq!(Mark::X, Mark::O.next());
    assert_eq!(Mark::O, Mark::X.next());
}

#[test]
fn test_next_twice_is_identity() {
    assert_eq!(Mark::X, Mark::X.next().next());
    assert_eq!(Mark::O, Mark::O.next().next());
}

#[test]
fn test_play() {
    let b1 = Board::new();
    let b2 = b1.play(Mark::X, 1).unwrap();

    assert_eq!(Field::M(Mark::X), b2.fields[0]);
}

#[test]
fn test_play_leaves_receiver_unchanged() {
    let b1 = Board::new();
    let before = b1;
    let _b2 = b1.play(Mark::X, 5).unwrap();

    assert_eq!(before, b1);
    for i in 0..9 {
        assert_eq!(Field::Empty, b1.fields[i]);
    }
}

#[test]
fn test_play_cell_at_round_trip() {
    let b = Board::new();
    for p in 1..=9 {
        let played = b.play(Mark::O, p).unwrap();
        assert_eq!(Ok(Field::M(Mark::O)), played.cell_at(p));
    }
}

#[test]
fn test_play_overwrites_occupied_cell() {
    let b = Board::new().play(Mark::X, 4).unwrap().play(Mark::O, 4).unwrap();
    assert_eq!(Ok(Field::M(Mark::O)), b.cell_at(4));
}

#[test]
fn test_play_invalid_position() {
    let b = Board::new();
    assert_eq!(Err(GameError::InvalidPosition), b.play(Mark::X, 0));
    assert_eq!(Err(GameError::InvalidPosition), b.play(Mark::X, 10));
}

#[test]
fn test_cell_at_invalid_position() {
    let b = Board::new();
    assert_eq!(Err(GameError::InvalidPosition), b.cell_at(0));
    assert_eq!(Err(GameError::InvalidPosition), b.cell_at(10));
}
