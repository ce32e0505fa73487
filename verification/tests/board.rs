use will_it_dissolve::Direction;
use will_it_dissolve::Effect;
use will_it_dissolve::GameState;
use will_it_dissolve::Level;
use will_it_dissolve::TileState;
use will_it_dissolve::Tilemanager;

fn level_of(values: [u8; 9], states: [bool; 9], flagged: [TileState; 9], moves: u8) -> Level {
    Level {
        name: String::from("test"),
        number: 1,
        values: values.to_vec(),
        states: states.to_vec(),
        flagged: flagged.to_vec(),
        moves,
        remaining_moves: 0,
    }
}

fn plain_level(values: [u8; 9], moves: u8) -> Level {
    level_of(values, [true; 9], [TileState::Normal; 9], moves)
}

fn board_from(values: [u8; 9], moves: u8) -> Tilemanager {
    let mut b = Tilemanager::new();
    b.reset(&plain_level(values, moves));
    b
}

fn values_of(b: &Tilemanager) -> [u8; 9] {
    let mut out = [0u8; 9];
    for i in 0..9 {
        out[i] = b.tiles[i].number;
    }
    out
}

fn marked_count(b: &Tilemanager) -> u32 {
    let mut n = 0;
    for i in 0..9 {
        if b.tiles[i].state != TileState::Normal {
            n += 1;
        }
    }
    n
}

#[test]
fn budget_conservation_over_request_sequence() {
    let mut b = board_from([1, 2, 3, 4, 1, 2, 3, 4, 1], 2);
    let total = b.budget.remaining + marked_count(&b);
    assert_eq!(total, 2);

    b.request_mark(0, TileState::Plus);
    assert_eq!(b.budget.remaining, 1);
    assert_eq!(b.budget.remaining + marked_count(&b), total);

    b.request_mark(1, TileState::Minus);
    assert_eq!(b.budget.remaining, 0);
    assert_eq!(b.budget.remaining + marked_count(&b), total);

    // No budget left: a third new mark is silently rejected.
    b.request_mark(2, TileState::Plus);
    assert_eq!(b.tiles[2].state, TileState::Normal);
    assert_eq!(b.budget.remaining + marked_count(&b), total);

    // Re-requesting the held mark takes it back and refunds the slot.
    b.request_mark(0, TileState::Plus);
    assert_eq!(b.tiles[0].state, TileState::Normal);
    assert_eq!(b.budget.remaining, 1);
    assert_eq!(b.budget.remaining + marked_count(&b), total);

    // Switching the mark kind costs nothing.
    b.request_mark(1, TileState::Plus);
    assert_eq!(b.tiles[1].state, TileState::Plus);
    assert_eq!(b.budget.remaining, 1);
    assert_eq!(b.budget.remaining + marked_count(&b), total);
}

#[test]
fn request_mark_ignores_inert_tiles() {
    let mut b = Tilemanager::new();
    b.reset(&level_of(
        [0, 2, 3, 4, 1, 2, 3, 4, 1],
        [true, false, true, true, true, true, true, true, true],
        [TileState::Normal; 9],
        3,
    ));
    // A cleared tile cannot be marked.
    b.request_mark(0, TileState::Plus);
    assert_eq!(b.tiles[0].state, TileState::Normal);
    // A disabled tile cannot be marked.
    b.request_mark(1, TileState::Plus);
    assert_eq!(b.tiles[1].state, TileState::Normal);
    // An out-of-range index is a no-op.
    b.request_mark(9, TileState::Plus);
    b.request_mark(100, TileState::Minus);
    assert_eq!(b.budget.remaining, 3);
    assert_eq!(marked_count(&b), 0);
}

#[test]
fn wrap_around_on_resolve() {
    let mut b = board_from([4, 1, 2, 3, 1, 1, 2, 3, 4], 2);
    b.request_mark(0, TileState::Plus);
    b.request_mark(1, TileState::Minus);
    let (_verdict, effects) = b.resolve();
    // Plus on 4 wraps to 1; Minus on 1 wraps to 4.
    assert_eq!(b.tiles[0].number, 1);
    assert_eq!(b.tiles[1].number, 4);
    // Mark effects go upward and carry the values before stepping.
    assert_eq!(effects[0], Effect { index: 0, direction: Direction::MinusY, value: 4 });
    assert_eq!(effects[1], Effect { index: 1, direction: Direction::MinusY, value: 1 });
    // Applying the marks refunded both budget slots.
    assert_eq!(b.budget.remaining, 2);
    // All marks are cleared by resolution.
    assert_eq!(marked_count(&b), 0);
}

#[test]
fn deterministic_cascade() {
    let values = [2, 2, 2, 1, 3, 1, 4, 0, 4];
    let mut a = board_from(values, 2);
    let mut b = board_from(values, 2);
    a.request_mark(3, TileState::Plus);
    b.request_mark(3, TileState::Plus);
    let (va, ea) = a.resolve();
    let (vb, eb) = b.resolve();
    assert_eq!(va, vb);
    assert_eq!(ea, eb);
    assert_eq!(values_of(&a), values_of(&b));
}

#[test]
fn diagonal_triple_is_never_eliminated() {
    // Indices 0, 4, 8 hold an equal nonzero triple; no row or column
    // matches, so nothing may be eliminated.
    let values = [2, 1, 1, 1, 2, 1, 1, 1, 2];
    let mut b = board_from(values, 0);
    let (verdict, effects) = b.resolve();
    assert_eq!(values_of(&b), values);
    assert_eq!(verdict, GameState::Lost);
    assert!(effects.is_empty());
}

#[test]
fn immediate_win_on_cleared_board() {
    // Resolution without any marked cell is allowed; an already cleared
    // board wins at once and emits no effects at all.
    let mut b = board_from([0; 9], 1);
    let (verdict, effects) = b.resolve();
    assert_eq!(verdict, GameState::Win);
    assert!(effects.is_empty());
    assert_eq!(b.budget.remaining, 1);
}

#[test]
fn matchless_rounds_still_yield_loss() {
    // Nonzero sum, no triple anywhere: the four rounds run as no-ops and
    // the verdict is a loss with the board untouched.
    let values = [1, 2, 3, 2, 3, 1, 3, 1, 2];
    let mut b = board_from(values, 0);
    let (verdict, effects) = b.resolve();
    assert_eq!(verdict, GameState::Lost);
    assert!(effects.is_empty());
    assert_eq!(values_of(&b), values);
}

#[test]
fn cascade_scenario_two_rounds_then_loss() {
    let mut b = board_from([2, 2, 2, 1, 3, 1, 4, 0, 4], 0);
    let (verdict, effects) = b.resolve();
    // Round 0 matches row {0,1,2} (all 2), round 1 matches it again
    // (all 1); rounds 2 and 3 find nothing.
    let expected = vec![
        Effect { index: 0, direction: Direction::PlusX, value: 2 },
        Effect { index: 1, direction: Direction::PlusX, value: 2 },
        Effect { index: 2, direction: Direction::PlusX, value: 2 },
        Effect { index: 0, direction: Direction::PlusY, value: 1 },
        Effect { index: 1, direction: Direction::PlusY, value: 1 },
        Effect { index: 2, direction: Direction::PlusY, value: 1 },
    ];
    assert_eq!(effects, expected);
    assert_eq!(values_of(&b), [0, 0, 0, 1, 3, 1, 4, 0, 4]);
    // Final sum 13 is nonzero.
    assert_eq!(verdict, GameState::Lost);
}

#[test]
fn cascade_scenario_all_ones_win() {
    let mut b = board_from([1; 9], 0);
    let (verdict, effects) = b.resolve();
    // Round 0 matches every row and every column: all nine cells clear at
    // once, in index order, in the round-0 direction.
    assert_eq!(effects.len(), 9);
    for i in 0..9 {
        assert_eq!(effects[i], Effect { index: i, direction: Direction::PlusX, value: 1 });
    }
    assert_eq!(values_of(&b), [0; 9]);
    assert_eq!(verdict, GameState::Win);
}

#[test]
fn matched_cells_are_reenabled() {
    let mut b = Tilemanager::new();
    b.reset(&level_of(
        [3, 3, 3, 1, 2, 1, 2, 1, 2],
        [false, false, false, true, true, true, true, true, true],
        [TileState::Normal; 9],
        0,
    ));
    assert!(b.tiles[0].disabled);
    let (_verdict, effects) = b.resolve();
    // Row {0,1,2} matches in rounds 0, 1 and 2 (3 -> 2 -> 1 -> 0): the
    // cells come back enabled and cascade all the way down to 0.
    assert!(!b.tiles[0].disabled && !b.tiles[1].disabled && !b.tiles[2].disabled);
    assert_eq!(values_of(&b)[0..3], [0, 0, 0]);
    assert_eq!(effects.len(), 9);
}

#[test]
fn reset_applies_initial_marks_and_forces_inert_slots_normal() {
    let mut b = Tilemanager::new();
    b.reset(&level_of(
        [2, 0, 2, 2, 2, 2, 2, 2, 2],
        [true, true, false, true, true, true, true, true, true],
        [
            TileState::Plus,
            TileState::Plus,
            TileState::Minus,
            TileState::Normal,
            TileState::Normal,
            TileState::Normal,
            TileState::Normal,
            TileState::Normal,
            TileState::Normal,
        ],
        4,
    ));
    assert_eq!(b.tiles[0].state, TileState::Plus);
    // A cleared slot cannot carry an initial mark.
    assert_eq!(b.tiles[1].state, TileState::Normal);
    // A disabled slot cannot carry an initial mark.
    assert_eq!(b.tiles[2].state, TileState::Normal);
    assert!(b.tiles[2].disabled);
    assert_eq!(b.budget.remaining, 4);
}

#[test]
fn reset_isolation() {
    let first = plain_level([4, 4, 4, 4, 4, 4, 4, 4, 4], 9);
    let second = level_of(
        [1, 0, 2, 3, 4, 0, 1, 2, 3],
        [true, true, true, false, true, true, true, true, false],
        [
            TileState::Minus,
            TileState::Normal,
            TileState::Normal,
            TileState::Normal,
            TileState::Plus,
            TileState::Normal,
            TileState::Normal,
            TileState::Normal,
            TileState::Normal,
        ],
        3,
    );

    // A board that went through the first level, some marks and a second
    // reset...
    let mut used = Tilemanager::new();
    used.reset(&first);
    used.request_mark(0, TileState::Plus);
    used.request_mark(5, TileState::Minus);
    used.reset(&second);

    // ...equals a board built fresh from the second level.
    let mut fresh = Tilemanager::new();
    fresh.reset(&second);

    assert_eq!(used.budget.remaining, fresh.budget.remaining);
    for i in 0..9 {
        assert_eq!(used.tiles[i].number, fresh.tiles[i].number);
        assert_eq!(used.tiles[i].state, fresh.tiles[i].state);
        assert_eq!(used.tiles[i].disabled, fresh.tiles[i].disabled);
    }
}

#[test]
fn new_board_is_empty() {
    let b = Tilemanager::new();
    assert_eq!(values_of(&b), [0; 9]);
    assert_eq!(b.budget.remaining, 0);
    assert_eq!(marked_count(&b), 0);
}

#[test]
fn compound_rounds_cascade_column() {
    // A column that keeps matching: column 0 holds 3,3,3; after round 0 it
    // holds 2,2,2; after round 1, 1,1,1; after round 2 it clears. Round 3
    // finds nothing.
    let mut b = board_from([3, 1, 2, 3, 2, 1, 3, 1, 2], 0);
    let (verdict, effects) = b.resolve();
    assert_eq!(values_of(&b), [0, 1, 2, 0, 2, 1, 0, 1, 2]);
    assert_eq!(verdict, GameState::Lost);
    let expected = vec![
        Effect { index: 0, direction: Direction::PlusX, value: 3 },
        Effect { index: 3, direction: Direction::PlusX, value: 3 },
        Effect { index: 6, direction: Direction::PlusX, value: 3 },
        Effect { index: 0, direction: Direction::PlusY, value: 2 },
        Effect { index: 3, direction: Direction::PlusY, value: 2 },
        Effect { index: 6, direction: Direction::PlusY, value: 2 },
        Effect { index: 0, direction: Direction::MinusX, value: 1 },
        Effect { index: 3, direction: Direction::MinusX, value: 1 },
        Effect { index: 6, direction: Direction::MinusX, value: 1 },
    ];
    assert_eq!(effects, expected);
}
