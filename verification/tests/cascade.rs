use tictactoe::board::{Board, Cell};
use tictactoe::game::{ai_move, Game, GamePhase, Winner};

/// Build a board from a picture: 'P' for the player's mark, 'A' for the
/// AI's, anything else empty.
fn board_from(picture: [[char; 3]; 3]) -> Board {
    let mut b = Board::new();
    for row in 0..3 {
        for col in 0..3 {
            match picture[row][col] {
                'P' => b.set(row, col, Cell::PlayerMark),
                'A' => b.set(row, col, Cell::AiMark),
                _ => {}
            }
        }
    }
    b
}

fn count(b: &Board, cell: Cell) -> usize {
    let mut n = 0;
    for row in 0..3 {
        for col in 0..3 {
            if b.get(row, col) == cell {
                n += 1;
            }
        }
    }
    n
}

#[test]
fn a_fresh_game_loads_with_an_empty_board() {
    let g = Game::new();
    assert_eq!(g.phase, GamePhase::Loading);
    assert_eq!(count(&g.board, Cell::Empty), 9);
}

#[test]
fn begin_starts_play_and_keeps_the_board() {
    let mut g = Game::new();
    g.begin();
    assert_eq!(g.phase, GamePhase::Playing);
    assert_eq!(count(&g.board, Cell::Empty), 9);
}

#[test]
fn first_click_marks_the_cell_and_the_ai_answers_once() {
    // board empty, player clicks (1, 1): the clicked cell carries the
    // player's mark and the AI marks exactly one of the remaining cells
    let mut g = Game::new();
    g.begin();
    g.process_click(1, 1);
    assert_eq!(g.board.get(1, 1), Cell::PlayerMark);
    assert_eq!(count(&g.board, Cell::PlayerMark), 1);
    assert_eq!(count(&g.board, Cell::AiMark), 1);
    assert_eq!(count(&g.board, Cell::Empty), 7);
    assert_eq!(g.phase, GamePhase::Playing);
}

#[test]
fn clicking_a_marked_cell_changes_nothing() {
    let before = [['P', 'A', ' '], [' ', 'P', ' '], [' ', ' ', ' ']];
    let mut g = Game { board: board_from(before), phase: GamePhase::Playing };
    g.process_click(1, 1);
    g.process_click(0, 1);
    assert_eq!(g.phase, GamePhase::Playing);
    for row in 0..3 {
        for col in 0..3 {
            assert_eq!(g.board.get(row, col), board_from(before).get(row, col));
        }
    }
}

#[test]
fn clicks_while_loading_are_dropped() {
    let mut g = Game::new();
    g.process_click(0, 0);
    assert_eq!(g.phase, GamePhase::Loading);
    assert_eq!(count(&g.board, Cell::Empty), 9);
}

#[test]
fn a_winning_click_ends_the_game_without_an_ai_move() {
    // the player holds (0, 0) and (0, 1) and completes the top row
    let b = board_from([['P', 'P', ' '], ['A', 'A', ' '], [' ', ' ', ' ']]);
    let mut g = Game { board: b, phase: GamePhase::Playing };
    g.process_click(0, 2);
    assert_eq!(g.board.get(0, 2), Cell::PlayerMark);
    assert_eq!(g.phase, GamePhase::Ended(Winner::Player));
    // no AI move was recorded: the AI's count is what it was before
    assert_eq!(count(&g.board, Cell::AiMark), 2);
    assert_eq!(count(&g.board, Cell::Empty), 4);
}

#[test]
fn clicks_after_the_end_are_dropped() {
    let b = board_from([['P', 'P', ' '], ['A', 'A', ' '], [' ', ' ', ' ']]);
    let mut g = Game { board: b, phase: GamePhase::Playing };
    g.process_click(0, 2);
    assert_eq!(g.phase, GamePhase::Ended(Winner::Player));
    g.process_click(2, 2);
    assert_eq!(g.board.get(2, 2), Cell::Empty);
    assert_eq!(g.phase, GamePhase::Ended(Winner::Player));
}

#[test]
fn an_ai_win_ends_the_game() {
    // after the player's click on (1, 1) the one empty cell left is
    // (2, 2), which completes the AI's bottom row
    let b = board_from([['P', 'A', 'P'], ['A', ' ', 'P'], ['A', 'A', ' ']]);
    let mut g = Game { board: b, phase: GamePhase::Playing };
    g.process_click(1, 1);
    assert_eq!(g.board.get(1, 1), Cell::PlayerMark);
    assert_eq!(g.board.get(2, 2), Cell::AiMark);
    assert_eq!(g.phase, GamePhase::Ended(Winner::Ai));
}

#[test]
fn click_wins_for_player_answers_without_touching_the_board() {
    let b = board_from([['P', 'P', ' '], ['A', 'A', ' '], [' ', ' ', ' ']]);
    let mut g = Game { board: b, phase: GamePhase::Playing };
    assert!(g.click_wins_for_player(0, 2));
    assert!(!g.click_wins_for_player(2, 2));
    assert_eq!(g.phase, GamePhase::Playing);
    assert_eq!(g.board.get(0, 2), Cell::Empty);
    assert_eq!(count(&g.board, Cell::PlayerMark), 2);
    assert_eq!(count(&g.board, Cell::AiMark), 2);
}

#[test]
fn ai_move_takes_the_last_empty_cell() {
    let mut b = board_from([['P', 'A', 'P'], ['A', 'P', 'P'], ['A', 'P', ' ']]);
    let (row, col) = ai_move(&mut b);
    assert_eq!((row, col), (2, 2));
    assert_eq!(b.get(2, 2), Cell::AiMark);
}

#[test]
fn ai_move_never_takes_an_occupied_cell() {
    for _ in 0..50 {
        let mut b = board_from([['P', ' ', ' '], [' ', 'A', ' '], [' ', ' ', 'P']]);
        let (row, col) = ai_move(&mut b);
        assert!((row, col) != (0, 0));
        assert!((row, col) != (1, 1));
        assert!((row, col) != (2, 2));
        assert_eq!(b.get(row, col), Cell::AiMark);
        assert_eq!(count(&b, Cell::AiMark), 2);
        assert_eq!(count(&b, Cell::Empty), 5);
    }
}
