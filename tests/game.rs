use connect_four::game::{Game, Indicator, Phase};

fn started(id: u8) -> Game {
    let mut g = Game::new();
    g.apply([id, id, id]);
    g
}

#[test]
fn new_game_waits() {
    let g = Game::new();
    assert_eq!(g.phase(), Phase::AwaitingIdentity);
    assert_eq!(g.indicator(), Indicator::Waiting);
    assert_eq!(g.indicator().text(), "Waiting to start...");
    assert_eq!(g.player(), 0);
    assert_eq!(g.winner(), None);
    for row in 0..6 {
        for column in 0..7 {
            assert_eq!(g.cell(row, column), 0);
        }
    }
}

#[test]
fn identity_one_is_your_turn() {
    let g = started(1);
    assert_eq!(g.indicator().text(), "Your turn");
    assert_eq!(g.phase(), Phase::InProgress);
    assert_eq!(g.player(), 1);
}

#[test]
fn identity_two_is_opponents_turn() {
    let g = started(2);
    assert_eq!(g.indicator().text(), "Opponent's turn");
    assert_eq!(g.phase(), Phase::InProgress);
}

#[test]
fn other_identity_is_ignored() {
    let g = started(0);
    assert_eq!(g.phase(), Phase::AwaitingIdentity);
    let g = started(3);
    assert_eq!(g.phase(), Phase::AwaitingIdentity);
    assert_eq!(g.indicator(), Indicator::Waiting);
}

#[test]
fn click_on_empty_column_is_forwarded() {
    let g = started(1);
    assert_eq!(g.handle_click(30, 30), Some(0));
}

#[test]
fn click_on_full_column_is_dropped() {
    let mut g = started(1);
    g.apply([0, 0, 2]);
    assert_eq!(g.handle_click(30, 30), None);
    assert_eq!(g.handle_click(85, 30), Some(1));
}

#[test]
fn click_before_identity_is_dropped() {
    let g = Game::new();
    assert_eq!(g.handle_click(30, 30), None);
}

#[test]
fn click_on_border_is_dropped() {
    let g = started(1);
    assert_eq!(g.handle_click(57, 30), None);
}

#[test]
fn placement_sets_cell_and_toggles_turn() {
    let mut g = started(1);
    g.apply([0, 0, 1]);
    assert_eq!(g.cell(0, 0), 1);
    assert_eq!(g.indicator().text(), "Opponent's turn");
    g.apply([5, 6, 2]);
    assert_eq!(g.cell(5, 6), 2);
    assert_eq!(g.indicator().text(), "Your turn");
    assert_eq!(g.phase(), Phase::InProgress);
}

#[test]
fn placement_with_outcome_zero_clears_cell() {
    let mut g = started(2);
    g.apply([1, 1, 1]);
    g.apply([1, 1, 0]);
    assert_eq!(g.cell(1, 1), 0);
}

#[test]
fn winning_placement_ends_match() {
    let mut g = started(1);
    g.apply([2, 3, 5]);
    assert_eq!(g.cell(2, 3), 2);
    assert_eq!(g.winner(), Some(2));
    assert_eq!(g.phase(), Phase::Over);
    assert_eq!(g.indicator().text(), "You lost!");
}

#[test]
fn own_win_reads_you_won() {
    let mut g = started(1);
    g.apply([4, 0, 4]);
    assert_eq!(g.cell(4, 0), 1);
    assert_eq!(g.winner(), Some(1));
    assert_eq!(g.indicator(), Indicator::YouWon);
}

#[test]
fn click_after_match_is_over_is_not_forwarded() {
    let mut g = started(1);
    g.apply([5, 3, 4]);
    assert_eq!(g.phase(), Phase::Over);
    assert_eq!(g.handle_click(30, 30), None);
}

#[test]
fn frames_after_match_are_ignored() {
    let mut g = started(2);
    g.apply([5, 3, 5]);
    g.apply([0, 0, 1]);
    assert_eq!(g.cell(0, 0), 0);
    assert_eq!(g.indicator().text(), "You won!");
    assert_eq!(g.winner(), Some(2));
}

#[test]
fn off_board_placement_is_ignored() {
    let mut g = started(1);
    g.apply([6, 0, 1]);
    g.apply([0, 7, 1]);
    assert_eq!(g.indicator(), Indicator::YourTurn);
    assert_eq!(g.phase(), Phase::InProgress);
}
