use poker_agent::wire::Action;
use poker_agent::wire::ActionType;
use poker_agent::wire::Card;
use poker_agent::wire::RoundInfo;
use poker_agent::wire::RoundOverInfo;

fn round_info_with(
    street: i32,
    my_cards: [[char; 2]; 2],
    board_cards: [[char; 2]; 20],
    kinds: &[ActionType],
    raise_bounds: [i32; 2],
) -> RoundInfo {
    let mut legal_actions = [Action { action_type: ActionType::Fold, amount: 0 }; 4];
    let mut i = 0;
    while i < kinds.len() {
        legal_actions[i].action_type = kinds[i];
        i += 1;
    }
    RoundInfo {
        street,
        my_cards,
        board_cards,
        my_pip: 0,
        opp_pip: 0,
        my_stack: 200,
        opp_stack: 200,
        num_legal_actions: kinds.len() as i32,
        legal_actions,
        raise_bounds,
    }
}

fn empty_board() -> [[char; 2]; 20] {
    [['X', 'X']; 20]
}

#[test]
fn community_cards_reads_exactly_street_entries() {
    let mut board = empty_board();
    board[0] = ['A', 's'];
    board[1] = ['7', 'd'];
    board[2] = ['2', 'c'];
    let info = round_info_with(3, [['K', 'h'], ['Q', 'c']], board, &[ActionType::Fold], [0, 0]);
    let cards = info.community_cards();
    assert_eq!(cards.len(), 3);
    assert_eq!(cards[0], Card('A', 's'));
    assert_eq!(cards[1], Card('7', 'd'));
    assert_eq!(cards[2], Card('2', 'c'));
    let again = info.community_cards();
    assert_eq!(cards, again);
}

#[test]
fn community_cards_empty_at_street_zero() {
    let info = round_info_with(
        0,
        [['A', 's'], ['A', 'd']],
        empty_board(),
        &[ActionType::Fold],
        [0, 0],
    );
    assert_eq!(info.community_cards().len(), 0);
}

#[test]
fn community_cards_full_board_at_max_street() {
    let mut board = empty_board();
    let ranks = ['2', '3', '4', '5', '6', '7', '8', '9', 'T', 'J'];
    let mut i = 0;
    while i < 20 {
        board[i] = [ranks[i % 10], if i < 10 { 'c' } else { 'd' }];
        i += 1;
    }
    let info = round_info_with(20, [['K', 'h'], ['Q', 'c']], board, &[ActionType::Fold], [0, 0]);
    let cards = info.community_cards();
    assert_eq!(cards.len(), 20);
    assert_eq!(cards[0], Card('2', 'c'));
    assert_eq!(cards[19], Card('J', 'd'));
}

#[test]
fn legal_actions_returns_each_valid_entry_once() {
    let kinds = [ActionType::Fold, ActionType::Call, ActionType::Raise];
    let info = round_info_with(0, [['A', 's'], ['A', 'd']], empty_board(), &kinds, [2, 200]);
    let legal = info.legal_actions();
    assert_eq!(legal.len(), 3);
    assert!(legal.contains(&ActionType::Fold));
    assert!(legal.contains(&ActionType::Call));
    assert!(legal.contains(&ActionType::Raise));
    assert!(!legal.contains(&ActionType::Check));
}

#[test]
fn legal_actions_deduplicates_defensively() {
    let kinds = [ActionType::Call, ActionType::Call, ActionType::Fold];
    let info = round_info_with(0, [['A', 's'], ['A', 'd']], empty_board(), &kinds, [0, 0]);
    let legal = info.legal_actions();
    assert_eq!(legal.len(), 2);
    assert!(legal.contains(&ActionType::Call));
    assert!(legal.contains(&ActionType::Fold));
}

#[test]
fn player_cards_round_trip() {
    let info = round_info_with(
        0,
        [['A', 's'], ['K', 'h']],
        empty_board(),
        &[ActionType::Fold],
        [0, 0],
    );
    let cards = info.player_cards();
    assert_eq!(cards[0], Card('A', 's'));
    assert_eq!(cards[1], Card('K', 'h'));
    assert_eq!(cards[0].rank(), 'A');
    assert_eq!(cards[0].suit(), 's');
    assert_eq!(cards[1].rank(), 'K');
    assert_eq!(cards[1].suit(), 'h');
}

#[test]
fn opponent_cards_absent_on_sentinel() {
    let over = RoundOverInfo {
        delta: 10,
        street: 0,
        my_cards: [['A', 's'], ['K', 'h']],
        opponent_cards: [['X', 'X'], ['X', 'X']],
    };
    assert!(over.opponent_cards().is_none());
}

#[test]
fn opponent_cards_decoded_when_revealed() {
    let over = RoundOverInfo {
        delta: -20,
        street: 5,
        my_cards: [['A', 's'], ['K', 'h']],
        opponent_cards: [['Q', 'd'], ['J', 'c']],
    };
    let revealed = over.opponent_cards().expect("revealed hand");
    assert_eq!(revealed[0], Card('Q', 'd'));
    assert_eq!(revealed[1], Card('J', 'c'));
}

#[test]
fn round_over_player_cards_decoded() {
    let over = RoundOverInfo {
        delta: 0,
        street: 3,
        my_cards: [['T', 'c'], ['9', 'd']],
        opponent_cards: [['X', 'X'], ['X', 'X']],
    };
    let cards = over.player_cards();
    assert_eq!(cards[0], Card('T', 'c'));
    assert_eq!(cards[1], Card('9', 'd'));
}
