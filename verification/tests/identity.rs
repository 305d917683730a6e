use solrps::bytes::bytes32_eq;
use solrps::identity::Identity;
use solrps::state::{Game, GameStatus};

fn record(status: GameStatus, creator_moves: Option<Vec<u8>>, challenger_moves: Option<Vec<u8>>) -> Game {
    Game {
        game_id: [1, 2, 3, 4, 5, 6, 7, 8],
        creator: Identity::new([1; 32]),
        challenger: Some(Identity::new([2; 32])),
        rounds: 3,
        stake_per_round: 10,
        total_pot: 60,
        creator_commitment: [3; 32],
        challenger_commitment: Some([4; 32]),
        creator_moves,
        challenger_moves,
        status,
        created_at: 5,
        joined_at: Some(6),
        reveal_deadline: Some(606),
        winner: None,
        round_results: Vec::new(),
        fees_collected: 0,
    }
}

#[test]
fn bytes32_eq_compares_every_byte() {
    let a = [7u8; 32];
    assert!(bytes32_eq(&a, &a));
    assert!(bytes32_eq(&a, &[7u8; 32]));
    for i in 0..32 {
        let mut b = a;
        b[i] = 8;
        assert!(!bytes32_eq(&a, &b));
        assert!(!bytes32_eq(&b, &a));
    }
}

#[test]
fn identities_are_equal_when_their_bytes_are() {
    let a = Identity::new([1; 32]);
    let b = Identity::new([1; 32]);
    assert_eq!(a, b);
    assert_eq!(a.bytes, [1; 32]);
    let mut bytes = [1u8; 32];
    bytes[31] = 2;
    assert_ne!(a, Identity::new(bytes));
    bytes = [1u8; 32];
    bytes[0] = 0;
    assert_ne!(a, Identity::new(bytes));
}

#[test]
fn identity_is_held_by_itself_only() {
    let a = Identity::new([1; 32]);
    let b = Identity::new([2; 32]);
    assert!(a.is_held_by(&Some(a)));
    assert!(!a.is_held_by(&Some(b)));
    assert!(!a.is_held_by(&None));
}

#[test]
fn clone_of_a_game_is_the_same_game() {
    let mut game = record(GameStatus::CreatorRevealed, Some(vec![1, 2, 3]), None);
    game.winner = Some(Identity::new([1; 32]));
    let copy = game.clone();
    assert_eq!(copy, game);
    assert_eq!(copy.creator_moves, Some(vec![1, 2, 3]));
    assert_eq!(copy.challenger_moves, None);
    assert_eq!(copy.game_id, [1, 2, 3, 4, 5, 6, 7, 8]);
    assert_eq!(copy.reveal_deadline, Some(606));
}

#[test]
fn reveal_is_on_record_where_the_status_says_so() {
    assert!(record(GameStatus::CreatorRevealed, Some(vec![1, 2, 3]), None).reveal_is_on_record());
    assert!(!record(GameStatus::CreatorRevealed, None, None).reveal_is_on_record());
    assert!(!record(GameStatus::CreatorRevealed, None, Some(vec![1, 2, 3])).reveal_is_on_record());
    assert!(record(GameStatus::ChallengerRevealed, None, Some(vec![1, 2, 3])).reveal_is_on_record());
    assert!(!record(GameStatus::ChallengerRevealed, Some(vec![1, 2, 3]), None).reveal_is_on_record());
    assert!(record(GameStatus::WaitingForReveals, None, None).reveal_is_on_record());
    assert!(record(GameStatus::WaitingForChallenger, None, None).reveal_is_on_record());
    assert!(record(GameStatus::Complete, None, None).reveal_is_on_record());
    assert!(record(GameStatus::Forfeited, None, None).reveal_is_on_record());
}
