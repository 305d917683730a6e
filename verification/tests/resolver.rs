use solrps::identity::Identity;
use solrps::instructions::reveal_moves::calculate_game_result;
use solrps::resolver::resolve_round;
use solrps::state::{Game, GameStatus, RoundResult, RoundWinner, PAPER, ROCK, SCISSORS};

fn party(n: u8) -> Identity {
    Identity::new([n; 32])
}

fn revealed_game(creator_moves: Vec<u8>, challenger_moves: Vec<u8>) -> Game {
    let rounds = creator_moves.len() as u8;
    Game {
        game_id: [0; 8],
        creator: party(1),
        challenger: Some(party(2)),
        rounds,
        stake_per_round: 10,
        total_pot: 20 * rounds as u64,
        creator_commitment: [0; 32],
        challenger_commitment: Some([0; 32]),
        creator_moves: Some(creator_moves),
        challenger_moves: Some(challenger_moves),
        status: GameStatus::Complete,
        created_at: 0,
        joined_at: Some(0),
        reveal_deadline: Some(600),
        winner: None,
        round_results: Vec::new(),
        fees_collected: 0,
    }
}

fn winners(game: &Game) -> Vec<RoundWinner> {
    game.round_results.iter().map(|r| r.winner).collect()
}

#[test]
fn round_goes_to_the_move_that_follows_in_the_cycle() {
    assert_eq!(resolve_round(1, 3), RoundWinner::Creator);
    assert_eq!(resolve_round(2, 1), RoundWinner::Creator);
    assert_eq!(resolve_round(3, 2), RoundWinner::Creator);
    assert_eq!(resolve_round(3, 1), RoundWinner::Challenger);
    assert_eq!(resolve_round(1, 2), RoundWinner::Challenger);
    assert_eq!(resolve_round(2, 3), RoundWinner::Challenger);
}

#[test]
fn round_between_equal_moves_is_drawn() {
    assert_eq!(resolve_round(1, 1), RoundWinner::Draw);
    assert_eq!(resolve_round(2, 2), RoundWinner::Draw);
    assert_eq!(resolve_round(3, 3), RoundWinner::Draw);
}

#[test]
fn round_with_named_moves() {
    assert_eq!(resolve_round(ROCK, SCISSORS), RoundWinner::Creator);
    assert_eq!(resolve_round(PAPER, ROCK), RoundWinner::Creator);
    assert_eq!(resolve_round(SCISSORS, PAPER), RoundWinner::Creator);
    assert_eq!(resolve_round(SCISSORS, ROCK), RoundWinner::Challenger);
}

#[test]
fn round_with_anything_else_is_drawn() {
    assert_eq!(resolve_round(0, 1), RoundWinner::Draw);
    assert_eq!(resolve_round(1, 0), RoundWinner::Draw);
    assert_eq!(resolve_round(4, 3), RoundWinner::Draw);
    assert_eq!(resolve_round(1, 4), RoundWinner::Draw);
    assert_eq!(resolve_round(255, 255), RoundWinner::Draw);
    assert_eq!(resolve_round(0, 3), RoundWinner::Draw);
}

#[test]
fn round_is_won_by_one_side_at_most() {
    for a in 0u8..=5 {
        for b in 0u8..=5 {
            let forth = resolve_round(a, b);
            let back = resolve_round(b, a);
            match forth {
                RoundWinner::Creator => assert_eq!(back, RoundWinner::Challenger),
                RoundWinner::Challenger => assert_eq!(back, RoundWinner::Creator),
                RoundWinner::Draw => assert_eq!(back, RoundWinner::Draw),
            }
        }
    }
}

#[test]
fn creator_wins_all_three_rounds() {
    let mut game = revealed_game(vec![1, 2, 3], vec![3, 1, 2]);
    assert_eq!(calculate_game_result(&mut game), Ok(()));
    assert_eq!(
        game.round_results,
        vec![
            RoundResult { creator_move: 1, challenger_move: 3, winner: RoundWinner::Creator },
            RoundResult { creator_move: 2, challenger_move: 1, winner: RoundWinner::Creator },
            RoundResult { creator_move: 3, challenger_move: 2, winner: RoundWinner::Creator },
        ]
    );
    assert_eq!(game.winner, Some(party(1)));
}

#[test]
fn three_draws_have_no_winner() {
    let mut game = revealed_game(vec![1, 1, 1], vec![1, 1, 1]);
    assert_eq!(calculate_game_result(&mut game), Ok(()));
    assert_eq!(game.round_results.len(), 3);
    assert_eq!(winners(&game), vec![RoundWinner::Draw, RoundWinner::Draw, RoundWinner::Draw]);
    for result in &game.round_results {
        assert_eq!(result.creator_move, 1);
        assert_eq!(result.challenger_move, 1);
    }
    assert_eq!(game.winner, None);
}

#[test]
fn challenger_wins_with_more_rounds() {
    let mut game = revealed_game(vec![1, 2, 3], vec![2, 3, 2]);
    assert_eq!(calculate_game_result(&mut game), Ok(()));
    assert_eq!(
        winners(&game),
        vec![RoundWinner::Challenger, RoundWinner::Challenger, RoundWinner::Creator]
    );
    assert_eq!(game.winner, Some(party(2)));
}

#[test]
fn equal_round_wins_have_no_winner() {
    let mut game = revealed_game(vec![1, 2, 1], vec![3, 3, 1]);
    assert_eq!(calculate_game_result(&mut game), Ok(()));
    assert_eq!(
        winners(&game),
        vec![RoundWinner::Creator, RoundWinner::Challenger, RoundWinner::Draw]
    );
    assert_eq!(game.winner, None);
}

#[test]
fn one_round_win_beats_draws() {
    let mut game = revealed_game(vec![2, 2, 2, 2, 1], vec![2, 2, 2, 2, 3]);
    assert_eq!(calculate_game_result(&mut game), Ok(()));
    assert_eq!(game.round_results.len(), 5);
    assert_eq!(game.round_results[4].winner, RoundWinner::Creator);
    assert_eq!(game.winner, Some(party(1)));
}

#[test]
fn single_round_game() {
    let mut game = revealed_game(vec![3], vec![1]);
    assert_eq!(calculate_game_result(&mut game), Ok(()));
    assert_eq!(
        game.round_results,
        vec![RoundResult { creator_move: 3, challenger_move: 1, winner: RoundWinner::Challenger }]
    );
    assert_eq!(game.winner, Some(party(2)));
}

#[test]
fn result_touches_nothing_but_results_and_winner() {
    let mut game = revealed_game(vec![1, 2, 3], vec![3, 1, 2]);
    let before = game.clone();
    assert_eq!(calculate_game_result(&mut game), Ok(()));
    let mut expected = before;
    expected.round_results = game.round_results.clone();
    expected.winner = game.winner;
    assert_eq!(game, expected);
}

#[test]
fn rounds_are_played_as_far_as_both_sides_have_moves() {
    let mut game = revealed_game(vec![1, 2, 3], vec![3]);
    assert_eq!(calculate_game_result(&mut game), Ok(()));
    assert_eq!(winners(&game), vec![RoundWinner::Creator]);
    assert_eq!(game.winner, Some(party(1)));
}
