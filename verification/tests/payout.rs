use solrps::errors::GameError;
use solrps::identity::Identity;
use solrps::payout::{compute_payout, split_fee, FeeSplit, Payout, FEE_PERCENT};

fn player(n: u8) -> Identity {
    Identity::new([n; 32])
}

#[test]
fn payout_winner_creator_pot_1000() {
    let creator = player(1);
    let payout = compute_payout(1000, &Some(creator), &creator).unwrap();
    assert_eq!(payout, Payout { creator_payout: 900, challenger_payout: 0, fee: 100 });
    assert_eq!(payout.fee, 100);
    assert_eq!(payout.creator_payout, 900);
    assert_eq!(payout.challenger_payout, 0);
    let split = split_fee(payout.fee);
    assert_eq!(split.treasury_share, 50);
    assert_eq!(split.burn_share, 50);
}

#[test]
fn payout_winner_creator_odd_pot_999() {
    let creator = player(1);
    let payout = compute_payout(999, &Some(creator), &creator).unwrap();
    assert_eq!(payout.fee, 99);
    assert_eq!(payout.creator_payout, 900);
    assert_eq!(payout.challenger_payout, 0);
    let split = split_fee(payout.fee);
    assert_eq!(split.treasury_share, 49);
    assert_eq!(split.burn_share, 50);
}

#[test]
fn payout_draw_odd_pot_999() {
    let creator = player(1);
    let payout = compute_payout(999, &None, &creator).unwrap();
    assert_eq!(payout.creator_payout, 499);
    assert_eq!(payout.challenger_payout, 499);
    assert_eq!(payout.fee, 0);
    assert_eq!(payout.creator_payout + payout.challenger_payout, 998);
}

#[test]
fn payout_winner_challenger_gets_the_rest() {
    let creator = player(1);
    let challenger = player(2);
    let payout = compute_payout(1000, &Some(challenger), &creator).unwrap();
    assert_eq!(payout, Payout { creator_payout: 0, challenger_payout: 900, fee: 100 });
}

#[test]
fn payout_draw_even_pot() {
    let payout = compute_payout(1000, &None, &player(1)).unwrap();
    assert_eq!(payout, Payout { creator_payout: 500, challenger_payout: 500, fee: 0 });
}

#[test]
fn payout_small_pot_pays_no_fee() {
    let creator = player(1);
    let payout = compute_payout(9, &Some(creator), &creator).unwrap();
    assert_eq!(payout, Payout { creator_payout: 9, challenger_payout: 0, fee: 0 });
    let payout = compute_payout(10, &Some(creator), &creator).unwrap();
    assert_eq!(payout, Payout { creator_payout: 9, challenger_payout: 0, fee: 1 });
    let payout = compute_payout(0, &Some(creator), &creator).unwrap();
    assert_eq!(payout, Payout { creator_payout: 0, challenger_payout: 0, fee: 0 });
}

#[test]
fn payout_fee_rounds_down() {
    let creator = player(1);
    let payout = compute_payout(1009, &Some(creator), &creator).unwrap();
    assert_eq!(payout.fee, 100);
    assert_eq!(payout.creator_payout, 909);
    let payout = compute_payout(19, &Some(creator), &creator).unwrap();
    assert_eq!(payout.fee, 1);
    assert_eq!(payout.creator_payout, 18);
}

#[test]
fn payout_of_won_pot_that_cannot_be_scaled_overflows() {
    let creator = player(1);
    let limit = u64::MAX / FEE_PERCENT;
    let payout = compute_payout(limit, &Some(creator), &creator).unwrap();
    assert_eq!(payout.fee, limit * 10 / 100);
    assert_eq!(payout.creator_payout, limit - limit * 10 / 100);
    assert_eq!(
        compute_payout(limit + 1, &Some(creator), &creator),
        Err(GameError::ArithmeticOverflow)
    );
    assert_eq!(
        compute_payout(u64::MAX, &Some(player(2)), &creator),
        Err(GameError::ArithmeticOverflow)
    );
}

#[test]
fn payout_of_drawn_pot_never_overflows() {
    let payout = compute_payout(u64::MAX, &None, &player(1)).unwrap();
    assert_eq!(payout.creator_payout, u64::MAX / 2);
    assert_eq!(payout.challenger_payout, u64::MAX / 2);
    assert_eq!(payout.fee, 0);
}

#[test]
fn payout_with_winner_uses_the_whole_pot() {
    let creator = player(1);
    for pot in [0u64, 1, 9, 10, 11, 99, 100, 101, 999, 1000, 123_456_789] {
        let payout = compute_payout(pot, &Some(creator), &creator).unwrap();
        assert_eq!(payout.creator_payout + payout.challenger_payout + payout.fee, pot);
        let payout = compute_payout(pot, &None, &creator).unwrap();
        assert!(payout.creator_payout + payout.challenger_payout <= pot);
        assert!(pot - (payout.creator_payout + payout.challenger_payout) <= 1);
    }
}

#[test]
fn split_fee_examples() {
    assert_eq!(split_fee(100), FeeSplit { treasury_share: 50, burn_share: 50 });
    assert_eq!(split_fee(99), FeeSplit { treasury_share: 49, burn_share: 50 });
    assert_eq!(split_fee(1), FeeSplit { treasury_share: 0, burn_share: 1 });
    assert_eq!(split_fee(0), FeeSplit { treasury_share: 0, burn_share: 0 });
    assert_eq!(
        split_fee(u64::MAX),
        FeeSplit { treasury_share: u64::MAX / 2, burn_share: u64::MAX / 2 + 1 }
    );
}

#[test]
fn split_fee_parts_add_up() {
    for fee in [0u64, 1, 2, 3, 49, 50, 99, 100, 12_345] {
        let split = split_fee(fee);
        assert_eq!(split.treasury_share + split.burn_share, fee);
        assert!(split.burn_share - split.treasury_share <= 1);
    }
}
