use arnis_battle::{
    aggregate, card_battle, draw_rolls, get_cards, player_turn, simulate_match, total_damage,
    BattleError, Block, Card, PlayerTurn, Strike, UserStatus, Verdict, NUMBER_OF_CARDS,
    ROLL_RANGE,
};
use rand::rngs::StdRng;
use rand::{Rng, SeedableRng};

fn strike(name: &str) -> Option<Card> {
    Some(Card::Strike(Strike::new(name)))
}

fn block(name: &str) -> Option<Card> {
    Some(Card::Block(Block::new(name)))
}

fn subs(cards: &[(&str, &str)]) -> Vec<(String, String)> {
    cards.iter().map(|(n, k)| (n.to_string(), k.to_string())).collect()
}

fn id(n: u128) -> uuid::Uuid {
    uuid::Uuid::from_u128(n)
}

fn damages(turns: &[PlayerTurn]) -> Vec<i64> {
    turns.iter().map(|t| t.damage).collect()
}

fn is_default(t: &PlayerTurn) -> bool {
    t.card_name.is_none() && t.card_effect.is_none() && t.damage == 0 && !t.is_cancelled
}

#[test]
fn leg_strikes_against_no_cards() {
    let user1 = subs(&[("leg_strike", "strike"); 6]);
    let user2 = subs(&[]);
    let r = simulate_match(id(1), &user1, id(2), &user2, &[0; 6], &[0; 6]).unwrap();
    assert_eq!(damages(&r.user1.1), vec![50000; 6]);
    assert_eq!(r.user1_total_damage, 300000);
    assert_eq!(r.user2_total_damage, 0);
    assert_eq!(r.user1.0, id(1));
    assert_eq!(r.user2.0, id(2));
    for t in &r.user1.1 {
        assert_eq!(t.card_name.as_deref(), Some("leg_strike"));
        assert_eq!(t.card_effect.as_deref(), Some("Increase user accuracy by 0.50%"));
        assert!(!t.is_cancelled);
    }
    assert_eq!(r.verdict(), Verdict::Win);
}

#[test]
fn head_strike_cancelled_by_matching_block() {
    for roll in [0u32, 4999, 9999] {
        let user1 = subs(&[("head_strike", "strike")]);
        let user2 = subs(&[("head_strike", "block")]);
        let r = simulate_match(id(1), &user1, id(2), &user2, &[roll; 6], &[roll; 6]).unwrap();
        let t1 = &r.user1.1[0];
        assert!(t1.is_cancelled);
        assert_eq!(t1.damage, 0);
        assert_eq!(t1.card_name.as_deref(), Some("head_strike"));
        let t2 = &r.user2.1[0];
        assert_eq!(t2.card_name.as_deref(), Some("head_strike_block"));
        assert_eq!(t2.card_effect.as_deref(), Some("Decrease opponent damage by 0.20%"));
        assert_eq!(t2.damage, 0);
        assert_eq!(r.user1_total_damage, 0);
    }
}

#[test]
fn block_played_first_cancels_strike() {
    let cards1 = vec![block("eye_poke")];
    let cards2 = vec![strike("eye_poke")];
    let r = player_turn(&cards1, &cards2, &[0; 6], &[0; 6]).unwrap();
    assert!(r.user2[0].is_cancelled);
    assert_eq!(r.user2[0].damage, 0);
    assert_eq!(r.user1[0].card_effect.as_deref(), Some("Decrease opponent damage by 0.10%"));
}

#[test]
fn player_without_cards_gets_default_turns() {
    let cards1 = vec![strike("temple_strike"), block("leg_strike"), strike("eye_poke")];
    let cards2: Vec<Option<Card>> = vec![];
    let r = player_turn(&cards1, &cards2, &[0; 6], &[0; 6]).unwrap();
    assert_eq!(r.user2.len(), NUMBER_OF_CARDS);
    assert!(r.user2.iter().all(is_default));
    assert_eq!(total_damage(&r.user2), 0);
    let r = player_turn(&cards2, &cards1, &[0; 6], &[0; 6]).unwrap();
    assert!(r.user1.iter().all(is_default));
    assert_eq!(total_damage(&r.user1), 0);
}

#[test]
fn full_and_short_lists_give_six_turns() {
    let full: Vec<Option<Card>> = (0..6).map(|_| strike("shoulder_thrust")).collect();
    let short = vec![block("eye_poke"), strike("eye_poke")];
    let r = player_turn(&full, &short, &[0; 6], &[0; 6]).unwrap();
    assert_eq!(r.user1.len(), 6);
    assert_eq!(r.user2.len(), 6);
    assert!(is_default(&r.user2[2]));
    assert!(is_default(&r.user2[5]));
    let padded = vec![block("eye_poke"), strike("eye_poke"), None, None, None, None];
    let r2 = player_turn(&full, &padded, &[0; 6], &[0; 6]).unwrap();
    assert_eq!(damages(&r.user1), damages(&r2.user1));
    assert_eq!(damages(&r.user2), damages(&r2.user2));
}

#[test]
fn missed_strike_deals_nothing_and_queues_nothing() {
    // leg_strike hits up to a roll of 9000; 9001 misses.
    let cards1 = vec![strike("leg_strike"), strike("eye_poke")];
    let r = player_turn(&cards1, &vec![], &[9001, 6500, 0, 0, 0, 0], &[0; 6]).unwrap();
    assert_eq!(r.user1[0].damage, 0);
    assert_eq!(r.user1[0].card_name.as_deref(), Some("leg_strike"));
    assert_eq!(r.user1[0].card_effect.as_deref(), Some("Increase user accuracy by 0.50%"));
    // No accuracy bonus was queued: eye_poke at 0.60 misses a roll of 0.65.
    assert_eq!(r.user1[1].damage, 0);
    let r = player_turn(&cards1, &vec![], &[9000, 6500, 0, 0, 0, 0], &[0; 6]).unwrap();
    assert_eq!(r.user1[0].damage, 50000);
    assert_eq!(r.user1[1].damage, 120000);
}

#[test]
fn effect_lasts_exactly_one_turn() {
    // leg_strike raises its owner's accuracy by 0.50 for the next turn only.
    let cards1 = vec![strike("leg_strike"), strike("eye_poke"), strike("eye_poke")];
    let r = player_turn(&cards1, &vec![], &[0, 8900, 6500, 0, 0, 0], &[0; 6]).unwrap();
    assert_eq!(r.user1[1].damage, 120000);
    assert_eq!(r.user1[2].damage, 0);
}

#[test]
fn opponent_effect_lowers_their_accuracy() {
    // temple_strike lowers the opponent's accuracy by 0.50 on the next turn.
    let cards1 = vec![strike("temple_strike")];
    let cards2 = vec![None, strike("leg_strike"), strike("leg_strike")];
    let r = player_turn(&cards1, &cards2, &[0; 6], &[0, 5000, 5000, 0, 0, 0]).unwrap();
    assert_eq!(r.user1[0].damage, 100000);
    assert_eq!(r.user2[1].damage, 0);
    assert_eq!(r.user2[2].damage, 50000);
}

#[test]
fn block_reduces_damage_without_cancelling() {
    let cards1 = vec![strike("shoulder_strike")];
    let cards2 = vec![block("leg_strike")];
    let r = player_turn(&cards1, &cards2, &[0; 6], &[0; 6]).unwrap();
    assert_eq!(r.user1[0].damage, 90000);
    assert!(!r.user1[0].is_cancelled);
    assert_eq!(r.user2[0].card_name.as_deref(), Some("leg_strike_block"));
    assert_eq!(r.user2[0].card_effect, None);
    let r = player_turn(&cards2, &cards1, &[0; 6], &[0; 6]).unwrap();
    assert_eq!(r.user2[0].damage, 90000);
}

#[test]
fn block_effect_applies_next_turn() {
    // head_strike_block cancels head_strike and lowers the striker's damage
    // multiplier by 0.20 for the next turn.
    let cards1 = vec![strike("head_strike"), strike("leg_strike"), strike("leg_strike")];
    let cards2 = vec![block("head_strike")];
    let r = player_turn(&cards1, &cards2, &[0; 6], &[0; 6]).unwrap();
    assert_eq!(damages(&r.user1), vec![0, 40000, 50000, 0, 0, 0]);
}

#[test]
fn self_damage_bonus() {
    let cards1 = vec![strike("stomach_thrust"), strike("leg_strike")];
    let r = player_turn(&cards1, &vec![], &[0; 6], &[0; 6]).unwrap();
    assert_eq!(damages(&r.user1), vec![100000, 75000, 0, 0, 0, 0]);
}

#[test]
fn unknown_card_aborts_battle() {
    let cards1 = vec![strike("leg_strike"); 3];
    let cards2 = vec![None, None, strike("flying_kick")];
    let r = player_turn(&cards1, &cards2, &[0; 6], &[0; 6]);
    assert_eq!(r.unwrap_err(), BattleError::UnknownCard { player: 2, turn: 2 });
    let cards1 = vec![None, block("flying_kick")];
    let r = player_turn(&cards1, &vec![], &[0; 6], &[0; 6]);
    assert_eq!(r.unwrap_err(), BattleError::UnknownCard { player: 1, turn: 1 });
}

#[test]
fn too_many_cards_rejected() {
    let seven = vec![strike("leg_strike"); 7];
    let r = player_turn(&seven, &vec![], &[0; 6], &[0; 6]);
    assert_eq!(r.unwrap_err(), BattleError::TooManyCards { player: 1, count: 7 });
    let r = player_turn(&vec![], &seven, &[0; 6], &[0; 6]);
    assert_eq!(r.unwrap_err(), BattleError::TooManyCards { player: 2, count: 7 });
    let user1 = subs(&[("leg_strike", "strike"); 7]);
    let r = simulate_match(id(1), &user1, id(2), &subs(&[]), &[0; 6], &[0; 6]);
    assert_eq!(r.unwrap_err(), BattleError::TooManyCards { player: 1, count: 7 });
}

#[test]
fn unknown_kind_rejected() {
    let submitted = subs(&[("leg_strike", "strike"), ("leg_strike", "kick")]);
    assert_eq!(get_cards(&submitted, 2).unwrap_err(), BattleError::UnknownKind { player: 2, turn: 1 });
    let r = simulate_match(id(1), &subs(&[]), id(2), &submitted, &[0; 6], &[0; 6]);
    assert_eq!(r.unwrap_err(), BattleError::UnknownKind { player: 2, turn: 1 });
}

#[test]
fn get_cards_pads_to_six() {
    let submitted = subs(&[("leg_strike", "strike"), ("head_strike", "block")]);
    let cards = get_cards(&submitted, 1).unwrap();
    assert_eq!(cards.len(), 6);
    assert!(matches!(cards[0], Some(Card::Strike(Strike::LegStrike(_)))));
    assert!(matches!(cards[1], Some(Card::Block(Block::HeadStrike(_)))));
    assert!(cards[2..].iter().all(|c| c.is_none()));
    let cards = get_cards(&subs(&[("nope", "strike")]), 1).unwrap();
    assert!(matches!(cards[0], Some(Card::Strike(Strike::Unknown))));
}

#[test]
fn totals_and_verdicts() {
    let cards1 = vec![strike("leg_strike")];
    let cards2 = vec![strike("head_strike")];
    let r = player_turn(&cards1, &cards2, &[0; 6], &[0; 6]).unwrap();
    let result = aggregate(id(1), id(2), r);
    assert_eq!(result.user1_total_damage, 50000);
    assert_eq!(result.user2_total_damage, 180000);
    assert_eq!(result.verdict(), Verdict::Lose);
    let r = player_turn(&cards1, &cards1, &[0; 6], &[0; 6]).unwrap();
    assert_eq!(aggregate(id(1), id(2), r).verdict(), Verdict::Draw);
}

#[test]
fn total_is_sum_of_turn_damage() {
    let turns: Vec<PlayerTurn> = [7i64, -2, 0, 100, i64::MAX, i64::MAX]
        .iter()
        .map(|d| PlayerTurn { damage: *d, ..PlayerTurn::default() })
        .collect();
    assert_eq!(total_damage(&turns), 105 + 2 * (i64::MAX as i128));
    assert_eq!(total_damage(&vec![]), 0);
}

fn seeded_rolls(rng: &mut StdRng) -> [u32; 6] {
    let mut rolls = [0u32; 6];
    for r in rolls.iter_mut() {
        *r = rng.gen_range(0..ROLL_RANGE);
    }
    rolls
}

#[test]
fn seeded_replay_is_identical() {
    let cards1 = vec![strike("eye_poke"), block("temple_strike"), strike("head_strike"), strike("leg_strike")];
    let cards2 = vec![strike("temple_strike"), strike("temple_strike"), block("head_strike"), strike("stomach_thrust"), strike("leg_strike")];
    let mut runs = vec![];
    for _ in 0..2 {
        let mut rng = StdRng::seed_from_u64(42);
        let rolls1 = seeded_rolls(&mut rng);
        let rolls2 = seeded_rolls(&mut rng);
        let r = player_turn(&cards1, &cards2, &rolls1, &rolls2).unwrap();
        let view = |ts: &Vec<PlayerTurn>| {
            ts.iter()
                .map(|t| (t.card_name.clone(), t.card_effect.clone(), t.damage, t.is_cancelled))
                .collect::<Vec<_>>()
        };
        runs.push((view(&r.user1), view(&r.user2)));
    }
    assert_eq!(runs[0], runs[1]);
}

#[test]
fn drawn_rolls_in_range() {
    for _ in 0..50 {
        let rolls = draw_rolls();
        assert!(rolls.iter().all(|r| *r < ROLL_RANGE));
    }
}

#[test]
fn random_battle_is_consistent() {
    let user1 = subs(&[("leg_strike", "strike"); 6]);
    let user2 = subs(&[("head_strike", "block"), ("eye_poke", "strike")]);
    for _ in 0..20 {
        let r = card_battle(id(1), &user1, id(2), &user2).unwrap();
        assert_eq!(r.user1.1.len(), 6);
        assert_eq!(r.user2.1.len(), 6);
        let sum1: i128 = r.user1.1.iter().map(|t| t.damage as i128).sum();
        assert_eq!(sum1, r.user1_total_damage);
        for t in &r.user1.1 {
            assert!(t.damage >= 0 && t.damage <= 75000);
        }
    }
}

#[test]
fn user_status_default() {
    let s = UserStatus::default();
    assert_eq!(s.damage, 0);
    assert_eq!(s.damage_reduction, 0);
    assert_eq!(s.multiplier.damage, 100);
    assert_eq!(s.multiplier.accuracy, 100);
    assert!(s.effect.is_none());
    let mut s1 = UserStatus::default();
    let mut t1 = PlayerTurn::default();
    let mut s2 = UserStatus::default();
    let opp = block("leg_strike");
    Strike::new("leg_strike").simulate(&mut s1, &mut t1, opp.as_ref(), &mut s2, 0).unwrap();
    assert!(t1.is_cancelled);
    assert_eq!(s2.damage_reduction, 10);
    let err = Strike::Unknown.simulate(&mut s1, &mut t1, None, &mut s2, 0).unwrap_err();
    assert_eq!(err.message, "Unknown battle card.");
    assert_eq!(err.code, 500);
}

#[test]
fn unknown_move_reported_with_its_name() {
    let user1 = subs(&[("leg_strike", "strike"), ("leg_strike", "strike")]);
    let user2 = subs(&[("leg_strike", "block"), ("flying_kick", "strike")]);
    let r = simulate_match(id(1), &user1, id(2), &user2, &[0; 6], &[0; 6]);
    assert_eq!(
        r.unwrap_err(),
        BattleError::UnknownMove { player: 2, turn: 1, move_name: "flying_kick".to_string() }
    );
    let user1 = subs(&[("spinning_guard", "block")]);
    let r = simulate_match(id(1), &user1, id(2), &subs(&[]), &[0; 6], &[0; 6]);
    assert_eq!(
        r.unwrap_err(),
        BattleError::UnknownMove { player: 1, turn: 0, move_name: "spinning_guard".to_string() }
    );
}
