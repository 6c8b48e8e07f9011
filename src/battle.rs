use vstd::prelude::*;

use crate::catalog::{Card, MAX_BASE_DAMAGE};
use crate::effect::{Multiplier, Target};
use crate::error::AppError;
use crate::resolver::{block_outcome, card_of, opposing_reduction, strike_fits, strike_outcome};
use crate::status::{PlayerTurn, TurnRecord, UserStatus};

verus! {

/// Number of turns in a battle, and the most cards a player may submit.
pub const NUMBER_OF_CARDS: usize = 6;

/// Why a battle could not be run.
#[derive(Debug, PartialEq, Eq)]
pub enum BattleError {
    /// A player submitted more cards than there are turns.
    TooManyCards { player: u8, count: usize },
    /// A submitted card's kind is neither `strike` nor `block`.
    UnknownKind { player: u8, turn: usize },
    /// A card that the catalog does not hold came up for resolution.
    UnknownCard { player: u8, turn: usize },
    /// A submitted move name that the catalog does not hold came up for
    /// resolution.
    UnknownMove { player: u8, turn: usize, move_name: String },
}

/// The six turn records of each player.
#[derive(Debug)]
pub struct PlayerTurnResults {
    pub user1: Vec<PlayerTurn>,
    pub user2: Vec<PlayerTurn>,
}

/// The state of a battle after some turns: both players' states and their
/// turn records so far.
pub struct BattleState {
    pub user1: UserStatus,
    pub user2: UserStatus,
    pub turns1: Seq<TurnRecord>,
    pub turns2: Seq<TurnRecord>,
}

/// The records that a sequence of turns holds.
pub open spec fn records(turns: Seq<PlayerTurn>) -> Seq<TurnRecord> {
    turns.map_values(|t: PlayerTurn| t@)
}

impl Card {
    /// The card's statistics lie in their ranges: accuracy and damage
    /// reduction at most `1.00`, base damage at most `MAX_BASE_DAMAGE`.
    pub open spec fn wf(self) -> bool {
        match self {
            Card::Strike(s) => match s.stat() {
                Some(st) => st.accuracy <= 100 && st.damage <= MAX_BASE_DAMAGE,
                None => true,
            },
            Card::Block(b) => match b.stat() {
                Some(bs) => bs.damage_reduction <= 100,
                None => true,
            },
        }
    }
}

/// Every card of a list is well formed.
pub open spec fn cards_wf(cards: Seq<Option<Card>>) -> bool {
    forall|i: int| 0 <= i < cards.len() && (#[trigger] cards[i]) is Some ==> cards[i].unwrap().wf()
}

/// Whether resolving `card` stays within `i64`: only a known strike
/// computes.
pub open spec fn card_fits(card: Option<Card>, user: UserStatus, opponent_card: Option<Card>) -> bool {
    match card {
        Some(Card::Strike(s)) => match s.stat() {
            Some(st) => strike_fits(st, user, opponent_card),
            None => true,
        },
        _ => true,
    }
}

/// The card of turn `i`: none past the end of the list.
pub open spec fn card_at(cards: Seq<Option<Card>>, i: int) -> Option<Card> {
    if 0 <= i < cards.len() {
        cards[i]
    } else {
        None
    }
}

/// A state with the multipliers and the damage reduction back at their
/// defaults.
pub open spec fn reset_for_turn(s: UserStatus) -> UserStatus {
    UserStatus { multiplier: Multiplier::spec_default(), damage_reduction: 0, ..s }
}

/// Applies the owner's pending effect, to the owner's multiplier or the
/// opponent's as its target says, and clears it.
pub open spec fn apply_pending(owner: UserStatus, opponent: UserStatus) -> (UserStatus, UserStatus) {
    match owner.effect {
        None => (owner, opponent),
        Some(e) => match e.target {
            Target::Owner => (
                UserStatus { multiplier: e.applied_to(owner.multiplier), effect: None, ..owner },
                opponent,
            ),
            Target::Opponent => (
                UserStatus { effect: None, ..owner },
                UserStatus { multiplier: e.applied_to(opponent.multiplier), ..opponent },
            ),
        },
    }
}

/// The first step of a turn: both players' states reset, then both pending
/// effects applied and cleared, before either card is resolved.
pub open spec fn begin_turn(s1: UserStatus, s2: UserStatus) -> (UserStatus, UserStatus) {
    let (a1, a2) = apply_pending(reset_for_turn(s1), reset_for_turn(s2));
    let (b2, b1) = apply_pending(a2, a1);
    (b1, b2)
}

/// One player's card resolved: the player's state and record, then the
/// opponent's. `None` when the card is `Unknown`.
pub open spec fn resolve(
    card: Option<Card>,
    user: UserStatus,
    user_turn: TurnRecord,
    opponent_card: Option<Card>,
    opponent: UserStatus,
    opponent_turn: TurnRecord,
    roll: u32,
) -> Option<(UserStatus, TurnRecord, UserStatus, TurnRecord)> {
    match card {
        None => Some((user, user_turn, opponent, opponent_turn)),
        Some(Card::Strike(s)) => match s.stat() {
            None => None,
            Some(st) => {
                let (u, t, o) = strike_outcome(s, st, user, opponent_card, opponent, roll);
                Some((u, t, o, opponent_turn))
            },
        },
        Some(Card::Block(b)) => match b.stat() {
            None => None,
            Some(bs) => {
                let (u, t, ot) = block_outcome(bs, user, opponent_card, opponent_turn);
                Some((u, t, opponent, ot))
            },
        },
    }
}

/// One whole turn: effects applied, player 1's card resolved, then player
/// 2's. The error is the player whose card is `Unknown`.
pub open spec fn play_turn(
    s1: UserStatus,
    s2: UserStatus,
    c1: Option<Card>,
    c2: Option<Card>,
    roll1: u32,
    roll2: u32,
) -> Result<(UserStatus, UserStatus, TurnRecord, TurnRecord), u8> {
    let (a1, a2) = begin_turn(s1, s2);
    match resolve(c1, a1, TurnRecord::empty(), c2, a2, TurnRecord::empty(), roll1) {
        None => Err(1u8),
        Some((b1, t1, b2, t2)) => match resolve(c2, b2, t2, c1, b1, t1, roll2) {
            None => Err(2u8),
            Some((d2, u2, d1, u1)) => Ok((d1, d2, u1, u2)),
        },
    }
}

/// The battle after its first `n` turns.
pub open spec fn battle_after(
    cards1: Seq<Option<Card>>,
    cards2: Seq<Option<Card>>,
    rolls1: Seq<u32>,
    rolls2: Seq<u32>,
    n: nat,
) -> Result<BattleState, BattleError>
    decreases n,
{
    if n == 0 {
        Ok(
            BattleState {
                user1: UserStatus::spec_default(),
                user2: UserStatus::spec_default(),
                turns1: seq![],
                turns2: seq![],
            },
        )
    } else {
        let i = n - 1;
        match battle_after(cards1, cards2, rolls1, rolls2, i as nat) {
            Err(e) => Err(e),
            Ok(st) => match play_turn(
                st.user1,
                st.user2,
                card_at(cards1, i),
                card_at(cards2, i),
                rolls1[i],
                rolls2[i],
            ) {
                Err(p) => Err(BattleError::UnknownCard { player: p, turn: i as usize }),
                Ok((s1, s2, t1, t2)) => Ok(
                    BattleState {
                        user1: s1,
                        user2: s2,
                        turns1: st.turns1.push(t1),
                        turns2: st.turns2.push(t2),
                    },
                ),
            },
        }
    }
}

/// A whole battle: the card lists checked, then every turn played.
pub open spec fn battle(
    cards1: Seq<Option<Card>>,
    cards2: Seq<Option<Card>>,
    rolls1: Seq<u32>,
    rolls2: Seq<u32>,
) -> Result<BattleState, BattleError> {
    if cards1.len() > NUMBER_OF_CARDS {
        Err(BattleError::TooManyCards { player: 1, count: cards1.len() as usize })
    } else if cards2.len() > NUMBER_OF_CARDS {
        Err(BattleError::TooManyCards { player: 2, count: cards2.len() as usize })
    } else {
        battle_after(cards1, cards2, rolls1, rolls2, NUMBER_OF_CARDS as nat)
    }
}

/// Whether `r` reports the battle of these cards with these rolls: its
/// records when the battle is played through, else its error.
pub open spec fn reports_battle(
    cards1: Seq<Option<Card>>,
    cards2: Seq<Option<Card>>,
    rolls1: Seq<u32>,
    rolls2: Seq<u32>,
    r: Result<PlayerTurnResults, BattleError>,
) -> bool {
    match battle(cards1, cards2, rolls1, rolls2) {
        Ok(st) => r matches Ok(res) && records(res.user1@) == st.turns1 && records(res.user2@)
            == st.turns2,
        Err(e) => r == Err::<PlayerTurnResults, BattleError>(e),
    }
}

/// A battle stops on an unknown card only at a turn it plays, on a card
/// that one of the two players holds for that turn.
pub proof fn lemma_unknown_card_is_held(
    cards1: Seq<Option<Card>>,
    cards2: Seq<Option<Card>>,
    rolls1: Seq<u32>,
    rolls2: Seq<u32>,
    n: nat,
)
    requires
        n <= NUMBER_OF_CARDS,
    ensures
        battle_after(cards1, cards2, rolls1, rolls2, n) matches Err(e) ==> e matches BattleError::UnknownCard { player, turn } && turn < n && (player == 1 && card_at(cards1, turn as int) is Some || player == 2 && card_at(cards2, turn as int) is Some),
    decreases n,
{
    if n > 0 {
        let i = n - 1;
        lemma_unknown_card_is_held(cards1, cards2, rolls1, rolls2, i as nat);
        if let Ok(st) = battle_after(cards1, cards2, rolls1, rolls2, i as nat) {
            let c1 = card_at(cards1, i);
            let c2 = card_at(cards2, i);
            let (a1, a2) = begin_turn(st.user1, st.user2);
            let e = TurnRecord::empty();
            if let Some((b1, t1, b2, t2)) = resolve(c1, a1, e, c2, a2, e, rolls1[i]) {
                if resolve(c2, b2, t2, c1, b1, t1, rolls2[i]) is None {
                    assert(c2 is Some);
                }
            } else {
                assert(c1 is Some);
            }
        }
    }
}

/// Largest multiplier that two effects can make from `1.00`.
pub const MULTIPLIER_BOUND: i64 = 100 + 2 * 0xffff_ffff;

/// Largest damage, in ten-thousandths, of a single hit of a well-formed card.
pub const MAX_HIT: i64 = 1_000_000 * (MULTIPLIER_BOUND + 100);

/// Both multipliers within what two effects can make from `1.00`.
pub open spec fn multiplier_in_play(m: Multiplier) -> bool {
    &&& -MULTIPLIER_BOUND <= m.accuracy <= MULTIPLIER_BOUND
    &&& -MULTIPLIER_BOUND <= m.damage <= MULTIPLIER_BOUND
}

/// The cumulative damage is at most one hit per turn played, either way.
pub open spec fn damage_within(s: UserStatus, turns: int) -> bool {
    -(turns * MAX_HIT) <= s.damage <= turns * MAX_HIT
}

/// The start of a turn leaves the multipliers in play and the cumulative
/// damage as it was.
pub proof fn lemma_begin_turn_in_play(s1: UserStatus, s2: UserStatus)
    ensures
        multiplier_in_play(begin_turn(s1, s2).0.multiplier),
        multiplier_in_play(begin_turn(s1, s2).1.multiplier),
        begin_turn(s1, s2).0.damage == s1.damage,
        begin_turn(s1, s2).1.damage == s2.damage,
{
}

proof fn lemma_product_bound(a: int, a_max: int, x: int, x_max: int)
    requires
        0 <= a <= a_max,
        -x_max <= x <= x_max,
    ensures
        -(a_max * x_max) <= a * x <= a_max * x_max,
{
    assert(-(a_max * x_max) <= a * x <= a_max * x_max) by (nonlinear_arith)
        requires
            0 <= a <= a_max,
            -x_max <= x <= x_max,
    ;
}

/// A well-formed card in play resolves with no overflow, changes no
/// multiplier, and adds at most one hit to the striker's damage.
pub proof fn lemma_resolve_in_play(
    card: Option<Card>,
    user: UserStatus,
    user_turn: TurnRecord,
    opponent_card: Option<Card>,
    opponent: UserStatus,
    opponent_turn: TurnRecord,
    roll: u32,
    turns: int,
)
    requires
        card is Some ==> card.unwrap().wf(),
        opponent_card is Some ==> opponent_card.unwrap().wf(),
        multiplier_in_play(user.multiplier),
        0 <= turns < NUMBER_OF_CARDS,
        damage_within(user, turns),
    ensures
        card_fits(card, user, opponent_card),
        resolve(card, user, user_turn, opponent_card, opponent, opponent_turn, roll) matches Some(
            (u, t, o, ot),
        ) ==> {
            &&& u.multiplier == user.multiplier
            &&& damage_within(u, turns + 1)
            &&& o.multiplier == opponent.multiplier
            &&& o.damage == opponent.damage
        },
{
    if let Some(Card::Strike(s)) = card {
        if let Some(st) = s.stat() {
            let reduction = opposing_reduction(opponent_card);
            lemma_product_bound(st.accuracy as int, 100, user.multiplier.accuracy as int, MULTIPLIER_BOUND as int);
            lemma_product_bound(
                st.damage as int,
                MAX_BASE_DAMAGE as int,
                user.multiplier.damage - reduction,
                MULTIPLIER_BOUND + 100,
            );
            assert(turns * MAX_HIT + MAX_HIT == (turns + 1) * MAX_HIT) by (nonlinear_arith);
            assert(0 <= turns * MAX_HIT <= 5 * MAX_HIT) by (nonlinear_arith)
                requires
                    0 <= turns < 6,
                    MAX_HIT > 0,
            ;
        }
    } else {
        assert(turns * MAX_HIT <= (turns + 1) * MAX_HIT) by (nonlinear_arith)
            requires
                MAX_HIT > 0,
        ;
    }
}

/// Applies the owner's pending effect and clears it.
fn apply_effect(user_status: &mut UserStatus, opponent_status: &mut UserStatus)
    requires
        old(user_status).effect matches Some(e) ==> (match e.target {
            Target::Owner => e.can_apply(old(user_status).multiplier),
            Target::Opponent => e.can_apply(old(opponent_status).multiplier),
        }),
    ensures
        (*final(user_status), *final(opponent_status)) == apply_pending(
            *old(user_status),
            *old(opponent_status),
        ),
{
    if let Some(effect) = user_status.effect {
        match effect.target {
            Target::Opponent => {
                effect.change_stat(&mut opponent_status.multiplier);
            },
            Target::Owner => {
                effect.change_stat(&mut user_status.multiplier);
            },
        }
        user_status.effect = None;
    }
}

/// Starts a turn: resets both players' multipliers and damage reductions,
/// then applies and clears both pending effects.
fn apply_effects(user1_status: &mut UserStatus, user2_status: &mut UserStatus)
    ensures
        (*final(user1_status), *final(user2_status)) == begin_turn(
            *old(user1_status),
            *old(user2_status),
        ),
{
    user1_status.multiplier = Multiplier::default();
    user1_status.damage_reduction = 0;
    user2_status.multiplier = Multiplier::default();
    user2_status.damage_reduction = 0;
    apply_effect(user1_status, user2_status);
    apply_effect(user2_status, user1_status);
}

/// Resolves one player's card, if any, against the opponent's.
fn resolve_card(
    card: Option<&Card>,
    user_status: &mut UserStatus,
    user_turn: &mut PlayerTurn,
    opponent_card: Option<&Card>,
    opponent_status: &mut UserStatus,
    opponent_turn: &mut PlayerTurn,
    roll: u32,
) -> (r: Result<(), AppError>)
    requires
        card_fits(card_of(card), *old(user_status), card_of(opponent_card)),
    ensures
        match resolve(
            card_of(card),
            *old(user_status),
            old(user_turn)@,
            card_of(opponent_card),
            *old(opponent_status),
            old(opponent_turn)@,
            roll,
        ) {
            None => r is Err,
            Some((u, t, o, ot)) => {
                &&& r is Ok
                &&& *final(user_status) == u
                &&& final(user_turn)@ == t
                &&& *final(opponent_status) == o
                &&& final(opponent_turn)@ == ot
            },
        },
{
    match card {
        Some(Card::Strike(strike)) => strike.simulate(
            user_status,
            user_turn,
            opponent_card,
            opponent_status,
            roll,
        ),
        Some(Card::Block(block)) => block.simulate(
            user_status,
            user_turn,
            opponent_card,
            opponent_turn,
        ),
        None => Ok(()),
    }
}

/// The card of turn `i`, if the list holds one.
fn card_ref(cards: &Vec<Option<Card>>, i: usize) -> (r: Option<&Card>)
    ensures
        card_of(r) == card_at(cards@, i as int),
{
    if i < cards.len() {
        match &cards[i] {
            Some(c) => Some(c),
            None => None,
        }
    } else {
        None
    }
}

proof fn lemma_error_persists(
    cards1: Seq<Option<Card>>,
    cards2: Seq<Option<Card>>,
    rolls1: Seq<u32>,
    rolls2: Seq<u32>,
    n: nat,
    m: nat,
)
    requires
        n <= m,
        battle_after(cards1, cards2, rolls1, rolls2, n) is Err,
    ensures
        battle_after(cards1, cards2, rolls1, rolls2, m) == battle_after(
            cards1,
            cards2,
            rolls1,
            rolls2,
            n,
        ),
    decreases m - n,
{
    if n < m {
        lemma_error_persists(cards1, cards2, rolls1, rolls2, n, (m - 1) as nat);
    }
}

/// Runs the six turns of a battle. `rolls1[i]` and `rolls2[i]` are the
/// accuracy rolls (in ten-thousandths) of each player's strike on turn `i`;
/// a roll is read only when that strike is not cancelled. A card list
/// shorter than six stands for "no card" on the remaining turns; a longer
/// one is rejected before any turn is played.
pub fn player_turn(
    user1_cards: &Vec<Option<Card>>,
    user2_cards: &Vec<Option<Card>>,
    rolls1: &[u32; NUMBER_OF_CARDS],
    rolls2: &[u32; NUMBER_OF_CARDS],
) -> (r: Result<PlayerTurnResults, BattleError>)
    requires
        cards_wf(user1_cards@),
        cards_wf(user2_cards@),
    ensures
        reports_battle(user1_cards@, user2_cards@, rolls1@, rolls2@, r),
{
    if user1_cards.len() > NUMBER_OF_CARDS {
        return Err(BattleError::TooManyCards { player: 1, count: user1_cards.len() });
    }
    if user2_cards.len() > NUMBER_OF_CARDS {
        return Err(BattleError::TooManyCards { player: 2, count: user2_cards.len() });
    }
    let ghost c1s = user1_cards@;
    let ghost c2s = user2_cards@;
    let mut user1_status = UserStatus::default();
    let mut user2_status = UserStatus::default();
    let mut user1_turns: Vec<PlayerTurn> = Vec::new();
    let mut user2_turns: Vec<PlayerTurn> = Vec::new();
    let mut i: usize = 0;
    proof {
        assert(records(user1_turns@) =~= seq![]);
        assert(records(user2_turns@) =~= seq![]);
    }
    while i < NUMBER_OF_CARDS
        invariant
            0 <= i <= NUMBER_OF_CARDS,
            c1s == user1_cards@,
            c2s == user2_cards@,
            c1s.len() <= NUMBER_OF_CARDS,
            c2s.len() <= NUMBER_OF_CARDS,
            cards_wf(c1s),
            cards_wf(c2s),
            battle_after(c1s, c2s, rolls1@, rolls2@, i as nat) == Ok::<BattleState, BattleError>(
                BattleState {
                    user1: user1_status,
                    user2: user2_status,
                    turns1: records(user1_turns@),
                    turns2: records(user2_turns@),
                },
            ),
            damage_within(user1_status, i as int),
            damage_within(user2_status, i as int),
        decreases NUMBER_OF_CARDS - i,
    {
        let card1 = card_ref(user1_cards, i);
        let card2 = card_ref(user2_cards, i);
        let ghost s1 = user1_status;
        let ghost s2 = user2_status;
        apply_effects(&mut user1_status, &mut user2_status);
        proof {
            lemma_begin_turn_in_play(s1, s2);
        }
        let mut turn1 = PlayerTurn::default();
        let mut turn2 = PlayerTurn::default();
        let ghost a1 = user1_status;
        let ghost a2 = user2_status;
        proof {
            lemma_resolve_in_play(
                card_of(card1),
                a1,
                turn1@,
                card_of(card2),
                a2,
                turn2@,
                rolls1@[i as int],
                i as int,
            );
        }
        match resolve_card(
            card1,
            &mut user1_status,
            &mut turn1,
            card2,
            &mut user2_status,
            &mut turn2,
            rolls1[i],
        ) {
            Err(_) => {
                proof {
                    lemma_error_persists(c1s, c2s, rolls1@, rolls2@, (i + 1) as nat, NUMBER_OF_CARDS as nat);
                }
                return Err(BattleError::UnknownCard { player: 1, turn: i });
            },
            Ok(()) => {},
        }
        let ghost b1 = user1_status;
        let ghost b2 = user2_status;
        proof {
            lemma_resolve_in_play(
                card_of(card2),
                b2,
                turn2@,
                card_of(card1),
                b1,
                turn1@,
                rolls2@[i as int],
                i as int,
            );
        }
        match resolve_card(
            card2,
            &mut user2_status,
            &mut turn2,
            card1,
            &mut user1_status,
            &mut turn1,
            rolls2[i],
        ) {
            Err(_) => {
                proof {
                    lemma_error_persists(c1s, c2s, rolls1@, rolls2@, (i + 1) as nat, NUMBER_OF_CARDS as nat);
                }
                return Err(BattleError::UnknownCard { player: 2, turn: i });
            },
            Ok(()) => {},
        }
        let ghost old1 = user1_turns@;
        let ghost old2 = user2_turns@;
        user1_turns.push(turn1);
        user2_turns.push(turn2);
        proof {
            assert(records(user1_turns@) =~= records(old1).push(turn1@));
            assert(records(user2_turns@) =~= records(old2).push(turn2@));
        }
        i = i + 1;
    }
    Ok(PlayerTurnResults { user1: user1_turns, user2: user2_turns })
}

} // verus!
