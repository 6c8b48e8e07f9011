use vstd::prelude::*;

use crate::aggregate::total_of;
use crate::battle::{
    battle, battle_after, begin_turn, card_at, cards_wf, damage_within, lemma_begin_turn_in_play,
    lemma_resolve_in_play, play_turn, records, reports_battle, resolve, BattleError, PlayerTurnResults,
    NUMBER_OF_CARDS,
};
use crate::catalog::{block_table, strike_table, Block, Card, Strike, StrikeStat};
use crate::effect::{Multiplier, Target};
use crate::resolver::{effective_accuracy, strike_outcome};
use crate::status::{TurnRecord, UserStatus};

verus! {

proof fn lemma_total_push(turns: Seq<TurnRecord>, t: TurnRecord)
    ensures
        total_of(turns.push(t)) == total_of(turns) + t.damage,
{
    assert(turns.push(t).drop_last() =~= turns);
}

/// After `n` turns of a battle between well-formed cards, each player has
/// one record per turn, and each player's cumulative damage equals the sum
/// of the damage of that player's records.
pub proof fn lemma_damage_is_sum_of_turns(
    cards1: Seq<Option<Card>>,
    cards2: Seq<Option<Card>>,
    rolls1: Seq<u32>,
    rolls2: Seq<u32>,
    n: nat,
)
    requires
        cards_wf(cards1),
        cards_wf(cards2),
        n <= NUMBER_OF_CARDS,
        battle_after(cards1, cards2, rolls1, rolls2, n) is Ok,
    ensures
        ({
            let st = battle_after(cards1, cards2, rolls1, rolls2, n)->Ok_0;
            &&& st.turns1.len() == n
            &&& st.turns2.len() == n
            &&& st.user1.damage == total_of(st.turns1)
            &&& st.user2.damage == total_of(st.turns2)
            &&& damage_within(st.user1, n as int)
            &&& damage_within(st.user2, n as int)
        }),
    decreases n,
{
    if n > 0 {
        let i = (n - 1) as int;
        lemma_damage_is_sum_of_turns(cards1, cards2, rolls1, rolls2, (n - 1) as nat);
        let st = battle_after(cards1, cards2, rolls1, rolls2, (n - 1) as nat)->Ok_0;
        let c1 = card_at(cards1, i);
        let c2 = card_at(cards2, i);
        let (a1, a2) = begin_turn(st.user1, st.user2);
        lemma_begin_turn_in_play(st.user1, st.user2);
        let e = TurnRecord::empty();
        lemma_resolve_in_play(c1, a1, e, c2, a2, e, rolls1[i], i);
        let (b1, t1, b2, t2) = resolve(c1, a1, e, c2, a2, e, rolls1[i])->Some_0;
        lemma_resolve_in_play(c2, b2, t2, c1, b1, t1, rolls2[i], i);
        let (d2, u2, d1, u1) = resolve(c2, b2, t2, c1, b1, t1, rolls2[i])->Some_0;
        lemma_total_push(st.turns1, u1);
        lemma_total_push(st.turns2, u2);
    }
}

/// A battle that is played through gives each player exactly one record per
/// turn, whether the card lists were full or shorter.
pub proof fn lemma_six_records(
    cards1: Seq<Option<Card>>,
    cards2: Seq<Option<Card>>,
    rolls1: Seq<u32>,
    rolls2: Seq<u32>,
)
    requires
        cards_wf(cards1),
        cards_wf(cards2),
        battle(cards1, cards2, rolls1, rolls2) is Ok,
    ensures
        battle(cards1, cards2, rolls1, rolls2)->Ok_0.turns1.len() == NUMBER_OF_CARDS,
        battle(cards1, cards2, rolls1, rolls2)->Ok_0.turns2.len() == NUMBER_OF_CARDS,
{
    lemma_damage_is_sum_of_turns(cards1, cards2, rolls1, rolls2, NUMBER_OF_CARDS as nat);
}

/// Lookups in the catalog are total and deterministic: a name of the strike
/// table gives a known strike, and two strikes that the catalog gives for one
/// name are the same move with the same statistics.
pub proof fn lemma_strike_lookup_deterministic(name: Seq<char>, first: Strike, second: Strike)
    requires
        first.is_catalog_strike(name),
        second.is_catalog_strike(name),
    ensures
        strike_table(name) is Some ==> first.stat() is Some,
        first.variant_index() == second.variant_index(),
        first.stat() is Some <==> second.stat() is Some,
        first.stat() is Some ==> first.stat().unwrap()@ == second.stat().unwrap()@,
{
}

/// Lookups in the catalog are total and deterministic: a name of the block
/// table gives a known block, and two blocks that the catalog gives for one
/// name are the same move with the same statistics, cancelling the same
/// strike.
pub proof fn lemma_block_lookup_deterministic(name: Seq<char>, first: Block, second: Block)
    requires
        first.is_catalog_block(name),
        second.is_catalog_block(name),
    ensures
        block_table(name) is Some ==> first.stat() is Some,
        first.variant_index() == second.variant_index(),
        first.stat() is Some <==> second.stat() is Some,
        first.stat() is Some ==> {
            let (a, b) = (first.stat().unwrap(), second.stat().unwrap());
            &&& a.name@ == b.name@
            &&& a.damage_reduction == b.damage_reduction
            &&& a.effect == b.effect
            &&& a.strike_to_cancel.variant_index() == b.strike_to_cancel.variant_index()
            &&& a.strike_to_cancel.stat()->Some_0@ == b.strike_to_cancel.stat()->Some_0@
        },
{
}

/// A strike whose roll is above its effective accuracy records no damage,
/// adds none to the striker's total, and queues no effect.
pub proof fn lemma_missed_strike(
    strike: Strike,
    stat: StrikeStat,
    user: UserStatus,
    opponent_card: Option<Card>,
    opponent: UserStatus,
    roll: u32,
)
    requires
        strike.stat() == Some(stat),
        roll > effective_accuracy(stat, user),
    ensures
        ({
            let (u, t, o) = strike_outcome(strike, stat, user, opponent_card, opponent, roll);
            &&& t.damage == 0
            &&& u.damage == user.damage
            &&& u.effect == user.effect
        }),
{
}

/// A block cancels the opposing strike exactly when the strike's move name
/// is that of the block's `strike_to_cancel`; the cancelled strike's record
/// is marked cancelled and shows no damage, whatever the roll. This holds
/// with the strike played by either player.
pub proof fn lemma_block_cancels_same_move(
    s1: UserStatus,
    s2: UserStatus,
    strike: Strike,
    block: Block,
    roll1: u32,
    roll2: u32,
)
    requires
        strike.stat() is Some,
        block.stat() is Some,
    ensures
        ({
            let cancels = strike.move_name() == block.stat().unwrap().strike_to_cancel.move_name();
            &&& play_turn(
                s1,
                s2,
                Some(Card::Strike(strike)),
                Some(Card::Block(block)),
                roll1,
                roll2,
            ) matches Ok((_, _, t1, _)) && t1.is_cancelled == cancels && (cancels ==> t1.damage
                == 0)
            &&& play_turn(
                s1,
                s2,
                Some(Card::Block(block)),
                Some(Card::Strike(strike)),
                roll1,
                roll2,
            ) matches Ok((_, _, _, t2)) && t2.is_cancelled == cancels && (cancels ==> t2.damage
                == 0)
        }),
{
}

/// An effect lasts one turn. The multipliers a turn is resolved with depend
/// on nothing but the effects pending when it starts, and the start of the
/// turn clears them; an effect pending alone is applied to its target's
/// multiplier from `1.00`.
pub proof fn lemma_effect_lasts_one_turn(
    s1: UserStatus,
    s2: UserStatus,
    other1: UserStatus,
    other2: UserStatus,
)
    requires
        other1.effect == s1.effect,
        other2.effect == s2.effect,
    ensures
        begin_turn(s1, s2).0.multiplier == begin_turn(other1, other2).0.multiplier,
        begin_turn(s1, s2).1.multiplier == begin_turn(other1, other2).1.multiplier,
        begin_turn(s1, s2).0.effect is None,
        begin_turn(s1, s2).1.effect is None,
        s2.effect is None ==> match s1.effect {
            Some(e) => match e.target {
                Target::Owner => begin_turn(s1, s2).0.multiplier == e.applied_to(
                    Multiplier::spec_default(),
                ) && begin_turn(s1, s2).1.multiplier == Multiplier::spec_default(),
                Target::Opponent => begin_turn(s1, s2).0.multiplier == Multiplier::spec_default()
                    && begin_turn(s1, s2).1.multiplier == e.applied_to(Multiplier::spec_default()),
            },
            None => true,
        },
{
}

/// Replaying a battle on the same cards with the same rolls gives the same
/// outcome: any two results that report it hold the same records, or the
/// same error.
pub proof fn lemma_replay_is_identical(
    cards1: Seq<Option<Card>>,
    cards2: Seq<Option<Card>>,
    rolls1: Seq<u32>,
    rolls2: Seq<u32>,
    first: Result<PlayerTurnResults, BattleError>,
    second: Result<PlayerTurnResults, BattleError>,
)
    requires
        reports_battle(cards1, cards2, rolls1, rolls2, first),
        reports_battle(cards1, cards2, rolls1, rolls2, second),
    ensures
        first is Ok <==> second is Ok,
        first is Ok ==> records(first->Ok_0.user1@) == records(second->Ok_0.user1@)
            && records(first->Ok_0.user2@) == records(second->Ok_0.user2@),
        first is Err ==> first == second,
{
}

/// Whether a card list holds no card at all.
pub open spec fn no_cards(cards: Seq<Option<Card>>) -> bool {
    forall|i: int| 0 <= i < cards.len() ==> (#[trigger] cards[i]) is None
}

/// A player who plays no card gets, in every turn, the record of a turn
/// without a card, and a total damage of zero.
pub proof fn lemma_absent_player(
    cards1: Seq<Option<Card>>,
    cards2: Seq<Option<Card>>,
    rolls1: Seq<u32>,
    rolls2: Seq<u32>,
    n: nat,
)
    requires
        battle_after(cards1, cards2, rolls1, rolls2, n) is Ok,
    ensures
        ({
            let st = battle_after(cards1, cards2, rolls1, rolls2, n)->Ok_0;
            &&& st.turns1.len() == n
            &&& st.turns2.len() == n
            &&& no_cards(cards1) ==> (forall|i: int|
                0 <= i < n ==> #[trigger] st.turns1[i] == TurnRecord::empty()) && total_of(
                st.turns1,
            ) == 0
            &&& no_cards(cards2) ==> (forall|i: int|
                0 <= i < n ==> #[trigger] st.turns2[i] == TurnRecord::empty()) && total_of(
                st.turns2,
            ) == 0
        }),
    decreases n,
{
    if n > 0 {
        let i = (n - 1) as int;
        lemma_absent_player(cards1, cards2, rolls1, rolls2, (n - 1) as nat);
        let st = battle_after(cards1, cards2, rolls1, rolls2, (n - 1) as nat)->Ok_0;
        let next = battle_after(cards1, cards2, rolls1, rolls2, n)->Ok_0;
        let (a1, a2) = begin_turn(st.user1, st.user2);
        let e = TurnRecord::empty();
        let c1 = card_at(cards1, i);
        let c2 = card_at(cards2, i);
        let (b1, t1, b2, t2) = resolve(c1, a1, e, c2, a2, e, rolls1[i])->Some_0;
        let (d2, u2, d1, u1) = resolve(c2, b2, t2, c1, b1, t1, rolls2[i])->Some_0;
        lemma_total_push(st.turns1, u1);
        lemma_total_push(st.turns2, u2);
        if no_cards(cards1) {
            assert(c1 is None);
            assert forall|j: int| 0 <= j < n implies #[trigger] next.turns1[j] == TurnRecord::empty() by {
                if j < i {
                    assert(next.turns1[j] == st.turns1[j]);
                }
            }
        }
        if no_cards(cards2) {
            assert(c2 is None);
            assert forall|j: int| 0 <= j < n implies #[trigger] next.turns2[j] == TurnRecord::empty() by {
                if j < i {
                    assert(next.turns2[j] == st.turns2[j]);
                }
            }
        }
    }
}

} // verus!
