use vstd::prelude::*;

use crate::battle::{records, PlayerTurnResults};
use crate::matchmaking::Verdict;
use crate::status::{PlayerTurn, TurnRecord};

verus! {

/// The sum of the damage of a sequence of turn records.
pub open spec fn total_of(turns: Seq<TurnRecord>) -> int
    decreases turns.len(),
{
    if turns.len() == 0 {
        0
    } else {
        total_of(turns.drop_last()) + turns.last().damage
    }
}

/// A battle's outcome: each player's identity and turn records, and each
/// player's total damage (in ten-thousandths).
#[derive(Debug)]
pub struct BattleResult {
    pub user1: (uuid::Uuid, Vec<PlayerTurn>),
    pub user2: (uuid::Uuid, Vec<PlayerTurn>),
    pub user1_total_damage: i128,
    pub user2_total_damage: i128,
}

/// How the first player fares when the totals are `total1` against `total2`.
pub open spec fn verdict_of(total1: int, total2: int) -> Verdict {
    if total1 > total2 {
        Verdict::Win
    } else if total1 < total2 {
        Verdict::Lose
    } else {
        Verdict::Draw
    }
}

/// The sum of the damage of the turns.
pub fn total_damage(turns: &Vec<PlayerTurn>) -> (r: i128)
    ensures
        r == total_of(records(turns@)),
{
    let mut total: i128 = 0;
    let mut i: usize = 0;
    while i < turns.len()
        invariant
            0 <= i <= turns.len(),
            total == total_of(records(turns@).take(i as int)),
            -(i * 0x8000_0000_0000_0000) <= total <= i * 0x8000_0000_0000_0000,
        decreases turns.len() - i,
    {
        proof {
            let s = records(turns@);
            assert(s.take(i as int + 1).drop_last() =~= s.take(i as int));
            assert(i * 0x8000_0000_0000_0000 + 0x8000_0000_0000_0000 == (i + 1)
                * 0x8000_0000_0000_0000) by (nonlinear_arith);
            assert(i * 0x8000_0000_0000_0000 <= 0xffff_ffff_ffff_ffff * 0x8000_0000_0000_0000)
                by (nonlinear_arith)
                requires
                    i <= 0xffff_ffff_ffff_ffff,
            ;
        }
        total = total + turns[i].damage as i128;
        i = i + 1;
    }
    proof {
        assert(records(turns@).take(i as int) =~= records(turns@));
    }
    total
}

/// Collects both players' turns and totals their damage.
pub fn aggregate(user1_id: uuid::Uuid, user2_id: uuid::Uuid, results: PlayerTurnResults) -> (r:
    BattleResult)
    ensures
        r.user1.0 == user1_id,
        r.user2.0 == user2_id,
        records(r.user1.1@) == records(results.user1@),
        records(r.user2.1@) == records(results.user2@),
        r.user1_total_damage == total_of(records(results.user1@)),
        r.user2_total_damage == total_of(records(results.user2@)),
{
    let user1_total_damage = total_damage(&results.user1);
    let user2_total_damage = total_damage(&results.user2);
    BattleResult {
        user1: (user1_id, results.user1),
        user2: (user2_id, results.user2),
        user1_total_damage,
        user2_total_damage,
    }
}

impl BattleResult {
    /// How the first player fares: `Win` with more total damage than the
    /// second player, `Lose` with less, `Draw` with equal totals.
    pub fn verdict(&self) -> (r: Verdict)
        ensures
            r == verdict_of(self.user1_total_damage as int, self.user2_total_damage as int),
    {
        if self.user1_total_damage > self.user2_total_damage {
            Verdict::Win
        } else if self.user1_total_damage < self.user2_total_damage {
            Verdict::Lose
        } else {
            Verdict::Draw
        }
    }
}

} // verus!
