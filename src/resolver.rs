use vstd::prelude::*;

use crate::catalog::{Block, BlockStat, Card, Strike, StrikeStat};
use crate::effect::fits_i64;
use crate::error::{AppError, INTERNAL_SERVER_ERROR};
use crate::status::{PlayerTurn, TurnRecord, UserStatus};

verus! {

/// The card behind a borrowed optional card.
pub open spec fn card_of(card: Option<&Card>) -> Option<Card> {
    match card {
        Some(c) => Some(*c),
        None => None,
    }
}

/// The statistics of the opponent's card when it is a known block.
pub open spec fn opposing_block(opponent_card: Option<Card>) -> Option<BlockStat> {
    match opponent_card {
        Some(Card::Block(b)) => b.stat(),
        _ => None,
    }
}

/// The damage reduction (in hundredths) that the opponent's card puts up
/// against a strike this turn: that of a known block, else zero.
pub open spec fn opposing_reduction(opponent_card: Option<Card>) -> int {
    match opposing_block(opponent_card) {
        Some(b) => b.damage_reduction as int,
        None => 0,
    }
}

/// Whether the opponent's card cancels `strike`.
pub open spec fn strike_is_cancelled(strike: Strike, opponent_card: Option<Card>) -> bool {
    match opposing_block(opponent_card) {
        Some(b) => strike.cancelled_by(b.strike_to_cancel),
        None => false,
    }
}

/// Accuracy after the multiplier, in ten-thousandths.
pub open spec fn effective_accuracy(stat: StrikeStat, user: UserStatus) -> int {
    stat.accuracy * user.multiplier.accuracy
}

/// Damage of a hit, in ten-thousandths.
pub open spec fn effective_damage(stat: StrikeStat, user: UserStatus, reduction: int) -> int {
    stat.damage * (user.multiplier.damage - reduction)
}

/// Whether the arithmetic of a strike stays within `i64`.
pub open spec fn strike_fits(stat: StrikeStat, user: UserStatus, opponent_card: Option<Card>) -> bool {
    let reduction = opposing_reduction(opponent_card);
    &&& fits_i64(effective_accuracy(stat, user))
    &&& fits_i64(user.multiplier.damage - reduction)
    &&& fits_i64(effective_damage(stat, user, reduction))
    &&& fits_i64(user.damage + effective_damage(stat, user, reduction))
}

/// Whether a strike that is not cancelled hits with the accuracy roll `roll`
/// (in ten-thousandths).
pub open spec fn strike_hits(stat: StrikeStat, user: UserStatus, roll: u32) -> bool {
    roll <= effective_accuracy(stat, user)
}

/// A strike resolved against the opponent's card: the striker's new state,
/// the striker's turn record and the opponent's new state.
pub open spec fn strike_outcome(
    strike: Strike,
    stat: StrikeStat,
    user: UserStatus,
    opponent_card: Option<Card>,
    opponent: UserStatus,
    roll: u32,
) -> (UserStatus, TurnRecord, UserStatus) {
    let reduction = opposing_reduction(opponent_card);
    let cancelled = strike_is_cancelled(strike, opponent_card);
    let hit = !cancelled && strike_hits(stat, user, roll);
    let damage = effective_damage(stat, user, reduction) as i64;
    let user_after = if hit {
        UserStatus {
            damage: (user.damage + damage) as i64,
            damage_reduction: 0,
            effect: Some(stat.effect),
            ..user
        }
    } else {
        UserStatus { damage_reduction: 0, ..user }
    };
    let record = TurnRecord {
        card_name: Some(stat.name@),
        card_effect: Some(stat.effect.summary_text()),
        damage: if hit { damage } else { 0 },
        is_cancelled: cancelled,
    };
    (user_after, record, UserStatus { damage_reduction: reduction as i64, ..opponent })
}

/// Whether a block cancels the opponent's card: a strike of the move it
/// counters.
pub open spec fn block_cancels(stat: BlockStat, opponent_card: Option<Card>) -> bool {
    match opponent_card {
        Some(Card::Strike(s)) => s.cancelled_by(stat.strike_to_cancel),
        _ => false,
    }
}

/// A block resolved against the opponent's card: the blocker's new state,
/// the blocker's turn record and the opponent's turn record.
pub open spec fn block_outcome(
    stat: BlockStat,
    user: UserStatus,
    opponent_card: Option<Card>,
    opponent_turn: TurnRecord,
) -> (UserStatus, TurnRecord, TurnRecord) {
    let cancels = block_cancels(stat, opponent_card);
    let user_after = UserStatus {
        damage_reduction: stat.damage_reduction as i64,
        effect: if cancels { Some(stat.effect) } else { user.effect },
        ..user
    };
    let record = TurnRecord {
        card_name: Some(stat.name@),
        card_effect: if cancels { Some(stat.effect.summary_text()) } else { None },
        damage: 0,
        is_cancelled: false,
    };
    let opponent_record = match opponent_card {
        Some(Card::Strike(_)) => TurnRecord { is_cancelled: cancels, ..opponent_turn },
        _ => opponent_turn,
    };
    (user_after, record, opponent_record)
}

impl Strike {
    /// Resolves this strike for one turn against the opponent's card, with
    /// the accuracy roll `roll` in ten-thousandths (drawn from `[0, 10000)`).
    /// A strike that the opponent's block cancels deals no damage whatever
    /// the roll; otherwise it hits when `roll` is at most the effective
    /// accuracy, credits the effective damage to the striker and queues its
    /// effect. `Unknown` is an error and changes nothing.
    pub fn simulate(
        &self,
        user_status: &mut UserStatus,
        user_turn: &mut PlayerTurn,
        opponent_card: Option<&Card>,
        opponent_status: &mut UserStatus,
        roll: u32,
    ) -> (r: Result<(), AppError>)
        requires
            self.stat() is Some ==> strike_fits(
                self.stat().unwrap(),
                *old(user_status),
                card_of(opponent_card),
            ),
        ensures
            r is Err <==> self is Unknown,
            r is Err ==> {
                &&& r->Err_0.code == INTERNAL_SERVER_ERROR
                &&& r->Err_0.message@ == "Unknown battle card."@
                &&& *final(user_status) == *old(user_status)
                &&& final(user_turn)@ == old(user_turn)@
                &&& *final(opponent_status) == *old(opponent_status)
            },
            r is Ok ==> (*final(user_status), final(user_turn)@, *final(opponent_status))
                == strike_outcome(
                *self,
                self.stat().unwrap(),
                *old(user_status),
                card_of(opponent_card),
                *old(opponent_status),
                roll,
            ),
    {
        match self.stat_ref() {
            Some(strike_stat) => {
                user_turn.card_name = Some(strike_stat.name.clone());
                user_turn.card_effect = Some(strike_stat.effect.summarize());
                opponent_status.damage_reduction = 0;
                user_status.damage_reduction = 0;

                let mut is_cancelled = false;
                if let Some(Card::Block(block)) = opponent_card {
                    if let Some(block_stat) = block.stat_ref() {
                        is_cancelled = self.is_cancelled(block_stat.strike_to_cancel.clone());
                        opponent_status.damage_reduction = block_stat.damage_reduction as i64;
                    }
                }
                user_turn.is_cancelled = is_cancelled;

                let accuracy = strike_stat.accuracy as i64 * user_status.multiplier.accuracy;
                let damage = strike_stat.damage as i64 * (user_status.multiplier.damage
                    - opponent_status.damage_reduction);

                if !is_cancelled && roll as i64 <= accuracy {
                    user_status.damage = user_status.damage + damage;
                    user_status.effect = Some(strike_stat.effect);
                    user_turn.damage = damage;
                } else {
                    user_turn.damage = 0;
                }
                Ok(())
            },
            None => Err(AppError::new(INTERNAL_SERVER_ERROR, "Unknown battle card.")),
        }
    }
}

impl Block {
    /// Resolves this block for one turn: it sets the blocker's damage
    /// reduction and, when the opponent plays the strike it counters, marks
    /// that strike cancelled and queues the block's effect. `Unknown` is an
    /// error and changes nothing.
    pub fn simulate(
        &self,
        user_status: &mut UserStatus,
        user_turn: &mut PlayerTurn,
        opponent_card: Option<&Card>,
        opponent_turn: &mut PlayerTurn,
    ) -> (r: Result<(), AppError>)
        ensures
            r is Err <==> self is Unknown,
            r is Err ==> {
                &&& r->Err_0.code == INTERNAL_SERVER_ERROR
                &&& r->Err_0.message@ == "Unknown block battle card."@
                &&& *final(user_status) == *old(user_status)
                &&& final(user_turn)@ == old(user_turn)@
                &&& final(opponent_turn)@ == old(opponent_turn)@
            },
            r is Ok ==> (*final(user_status), final(user_turn)@, final(opponent_turn)@)
                == block_outcome(
                self.stat().unwrap(),
                *old(user_status),
                card_of(opponent_card),
                old(opponent_turn)@,
            ),
    {
        match self.stat_ref() {
            Some(block_stat) => {
                user_status.damage_reduction = block_stat.damage_reduction as i64;
                user_turn.card_name = Some(block_stat.name.clone());
                user_turn.damage = 0;
                user_turn.is_cancelled = false;

                let mut cancels = false;
                if let Some(Card::Strike(strike)) = opponent_card {
                    cancels = strike.is_cancelled(block_stat.strike_to_cancel.clone());
                    opponent_turn.is_cancelled = cancels;
                }

                if cancels {
                    user_status.effect = Some(block_stat.effect);
                    user_turn.card_effect = Some(block_stat.effect.summarize());
                } else {
                    user_turn.card_effect = None;
                }
                Ok(())
            },
            None => Err(AppError::new(INTERNAL_SERVER_ERROR, "Unknown block battle card.")),
        }
    }
}

} // verus!
