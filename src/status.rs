use vstd::prelude::*;

use crate::effect::{Effect, Multiplier, ONE_WHOLE};

verus! {

/// The observable record of one player's turn. `damage` is in
/// ten-thousandths.
#[derive(Debug)]
pub struct PlayerTurn {
    pub card_name: Option<String>,
    pub card_effect: Option<String>,
    pub damage: i64,
    pub is_cancelled: bool,
}

/// What a turn record holds, with texts as characters.
pub struct TurnRecord {
    pub card_name: Option<Seq<char>>,
    pub card_effect: Option<Seq<char>>,
    pub damage: i64,
    pub is_cancelled: bool,
}

impl TurnRecord {
    /// The record of a turn in which no card was played.
    pub open spec fn empty() -> TurnRecord {
        TurnRecord { card_name: None, card_effect: None, damage: 0, is_cancelled: false }
    }
}

pub open spec fn text_view(t: Option<String>) -> Option<Seq<char>> {
    match t {
        Some(s) => Some(s@),
        None => None,
    }
}

impl View for PlayerTurn {
    type V = TurnRecord;

    open spec fn view(&self) -> TurnRecord {
        TurnRecord {
            card_name: text_view(self.card_name),
            card_effect: text_view(self.card_effect),
            damage: self.damage,
            is_cancelled: self.is_cancelled,
        }
    }
}

impl Default for PlayerTurn {
    fn default() -> (r: PlayerTurn)
        ensures
            r@ == TurnRecord::empty(),
    {
        PlayerTurn { card_name: None, card_effect: None, damage: 0, is_cancelled: false }
    }
}

impl Clone for PlayerTurn {
    fn clone(&self) -> (r: PlayerTurn)
        ensures
            r@ == self@,
    {
        PlayerTurn {
            card_name: match &self.card_name {
                Some(s) => Some(s.clone()),
                None => None,
            },
            card_effect: match &self.card_effect {
                Some(s) => Some(s.clone()),
                None => None,
            },
            damage: self.damage,
            is_cancelled: self.is_cancelled,
        }
    }
}

/// A player's running state during one battle: cumulative damage dealt (in
/// ten-thousandths), the multipliers in force this turn, this turn's damage
/// reduction (in hundredths), and the pending effect, if any.
#[derive(Clone, Copy, Debug, PartialEq, Eq, Structural)]
pub struct UserStatus {
    pub damage: i64,
    pub multiplier: Multiplier,
    pub damage_reduction: i64,
    pub effect: Option<Effect>,
}

impl UserStatus {
    /// The state at the start of a battle.
    pub open spec fn spec_default() -> UserStatus {
        UserStatus {
            damage: 0,
            multiplier: Multiplier::spec_default(),
            damage_reduction: 0,
            effect: None,
        }
    }
}

impl Default for UserStatus {
    fn default() -> (r: UserStatus)
        ensures
            r == UserStatus::spec_default(),
    {
        UserStatus {
            damage: 0,
            multiplier: Multiplier { damage: ONE_WHOLE, accuracy: ONE_WHOLE },
            damage_reduction: 0,
            effect: None,
        }
    }
}

} // verus!
