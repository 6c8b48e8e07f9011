use vstd::prelude::*;

use crate::text::{hundredths_string, hundredths_text};

verus! {

/// The value `1.00` in hundredths.
pub const ONE_WHOLE: i64 = 100;

/// Whether an effect raises or lowers a stat.
#[derive(Clone, Copy, Debug, PartialEq, Eq, Structural)]
pub enum Change {
    Increase,
    Decrease,
}

/// The stat an effect modifies.
#[derive(Clone, Copy, Debug, PartialEq, Eq, Structural)]
pub enum Stat {
    Accuracy,
    Damage,
}

/// Whose multiplier an effect modifies: the player who played the card, or
/// that player's opponent.
#[derive(Clone, Copy, Debug, PartialEq, Eq, Structural)]
pub enum Target {
    Owner,
    Opponent,
}

/// A stat modification carried by a card. `amount` is in hundredths.
#[derive(Clone, Copy, Debug, PartialEq, Eq, Structural)]
pub struct Effect {
    pub action: Change,
    pub amount: u32,
    pub stat: Stat,
    pub target: Target,
}

/// Damage and accuracy multipliers, in hundredths.
#[derive(Clone, Copy, Debug, PartialEq, Eq, Structural)]
pub struct Multiplier {
    pub damage: i64,
    pub accuracy: i64,
}

impl Multiplier {
    /// Both multipliers at `1.00`.
    pub open spec fn spec_default() -> Multiplier {
        Multiplier { damage: ONE_WHOLE, accuracy: ONE_WHOLE }
    }
}

impl Default for Multiplier {
    fn default() -> (r: Multiplier)
        ensures
            r == Multiplier::spec_default(),
    {
        Multiplier { damage: ONE_WHOLE, accuracy: ONE_WHOLE }
    }
}

pub open spec fn fits_i64(x: int) -> bool {
    i64::MIN <= x <= i64::MAX
}

impl Effect {
    /// The amount with the sign of the action.
    pub open spec fn signed_amount(self) -> int {
        match self.action {
            Change::Increase => self.amount as int,
            Change::Decrease => -(self.amount as int),
        }
    }

    /// Whether applying this effect to `m` stays within `i64`.
    pub open spec fn can_apply(self, m: Multiplier) -> bool {
        match self.stat {
            Stat::Accuracy => fits_i64(m.accuracy + self.signed_amount()),
            Stat::Damage => fits_i64(m.damage + self.signed_amount()),
        }
    }

    /// `m` with the signed amount added to the multiplier of the effect's stat.
    pub open spec fn applied_to(self, m: Multiplier) -> Multiplier {
        match self.stat {
            Stat::Accuracy => Multiplier {
                accuracy: (m.accuracy + self.signed_amount()) as i64,
                ..m
            },
            Stat::Damage => Multiplier { damage: (m.damage + self.signed_amount()) as i64, ..m },
        }
    }

    /// The human-readable summary, e.g. `Increase user accuracy by 0.50%`.
    pub open spec fn summary_text(self) -> Seq<char> {
        change_word(self.action) + " "@ + target_word(self.target) + " "@ + stat_word(self.stat)
            + " by "@ + hundredths_text(self.amount as nat) + "%"@
    }

    /// Adds the signed amount to the multiplier of the effect's stat.
    pub fn change_stat(&self, multiplier: &mut Multiplier)
        requires
            self.can_apply(*old(multiplier)),
        ensures
            *final(multiplier) == self.applied_to(*old(multiplier)),
    {
        match self.stat {
            Stat::Accuracy => match self.action {
                Change::Decrease => {
                    multiplier.accuracy = multiplier.accuracy - self.amount as i64;
                },
                Change::Increase => {
                    multiplier.accuracy = multiplier.accuracy + self.amount as i64;
                },
            },
            Stat::Damage => match self.action {
                Change::Decrease => {
                    multiplier.damage = multiplier.damage - self.amount as i64;
                },
                Change::Increase => {
                    multiplier.damage = multiplier.damage + self.amount as i64;
                },
            },
        }
    }

    /// Describes the effect in words.
    pub fn summarize(&self) -> (r: String)
        ensures
            r@ == self.summary_text(),
    {
        let mut s = change_str(self.action).to_owned();
        s.append(" ");
        s.append(target_str(self.target));
        s.append(" ");
        s.append(stat_str(self.stat));
        s.append(" by ");
        let amount = hundredths_string(self.amount as u64);
        s.append(amount.as_str());
        s.append("%");
        s
    }
}

pub open spec fn change_word(c: Change) -> Seq<char> {
    match c {
        Change::Increase => "Increase"@,
        Change::Decrease => "Decrease"@,
    }
}

pub open spec fn target_word(t: Target) -> Seq<char> {
    match t {
        Target::Owner => "user"@,
        Target::Opponent => "opponent"@,
    }
}

pub open spec fn stat_word(s: Stat) -> Seq<char> {
    match s {
        Stat::Accuracy => "accuracy"@,
        Stat::Damage => "damage"@,
    }
}

fn change_str(c: Change) -> (r: &'static str)
    ensures
        r@ == change_word(c),
{
    match c {
        Change::Increase => "Increase",
        Change::Decrease => "Decrease",
    }
}

fn target_str(t: Target) -> (r: &'static str)
    ensures
        r@ == target_word(t),
{
    match t {
        Target::Owner => "user",
        Target::Opponent => "opponent",
    }
}

fn stat_str(s: Stat) -> (r: &'static str)
    ensures
        r@ == stat_word(s),
{
    match s {
        Stat::Accuracy => "accuracy",
        Stat::Damage => "damage",
    }
}

} // verus!
