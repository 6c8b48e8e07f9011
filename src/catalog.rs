use vstd::prelude::*;

use crate::effect::{Change, Effect, Stat, Target};
use crate::error::{AppError, INTERNAL_SERVER_ERROR};

verus! {

/// Largest base damage a strike may carry, in hundredths (10000.00).
pub const MAX_BASE_DAMAGE: u32 = 1_000_000;

/// Combat statistics of a strike. `damage` and `accuracy` are in hundredths.
#[derive(Debug)]
pub struct StrikeStat {
    pub name: String,
    pub damage: u32,
    pub accuracy: u32,
    pub effect: Effect,
}

/// A strike card: one variant per move of the catalog, and `Unknown` for a
/// name the catalog does not hold.
#[derive(Debug)]
pub enum Strike {
    LegStrike(StrikeStat),
    TempleStrike(StrikeStat),
    ShoulderStrike(StrikeStat),
    ShoulderThrust(StrikeStat),
    EyePoke(StrikeStat),
    StomachThrust(StrikeStat),
    HeadStrike(StrikeStat),
    Unknown,
}

/// Counter statistics of a block. `damage_reduction` is in hundredths.
#[derive(Debug)]
pub struct BlockStat {
    pub name: String,
    pub damage_reduction: u32,
    pub strike_to_cancel: Strike,
    pub effect: Effect,
}

/// A block card: one variant per move of the catalog, and `Unknown` for a
/// name the catalog does not hold.
#[derive(Debug)]
pub enum Block {
    LegStrike(BlockStat),
    TempleStrike(BlockStat),
    ShoulderStrike(BlockStat),
    ShoulderThrust(BlockStat),
    EyePoke(BlockStat),
    StomachThrust(BlockStat),
    HeadStrike(BlockStat),
    Unknown,
}

/// A card played in one turn.
#[derive(Debug)]
pub enum Card {
    Strike(Strike),
    Block(Block),
}

/// What a strike's statistics are, with the name as characters.
pub struct StrikeStatView {
    pub name: Seq<char>,
    pub damage: u32,
    pub accuracy: u32,
    pub effect: Effect,
}

impl View for StrikeStat {
    type V = StrikeStatView;

    open spec fn view(&self) -> StrikeStatView {
        StrikeStatView {
            name: self.name@,
            damage: self.damage,
            accuracy: self.accuracy,
            effect: self.effect,
        }
    }
}

pub open spec fn effect(action: Change, amount: u32, stat: Stat, target: Target) -> Effect {
    Effect { action, amount, stat, target }
}

/// The strike table: for a move name, the variant's position in `Strike`,
/// the base damage, the base accuracy and the effect.
pub open spec fn strike_table(name: Seq<char>) -> Option<(nat, u32, u32, Effect)> {
    if name == "leg_strike"@ {
        Some((0, 500, 90, effect(Change::Increase, 50, Stat::Accuracy, Target::Owner)))
    } else if name == "temple_strike"@ {
        Some((1, 1000, 75, effect(Change::Decrease, 50, Stat::Accuracy, Target::Opponent)))
    } else if name == "shoulder_strike"@ {
        Some((2, 1000, 80, effect(Change::Decrease, 10, Stat::Accuracy, Target::Opponent)))
    } else if name == "shoulder_thrust"@ {
        Some((3, 800, 85, effect(Change::Decrease, 10, Stat::Accuracy, Target::Opponent)))
    } else if name == "eye_poke"@ {
        Some((4, 1200, 60, effect(Change::Decrease, 15, Stat::Accuracy, Target::Opponent)))
    } else if name == "stomach_thrust"@ {
        Some((5, 1000, 85, effect(Change::Increase, 50, Stat::Damage, Target::Owner)))
    } else if name == "head_strike"@ {
        Some((6, 1800, 50, effect(Change::Decrease, 15, Stat::Accuracy, Target::Opponent)))
    } else {
        None
    }
}

/// The block table: for a move name, the variant's position in `Block`, the
/// block's own name, its damage reduction and its effect. The strike it
/// cancels is the strike of the same move name.
pub open spec fn block_table(name: Seq<char>) -> Option<(nat, Seq<char>, u32, Effect)> {
    if name == "leg_strike"@ {
        Some((0, "leg_strike_block"@, 10, effect(Change::Increase, 10, Stat::Accuracy, Target::Owner)))
    } else if name == "temple_strike"@ {
        Some((1, "temple_strike_block"@, 15, effect(Change::Decrease, 10, Stat::Accuracy, Target::Opponent)))
    } else if name == "shoulder_strike"@ {
        Some((2, "shoulder_strike_block"@, 15, effect(Change::Increase, 50, Stat::Damage, Target::Owner)))
    } else if name == "shoulder_thrust"@ {
        Some((3, "shoulder_thrust_block"@, 15, effect(Change::Decrease, 10, Stat::Accuracy, Target::Opponent)))
    } else if name == "eye_poke"@ {
        Some((4, "eye_poke_block"@, 15, effect(Change::Decrease, 10, Stat::Damage, Target::Opponent)))
    } else if name == "stomach_thrust"@ {
        Some((5, "stomach_thrust_block"@, 15, effect(Change::Increase, 50, Stat::Damage, Target::Owner)))
    } else if name == "head_strike"@ {
        Some((6, "head_strike_block"@, 15, effect(Change::Decrease, 20, Stat::Damage, Target::Opponent)))
    } else {
        None
    }
}

impl Strike {
    /// The position of the variant in the enum; `Unknown` is last.
    pub open spec fn variant_index(self) -> nat {
        match self {
            Strike::LegStrike(_) => 0,
            Strike::TempleStrike(_) => 1,
            Strike::ShoulderStrike(_) => 2,
            Strike::ShoulderThrust(_) => 3,
            Strike::EyePoke(_) => 4,
            Strike::StomachThrust(_) => 5,
            Strike::HeadStrike(_) => 6,
            Strike::Unknown => 7,
        }
    }

    /// The statistics, or `None` for `Unknown`.
    pub open spec fn stat(self) -> Option<StrikeStat> {
        match self {
            Strike::LegStrike(s) | Strike::TempleStrike(s) | Strike::ShoulderStrike(s)
            | Strike::ShoulderThrust(s) | Strike::EyePoke(s) | Strike::StomachThrust(s)
            | Strike::HeadStrike(s) => Some(s),
            Strike::Unknown => None,
        }
    }

    /// The move name, or `None` for `Unknown`.
    pub open spec fn move_name(self) -> Option<Seq<char>> {
        match self.stat() {
            Some(s) => Some(s.name@),
            None => None,
        }
    }

    /// Whether this is the strike that the catalog gives for `name`.
    pub open spec fn is_catalog_strike(self, name: Seq<char>) -> bool {
        match strike_table(name) {
            Some((v, damage, accuracy, effect)) => {
                &&& self.variant_index() == v
                &&& self.stat() is Some
                &&& self.stat().unwrap()@ == (StrikeStatView { name, damage, accuracy, effect })
            },
            None => self is Unknown,
        }
    }

    /// Whether a block whose `strike_to_cancel` is `to_cancel` cancels this
    /// strike: both are known moves with the same name.
    pub open spec fn cancelled_by(self, to_cancel: Strike) -> bool {
        &&& self.move_name() is Some
        &&& self.move_name() == to_cancel.move_name()
    }

    /// Looks a strike up in the catalog by move name.
    pub fn new(name: &str) -> (r: Strike)
        ensures
            r.is_catalog_strike(name@),
    {
        if same_text(name, "leg_strike") {
            Strike::LegStrike(StrikeStat {
                name: name.to_owned(),
                accuracy: 90,
                damage: 500,
                effect: Effect {
                    action: Change::Increase,
                    amount: 50,
                    stat: Stat::Accuracy,
                    target: Target::Owner,
                },
            })
        } else if same_text(name, "temple_strike") {
            Strike::TempleStrike(StrikeStat {
                name: name.to_owned(),
                accuracy: 75,
                damage: 1000,
                effect: Effect {
                    action: Change::Decrease,
                    amount: 50,
                    stat: Stat::Accuracy,
                    target: Target::Opponent,
                },
            })
        } else if same_text(name, "shoulder_strike") {
            Strike::ShoulderStrike(StrikeStat {
                name: name.to_owned(),
                accuracy: 80,
                damage: 1000,
                effect: Effect {
                    action: Change::Decrease,
                    amount: 10,
                    stat: Stat::Accuracy,
                    target: Target::Opponent,
                },
            })
        } else if same_text(name, "shoulder_thrust") {
            Strike::ShoulderThrust(StrikeStat {
                name: name.to_owned(),
                damage: 800,
                accuracy: 85,
                effect: Effect {
                    action: Change::Decrease,
                    amount: 10,
                    stat: Stat::Accuracy,
                    target: Target::Opponent,
                },
            })
        } else if same_text(name, "eye_poke") {
            Strike::EyePoke(StrikeStat {
                name: name.to_owned(),
                damage: 1200,
                accuracy: 60,
                effect: Effect {
                    action: Change::Decrease,
                    amount: 15,
                    stat: Stat::Accuracy,
                    target: Target::Opponent,
                },
            })
        } else if same_text(name, "stomach_thrust") {
            Strike::StomachThrust(StrikeStat {
                name: name.to_owned(),
                damage: 1000,
                accuracy: 85,
                effect: Effect {
                    action: Change::Increase,
                    amount: 50,
                    stat: Stat::Damage,
                    target: Target::Owner,
                },
            })
        } else if same_text(name, "head_strike") {
            Strike::HeadStrike(StrikeStat {
                name: name.to_owned(),
                damage: 1800,
                accuracy: 50,
                effect: Effect {
                    action: Change::Decrease,
                    amount: 15,
                    stat: Stat::Accuracy,
                    target: Target::Opponent,
                },
            })
        } else {
            Strike::Unknown
        }
    }

    /// Whether a block that cancels `strike_to_cancel` cancels this strike.
    pub fn is_cancelled(&self, strike_to_cancel: Strike) -> (r: bool)
        ensures
            r == self.cancelled_by(strike_to_cancel),
    {
        match (self.stat_ref(), strike_to_cancel.stat_ref()) {
            (Some(mine), Some(other)) => mine.name == other.name,
            _ => false,
        }
    }

    /// The statistics, or `None` for `Unknown`.
    pub(crate) fn stat_ref(&self) -> (r: Option<&StrikeStat>)
        ensures
            r is Some <==> self.stat() is Some,
            r is Some ==> *r.unwrap() == self.stat().unwrap(),
    {
        match self {
            Strike::LegStrike(s) | Strike::TempleStrike(s) | Strike::ShoulderStrike(s)
            | Strike::ShoulderThrust(s) | Strike::EyePoke(s) | Strike::StomachThrust(s)
            | Strike::HeadStrike(s) => Some(s),
            Strike::Unknown => None,
        }
    }
}

impl Clone for StrikeStat {
    fn clone(&self) -> (r: StrikeStat)
        ensures
            r == *self,
    {
        StrikeStat {
            name: self.name.clone(),
            damage: self.damage,
            accuracy: self.accuracy,
            effect: self.effect,
        }
    }
}

impl Clone for Strike {
    fn clone(&self) -> (r: Strike)
        ensures
            r == *self,
    {
        match self {
            Strike::LegStrike(s) => Strike::LegStrike(s.clone()),
            Strike::TempleStrike(s) => Strike::TempleStrike(s.clone()),
            Strike::ShoulderStrike(s) => Strike::ShoulderStrike(s.clone()),
            Strike::ShoulderThrust(s) => Strike::ShoulderThrust(s.clone()),
            Strike::EyePoke(s) => Strike::EyePoke(s.clone()),
            Strike::StomachThrust(s) => Strike::StomachThrust(s.clone()),
            Strike::HeadStrike(s) => Strike::HeadStrike(s.clone()),
            Strike::Unknown => Strike::Unknown,
        }
    }
}

impl Clone for BlockStat {
    fn clone(&self) -> (r: BlockStat)
        ensures
            r == *self,
    {
        BlockStat {
            name: self.name.clone(),
            damage_reduction: self.damage_reduction,
            strike_to_cancel: self.strike_to_cancel.clone(),
            effect: self.effect,
        }
    }
}

impl Clone for Block {
    fn clone(&self) -> (r: Block)
        ensures
            r == *self,
    {
        match self {
            Block::LegStrike(s) => Block::LegStrike(s.clone()),
            Block::TempleStrike(s) => Block::TempleStrike(s.clone()),
            Block::ShoulderStrike(s) => Block::ShoulderStrike(s.clone()),
            Block::ShoulderThrust(s) => Block::ShoulderThrust(s.clone()),
            Block::EyePoke(s) => Block::EyePoke(s.clone()),
            Block::StomachThrust(s) => Block::StomachThrust(s.clone()),
            Block::HeadStrike(s) => Block::HeadStrike(s.clone()),
            Block::Unknown => Block::Unknown,
        }
    }
}

impl Clone for Card {
    fn clone(&self) -> (r: Card)
        ensures
            r == *self,
    {
        match self {
            Card::Strike(s) => Card::Strike(s.clone()),
            Card::Block(b) => Card::Block(b.clone()),
        }
    }
}

impl Block {
    /// The position of the variant in the enum; `Unknown` is last.
    pub open spec fn variant_index(self) -> nat {
        match self {
            Block::LegStrike(_) => 0,
            Block::TempleStrike(_) => 1,
            Block::ShoulderStrike(_) => 2,
            Block::ShoulderThrust(_) => 3,
            Block::EyePoke(_) => 4,
            Block::StomachThrust(_) => 5,
            Block::HeadStrike(_) => 6,
            Block::Unknown => 7,
        }
    }

    /// The statistics, or `None` for `Unknown`.
    pub open spec fn stat(self) -> Option<BlockStat> {
        match self {
            Block::LegStrike(s) | Block::TempleStrike(s) | Block::ShoulderStrike(s)
            | Block::ShoulderThrust(s) | Block::EyePoke(s) | Block::StomachThrust(s)
            | Block::HeadStrike(s) => Some(s),
            Block::Unknown => None,
        }
    }

    /// Whether this is the block that the catalog gives for `name`.
    pub open spec fn is_catalog_block(self, name: Seq<char>) -> bool {
        match block_table(name) {
            Some((v, block_name, damage_reduction, effect)) => {
                &&& self.variant_index() == v
                &&& self.stat() is Some
                &&& self.stat().unwrap().name@ == block_name
                &&& self.stat().unwrap().damage_reduction == damage_reduction
                &&& self.stat().unwrap().effect == effect
                &&& self.stat().unwrap().strike_to_cancel.is_catalog_strike(name)
            },
            None => self is Unknown,
        }
    }

    /// Looks a block up in the catalog by the name of the move it counters.
    pub fn new(name: &str) -> (r: Block)
        ensures
            r.is_catalog_block(name@),
    {
        if same_text(name, "leg_strike") {
            Block::LegStrike(BlockStat {
                name: "leg_strike_block".to_owned(),
                damage_reduction: 10,
                strike_to_cancel: Strike::new(name),
                effect: Effect {
                    action: Change::Increase,
                    amount: 10,
                    stat: Stat::Accuracy,
                    target: Target::Owner,
                },
            })
        } else if same_text(name, "temple_strike") {
            Block::TempleStrike(BlockStat {
                name: "temple_strike_block".to_owned(),
                damage_reduction: 15,
                strike_to_cancel: Strike::new(name),
                effect: Effect {
                    action: Change::Decrease,
                    amount: 10,
                    stat: Stat::Accuracy,
                    target: Target::Opponent,
                },
            })
        } else if same_text(name, "shoulder_strike") {
            Block::ShoulderStrike(BlockStat {
                name: "shoulder_strike_block".to_owned(),
                damage_reduction: 15,
                strike_to_cancel: Strike::new(name),
                effect: Effect {
                    action: Change::Increase,
                    amount: 50,
                    stat: Stat::Damage,
                    target: Target::Owner,
                },
            })
        } else if same_text(name, "shoulder_thrust") {
            Block::ShoulderThrust(BlockStat {
                name: "shoulder_thrust_block".to_owned(),
                damage_reduction: 15,
                strike_to_cancel: Strike::new(name),
                effect: Effect {
                    action: Change::Decrease,
                    amount: 10,
                    stat: Stat::Accuracy,
                    target: Target::Opponent,
                },
            })
        } else if same_text(name, "eye_poke") {
            Block::EyePoke(BlockStat {
                name: "eye_poke_block".to_owned(),
                damage_reduction: 15,
                strike_to_cancel: Strike::new(name),
                effect: Effect {
                    action: Change::Decrease,
                    amount: 10,
                    stat: Stat::Damage,
                    target: Target::Opponent,
                },
            })
        } else if same_text(name, "stomach_thrust") {
            Block::StomachThrust(BlockStat {
                name: "stomach_thrust_block".to_owned(),
                damage_reduction: 15,
                strike_to_cancel: Strike::new(name),
                effect: Effect {
                    action: Change::Increase,
                    amount: 50,
                    stat: Stat::Damage,
                    target: Target::Owner,
                },
            })
        } else if same_text(name, "head_strike") {
            Block::HeadStrike(BlockStat {
                name: "head_strike_block".to_owned(),
                damage_reduction: 15,
                strike_to_cancel: Strike::new(name),
                effect: Effect {
                    action: Change::Decrease,
                    amount: 20,
                    stat: Stat::Damage,
                    target: Target::Opponent,
                },
            })
        } else {
            Block::Unknown
        }
    }

    /// A copy of the statistics; an error for `Unknown`.
    pub fn get_stat(&self) -> (r: Result<BlockStat, AppError>)
        ensures
            self.stat() is Some <==> r is Ok,
            r is Ok ==> r->Ok_0 == self.stat().unwrap(),
            r is Err ==> r->Err_0.code == INTERNAL_SERVER_ERROR,
            r is Err ==> r->Err_0.message@ == "Unknown block battle card."@,
    {
        match self.stat_ref() {
            Some(s) => Ok(s.clone()),
            None => Err(AppError::new(INTERNAL_SERVER_ERROR, "Unknown block battle card.")),
        }
    }

    /// The statistics, or `None` for `Unknown`.
    pub(crate) fn stat_ref(&self) -> (r: Option<&BlockStat>)
        ensures
            r is Some <==> self.stat() is Some,
            r is Some ==> *r.unwrap() == self.stat().unwrap(),
    {
        match self {
            Block::LegStrike(s) | Block::TempleStrike(s) | Block::ShoulderStrike(s)
            | Block::ShoulderThrust(s) | Block::EyePoke(s) | Block::StomachThrust(s)
            | Block::HeadStrike(s) => Some(s),
            Block::Unknown => None,
        }
    }
}

/// Whether two texts hold the same characters.
pub(crate) fn same_text(a: &str, b: &str) -> (r: bool)
    ensures
        r == (a@ == b@),
{
    a.to_owned() == b.to_owned()
}

} // verus!
