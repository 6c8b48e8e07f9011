use vstd::prelude::*;

use crate::catalog::same_text;
use crate::error::{AppError, NOT_FOUND};

verus! {

/// The name and description of a badge.
#[derive(Debug)]
pub struct BadgeInfo {
    pub name: String,
    pub description: String,
}

/// The kinds of badge a player can hold.
#[derive(Debug)]
pub enum BadgeType {
    NumberOne,
    TopPlayer,
    BestInSkill(SkillBadge),
    Unknown,
}

/// The badges for being best in one skill.
#[derive(Debug)]
pub enum SkillBadge {
    Strikes(BadgeInfo),
    Blocks(BadgeInfo),
    Sinawali(BadgeInfo),
    Unknown,
}

/// The skill badge table: for a skill, the variant's position in
/// `SkillBadge`, the badge's name and its description.
pub open spec fn skill_badge_table(skill: Seq<char>) -> Option<(nat, Seq<char>, Seq<char>)> {
    if skill == "strikes"@ {
        Some((0, "Offensive Prodigy"@, "Best in Strikes."@))
    } else if skill == "blocks"@ {
        Some((1, "Defense Juggernaut"@, "Best in Blocks."@))
    } else if skill == "forward_sinawali"@ || skill == "sinawali_variation"@ {
        Some((2, "Weaving Master"@, "Best in Sinawali."@))
    } else {
        None
    }
}

impl SkillBadge {
    /// The position of the variant in the enum; `Unknown` is last.
    pub open spec fn variant_index(self) -> nat {
        match self {
            SkillBadge::Strikes(_) => 0,
            SkillBadge::Blocks(_) => 1,
            SkillBadge::Sinawali(_) => 2,
            SkillBadge::Unknown => 3,
        }
    }

    /// The badge's name and description, or `None` for `Unknown`.
    pub open spec fn text(self) -> Option<(Seq<char>, Seq<char>)> {
        match self {
            SkillBadge::Strikes(i) | SkillBadge::Blocks(i) | SkillBadge::Sinawali(i) => Some(
                (i.name@, i.description@),
            ),
            SkillBadge::Unknown => None,
        }
    }

    /// Whether this is the badge the table gives for `skill`.
    pub open spec fn is_badge_for(self, skill: Seq<char>) -> bool {
        match skill_badge_table(skill) {
            Some((v, name, description)) => self.variant_index() == v && self.text() == Some(
                (name, description),
            ),
            None => self is Unknown,
        }
    }

    /// The badge for being best in `skill`.
    pub fn new(skill: &str) -> (r: SkillBadge)
        ensures
            r.is_badge_for(skill@),
    {
        if same_text(skill, "strikes") {
            SkillBadge::Strikes(
                BadgeInfo {
                    name: "Offensive Prodigy".to_owned(),
                    description: "Best in Strikes.".to_owned(),
                },
            )
        } else if same_text(skill, "blocks") {
            SkillBadge::Blocks(
                BadgeInfo {
                    name: "Defense Juggernaut".to_owned(),
                    description: "Best in Blocks.".to_owned(),
                },
            )
        } else if same_text(skill, "forward_sinawali") || same_text(skill, "sinawali_variation") {
            SkillBadge::Sinawali(
                BadgeInfo {
                    name: "Weaving Master".to_owned(),
                    description: "Best in Sinawali.".to_owned(),
                },
            )
        } else {
            SkillBadge::Unknown
        }
    }
}

impl BadgeType {
    /// Whether this is the badge type named `name`.
    pub open spec fn is_type_named(self, name: Seq<char>) -> bool {
        if name == "Invincible Under the Sun"@ {
            self is NumberOne
        } else if name == "Uncrowned Kings/Queens"@ {
            self is TopPlayer
        } else if name == "Offensive Prodigy"@ {
            self matches BadgeType::BestInSkill(b) && b.is_badge_for("strikes"@)
        } else if name == "Defense Juggernaut"@ {
            self matches BadgeType::BestInSkill(b) && b.is_badge_for("blocks"@)
        } else if name == "Weaving Master"@ {
            self matches BadgeType::BestInSkill(b) && b.is_badge_for("forward_sinawali"@)
        } else {
            self is Unknown
        }
    }

    /// The name and description of the badge, or the message of the error
    /// for a badge that does not exist.
    pub open spec fn info_text(self) -> Result<(Seq<char>, Seq<char>), Seq<char>> {
        match self {
            BadgeType::NumberOne => Ok(("Invincible Under the Sun"@, "Top 1 Player."@)),
            BadgeType::TopPlayer => Ok(("Uncrowned Kings/Queens"@, "Top 2-10 Players."@)),
            BadgeType::BestInSkill(b) => match b.text() {
                Some(t) => Ok(t),
                None => Err("Invalid skill badge."@),
            },
            BadgeType::Unknown => Err("Invalid badge type."@),
        }
    }

    /// The badge type with the badge name `name`.
    pub fn new(name: &str) -> (r: BadgeType)
        ensures
            r.is_type_named(name@),
    {
        if same_text(name, "Invincible Under the Sun") {
            BadgeType::NumberOne
        } else if same_text(name, "Uncrowned Kings/Queens") {
            BadgeType::TopPlayer
        } else if same_text(name, "Offensive Prodigy") {
            BadgeType::BestInSkill(SkillBadge::new("strikes"))
        } else if same_text(name, "Defense Juggernaut") {
            BadgeType::BestInSkill(SkillBadge::new("blocks"))
        } else if same_text(name, "Weaving Master") {
            BadgeType::BestInSkill(SkillBadge::new("forward_sinawali"))
        } else {
            BadgeType::Unknown
        }
    }

    /// The name and description of a badge; a not-found error for an
    /// unknown badge.
    pub fn info(badge: BadgeType) -> (r: Result<BadgeInfo, AppError>)
        ensures
            badge_info_result(badge, r),
    {
        BadgeInfo::new(badge)
    }
}

/// Whether `r` holds the name and description of `badge`, or the not-found
/// error that an unknown badge gives.
pub open spec fn badge_info_result(badge: BadgeType, r: Result<BadgeInfo, AppError>) -> bool {
    match badge.info_text() {
        Ok((name, description)) => r matches Ok(i) && i.name@ == name && i.description@
            == description,
        Err(message) => r matches Err(e) && e.code == NOT_FOUND && e.message@ == message,
    }
}

impl BadgeInfo {
    /// The name and description of a badge; a not-found error for an
    /// unknown badge.
    pub fn new(badge_type: BadgeType) -> (r: Result<BadgeInfo, AppError>)
        ensures
            badge_info_result(badge_type, r),
    {
        match badge_type {
            BadgeType::NumberOne => Ok(
                BadgeInfo {
                    name: "Invincible Under the Sun".to_owned(),
                    description: "Top 1 Player.".to_owned(),
                },
            ),
            BadgeType::TopPlayer => Ok(
                BadgeInfo {
                    name: "Uncrowned Kings/Queens".to_owned(),
                    description: "Top 2-10 Players.".to_owned(),
                },
            ),
            BadgeType::BestInSkill(skill_badge) => match skill_badge {
                SkillBadge::Blocks(info) | SkillBadge::Strikes(info) | SkillBadge::Sinawali(
                    info,
                ) => Ok(info),
                SkillBadge::Unknown => Err(AppError::new(NOT_FOUND, "Invalid skill badge.")),
            },
            BadgeType::Unknown => Err(AppError::new(NOT_FOUND, "Invalid badge type.")),
        }
    }
}

} // verus!
