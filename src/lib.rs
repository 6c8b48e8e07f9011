//! Card battle engine for a martial-arts skill competition, with the small
//! pieces of pure logic that surround it (badges, power cards, pairing).
//!
//! Stats are fixed-point numbers in hundredths: an accuracy of `90` means
//! 0.90, a base damage of `500` means 5.00. A product of two such numbers is
//! in ten-thousandths: that is the unit of dealt damage and of accuracy rolls.

pub mod aggregate;
pub mod badge;
pub mod battle;
pub mod catalog;
pub mod effect;
pub mod error;
pub mod laws;
pub mod matchmaking;
pub mod power_card;
pub mod records;
pub mod resolver;
pub mod status;
pub mod submission;
mod text;

pub use aggregate::{aggregate, total_damage, BattleResult};
pub use badge::{BadgeInfo, BadgeType, SkillBadge};
pub use battle::{player_turn, BattleError, PlayerTurnResults, NUMBER_OF_CARDS};
pub use catalog::{Block, BlockStat, Card, Strike, StrikeStat, MAX_BASE_DAMAGE};
pub use effect::{Change, Effect, Multiplier, Stat, Target, ONE_WHOLE};
pub use error::{AppError, INTERNAL_SERVER_ERROR, NOT_FOUND};
pub use matchmaking::{generate_pairs, pair_off, MatchPayload, Status, Verdict};
pub use power_card::PowerCard;
pub use records::{
    Arnis, Comment, CreateRubric, CreateSection, DeleteUserQuery, LatestOpponentData, MaxSet,
    Rubric, Section, SectionWithUserCount, UpdateMatchStatus, UpdatePrivateStatus, UpdateQuery,
    UpdateUser, UserCount, UserMatchQuery, UserName, UserQuery, UsersQuery,
};
pub use status::{PlayerTurn, TurnRecord, UserStatus};
pub use submission::{card_battle, draw_rolls, get_cards, simulate_match, ROLL_RANGE};
