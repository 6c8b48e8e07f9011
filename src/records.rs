//! The plain records that the competition's web interface reads and writes
//! around the battle engine: match queries and comments, sections, rubrics
//! and user queries.

use vstd::prelude::*;

verus! {

/// Which columns of a user's matches to fetch, and how many matches.
#[derive(Debug)]
pub struct UserMatchQuery {
    pub fields: Option<String>,
    pub limit: Option<i32>,
}

/// A comment left on a match.
#[derive(Debug)]
pub struct Comment {
    pub comment: String,
}

/// What a player sees of their latest opponent.
#[derive(Debug)]
pub struct LatestOpponentData {
    pub first_name: String,
    pub last_name: String,
    pub score: i32,
    pub avatar_url: Option<String>,
    pub banner_url: Option<String>,
}

/// A new status for a match.
#[derive(Debug)]
pub struct UpdateMatchStatus {
    pub status: String,
}

/// The highest set number played in a section.
#[derive(Debug)]
pub struct MaxSet {
    pub section: String,
    pub max_set: i32,
}

/// The section and arnis skill a round of matches is made for.
#[derive(Debug)]
pub struct Arnis {
    pub section: String,
    pub skill: String,
}

/// A scoring rubric.
#[derive(Debug)]
pub struct Rubric {
    pub id: i64,
    pub title: String,
    pub description: Option<String>,
    pub max_score: i16,
}

/// A rubric to create.
#[derive(Debug)]
pub struct CreateRubric {
    pub title: String,
    pub description: Option<String>,
    pub max_score: i16,
}

/// A section of players.
#[derive(Debug)]
pub struct Section {
    pub id: String,
    pub name: String,
    pub user_limit: i32,
}

/// A section with the number of players in it.
#[derive(Debug)]
pub struct SectionWithUserCount {
    pub id: String,
    pub name: String,
    pub user_limit: i32,
    pub user_count: i64,
}

/// A section to create.
#[derive(Debug)]
pub struct CreateSection {
    pub name: String,
    pub user_limit: i32,
}

/// Filters, order and paging for a list of users.
#[derive(Debug)]
pub struct UsersQuery {
    pub section: Option<String>,
    pub order_by: Option<String>,
    pub order: Option<String>,
    pub limit: Option<u32>,
    pub skip: Option<u32>,
    pub fields: Option<String>,
}

/// The number of users.
#[derive(Debug)]
pub struct UserCount {
    pub total: i64,
}

/// Whether to fetch only a user's name.
#[derive(Debug)]
pub struct UserQuery {
    pub filter: Option<String>,
}

/// A user's name.
#[derive(Debug)]
pub struct UserName {
    pub first_name: String,
    pub last_name: String,
}

/// The fields of a user to change; `None` keeps the current value.
#[derive(Debug)]
pub struct UpdateUser {
    pub email: Option<String>,
    pub section: Option<String>,
    pub first_name: Option<String>,
    pub last_name: Option<String>,
    pub age: Option<i32>,
    pub contact_number: Option<String>,
    pub sex: Option<i16>,
    pub score: Option<i32>,
    pub role: Option<String>,
}

/// Which image column of a user to change.
#[derive(Debug)]
pub struct UpdateQuery {
    pub column: String,
}

/// Whether a user's profile is private.
#[derive(Debug)]
pub struct UpdatePrivateStatus {
    pub is_private: bool,
}

/// Whether deleting users also deletes their matches and battle history.
#[derive(Debug)]
pub struct DeleteUserQuery {
    pub force: bool,
}

} // verus!
