//! Verified core of the team-swapping records: the record types, the SQL
//! statements sent to the database with the values bound to them, and how the
//! rows that come back are turned into results.

pub mod rows;
pub mod statements;
pub mod teams;
pub mod timestamp;
pub mod types;

pub use types::{Member, SubmittedAnime, Team, TeamMembers, User};
