//! The statements that the library asks of storage, and what storage answers.

use vstd::prelude::*;
use crate::entity::{Member, NewMember, Team};

verus! {

/// The most members that one statement may bring.
pub const MEMBER_LIMIT: usize = 100;

/// The most teams that one statement may bring.
pub const TEAM_LIMIT: usize = 10;

/// One parameterized statement for storage to run.
#[derive(Debug, PartialEq, Eq)]
pub enum StorageCall {
    /// Up to `limit` members, of one team where `team_id` is given.
    LoadMembers { team_id: Option<i32>, limit: usize },
    /// Up to `limit` teams.
    LoadTeams { limit: usize },
    /// One insert of a member.
    InsertMember { data: NewMember },
}

/// Why storage gave no rows.
#[derive(Clone, Copy, Debug, PartialEq, Eq, Structural)]
pub enum StorageError {
    /// Storage could not be reached.
    Unreachable,
    /// Storage refused the statement.
    Rejected,
    /// The answer is not one to the statement that was asked.
    Unexpected,
}

/// What storage answered to one statement.
#[derive(Debug, PartialEq, Eq)]
pub enum StorageReply {
    Members(Vec<Member>),
    Teams(Vec<Team>),
    Inserted(Member),
    Failed(StorageError),
}

/// The members that a reply brings, where members were asked for: the
/// failure that storage reported, and `Unexpected` for any other answer.
pub open spec fn loaded_members(reply: StorageReply) -> Result<Seq<Member>, StorageError> {
    match reply {
        StorageReply::Members(rows) => Ok(rows@),
        StorageReply::Failed(error) => Err(error),
        _ => Err(StorageError::Unexpected),
    }
}

/// The teams that a reply brings, where teams were asked for.
pub open spec fn loaded_teams(reply: StorageReply) -> Result<Seq<Team>, StorageError> {
    match reply {
        StorageReply::Teams(rows) => Ok(rows@),
        StorageReply::Failed(error) => Err(error),
        _ => Err(StorageError::Unexpected),
    }
}

/// The member that a reply brings, where an insert was asked for.
pub open spec fn inserted_member(reply: StorageReply) -> Result<Member, StorageError> {
    match reply {
        StorageReply::Inserted(member) => Ok(member),
        StorageReply::Failed(error) => Err(error),
        _ => Err(StorageError::Unexpected),
    }
}

impl StorageReply {
    /// Reads the reply as one to a statement that loads members.
    pub fn into_members(self) -> (loaded: Result<Vec<Member>, StorageError>)
        ensures
            match loaded_members(self) {
                Ok(rows) => loaded matches Ok(brought) && brought@ == rows,
                Err(error) => loaded == Err::<Vec<Member>, StorageError>(error),
            },
    {
        match self {
            StorageReply::Members(rows) => Ok(rows),
            StorageReply::Failed(error) => Err(error),
            _ => Err(StorageError::Unexpected),
        }
    }

    /// Reads the reply as one to a statement that loads teams.
    pub fn into_teams(self) -> (loaded: Result<Vec<Team>, StorageError>)
        ensures
            match loaded_teams(self) {
                Ok(rows) => loaded matches Ok(brought) && brought@ == rows,
                Err(error) => loaded == Err::<Vec<Team>, StorageError>(error),
            },
    {
        match self {
            StorageReply::Teams(rows) => Ok(rows),
            StorageReply::Failed(error) => Err(error),
            _ => Err(StorageError::Unexpected),
        }
    }

    /// Reads the reply as one to an insert.
    pub fn into_inserted(self) -> (inserted: Result<Member, StorageError>)
        ensures
            inserted == inserted_member(self),
    {
        match self {
            StorageReply::Inserted(member) => Ok(member),
            StorageReply::Failed(error) => Err(error),
            _ => Err(StorageError::Unexpected),
        }
    }
}

/// Why no storage can be configured.
#[derive(Clone, Copy, Debug, PartialEq, Eq, Structural)]
pub enum ConfigError {
    /// The connection string is not set.
    MissingDatabaseUrl,
}

/// Where storage is, as read once when the process starts.
#[derive(Debug, PartialEq, Eq)]
pub struct Config {
    pub database_url: String,
}

impl Config {
    /// Takes the connection string as looked up in the process configuration.
    pub fn from_lookup(database_url: Option<String>) -> (config: Result<Config, ConfigError>)
        ensures
            match database_url {
                Some(url) => config == Ok::<Config, ConfigError>(Config { database_url: url }),
                None => config == Err::<Config, ConfigError>(ConfigError::MissingDatabaseUrl),
            },
    {
        match database_url {
            Some(url) => Ok(Config { database_url: url }),
            None => Err(ConfigError::MissingDatabaseUrl),
        }
    }
}

} // verus!
