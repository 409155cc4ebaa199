//! What the server's repositories decide about the outcomes of their
//! queries. The queries themselves run in the application.

use vstd::prelude::*;

verus! {

/// Errors of the repositories.
#[derive(Debug)]
pub enum RepositoryError {
    QueryFailed(String),
    NotFound,
    Duplicate(String),
}

impl RepositoryError {
    /// The error's text.
    pub open spec fn describe(&self) -> Seq<char> {
        match self {
            RepositoryError::QueryFailed(m) => "query failed: "@ + m@,
            RepositoryError::NotFound => "not found"@,
            RepositoryError::Duplicate(m) => "duplicate: "@ + m@,
        }
    }

    /// The error's text.
    pub fn message(&self) -> (s: String)
        ensures
            s@ == self.describe(),
    {
        match self {
            RepositoryError::QueryFailed(m) => String::from_str("query failed: ").concat(m.as_str()),
            RepositoryError::NotFound => String::from_str("not found"),
            RepositoryError::Duplicate(m) => String::from_str("duplicate: ").concat(m.as_str()),
        }
    }

    /// The error for a failed query, carrying the failure's text.
    pub fn query_failed(text: &str) -> (e: Self)
        ensures
            e matches RepositoryError::QueryFailed(m) && m@ == text@,
    {
        RepositoryError::QueryFailed(String::from_str(text))
    }

    /// The error for a failed creation of user `username`: a violated
    /// uniqueness constraint means the name is taken; any other failure is
    /// a failed query with its text.
    pub fn for_user_creation(username: &str, unique_violation: bool, text: &str) -> (e: Self)
        ensures
            unique_violation ==> (e matches RepositoryError::Duplicate(m) && m@ == "username '"@
                + username@ + "' already exists"@),
            !unique_violation ==> (e matches RepositoryError::QueryFailed(m) && m@ == text@),
    {
        if unique_violation {
            RepositoryError::Duplicate(
                String::from_str("username '").concat(username).concat("' already exists"),
            )
        } else {
            RepositoryError::QueryFailed(String::from_str(text))
        }
    }
}

/// The PostgreSQL repository of users.
#[derive(Debug, Clone, Copy)]
pub struct PgUserRepository;

/// The PostgreSQL repository of public keys.
#[derive(Debug, Clone, Copy)]
pub struct PgPublicKeyRepository;

/// The PostgreSQL repository of refresh tokens.
#[derive(Debug, Clone, Copy)]
pub struct PgRefreshTokenRepository;

/// The PostgreSQL repository of device registrations.
#[derive(Debug, Clone, Copy)]
pub struct PgDeviceRepository;

/// The PostgreSQL repository of the relay queue.
#[derive(Debug, Clone, Copy)]
pub struct PgRelayRepository;

/// The PostgreSQL repository of cloud backups.
#[derive(Debug, Clone, Copy)]
pub struct PgBackupRepository;

/// The outcome of an update or deletion of one row by its identifier: it
/// found nothing when no row was affected.
pub fn single_row_outcome(rows_affected: u64) -> (r: Result<(), RepositoryError>)
    ensures
        rows_affected == 0 ==> (r matches Err(RepositoryError::NotFound)),
        rows_affected != 0 ==> r is Ok,
{
    if rows_affected == 0 {
        Err(RepositoryError::NotFound)
    } else {
        Ok(())
    }
}

} // verus!
