//! What goes wrong when an action is handled.
use vstd::prelude::*;

use crate::db::{DatabaseResult, DbError};
use crate::p2p::{P2pError, P2pResult};

verus! {

/// Why an action failed. Underlying errors of others are kept as their texts.
#[allow(inconsistent_fields)]
#[derive(Debug)]
pub enum FilerequestError {
    DatabaseError(DbError),
    InternalCommunicationError(String),
    P2pNodeError(P2pError),
    GenericError { msg: String, source: Option<String> },
    HostError { source: String },
    InputError(String),
}

pub type FilerequestResult<T> = Result<T, FilerequestError>;

impl FilerequestError {
    pub open spec fn text(self) -> Seq<char> {
        match self {
            FilerequestError::DatabaseError(error) => "Database error: "@ + error@.text(),
            FilerequestError::InternalCommunicationError(error) =>
                "Internal communication error: "@ + error@,
            FilerequestError::P2pNodeError(error) => "P2p node error: "@ + error.text(),
            FilerequestError::GenericError { msg, .. } => "Generic error: "@ + msg@,
            FilerequestError::HostError { source } => "Host error: "@ + source@,
            FilerequestError::InputError(error) => "Input error: "@ + error@,
        }
    }

    /// Whether the error has no cause that is known, only a message.
    pub open spec fn is_generic(self, message: Seq<char>) -> bool {
        self matches FilerequestError::GenericError { msg, source: None } && msg@ == message
    }

    /// Whether the store refused what was asked for, with a message.
    pub open spec fn is_validation(self, text: Seq<char>) -> bool {
        self matches FilerequestError::DatabaseError(DbError::Validation { message }) && message@
            == text
    }

    pub fn to_text(&self) -> (r: String)
        ensures
            r@ == self.text(),
    {
        match self {
            FilerequestError::DatabaseError(error) => "Database error: ".to_owned().concat(
                error.to_text().as_str(),
            ),
            FilerequestError::InternalCommunicationError(error) =>
                "Internal communication error: ".to_owned().concat(error.as_str()),
            FilerequestError::P2pNodeError(error) => "P2p node error: ".to_owned().concat(
                error.to_text().as_str(),
            ),
            FilerequestError::GenericError { msg, .. } => "Generic error: ".to_owned().concat(
                msg.as_str(),
            ),
            FilerequestError::HostError { source } => "Host error: ".to_owned().concat(
                source.as_str(),
            ),
            FilerequestError::InputError(error) => "Input error: ".to_owned().concat(
                error.as_str(),
            ),
        }
    }
}

impl From<DbError> for FilerequestError {
    fn from(error: DbError) -> (r: Self) {
        FilerequestError::DatabaseError(error)
    }
}

impl vstd::std_specs::convert::FromSpecImpl<DbError> for FilerequestError {
    open spec fn obeys_from_spec() -> bool {
        true
    }

    open spec fn from_spec(error: DbError) -> Self {
        FilerequestError::DatabaseError(error)
    }
}

impl From<P2pError> for FilerequestError {
    fn from(error: P2pError) -> (r: Self) {
        FilerequestError::P2pNodeError(error)
    }
}

impl vstd::std_specs::convert::FromSpecImpl<P2pError> for FilerequestError {
    open spec fn obeys_from_spec() -> bool {
        true
    }

    open spec fn from_spec(error: P2pError) -> Self {
        FilerequestError::P2pNodeError(error)
    }
}

/// What the store answered, as the answer to an action.
pub open spec fn of_db<T>(result: DatabaseResult<T>) -> FilerequestResult<T> {
    match result {
        Ok(value) => Ok(value),
        Err(error) => Err(FilerequestError::DatabaseError(error)),
    }
}

pub fn map_db<T>(result: DatabaseResult<T>) -> (r: FilerequestResult<T>)
    ensures
        r == of_db(result),
{
    match result {
        Ok(value) => Ok(value),
        Err(error) => Err(FilerequestError::from(error)),
    }
}

/// What the network node answered, as the answer to an action.
pub open spec fn of_p2p<T>(result: P2pResult<T>) -> FilerequestResult<T> {
    match result {
        Ok(value) => Ok(value),
        Err(error) => Err(FilerequestError::P2pNodeError(error)),
    }
}

pub fn map_p2p<T>(result: P2pResult<T>) -> (r: FilerequestResult<T>)
    ensures
        r == of_p2p(result),
{
    match result {
        Ok(value) => Ok(value),
        Err(error) => Err(FilerequestError::from(error)),
    }
}

} // verus!
