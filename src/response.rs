use vstd::prelude::*;
use vstd::string::StringExecFns;

use crate::error::{BridgeError, InfraError};
use crate::models::DataError;

verus! {

/// The status code of a successful response.
pub const STATUS_OK: u16 = 200;

/// The status code of a response for a missing record.
pub const STATUS_NOT_FOUND: u16 = 404;

/// The status code of a response for any other failure.
pub const STATUS_INTERNAL_ERROR: u16 = 500;

impl InfraError {
    pub open spec fn description_spec(self) -> Seq<char> {
        match self {
            InfraError::PoolShutDown => "connection pool is shut down"@,
            InfraError::QueueClosed => "work queue is closed"@,
            InfraError::WorkerFailure => "worker failed while running the query"@,
        }
    }

    /// A textual description of the failure.
    pub fn description(&self) -> (r: String)
        ensures
            r@ == self.description_spec(),
    {
        match self {
            InfraError::PoolShutDown => String::from_str("connection pool is shut down"),
            InfraError::QueueClosed => String::from_str("work queue is closed"),
            InfraError::WorkerFailure => String::from_str("worker failed while running the query"),
        }
    }
}

/// An error response: its status code and its body.
#[derive(Clone, Debug, PartialEq, Eq)]
pub struct HttpFailure {
    pub status: u16,
    pub body: String,
}

/// "Not found" is answered with 404; every other failure, of the database or
/// of the bridge, with 500 and the failure's description.
pub open spec fn status_of(e: BridgeError<DataError>) -> u16 {
    match e {
        BridgeError::Domain(DataError::NotFound) => STATUS_NOT_FOUND,
        _ => STATUS_INTERNAL_ERROR,
    }
}

pub open spec fn body_of(e: BridgeError<DataError>) -> Seq<char> {
    match e {
        BridgeError::Domain(DataError::NotFound) => "Not Found"@,
        BridgeError::Domain(DataError::Other(m)) => m@,
        BridgeError::Infra(i) => i.description_spec(),
    }
}

/// The response to a failed data-access call.
pub fn failure_response(e: &BridgeError<DataError>) -> (r: HttpFailure)
    ensures
        r.status == status_of(*e),
        r.body@ == body_of(*e),
{
    match e {
        BridgeError::Domain(DataError::NotFound) => HttpFailure {
            status: STATUS_NOT_FOUND,
            body: String::from_str("Not Found"),
        },
        BridgeError::Domain(DataError::Other(m)) => HttpFailure {
            status: STATUS_INTERNAL_ERROR,
            body: m.clone(),
        },
        BridgeError::Infra(i) => HttpFailure { status: STATUS_INTERNAL_ERROR, body: i.description() },
    }
}

} // verus!
