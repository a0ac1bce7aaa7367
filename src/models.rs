use vstd::prelude::*;

verus! {

/// A stored customer record.
#[derive(Clone, Debug, PartialEq, Eq)]
pub struct CustomerDTO {
    pub id: i64,
    pub first_name: String,
    pub last_name: String,
    pub email: String,
    pub address: String,
}

/// The fields of a customer record that a client supplies on create and
/// update.
#[derive(Clone, Debug, PartialEq, Eq)]
pub struct InsertableCustomerDTO {
    pub first_name: String,
    pub last_name: String,
    pub email: String,
    pub address: String,
}

/// A domain outcome of a data-access call that its callers branch on.
#[derive(Clone, Debug, PartialEq, Eq)]
pub enum DataError {
    /// No row matched.
    NotFound,
    /// Any other database failure, with its textual description.
    Other(String),
}

/// An update or delete that touched no row is a "not found"; otherwise the
/// number of rows touched is the result.
pub fn require_affected(rows: usize) -> (r: Result<usize, DataError>)
    ensures
        rows == 0 ==> r == Err::<usize, DataError>(DataError::NotFound),
        rows > 0 ==> r == Ok::<usize, DataError>(rows),
{
    if rows == 0 {
        Err(DataError::NotFound)
    } else {
        Ok(rows)
    }
}

} // verus!
