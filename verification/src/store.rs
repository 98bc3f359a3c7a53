//! From what the database driver reports to repository errors.

use vstd::prelude::*;
use crate::repositories::RepositoryError;

verus! {

/// The driver's error type, carried through as it is.
#[verifier::external_type_specification]
#[verifier::external_body]
pub struct ExDriverError(sqlx::Error);

/// Whether a driver error is the variant `sqlx::Error::RowNotFound`, with
/// which the driver reports that a query that must return a row found none.
/// Which variant an error is depends on that error alone.
pub uninterp spec fn row_missing(fault: sqlx::Error) -> bool;

/// Tells whether `fault` is the variant `sqlx::Error::RowNotFound`: the
/// answer is `row_missing` of that error.
#[verifier::external_body]
fn is_row_not_found(fault: &sqlx::Error) -> (res: bool)
    ensures
        res == row_missing(*fault),
{
    matches!(fault, sqlx::Error::RowNotFound)
}

/// The text of `fault`, as `sqlx::Error`'s `Display` writes it. Nothing is
/// claimed of the text.
#[verifier::external_body]
fn fault_text(fault: &sqlx::Error) -> String {
    fault.to_string()
}

/// The repository error for a failed operation on the row `id`: `NotFound`
/// with that identifier where the store missed the row, and otherwise a
/// store fault with the store's own text.
pub fn repository_error(id: i32, row_missing: bool, text: String) -> (res: RepositoryError)
    ensures
        res == if row_missing {
            RepositoryError::NotFound(id)
        } else {
            RepositoryError::Unexpected(text)
        },
{
    if row_missing {
        RepositoryError::NotFound(id)
    } else {
        RepositoryError::Unexpected(text)
    }
}

/// The repository error for a driver error that an operation on the row
/// `id` met: `NotFound` with that identifier where the driver missed the
/// row, and for every other error a store fault, with the driver's text.
pub fn row_error(id: i32, fault: &sqlx::Error) -> (res: RepositoryError)
    ensures
        row_missing(*fault) ==> res == RepositoryError::NotFound(id),
        !row_missing(*fault) ==> res is Unexpected,
{
    repository_error(id, is_row_not_found(fault), fault_text(fault))
}

/// The repository error for a failure of an operation on no single row:
/// always a store fault, with the text that the store gave.
pub fn unexpected(text: String) -> (res: RepositoryError)
    ensures
        res == RepositoryError::Unexpected(text),
{
    RepositoryError::Unexpected(text)
}

/// The result of a deletion of the row `id`, given how many rows the store
/// removed: success where it removed one, `NotFound` where it removed none.
pub fn deleted(id: i32, rows_removed: u64) -> (res: Result<(), RepositoryError>)
    ensures
        res == if rows_removed > 0 {
            Ok::<(), RepositoryError>(())
        } else {
            Err::<(), RepositoryError>(RepositoryError::NotFound(id))
        },
{
    if rows_removed > 0 {
        Ok(())
    } else {
        Err(RepositoryError::NotFound(id))
    }
}

} // verus!
