//! The one decision the data-access layer makes for itself: a delete
//! statement that touched no row means the target was never there, and the
//! caller is told so rather than given a silent success.

use vstd::prelude::*;
use crate::errors::{AppError, AppErrorView};

verus! {

pub fn delete_outcome(rows_affected: usize, not_found_message: String) -> (r: Result<
    (),
    AppError,
>)
    ensures
        rows_affected > 0 ==> r == Ok::<(), AppError>(()),
        rows_affected == 0 ==> (r matches Err(e) && e@ == AppErrorView::NotFound(
            not_found_message@,
        )),
{
    if rows_affected == 0 {
        Err(AppError::NotFound(not_found_message))
    } else {
        Ok(())
    }
}

} // verus!
