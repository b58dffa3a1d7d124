//! Classification of HTTP response status codes.

use crate::error::{DownloadError, ErrorView};
use vstd::prelude::*;

verus! {

/// A status code counts as success when it lies in the range 200 to 299.
pub open spec fn is_success_code(code: u16) -> bool {
    200 <= code <= 299
}

/// Tells whether a response with this status code carries the requested
/// resource.
pub fn is_success(code: u16) -> (ok: bool)
    ensures
        ok == is_success_code(code),
{
    200 <= code && code <= 299
}

/// Accepts a response by its status code. Every code outside 200 to 299 is
/// rejected with an error that carries the code; the body of such a
/// response is not to be written anywhere.
pub fn check_status(code: u16) -> (r: Result<(), DownloadError>)
    ensures
        is_success_code(code) <==> r is Ok,
        r matches Err(e) ==> e@ == (ErrorView::HttpStatus { code }),
{
    if is_success(code) {
        Ok(())
    } else {
        Err(DownloadError::HttpStatus { code })
    }
}

} // verus!
