//! What a download does once the server has answered.
//!
//! The caller sends the request and hands over the status code of the
//! response. The address is parsed only then: a response that is rejected
//! for its status is reported as such even where the address would not
//! parse, and a malformed address is found only after a successful response.

use crate::address::{parse_path_segments, url_path_segments};
use crate::error::{DownloadError, ErrorView};
use crate::filename::{choose_filename, chosen_name};
use crate::status::{check_status, is_success_code};
use vstd::prelude::*;

verus! {

/// Names the output file once the address has been parsed. An address
/// that did not parse fails the download, also where the user has named
/// the file.
pub fn name_for_parsed(
    parsed: Result<Option<Vec<String>>, String>,
    output: Option<&str>,
) -> (r: Result<String, DownloadError>)
    ensures
        match r {
            Ok(name) => {
                &&& parsed matches Ok(path)
                &&& name@ == chosen_name(output.deep_view(), path.deep_view())
            },
            Err(e) => {
                &&& parsed matches Err(cause)
                &&& e@ == ErrorView::UrlParse(cause@)
            },
        },
        output matches Some(given) ==> (r matches Ok(name) ==> name@ == given@),
{
    match parsed {
        Ok(path) => Ok(choose_filename(output, &path)),
        Err(cause) => Err(DownloadError::UrlParse(cause)),
    }
}

/// Names the output file of a download from `url`: the name given in
/// `output` where there is one, else the name that the URL's path gives.
/// The address has to parse as an absolute URL in either case.
pub fn resolve_filename(url: &str, output: Option<&str>) -> (r: Result<String, DownloadError>)
    ensures
        match r {
            Ok(name) => {
                &&& url_path_segments(url@) matches Some(path)
                &&& name@ == chosen_name(output.deep_view(), path)
            },
            Err(e) => url_path_segments(url@) is None && e@ is UrlParse,
        },
        output matches Some(given) ==> (r matches Ok(name) ==> name@ == given@),
{
    let parsed = match parse_path_segments(url) {
        Ok(path) => Ok(path),
        Err(error) => Err(error.to_string()),
    };
    name_for_parsed(parsed, output)
}

/// Decides what becomes of a response with the given status code: the name
/// of the file that its body is to be written to, or the failure to
/// report. The status is judged first.
pub fn output_for_response(
    url: &str,
    output: Option<&str>,
    status: u16,
) -> (r: Result<String, DownloadError>)
    ensures
        match r {
            Ok(name) => {
                &&& is_success_code(status)
                &&& url_path_segments(url@) matches Some(path)
                &&& name@ == chosen_name(output.deep_view(), path)
            },
            Err(e) => if is_success_code(status) {
                url_path_segments(url@) is None && e@ is UrlParse
            } else {
                e@ == (ErrorView::HttpStatus { code: status })
            },
        },
        output matches Some(given) ==> (r matches Ok(name) ==> name@ == given@),
{
    match check_status(status) {
        Ok(()) => resolve_filename(url, output),
        Err(rejected) => Err(rejected),
    }
}

} // verus!
