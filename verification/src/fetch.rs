//! Judging the result of one image download.
//!
//! The network call itself is made by the surrounding program; what came of
//! it is handed in as a [`FetchEvent`] and judged here: a transport error,
//! a status outside the 2xx success range, an unreadable body and an empty
//! body each fail the file, and only a non-empty body passes.

use vstd::prelude::*;
use vstd::string::StringExecFns;

use crate::outcome::FileProcessResult;
use crate::strings::{spec_decimal, u16_to_string};

verus! {

/// What one HTTP GET yielded: a transport-level failure, or a response
/// with its status code and the attempt to read its body.
pub enum FetchEvent {
    TransportError(String),
    Response { status: u16, body: Result<Vec<u8>, String> },
}

/// The HTTP success range.
pub open spec fn spec_status_success(code: u16) -> bool {
    200 <= code < 300
}

/// Whether a status code lies in the 2xx success range.
pub fn status_is_success(code: u16) -> (r: bool)
    ensures
        r == spec_status_success(code),
{
    200 <= code && code < 300
}

/// Reason reported when the request itself failed.
pub open spec fn spec_transport_error_msg(url: Seq<char>, e: Seq<char>) -> Seq<char> {
    "HTTP request failed for "@ + url + ": "@ + e
}

/// Reason reported for a response status outside the success range.
pub open spec fn spec_status_error_msg(url: Seq<char>, status: u16) -> Seq<char> {
    "HTTP error downloading "@ + url + ": status "@ + spec_decimal(status as nat)
}

/// Reason reported when the response body could not be read.
pub open spec fn spec_body_error_msg(url: Seq<char>, e: Seq<char>) -> Seq<char> {
    "Failed to get image bytes from "@ + url + ": "@ + e
}

/// Reason reported for an empty response body.
pub open spec fn spec_empty_body_msg(url: Seq<char>) -> Seq<char> {
    "Downloaded image from "@ + url + " is empty"@
}

/// Judges the download of `url` for the file named `name`: the image bytes
/// when a 2xx response carried a non-empty body, otherwise the failure
/// outcome, with a reason naming what went wrong.
pub fn evaluate_fetch(name: &str, url: &str, ev: FetchEvent) -> (r: Result<
    Vec<u8>,
    FileProcessResult,
>)
    ensures
        match ev {
            FetchEvent::TransportError(e) => r matches Err(
                FileProcessResult::Failed(n, m),
            ) && n@ == name@ && m@ == spec_transport_error_msg(url@, e@),
            FetchEvent::Response { status, body } => if !spec_status_success(status) {
                r matches Err(FileProcessResult::Failed(n, m)) && n@ == name@ && m@
                    == spec_status_error_msg(url@, status)
            } else {
                match body {
                    Err(e) => r matches Err(FileProcessResult::Failed(n, m)) && n@ == name@ && m@
                        == spec_body_error_msg(url@, e@),
                    Ok(b) => if b@.len() == 0 {
                        r matches Err(FileProcessResult::Failed(n, m)) && n@ == name@ && m@
                            == spec_empty_body_msg(url@)
                    } else {
                        r matches Ok(bytes) && bytes@ == b@
                    },
                }
            },
        },
{
    match ev {
        FetchEvent::TransportError(e) => {
            let mut m = ("HTTP request failed for ").to_owned();
            m.append(url);
            m.append(": ");
            m.append(e.as_str());
            proof {
                assert(m@ =~= spec_transport_error_msg(url@, e@));
            }
            Err(FileProcessResult::Failed(name.to_owned(), m))
        }
        FetchEvent::Response { status, body } => {
            if !status_is_success(status) {
                let mut m = ("HTTP error downloading ").to_owned();
                m.append(url);
                m.append(": status ");
                let code = u16_to_string(status);
                m.append(code.as_str());
                proof {
                    assert(m@ =~= spec_status_error_msg(url@, status));
                }
                Err(FileProcessResult::Failed(name.to_owned(), m))
            } else {
                match body {
                    Err(e) => {
                        let mut m = ("Failed to get image bytes from ").to_owned();
                        m.append(url);
                        m.append(": ");
                        m.append(e.as_str());
                        proof {
                            assert(m@ =~= spec_body_error_msg(url@, e@));
                        }
                        Err(FileProcessResult::Failed(name.to_owned(), m))
                    }
                    Ok(b) => {
                        if b.len() == 0 {
                            let mut m = ("Downloaded image from ").to_owned();
                            m.append(url);
                            m.append(" is empty");
                            proof {
                                assert(m@ =~= spec_empty_body_msg(url@));
                            }
                            Err(FileProcessResult::Failed(name.to_owned(), m))
                        } else {
                            Ok(b)
                        }
                    }
                }
            }
        }
    }
}

} // verus!
