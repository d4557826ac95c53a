//! The remaining per-file decisions of the processing pipeline: the
//! failure outcomes tied to the file's path and to the two output writes,
//! and the success outcome once the record is stored.
//!
//! Together with the codec, fetch, resolve and media modules this covers
//! every exit of the per-file state machine; the surrounding program only
//! performs the reads, the download and the writes between the steps.

use vstd::prelude::*;
use vstd::string::StringExecFns;

use crate::outcome::FileProcessResult;

verus! {

/// The stand-in display name for a path without a file name.
pub open spec fn spec_unknown_file() -> Seq<char> {
    "UnknownFile"@
}

/// Reason reported when the input path has no file name at all.
pub open spec fn spec_no_file_name_msg(path: Seq<char>) -> Seq<char> {
    "Could not get file name from path: "@ + path
}

/// Reason reported when no fallback stem could be derived from the input
/// path; its tail names whether URL parsing had already failed.
pub open spec fn spec_no_stem_msg(path: Seq<char>, parse_failed: bool) -> Seq<char> {
    if parse_failed {
        "Could not get valid file stem from "@ + path + " as fallback after URL parse error"@
    } else {
        "Could not get valid file stem from "@ + path + " as fallback"@
    }
}

/// Reason reported when the image file could not be written.
pub open spec fn spec_image_write_msg(path: Seq<char>, e: Seq<char>) -> Seq<char> {
    "Failed to save image to "@ + path + ": "@ + e
}

/// Reason reported when the rewritten record could not be written.
pub open spec fn spec_record_write_msg(path: Seq<char>, e: Seq<char>) -> Seq<char> {
    "Failed to save base64 JSON to "@ + path + ": "@ + e
}

/// The failure outcome for an input path without a file name: the
/// placeholder display name and a reason naming the path.
pub fn missing_file_name_outcome(path_display: &str) -> (r: FileProcessResult)
    ensures
        r matches FileProcessResult::Failed(n, m) && n@ == spec_unknown_file() && m@
            == spec_no_file_name_msg(path_display@),
{
    let mut m = ("Could not get file name from path: ").to_owned();
    m.append(path_display);
    proof {
        assert(m@ =~= spec_no_file_name_msg(path_display@));
    }
    FileProcessResult::Failed(("UnknownFile").to_owned(), m)
}

/// The failure outcome for a file whose image needed the fallback name
/// but whose path yields no stem.
pub fn no_stem_outcome(name: &str, path_display: &str, parse_failed: bool) -> (r:
    FileProcessResult)
    ensures
        r matches FileProcessResult::Failed(n, m) && n@ == name@ && m@ == spec_no_stem_msg(
            path_display@,
            parse_failed,
        ),
{
    let mut m = ("Could not get valid file stem from ").to_owned();
    m.append(path_display);
    if parse_failed {
        m.append(" as fallback after URL parse error");
    } else {
        m.append(" as fallback");
    }
    proof {
        assert(m@ =~= spec_no_stem_msg(path_display@, parse_failed));
    }
    FileProcessResult::Failed(name.to_owned(), m)
}

/// The failure outcome for an image file that could not be written.
pub fn image_write_failed(name: &str, path_display: &str, e: &str) -> (r: FileProcessResult)
    ensures
        r matches FileProcessResult::Failed(n, m) && n@ == name@ && m@ == spec_image_write_msg(
            path_display@,
            e@,
        ),
{
    let mut m = ("Failed to save image to ").to_owned();
    m.append(path_display);
    m.append(": ");
    m.append(e);
    proof {
        assert(m@ =~= spec_image_write_msg(path_display@, e@));
    }
    FileProcessResult::Failed(name.to_owned(), m)
}

/// Judges the final write of the rewritten record: success exactly when
/// the write went through, otherwise the failure outcome naming the
/// record's output path.
pub fn record_write_outcome(name: &str, path_display: &str, write: Result<(), String>) -> (r:
    FileProcessResult)
    ensures
        match write {
            Ok(_) => r is Success,
            Err(e) => r matches FileProcessResult::Failed(n, m) && n@ == name@ && m@
                == spec_record_write_msg(path_display@, e@),
        },
{
    match write {
        Ok(_) => FileProcessResult::Success,
        Err(e) => {
            let mut m = ("Failed to save base64 JSON to ").to_owned();
            m.append(path_display);
            m.append(": ");
            m.append(e.as_str());
            proof {
                assert(m@ =~= spec_record_write_msg(path_display@, e@));
            }
            FileProcessResult::Failed(name.to_owned(), m)
        }
    }
}

} // verus!
