//! The record codec: loading a JSON record, extracting the screenshot
//! reference, and rewriting it.
//!
//! The JSON document itself is parsed, held and serialized by serde_json;
//! its value type is opaque here, and the contracts speak of it through
//! named views: the `screenshot` entry (when it is a string), whether the
//! root is an object, the remaining entries, and the indented rendering.
//! Parsing is deterministic, so the views of a freshly parsed record are
//! functions of the text it was parsed from.

use vstd::prelude::*;
use vstd::string::StrSliceExecFns;
use vstd::string::StringExecFns;

use crate::outcome::FileProcessResult;
use crate::strings::{spec_starts_with, str_eq};

verus! {

#[verifier::external_type_specification]
#[verifier::external_body]
pub struct ExValue(serde_json::Value);

#[verifier::external_type_specification]
#[verifier::external_body]
pub struct ExJsonError(serde_json::Error);

/// Whether a text parses as a JSON document; a function of the text alone.
pub uninterp spec fn json_parses(s: Seq<char>) -> bool;

/// The string under the record's `screenshot` key: `None` when the key is
/// absent or its value is not a string.
pub uninterp spec fn screenshot_field(v: serde_json::Value) -> Option<Seq<char>>;

/// Whether the record's root is a JSON object.
pub uninterp spec fn value_is_object(v: serde_json::Value) -> bool;

/// The record's entries other than `screenshot`, by key.
pub uninterp spec fn record_rest(v: serde_json::Value) -> Map<Seq<char>, serde_json::Value>;

/// The `screenshot` entry of the document a text parses to; a function of
/// the text alone.
pub uninterp spec fn spec_screenshot_of_text(s: Seq<char>) -> Option<Seq<char>>;

/// Whether the document a text parses to has an object root; a function of
/// the text alone.
pub uninterp spec fn spec_root_object_of_text(s: Seq<char>) -> bool;

/// Relies on serde_json::from_str::<Value>: parsing is deterministic, so
/// whether the text is well-formed JSON, and the views of the document it
/// parses to, are functions of the text alone.
#[verifier::external_body]
fn parse_json(s: &str) -> (r: Result<serde_json::Value, serde_json::Error>)
    ensures
        (r is Ok) == json_parses(s@),
        r matches Ok(v) ==> (screenshot_field(v) == spec_screenshot_of_text(s@)
            && value_is_object(v) == spec_root_object_of_text(s@)),
{
    serde_json::from_str(s)
}

/// Relies on serde_json::Error's display form for the message text.
#[verifier::external_body]
fn json_error_message(e: &serde_json::Error) -> String {
    format!("{}", e)
}

/// Relies on serde_json::Value::get: reads the `screenshot` entry, handing
/// back its text exactly when it is a string.
#[verifier::external_body]
fn get_screenshot(v: &serde_json::Value) -> (r: Option<String>)
    ensures
        r.deep_view() == screenshot_field(*v),
{
    match v.get("screenshot") {
        Some(serde_json::Value::String(s)) => Some(s.clone()),
        _ => None,
    }
}

/// Relies on serde_json::Map::insert: on an object root, sets the
/// `screenshot` entry to the given string and touches no other entry; any
/// other root is untouched.
#[verifier::external_body]
fn set_screenshot(v: &mut serde_json::Value, data_url: String) -> (r: bool)
    ensures
        r == value_is_object(*old(v)),
        value_is_object(*final(v)) == value_is_object(*old(v)),
        record_rest(*final(v)) == record_rest(*old(v)),
        r ==> screenshot_field(*final(v)) == Some::<Seq<char>>(data_url@),
        !r ==> screenshot_field(*final(v)) == screenshot_field(*old(v)),
{
    match v {
        serde_json::Value::Object(m) => {
            m.insert("screenshot".to_string(), serde_json::Value::String(data_url));
            true
        }
        _ => false,
    }
}

/// The indented rendering of a record; a function of the value alone.
pub uninterp spec fn spec_pretty(v: serde_json::Value) -> Seq<char>;

/// Relies on serde_json::to_string_pretty: rendering is deterministic, and
/// on a `Value` it cannot fail — serialization errors come only from a
/// failing `Serialize` impl or a map with non-string keys, and a `Value`
/// has neither.
#[verifier::external_body]
fn to_pretty(v: &serde_json::Value) -> (r: Result<String, serde_json::Error>)
    ensures
        match r {
            Ok(s) => s@ == spec_pretty(*v),
            Err(_) => false,
        },
{
    serde_json::to_string_pretty(v)
}

/// A candidate reference counts only when it is present, non-empty and not
/// the literal string `"null"`.
pub open spec fn spec_valid_ref(o: Option<Seq<char>>) -> Option<Seq<char>> {
    match o {
        Some(s) => if s.len() > 0 && s != "null"@ {
            Some(s)
        } else {
            None
        },
        None => None,
    }
}

/// Reason reported when the input file could not be read.
pub open spec fn spec_read_error_msg(e: Seq<char>) -> Seq<char> {
    "Failed to read file content: "@ + e
}

/// How every parse-failure reason starts.
pub open spec fn spec_parse_error_prefix() -> Seq<char> {
    "Failed to parse JSON: "@
}

/// Reason reported when a file is skipped for want of a usable reference.
pub open spec fn spec_skip_msg(name: Seq<char>) -> Seq<char> {
    "No valid screenshot URL found in "@ + name
}

/// Reason reported when the record's root is not an object.
pub open spec fn spec_not_object_msg() -> Seq<char> {
    "JSON root is not an object"@
}

/// Turns the result of reading one input file into a parsed record, or
/// into the failure outcome: a read error fails with the read reason, and
/// a text that is not well-formed JSON fails with a parse reason. The
/// record handed back is the input's own document: its views agree with
/// the text that was read.
pub fn load_record(name: &str, read: Result<String, String>) -> (r: Result<
    serde_json::Value,
    FileProcessResult,
>)
    ensures
        match read {
            Err(e) => r matches Err(FileProcessResult::Failed(n, m)) && n@ == name@ && m@
                == spec_read_error_msg(e@),
            Ok(c) => {
                &&& (r is Ok) == json_parses(c@)
                &&& r matches Ok(v) ==> (screenshot_field(v) == spec_screenshot_of_text(c@)
                    && value_is_object(v) == spec_root_object_of_text(c@))
                &&& !json_parses(c@) ==> (r matches Err(FileProcessResult::Failed(n, m)) && n@
                    == name@ && spec_starts_with(m@, spec_parse_error_prefix()))
            },
        },
{
    match read {
        Err(e) => {
            let mut m = ("Failed to read file content: ").to_owned();
            m.append(e.as_str());
            proof {
                assert(m@ =~= spec_read_error_msg(e@));
            }
            Err(FileProcessResult::Failed(name.to_owned(), m))
        }
        Ok(c) => match parse_json(c.as_str()) {
            Ok(v) => Ok(v),
            Err(e) => {
                let mut m = ("Failed to parse JSON: ").to_owned();
                let em = json_error_message(&e);
                m.append(em.as_str());
                proof {
                    assert(m@.subrange(0, spec_parse_error_prefix().len() as int)
                        =~= spec_parse_error_prefix());
                }
                Err(FileProcessResult::Failed(name.to_owned(), m))
            }
        },
    }
}

/// Reads the record's screenshot reference: the URL to fetch when a usable
/// one is present, otherwise the skip outcome for this file.
pub fn extract_or_skip(v: &serde_json::Value, name: &str) -> (r: Result<
    String,
    FileProcessResult,
>)
    ensures
        match spec_valid_ref(screenshot_field(*v)) {
            Some(u) => r matches Ok(s) && s@ == u,
            None => r matches Err(FileProcessResult::Skipped(m)) && m@ == spec_skip_msg(name@),
        },
{
    let candidate = get_screenshot(v);
    let url_opt = match candidate {
        Some(s) => {
            if s.as_str().unicode_len() > 0 && !str_eq(s.as_str(), "null") {
                Some(s)
            } else {
                None
            }
        }
        None => None,
    };
    match url_opt {
        Some(s) => Ok(s),
        None => {
            let mut m = ("No valid screenshot URL found in ").to_owned();
            m.append(name);
            proof {
                assert(m@ =~= spec_skip_msg(name@));
            }
            Err(FileProcessResult::Skipped(m))
        }
    }
}

/// Writes the data URL into the record and serializes it: on an object
/// root the `screenshot` entry is replaced, every other entry stays as it
/// was, and the indented rendering of exactly that rewritten record is
/// handed back; any other root fails unchanged.
pub fn rewrite_and_serialize(v: &mut serde_json::Value, data_url: String, name: &str) -> (r:
    Result<String, FileProcessResult>)
    ensures
        !value_is_object(*old(v)) ==> {
            &&& r matches Err(FileProcessResult::Failed(n, m)) && n@ == name@ && m@
                == spec_not_object_msg()
            &&& screenshot_field(*final(v)) == screenshot_field(*old(v))
        },
        value_is_object(*old(v)) ==> {
            &&& screenshot_field(*final(v)) == Some::<Seq<char>>(data_url@)
            &&& r matches Ok(s) && s@ == spec_pretty(*final(v))
        },
        value_is_object(*final(v)) == value_is_object(*old(v)),
        record_rest(*final(v)) == record_rest(*old(v)),
{
    let was_object = set_screenshot(v, data_url);
    if !was_object {
        let m = ("JSON root is not an object").to_owned();
        return Err(FileProcessResult::Failed(name.to_owned(), m));
    }
    match to_pretty(v) {
        Ok(s) => Ok(s),
        Err(_) => vstd::pervasive::unreached(),
    }
}

} // verus!
