//! Media handling: detecting the image's media type from its bytes and
//! embedding the bytes as a base64 data URL.
//!
//! Detection and the base64 alphabet live in outside crates; their results
//! are named here (`inferred_mime`, `base64_standard`) and the data URL is
//! assembled and taken apart by verified code speaking of those names.

use vstd::prelude::*;
use vstd::string::StrSliceExecFns;
use vstd::string::StringExecFns;

verus! {

/// The media type that signature matching finds in the byte content:
/// `None` when no known signature matches. A function of the bytes alone.
pub uninterp spec fn inferred_mime(b: Seq<u8>) -> Option<Seq<char>>;

/// Relies on infer::get and infer::Type::mime_type: the detected type is
/// matched against built-in signatures of the byte content alone, and
/// every type in the built-in table is a plain `kind/subtype` pair, never
/// holding a `;`.
#[verifier::external_body]
fn infer_mime(bytes: &[u8]) -> (r: Option<String>)
    ensures
        r.deep_view() == inferred_mime(bytes@),
        r matches Some(m) ==> !m@.contains(';'),
{
    infer::get(bytes).map(|k| k.mime_type().to_string())
}

/// The media type recorded in the data URL: what the signature matching
/// found, or the generic fallback.
pub open spec fn spec_detect_mime(b: Seq<u8>) -> Seq<char> {
    match inferred_mime(b) {
        Some(m) => m,
        None => "application/octet-stream"@,
    }
}

/// Classifies image bytes by their content, falling back to
/// `application/octet-stream` when no known signature matches. The result
/// never holds a `;`, so it can head a data URL.
pub fn detect_mime(bytes: &Vec<u8>) -> (r: String)
    ensures
        r@ == spec_detect_mime(bytes@),
        !r@.contains(';'),
{
    match infer_mime(bytes.as_slice()) {
        Some(m) => m,
        None => {
            proof {
                reveal_strlit("application/octet-stream");
                assert(!"application/octet-stream"@.contains(';')) by {
                    assert forall|i: int|
                        0 <= i < "application/octet-stream"@.len() implies
                            "application/octet-stream"@[i] != ';' by {
                        reveal_strlit("application/octet-stream");
                    }
                }
            }
            ("application/octet-stream").to_owned()
        }
    }
}

/// The standard, padded base64 encoding of the bytes; a function of the
/// bytes alone.
pub uninterp spec fn base64_standard(b: Seq<u8>) -> Seq<char>;

/// Relies on base64's STANDARD engine encode (standard alphabet, padded):
/// a function of the byte content alone. The length bound excludes exactly
/// the inputs — lengths in the top quarter of `usize`, beyond what memory
/// can hold — on which the engine's output-size computation panics.
#[verifier::external_body]
fn b64_encode(bytes: &[u8]) -> (r: String)
    requires
        bytes@.len() <= usize::MAX / 4 * 3,
    ensures
        r@ == base64_standard(bytes@),
{
    base64::Engine::encode(&base64::engine::general_purpose::STANDARD, bytes)
}

/// Relies on base64's STANDARD engine decode, the inverse of its encode:
/// a text that the engine's encode produced decodes to the bytes it was
/// produced from.
#[verifier::external_body]
fn b64_decode(s: &str) -> (r: Option<Vec<u8>>)
    ensures
        match r {
            Some(v) => forall|b: Seq<u8>| s@ == base64_standard(b) ==> v@ == b,
            None => forall|b: Seq<u8>| s@ != base64_standard(b),
        },
{
    base64::Engine::decode(&base64::engine::general_purpose::STANDARD, s).ok()
}

/// The data URL embedding a payload under a media type.
pub open spec fn spec_data_url(mime: Seq<char>, payload: Seq<char>) -> Seq<char> {
    "data:"@ + mime + ";base64,"@ + payload
}

/// Joins a media type and a base64 payload into a data URL.
pub fn build_data_url(mime: &str, payload: &str) -> (r: String)
    ensures
        r@ == spec_data_url(mime@, payload@),
{
    let mut r = ("data:").to_owned();
    r.append(mime);
    r.append(";base64,");
    r.append(payload);
    proof {
        assert(r@ =~= spec_data_url(mime@, payload@));
    }
    r
}

/// `s` is the data URL that embeds the bytes `b` under the media type
/// `mime` (media types hold no `;`, which ends the type in a data URL).
pub open spec fn spec_is_data_url_of(s: Seq<char>, mime: Seq<char>, b: Seq<u8>) -> bool {
    !mime.contains(';') && s == spec_data_url(mime, base64_standard(b))
}

/// Takes a data URL apart and decodes its base64 payload. This is the
/// round trip: a data URL that embeds some bytes gives back exactly those
/// bytes, whatever the media type recorded beside them.
pub fn decode_data_url(s: &str) -> (r: Option<Vec<u8>>)
    ensures
        forall|mime: Seq<char>, b: Seq<u8>|
            spec_is_data_url_of(s@, mime, b) ==> (r matches Some(v) && v@ == b),
{
    proof {
        reveal_strlit("data:");
        reveal_strlit(";base64,");
    }
    let n = s.unicode_len();
    if n < 5 || s.get_char(0) != 'd' || s.get_char(1) != 'a' || s.get_char(2) != 't' || s.get_char(
        3,
    ) != 'a' || s.get_char(4) != ':' {
        proof {
            assert forall|mime: Seq<char>, b: Seq<u8>| !spec_is_data_url_of(s@, mime, b) by {
                if spec_is_data_url_of(s@, mime, b) {
                    assert(s@.len() >= 13);
                    assert(s@[0] == 'd' && s@[1] == 'a' && s@[2] == 't' && s@[3] == 'a' && s@[4]
                        == ':');
                }
            }
        }
        return None;
    }
    let mut p: usize = 5;
    while p < n && s.get_char(p) != ';'
        invariant
            5 <= p <= n,
            n == s@.len(),
            forall|j: int| 5 <= j < p ==> s@[j] != ';',
        decreases n - p,
    {
        p = p + 1;
    }
    if p == n {
        proof {
            assert forall|mime: Seq<char>, b: Seq<u8>| !spec_is_data_url_of(s@, mime, b) by {
                if spec_is_data_url_of(s@, mime, b) {
                    assert(s@[5 + mime.len() as int] == ';');
                    assert(5 + mime.len() < s@.len());
                }
            }
        }
        return None;
    }
    if n - p < 8 || s.get_char(p + 1) != 'b' || s.get_char(p + 2) != 'a' || s.get_char(p + 3)
        != 's' || s.get_char(p + 4) != 'e' || s.get_char(p + 5) != '6' || s.get_char(p + 6) != '4'
        || s.get_char(p + 7) != ',' {
        proof {
            assert forall|mime: Seq<char>, b: Seq<u8>| !spec_is_data_url_of(s@, mime, b) by {
                if spec_is_data_url_of(s@, mime, b) {
                    lemma_semicolon_position(s@, mime, b, p as int);
                    assert(s@.len() - p >= 8);
                    assert(s@[p + 1] == 'b' && s@[p + 2] == 'a' && s@[p + 3] == 's' && s@[p + 4]
                        == 'e' && s@[p + 5] == '6' && s@[p + 6] == '4' && s@[p + 7] == ',');
                }
            }
        }
        return None;
    }
    let payload = s.substring_char(p + 8, n);
    let decoded = b64_decode(payload);
    match decoded {
        Some(v) => {
            proof {
                assert forall|mime: Seq<char>, b: Seq<u8>|
                    spec_is_data_url_of(s@, mime, b) implies v@ == b by {
                    lemma_semicolon_position(s@, mime, b, p as int);
                    assert(payload@ =~= base64_standard(b));
                }
            }
            Some(v)
        }
        None => {
            proof {
                assert forall|mime: Seq<char>, b: Seq<u8>| !spec_is_data_url_of(s@, mime, b) by {
                    if spec_is_data_url_of(s@, mime, b) {
                        lemma_semicolon_position(s@, mime, b, p as int);
                        assert(payload@ =~= base64_standard(b));
                    }
                }
            }
            None
        }
    }
}

/// In a data URL the first `;` at or past the scheme prefix ends the media
/// type, so a scan that stopped on it stands right where the payload
/// marker begins.
proof fn lemma_semicolon_position(s: Seq<char>, mime: Seq<char>, b: Seq<u8>, p: int)
    requires
        spec_is_data_url_of(s, mime, b),
        5 <= p < s.len(),
        s[p] == ';',
        forall|j: int| 5 <= j < p ==> s[j] != ';',
    ensures
        p == 5 + mime.len(),
{
    reveal_strlit("data:");
    reveal_strlit(";base64,");
    if p < 5 + mime.len() {
        assert(s[p] == mime[p - 5]);
        assert(mime.contains(';')) by {
            assert(mime[p - 5] == ';');
        }
    }
    if p > 5 + mime.len() {
        assert(s[5 + mime.len() as int] == ';');
    }
}

/// Embeds fetched image bytes as a data URL: the detected media type,
/// then the standard base64 encoding of exactly those bytes. The result
/// embeds the bytes in the sense of [`spec_is_data_url_of`], so
/// [`decode_data_url`] on it yields them back: the round trip.
pub fn image_data_url(bytes: &Vec<u8>) -> (r: String)
    requires
        bytes@.len() <= usize::MAX / 4 * 3,
    ensures
        r@ == spec_data_url(spec_detect_mime(bytes@), base64_standard(bytes@)),
        spec_is_data_url_of(r@, spec_detect_mime(bytes@), bytes@),
{
    let mime = detect_mime(bytes);
    let payload = b64_encode(bytes.as_slice());
    build_data_url(mime.as_str(), payload.as_str())
}

} // verus!
