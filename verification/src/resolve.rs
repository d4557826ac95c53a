//! Deriving the image's output file name from its URL.
//!
//! The name is taken from the URL's path when possible; otherwise the
//! input file's stem with a `.png` extension stands in, and a file whose
//! stem cannot be determined has no name at all. The URL is parsed by the
//! url crate; everything after the split into segments is decided here.

use vstd::prelude::*;
use vstd::string::StrSliceExecFns;
use vstd::string::StringExecFns;

verus! {

/// What parsing a candidate URL yields for naming purposes: `None` when
/// the text does not parse as a URL; `Some(None)` when the URL has no
/// slash-separated path (a cannot-be-a-base URL); `Some(Some(segs))` for
/// its path split on `/`. A function of the text alone.
pub uninterp spec fn spec_url_segments(s: Seq<char>) -> Option<Option<Seq<Seq<char>>>>;

/// Relies on url::Url::parse and url::Url::path_segments: parsing is a
/// function of the text alone; a parsed hierarchical URL yields its path
/// split on `/`, and a cannot-be-a-base URL yields no segments.
#[verifier::external_body]
fn url_path_segments(s: &str) -> (r: Option<Option<Vec<String>>>)
    ensures
        r.deep_view() == spec_url_segments(s@),
{
    match url::Url::parse(s) {
        Ok(u) => Some(u.path_segments().map(|segs| segs.map(|x| x.to_string()).collect())),
        Err(_) => None,
    }
}

/// The last non-empty segment of a split path, if there is one.
pub open spec fn spec_last_nonempty(segs: Seq<Seq<char>>) -> Option<Seq<char>>
    decreases segs.len(),
{
    if segs.len() == 0 {
        None
    } else if segs.last().len() > 0 {
        Some(segs.last())
    } else {
        spec_last_nonempty(segs.drop_last())
    }
}

/// Picks the last non-empty segment of a split path, scanning backwards.
pub fn last_nonempty_segment(segs: &Vec<String>) -> (r: Option<String>)
    ensures
        r.deep_view() == spec_last_nonempty(segs.deep_view()),
{
    let ghost all = segs.deep_view();
    proof {
        assert(all.take(segs.len() as int) =~= all);
    }
    let mut i: usize = segs.len();
    while i > 0
        invariant
            i <= segs.len(),
            all == segs.deep_view(),
            all.len() == segs.len(),
            spec_last_nonempty(all) == spec_last_nonempty(all.take(i as int)),
        decreases i,
    {
        proof {
            assert(all[i - 1] == segs[i - 1]@);
            assert(all.take(i as int).last() == all[i - 1]);
            assert(all.take(i as int).drop_last() =~= all.take(i - 1));
        }
        if !segs[i - 1].as_str().is_empty() {
            return Some(segs[i - 1].clone());
        }
        i = i - 1;
    }
    proof {
        assert(all.take(0) =~= Seq::<Seq<char>>::empty());
    }
    None
}

/// The name the URL itself provides: the last non-empty path segment of a
/// URL that parses and has a path.
pub open spec fn spec_url_name(u: Seq<char>) -> Option<Seq<char>> {
    match spec_url_segments(u) {
        Some(Some(segs)) => spec_last_nonempty(segs),
        _ => None,
    }
}

/// How the image's output name was found: from the URL's path; from the
/// fallback stem, recording whether that was because the URL did not
/// parse; or not at all, for want of a stem.
#[derive(Debug)]
pub enum ResolvedName {
    FromUrl(String),
    Fallback { name: String, parse_failed: bool },
    NoStem { parse_failed: bool },
}

/// Resolves the output file name for the image fetched from `url`, given
/// the input file's stem as the fallback: the URL's last non-empty path
/// segment wins; otherwise the stem with `.png` appended; a missing stem
/// leaves the file without a name.
pub fn resolve_image_filename(url: &str, stem: &Option<String>) -> (r: ResolvedName)
    ensures
        match spec_url_name(url@) {
            Some(nm) => r matches ResolvedName::FromUrl(s) && s@ == nm,
            None => {
                let pf = spec_url_segments(url@) is None;
                match stem {
                    Some(st) => r matches ResolvedName::Fallback { name, parse_failed }
                        && name@ == st@ + ".png"@ && parse_failed == pf,
                    None => r matches ResolvedName::NoStem { parse_failed } && parse_failed == pf,
                }
            },
        },
{
    let segs_opt = url_path_segments(url);
    let (found, parse_failed): (Option<String>, bool) = match segs_opt {
        Some(segs_inner) => match segs_inner {
            Some(segs) => (last_nonempty_segment(&segs), false),
            None => (None, false),
        },
        None => (None, true),
    };
    match found {
        Some(nm) => ResolvedName::FromUrl(nm),
        None => match stem {
            Some(st) => {
                let mut s = st.clone();
                s.append(".png");
                proof {
                    assert(s@ =~= st@ + ".png"@);
                }
                ResolvedName::Fallback { name: s, parse_failed }
            }
            None => ResolvedName::NoStem { parse_failed },
        },
    }
}

} // verus!
