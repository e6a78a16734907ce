//! Identifier extraction: derives the place-lookup key from the path of a
//! bookmark URL.
//!
//! The bookmark URLs of interest end in a segment such as
//! `data=!4m2!3m1!1s0x8085...:0x6a23...`; the identifier is what follows the
//! fixed `data=!4m2!3m1!1s` marker.  A last segment without the marker is
//! taken as the identifier unchanged.

use vstd::prelude::*;
use vstd::string::StrSliceExecFns;
use vstd::string::StringExecFns;

verus! {

/// The fixed marker that precedes an embedded place identifier in the last
/// path segment of a bookmark URL.
pub open spec fn ftid_marker() -> Seq<char> {
    "data=!4m2!3m1!1s"@
}

/// Whether a path segment begins with the identifier marker.
pub open spec fn has_ftid_marker(seg: Seq<char>) -> bool {
    seg.len() >= ftid_marker().len() && seg.subrange(0, ftid_marker().len() as int)
        == ftid_marker()
}

/// The segment with one leading identifier marker removed; a segment without
/// the marker is left unchanged.
pub open spec fn strip_ftid_marker(seg: Seq<char>) -> Seq<char> {
    if has_ftid_marker(seg) {
        seg.skip(ftid_marker().len() as int)
    } else {
        seg
    }
}

/// What `extract` returns for a URL whose path segments are `segments`:
/// the last segment with the marker stripped, or nothing when the path is
/// absent or the stripped value is empty.
pub open spec fn extract_spec(segments: Seq<Seq<char>>) -> Option<Seq<char>> {
    if segments.len() == 0 {
        None
    } else if strip_ftid_marker(segments.last()).len() == 0 {
        None
    } else {
        Some(strip_ftid_marker(segments.last()))
    }
}

/// An opaque place-lookup key taken from a bookmark URL; always non-empty.
#[derive(Debug)]
pub struct PlaceIdentifier {
    pub text: String,
}

impl View for PlaceIdentifier {
    type V = Seq<char>;

    open spec fn view(&self) -> Seq<char> {
        self.text@
    }
}

impl PlaceIdentifier {
    /// An identifier is never the empty token.
    pub open spec fn wf(&self) -> bool {
        self@.len() > 0
    }
}

/// Outcome of identifier extraction: either the embedded identifier or the
/// explicit statement that the URL carries none.
#[derive(Debug)]
pub enum ExtractResult {
    Found(PlaceIdentifier),
    NotFound,
}

/// Derives the place identifier from the path segments of a bookmark URL,
/// exactly as `extract_spec` describes.
pub fn extract(segments: &Vec<String>) -> (r: ExtractResult)
    ensures
        match r {
            ExtractResult::Found(id) => extract_spec(segments.deep_view()) == Some(id@)
                && id.wf(),
            ExtractResult::NotFound => extract_spec(segments.deep_view()) is None,
        },
{
    proof {
        reveal_strlit("data=!4m2!3m1!1s");
    }
    if segments.len() == 0 {
        return ExtractResult::NotFound;
    }
    let last: &String = &segments[segments.len() - 1];
    let seg: &str = last.as_str();
    assert(seg@ == segments.deep_view().last());
    let n: usize = seg.unicode_len();
    let marker: &str = "data=!4m2!3m1!1s";
    let mut has_marker: bool = n >= 16;
    let mut i: usize = 0;
    while i < 16 && has_marker
        invariant
            ftid_marker().len() == 16,
            marker@ == ftid_marker(),
            n == seg@.len(),
            i <= 16,
            has_marker ==> n >= 16,
            has_marker ==> forall|j: int| 0 <= j < i ==> seg@[j] == ftid_marker()[j],
            !has_marker ==> !has_ftid_marker(seg@),
        decreases 16 - i + (if has_marker { 1int } else { 0int }),
    {
        if seg.get_char(i) == marker.get_char(i) {
            i += 1;
        } else {
            proof {
                if has_ftid_marker(seg@) {
                    assert(seg@.subrange(0, 16)[i as int] == seg@[i as int]);
                }
            }
            has_marker = false;
        }
    }
    proof {
        if has_marker {
            assert(seg@.subrange(0, 16) =~= ftid_marker());
        }
        assert(has_marker == has_ftid_marker(seg@));
    }
    let rest: &str = if has_marker {
        seg.substring_char(16, n)
    } else {
        seg
    };
    assert(rest@ == strip_ftid_marker(seg@));
    if rest.unicode_len() == 0 {
        ExtractResult::NotFound
    } else {
        ExtractResult::Found(PlaceIdentifier { text: String::from_str(rest) })
    }
}

/// For every identifier `id`, a URL whose last path segment is exactly the
/// marker followed by `id` extracts to `id` itself.
pub proof fn lemma_extract_strips_marker(segments: Seq<Seq<char>>, id: Seq<char>)
    requires
        segments.len() > 0,
        segments.last() == ftid_marker() + id,
        id.len() > 0,
    ensures
        extract_spec(segments) == Some(id),
{
    assert((ftid_marker() + id).subrange(0, ftid_marker().len() as int) =~= ftid_marker());
    assert((ftid_marker() + id).skip(ftid_marker().len() as int) =~= id);
}

/// A non-empty last path segment that does not begin with the marker is
/// returned unchanged: only the one fixed marker is ever stripped.
pub proof fn lemma_extract_keeps_plain_segment(segments: Seq<Seq<char>>)
    requires
        segments.len() > 0,
        segments.last().len() > 0,
        !has_ftid_marker(segments.last()),
    ensures
        extract_spec(segments) == Some(segments.last()),
{
}

/// A URL with no path segments at all, or with an empty last segment,
/// carries no identifier.
pub proof fn lemma_extract_empty_path(segments: Seq<Seq<char>>)
    requires
        segments.len() == 0 || segments.last().len() == 0,
    ensures
        extract_spec(segments) is None,
{
    if segments.len() > 0 {
        reveal_strlit("data=!4m2!3m1!1s");
    }
}

} // verus!
