//! Media data model: extraction entries, validated items, and the
//! fetchability invariant.
//!
//! Extraction scripts report loosely shaped `{url, type}` records.  The
//! boundary hands them to this module as [`RawEntry`] values; everything
//! the pipeline goes on to download is a validated [`ExtractedItem`],
//! whose URL is never an in-browser temporary object reference
//! (a `blob:` URL) because such handles cannot be fetched out of
//! process.

use vstd::prelude::*;
use vstd::string::StrSliceExecFns;
use crate::text::has_prefix;
use crate::text::has_suffix;
use crate::text::starts_with_str;
use crate::text::ends_with_str;
use crate::text::eq_str;

verus! {

/// The two kinds of media the pipeline downloads.
#[derive(Clone, Copy, Debug, PartialEq, Eq, Structural)]
pub enum MediaKind {
    Image,
    Video,
}

/// An unvalidated `{url, type}` record as reported by an in-page
/// extraction script.  Produced at the boundary; never downloaded
/// directly.
#[derive(Clone, Debug)]
pub struct RawEntry {
    pub url: String,
    pub kind_tag: String,
}

/// A validated media reference: the unit the batch downloader consumes.
#[derive(Clone, Debug)]
pub struct ExtractedItem {
    pub url: String,
    pub kind: MediaKind,
}

/// The prefix of an in-browser temporary object reference.
pub open spec fn blob_prefix() -> Seq<char> {
    seq!['b', 'l', 'o', 'b', ':']
}

/// The prefix of an inline data URI.
pub open spec fn data_prefix() -> Seq<char> {
    seq!['d', 'a', 't', 'a', ':']
}

/// The file suffix of a downloadable video.
pub open spec fn mp4_suffix() -> Seq<char> {
    seq!['.', 'm', 'p', '4']
}

/// The tag under which scripts report a video.
pub open spec fn video_tag() -> Seq<char> {
    seq!['v', 'i', 'd', 'e', 'o']
}

/// The tag under which scripts report an image.
pub open spec fn image_tag() -> Seq<char> {
    seq!['i', 'm', 'a', 'g', 'e']
}

/// A URL the fetcher can act on: non-empty and not a temporary object
/// reference.
pub open spec fn spec_fetchable(u: Seq<char>) -> bool {
    u.len() > 0 && !has_prefix(u, blob_prefix())
}

/// Every item of the sequence has a fetchable URL.
pub open spec fn all_fetchable(items: Seq<ExtractedItem>) -> bool {
    forall|i: int| 0 <= i < items.len() ==> spec_fetchable(#[trigger] items[i].url@)
}

/// Whether `s` is a temporary object reference URL.
pub fn is_blob_url(s: &str) -> (r: bool)
    ensures
        r == has_prefix(s@, blob_prefix()),
{
    let r = starts_with_str(s, "blob:");
    proof {
        reveal_strlit("blob:");
        assert(("blob:")@ =~= blob_prefix());
    }
    r
}

/// Whether `s` is an inline data URI.
pub fn is_data_url(s: &str) -> (r: bool)
    ensures
        r == has_prefix(s@, data_prefix()),
{
    let r = starts_with_str(s, "data:");
    proof {
        reveal_strlit("data:");
        assert(("data:")@ =~= data_prefix());
    }
    r
}

/// Whether `s` names a downloadable video file.
pub fn is_mp4_url(s: &str) -> (r: bool)
    ensures
        r == has_suffix(s@, mp4_suffix()),
{
    let r = ends_with_str(s, ".mp4");
    proof {
        reveal_strlit(".mp4");
        assert((".mp4")@ =~= mp4_suffix());
    }
    r
}

/// Whether `s` can be handed to the fetcher.
pub fn is_fetchable_url(s: &str) -> (r: bool)
    ensures
        r == spec_fetchable(s@),
{
    if s.unicode_len() == 0 {
        return false;
    }
    !is_blob_url(s)
}

/// The kind a script tag parses to, if it is well formed.
pub open spec fn spec_parse_kind(t: Seq<char>) -> Option<MediaKind> {
    if t == video_tag() {
        Some(MediaKind::Video)
    } else if t == image_tag() {
        Some(MediaKind::Image)
    } else {
        None
    }
}

/// Parses a script media tag; malformed tags are rejected.
pub fn parse_kind(t: &str) -> (r: Option<MediaKind>)
    ensures
        r == spec_parse_kind(t@),
{
    proof {
        reveal_strlit("video");
        reveal_strlit("image");
        assert(("video")@ =~= video_tag());
        assert(("image")@ =~= image_tag());
    }
    if eq_str(t, "video") {
        Some(MediaKind::Video)
    } else if eq_str(t, "image") {
        Some(MediaKind::Image)
    } else {
        None
    }
}

/// The label under which a kind is reported.
pub open spec fn spec_kind_label(k: MediaKind) -> Seq<char> {
    match k {
        MediaKind::Video => video_tag(),
        MediaKind::Image => image_tag(),
    }
}

/// The tag string for a kind; inverse of [`parse_kind`].
pub fn kind_label(k: MediaKind) -> (r: &'static str)
    ensures
        r@ == spec_kind_label(k),
{
    proof {
        reveal_strlit("video");
        reveal_strlit("image");
        assert(("video")@ =~= video_tag());
        assert(("image")@ =~= image_tag());
    }
    match k {
        MediaKind::Video => "video",
        MediaKind::Image => "image",
    }
}

/// Tags round-trip: parsing the label of a kind gives the kind back.
pub proof fn lemma_kind_label_round_trip(k: MediaKind)
    ensures
        spec_parse_kind(spec_kind_label(k)) == Some(k),
{
    assert(video_tag() != image_tag());
}

} // verus!
