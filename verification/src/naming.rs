//! Request folder naming and derived file paths.
//!
//! Every request works in a fresh timestamp-named folder; the names
//! and the paths inside it are derived here.

use vstd::prelude::*;
use vstd::string::StrSliceExecFns;
use vstd::string::StringExecFns;
use crate::extractor::ContentKind;
use crate::extractor::stories_marker;
use crate::text::has_prefix;
use crate::text::has_substring;
use crate::text::occurs_at;
use crate::text::spec_decimal;
use crate::text::u64_label;

verus! {

/// Relies on chrono's Utc::now: the current time, read from the
/// system clock, reduced to whole seconds since the Unix epoch.
/// Nothing is assumed of the value.  Utc::now panics when the system
/// clock stands before the epoch; the callers clamp negative values
/// all the same, so a name is derived for every returned value.
#[verifier::external_body]
pub fn unix_timestamp_now() -> i64 {
    chrono::Utc::now().timestamp()
}

/// The folder-name prefix of a content kind.
pub open spec fn spec_folder_prefix(kind: ContentKind) -> Seq<char> {
    match kind {
        ContentKind::Post => ("insta_post_")@,
        ContentKind::Reel => ("insta_reel_")@,
        ContentKind::Story => ("insta_stories_")@,
    }
}

/// The prefix for `kind`.
fn folder_prefix(kind: ContentKind) -> (r: &'static str)
    ensures
        r@ == spec_folder_prefix(kind),
{
    match kind {
        ContentKind::Post => "insta_post_",
        ContentKind::Reel => "insta_reel_",
        ContentKind::Story => "insta_stories_",
    }
}

/// The timestamp rendered into a folder name; a clock before the
/// epoch renders as zero.
pub open spec fn spec_ts_label(ts: i64) -> Seq<char> {
    if ts >= 0 {
        spec_decimal(ts as nat)
    } else {
        spec_decimal(0)
    }
}

/// The request folder for `kind` at time `ts`.
pub fn folder_name_for(kind: ContentKind, ts: i64) -> (r: String)
    ensures
        r@ == spec_folder_prefix(kind) + spec_ts_label(ts),
{
    let clamped: u64 = if ts >= 0 {
        ts as u64
    } else {
        0
    };
    let mut s = String::from_str(folder_prefix(kind));
    let label = u64_label(clamped);
    s.append(label.as_str());
    s
}

/// A fresh request folder for `kind`: the kind's prefix followed by a
/// decimal timestamp label, whatever the clock read.
pub fn fresh_folder_name(kind: ContentKind) -> (r: String)
    ensures
        has_prefix(r@, spec_folder_prefix(kind)),
        exists|ts: nat| r@ == spec_folder_prefix(kind) + spec_decimal(ts),
{
    let ts = unix_timestamp_now();
    let r = folder_name_for(kind, ts);
    proof {
        assert(r@.subrange(0, spec_folder_prefix(kind).len() as int) =~= spec_folder_prefix(
            kind,
        ));
        if ts >= 0 {
            assert(r@ == spec_folder_prefix(kind) + spec_decimal(ts as nat));
        } else {
            assert(r@ == spec_folder_prefix(kind) + spec_decimal(0));
        }
    }
    r
}

/// The folder of a reel preview capture at time `ts`.
pub fn reel_preview_folder(ts: i64) -> (r: String)
    ensures
        r@ == ("insta_reel_preview_")@ + spec_ts_label(ts),
{
    let clamped: u64 = if ts >= 0 {
        ts as u64
    } else {
        0
    };
    let mut s = String::from_str("insta_reel_preview_");
    let label = u64_label(clamped);
    s.append(label.as_str());
    s
}

/// The path of the request's summary file.
pub fn metadata_path(folder: &str) -> (r: String)
    ensures
        r@ == folder@ + ("/metadata.txt")@,
{
    let mut s = String::from_str(folder);
    s.append("/metadata.txt");
    s
}

/// The destination of a directly downloaded reel video.
pub fn reel_output_path(folder: &str) -> (r: String)
    ensures
        r@ == folder@ + ("/reel.mp4")@,
{
    let mut s = String::from_str(folder);
    s.append("/reel.mp4");
    s
}

/// The destination of a reel captured by the isolated headless
/// browser.
pub fn reel_capture_path(folder: &str) -> (r: String)
    ensures
        r@ == folder@ + ("/reel_video.mp4")@,
{
    let mut s = String::from_str(folder);
    s.append("/reel_video.mp4");
    s
}

/// The path of a request's debug screenshot.
pub fn screenshot_path(folder: &str) -> (r: String)
    ensures
        r@ == folder@ + ("/debug_screenshot.png")@,
{
    let mut s = String::from_str(folder);
    s.append("/debug_screenshot.png");
    s
}

/// The name of a free-standing debug screenshot at time `ts`.
pub fn debug_screenshot_name(ts: i64) -> (r: String)
    ensures
        r@ == ("debug_screenshot_")@ + spec_ts_label(ts) + (".png")@,
{
    let clamped: u64 = if ts >= 0 {
        ts as u64
    } else {
        0
    };
    let mut s = String::from_str("debug_screenshot_");
    let label = u64_label(clamped);
    s.append(label.as_str());
    s.append(".png");
    s
}

/// `p` first occurs in `s` at `i`.
pub open spec fn first_occurrence_at(s: Seq<char>, p: Seq<char>, i: int) -> bool {
    occurs_at(s, p, i) && forall|j: int| 0 <= j < i ==> !occurs_at(s, p, j)
}

/// `e` is where the segment starting at `from` ends: the first `/` at
/// or after `from`, or the end of the string.
pub open spec fn segment_end_from(s: Seq<char>, from: int, e: int) -> bool {
    &&& from <= e <= s.len()
    &&& (e == s.len() || s[e] == '/')
    &&& forall|k: int| from <= k < e ==> s[k] != '/'
}

/// The index where `p` first occurs in `s`, if it occurs at all.
fn find_first_str(s: &str, p: &str) -> (r: Option<usize>)
    ensures
        r is None ==> !has_substring(s@, p@),
        r is Some ==> first_occurrence_at(s@, p@, r.unwrap() as int),
{
    let n: usize = p.unicode_len();
    let m: usize = s.unicode_len();
    if n > m {
        proof {
            assert(forall|i: int| !occurs_at(s@, p@, i));
        }
        return None;
    }
    if n == 0 {
        proof {
            assert(s@.subrange(0, 0) =~= p@);
            assert(occurs_at(s@, p@, 0));
        }
        return Some(0);
    }
    let last: usize = m - n;
    let mut i: usize = 0;
    while i <= last
        invariant
            i <= last + 1,
            last == m - n,
            1 <= n <= m,
            n == p@.len(),
            m == s@.len(),
            forall|k: int| 0 <= k < i ==> !occurs_at(s@, p@, k),
        decreases last + 1 - i,
    {
        if crate::text::matches_at(s, p, i) {
            return Some(i);
        }
        i += 1;
    }
    proof {
        assert(forall|k: int| occurs_at(s@, p@, k) ==> 0 <= k <= last as int);
    }
    None
}

/// The first `/` at or after `from`, or the string's length.
fn find_slash_from(s: &str, from: usize) -> (r: usize)
    requires
        from <= s@.len(),
    ensures
        segment_end_from(s@, from as int, r as int),
{
    let m: usize = s.unicode_len();
    let mut i: usize = from;
    while i < m
        invariant
            from <= i <= m,
            m == s@.len(),
            forall|k: int| from <= k < i ==> s@[k] != '/',
        decreases m - i,
    {
        if s.get_char(i) == '/' {
            return i;
        }
        i += 1;
    }
    m
}

/// The user name a story URL addresses: the path segment right after
/// the story marker, or a fixed placeholder when the URL holds none.
pub fn story_username(url: &str) -> (r: String)
    ensures
        !has_substring(url@, stories_marker()) ==> r@ == ("unknown")@,
        has_substring(url@, stories_marker()) ==> exists|i: int, e: int|
            {
                &&& #[trigger] first_occurrence_at(url@, stories_marker(), i)
                &&& #[trigger] segment_end_from(url@, i + stories_marker().len(), e)
                &&& r@ == url@.subrange(i + stories_marker().len(), e)
            },
{
    proof {
        reveal_strlit("/stories/");
        assert(("/stories/")@ =~= stories_marker());
    }
    let m: usize = url.unicode_len();
    match find_first_str(url, "/stories/") {
        None => String::from_str("unknown"),
        Some(i) => {
            proof {
                assert(i + stories_marker().len() <= m);
            }
            let start: usize = i + 9;
            let e = find_slash_from(url, start);
            let seg = url.substring_char(start, e);
            String::from_str(seg)
        },
    }
}

} // verus!
