//! The HTTP API's data shapes and the media-proxy URL logic.
//!
//! The route layer itself (request parsing, serving) is unverified
//! glue; everything it decides — dispatch, proxy URL rewriting,
//! content types, attachment names, response assembly — lives here.

use vstd::prelude::*;
use vstd::string::StrSliceExecFns;
use vstd::string::StringExecFns;
use crate::text::has_substring;
use crate::text::has_suffix;
use crate::text::contains_str;
use crate::text::ends_with_str;
use crate::text::spec_trim_trailing_slashes;
use crate::text::trim_trailing_slashes;
use crate::media::MediaKind;
use crate::media::ExtractedItem;
use crate::media::spec_kind_label;
use crate::media::blob_prefix;
use crate::media::mp4_suffix;
use crate::media::all_fetchable;
use crate::extractor::ContentKind;

verus! {

/// A media reference as served to API clients.
#[derive(Debug, Clone)]
pub struct MediaItem {
    pub url: String,
    pub media_type: String,
    pub thumbnail_url: Option<String>,
}

/// The body of a preview answer.
#[derive(Debug, Clone)]
pub struct PreviewResponse {
    pub success: bool,
    pub content_type: Option<String>,
    pub media_items: Option<Vec<MediaItem>>,
    pub error: Option<String>,
    pub debug_info: Option<Vec<(String, String)>>,
}

/// The body of a download request.
#[derive(Debug, Clone)]
pub struct DownloadRequest {
    pub url: String,
    pub browser: Option<String>,
    pub use_ytdlp_first: Option<bool>,
}

/// The body of a preview request.
#[derive(Debug, Clone)]
pub struct PreviewRequest {
    pub url: String,
    pub browser: Option<String>,
}

/// The query of the media proxy.
#[derive(Debug, Clone)]
pub struct MediaProxyParams {
    pub url: String,
    pub download: Option<bool>,
    pub filename: Option<String>,
}

/// The label a content kind is reported under.
pub open spec fn spec_kind_name(kind: ContentKind) -> Seq<char> {
    match kind {
        ContentKind::Post => ("post")@,
        ContentKind::Reel => ("reel")@,
        ContentKind::Story => ("story")@,
    }
}

/// The report label of `kind`.
pub fn kind_name(kind: ContentKind) -> (r: &'static str)
    ensures
        r@ == spec_kind_name(kind),
{
    match kind {
        ContentKind::Post => "post",
        ContentKind::Reel => "reel",
        ContentKind::Story => "story",
    }
}

/// Converts validated items to their client shape.  No served item's
/// URL begins with the temporary-object-reference prefix.
pub fn to_media_items(items: &Vec<ExtractedItem>) -> (r: Vec<MediaItem>)
    requires
        all_fetchable(items@),
    ensures
        r@.len() == items@.len(),
        forall|i: int|
            0 <= i < r@.len() ==> {
                &&& (#[trigger] r@[i]).url@ == items@[i].url@
                &&& r@[i].media_type@ == spec_kind_label(items@[i].kind)
                &&& r@[i].thumbnail_url is None
                &&& !crate::text::has_prefix(r@[i].url@, blob_prefix())
            },
{
    let n: usize = items.len();
    let mut out: Vec<MediaItem> = Vec::new();
    let mut i: usize = 0;
    while i < n
        invariant
            i <= n,
            n == items@.len(),
            all_fetchable(items@),
            out@.len() == i,
            forall|k: int|
                0 <= k < i ==> {
                    &&& (#[trigger] out@[k]).url@ == items@[k].url@
                    &&& out@[k].media_type@ == spec_kind_label(items@[k].kind)
                    &&& out@[k].thumbnail_url is None
                    &&& !crate::text::has_prefix(out@[k].url@, blob_prefix())
                },
        decreases n - i,
    {
        let item = &items[i];
        let label = crate::media::kind_label(item.kind);
        out.push(
            MediaItem {
                url: item.url.clone(),
                media_type: String::from_str(label),
                thumbnail_url: None,
            },
        );
        i += 1;
    }
    out
}

/// Assembles a preview answer: it reports success exactly when media
/// items were produced, and a successful preview always carries at
/// least one item — an empty extraction is handed in as `None`, never
/// as an empty list.
pub fn preview_response(
    kind_label: String,
    media_items: Option<Vec<MediaItem>>,
    error: Option<String>,
    debug_info: Option<Vec<(String, String)>>,
) -> (r: PreviewResponse)
    requires
        media_items matches Some(v) ==> v@.len() > 0,
    ensures
        r.success == (r.media_items is Some),
        r.success ==> r.media_items.unwrap()@.len() > 0,
        r.media_items == media_items,
        r.content_type matches Some(c) && c == kind_label,
        r.error == error,
        r.debug_info == debug_info,
{
    let success = media_items.is_some();
    PreviewResponse {
        success,
        content_type: Some(kind_label),
        media_items,
        error,
        debug_info,
    }
}

/// The answer to a preview URL no classifier accepts.
pub fn unsupported_url_message() -> (r: String)
    ensures
        r@ == ("Unsupported URL format")@,
{
    String::from_str("Unsupported URL format")
}

/// The answer to a download request without a URL.
pub fn url_required_message() -> (r: String)
    ensures
        r@ == ("❌ URL is required")@,
{
    String::from_str("❌ URL is required")
}

/// Whether a preview that found nothing for a reel should launch the
/// isolated headless capture as a last resort.
pub fn preview_needs_headless_fallback(kind: ContentKind, item_count: usize) -> (r: bool)
    ensures
        r == (kind == ContentKind::Reel && item_count == 0),
{
    matches!(kind, ContentKind::Reel) && item_count == 0
}

/// The URL path marker of a shortened video link.
pub open spec fn v_marker() -> Seq<char> {
    seq!['/', 'v', '/']
}

/// The file suffix of an image.
pub open spec fn jpg_suffix() -> Seq<char> {
    seq!['.', 'j', 'p', 'g']
}

/// The proxy's URL rewrite: a URL that already names an `.mp4` or
/// `.jpg` resource passes through; a shortened video link or an
/// extension-less reel URL gets the canonical video path appended.
pub open spec fn spec_process_media_url(u: Seq<char>) -> Seq<char> {
    if has_substring(u, mp4_suffix()) {
        u
    } else if has_substring(u, v_marker()) && !has_suffix(u, mp4_suffix()) {
        spec_trim_trailing_slashes(u) + ("/video/index.mp4")@
    } else if !has_substring(u, jpg_suffix()) && !has_substring(u, mp4_suffix()) {
        if has_substring(u, crate::extractor::reel_marker()) {
            spec_trim_trailing_slashes(u) + ("/video/index.mp4")@
        } else {
            u
        }
    } else {
        u
    }
}

/// Rewrites a proxied media URL to its downloadable form.
pub fn process_media_url(url: &str) -> (r: String)
    ensures
        r@ == spec_process_media_url(url@),
{
    proof {
        reveal_strlit(".mp4");
        reveal_strlit("/v/");
        reveal_strlit(".jpg");
        reveal_strlit("/reel/");
        assert((".mp4")@ =~= mp4_suffix());
        assert(("/v/")@ =~= v_marker());
        assert((".jpg")@ =~= jpg_suffix());
        assert(("/reel/")@ =~= crate::extractor::reel_marker());
    }
    let has_mp4 = contains_str(url, ".mp4");
    if has_mp4 {
        return String::from_str(url);
    }
    if contains_str(url, "/v/") && !ends_with_str(url, ".mp4") {
        let mut s = String::from_str(trim_trailing_slashes(url));
        s.append("/video/index.mp4");
        return s;
    }
    if !contains_str(url, ".jpg") {
        if contains_str(url, "/reel/") {
            let mut s = String::from_str(trim_trailing_slashes(url));
            s.append("/video/index.mp4");
            return s;
        }
        return String::from_str(url);
    }
    String::from_str(url)
}

/// The content type the proxy serves a URL under: by extension when
/// one is recognised, else the upstream header's value.
pub fn media_content_type(url: &str, upstream: &str) -> (r: String)
    ensures
        has_suffix(url@, mp4_suffix()) ==> r@ == ("video/mp4")@,
        !has_suffix(url@, mp4_suffix()) && (has_suffix(url@, jpg_suffix()) || has_suffix(
            url@,
            (".jpeg")@,
        )) ==> r@ == ("image/jpeg")@,
        !has_suffix(url@, mp4_suffix()) && !has_suffix(url@, jpg_suffix()) && !has_suffix(
            url@,
            (".jpeg")@,
        ) && has_suffix(url@, (".png")@) ==> r@ == ("image/png")@,
        !has_suffix(url@, mp4_suffix()) && !has_suffix(url@, jpg_suffix()) && !has_suffix(
            url@,
            (".jpeg")@,
        ) && !has_suffix(url@, (".png")@) ==> r@ == upstream@,
{
    proof {
        reveal_strlit(".mp4");
        reveal_strlit(".jpg");
        assert((".mp4")@ =~= mp4_suffix());
        assert((".jpg")@ =~= jpg_suffix());
    }
    if ends_with_str(url, ".mp4") {
        String::from_str("video/mp4")
    } else if ends_with_str(url, ".jpg") || ends_with_str(url, ".jpeg") {
        String::from_str("image/jpeg")
    } else if ends_with_str(url, ".png") {
        String::from_str("image/png")
    } else {
        String::from_str(upstream)
    }
}

/// `l` is the index of the last `/` of `s`, or `-1` when `s` holds
/// none.
pub open spec fn last_slash_at(s: Seq<char>, l: int) -> bool {
    &&& -1 <= l < s.len()
    &&& (l == -1 || s[l] == '/')
    &&& forall|k: int| l < k < s.len() ==> s[k] != '/'
}

/// `q` is where the segment starting at `from` is cut: the first `?`
/// at or after `from`, or the end of the string.
pub open spec fn query_cut_at(s: Seq<char>, from: int, q: int) -> bool {
    &&& from <= q <= s.len()
    &&& (q == s.len() || s[q] == '?')
    &&& forall|k: int| from <= k < q ==> s[k] != '?'
}

/// The attachment name of a proxied download: the caller's name when
/// one was given, else the URL's last path segment with any query
/// stripped.
pub fn attachment_filename(filename: &Option<String>, url: &str) -> (r: String)
    ensures
        filename matches Some(f) ==> r@ == f@,
        filename is None ==> exists|l: int, q: int|
            {
                &&& #[trigger] last_slash_at(url@, l)
                &&& #[trigger] query_cut_at(url@, l + 1, q)
                &&& r@ == url@.subrange(l + 1, q)
            },
{
    match filename {
        Some(f) => f.clone(),
        None => {
            let m: usize = url.unicode_len();
            let mut start: usize = 0;
            let mut j: usize = 0;
            let ghost mut l: int = -1;
            while j < m
                invariant
                    j <= m,
                    m == url@.len(),
                    start == l + 1,
                    -1 <= l < m,
                    l == -1 || url@[l] == '/',
                    forall|k: int| l < k < j ==> url@[k] != '/',
                decreases m - j,
            {
                if url.get_char(j) == '/' {
                    start = j + 1;
                    proof {
                        l = j as int;
                    }
                }
                j += 1;
            }
            let mut q: usize = start;
            while q < m && url.get_char(q) != '?'
                invariant
                    start <= q <= m,
                    m == url@.len(),
                    forall|k: int| start <= k < q ==> url@[k] != '?',
                decreases m - q,
            {
                q += 1;
            }
            let seg = url.substring_char(start, q);
            proof {
                assert(last_slash_at(url@, l));
                assert(query_cut_at(url@, l + 1, q as int));
            }
            String::from_str(seg)
        },
    }
}

/// The attachment disposition header value for a download.
pub fn content_disposition_value(filename: &str) -> (r: String)
    ensures
        r@ == ("attachment; filename=\"")@ + filename@ + ("\"")@,
{
    let mut s = String::from_str("attachment; filename=\"");
    s.append(filename);
    s.append("\"");
    s
}

/// The outbound identity of the media proxy.
pub fn proxy_user_agent() -> (r: &'static str)
    ensures
        r@ == (
        "Mozilla/5.0 (iPhone; CPU iPhone OS 15_0 like Mac OS X) AppleWebKit/605.1.15 (KHTML, like Gecko) CriOS/96.0.4664.110 Mobile/15E148 Safari/604.1"
        )@,
{
    "Mozilla/5.0 (iPhone; CPU iPhone OS 15_0 like Mac OS X) AppleWebKit/605.1.15 (KHTML, like Gecko) CriOS/96.0.4664.110 Mobile/15E148 Safari/604.1"
}

/// The outbound identity of the handlers' own HTTP client.
pub fn handler_user_agent() -> (r: &'static str)
    ensures
        r@ == (
        "Mozilla/5.0 (Windows NT 10.0; Win64; x64) AppleWebKit/537.36 (KHTML, like Gecko) Chrome/96.0.4664.110 Safari/537.36"
        )@,
{
    "Mozilla/5.0 (Windows NT 10.0; Win64; x64) AppleWebKit/537.36 (KHTML, like Gecko) Chrome/96.0.4664.110 Safari/537.36"
}

} // verus!
