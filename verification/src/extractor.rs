//! Content extraction: URL classification, validation of script-reported
//! entries, deduplication, and the strategy-level retry policy.
//!
//! In-page scripts run in the browser; this module holds every decision
//! the extractor makes about their results.

use vstd::prelude::*;
use crate::text::has_prefix;
use crate::text::has_suffix;
use crate::text::has_substring;
use crate::text::contains_str;
use crate::text::eq_str;
use crate::media::MediaKind;
use crate::media::RawEntry;
use crate::media::ExtractedItem;
use crate::media::blob_prefix;
use crate::media::mp4_suffix;
use crate::media::video_tag;
use crate::media::image_tag;
use crate::media::spec_parse_kind;
use crate::media::spec_fetchable;
use crate::media::all_fetchable;

verus! {

/// The URL path marker of a story.
pub open spec fn stories_marker() -> Seq<char> {
    seq!['/', 's', 't', 'o', 'r', 'i', 'e', 's', '/']
}

/// The URL path marker of a reel.
pub open spec fn reel_marker() -> Seq<char> {
    seq!['/', 'r', 'e', 'e', 'l', '/']
}

/// The alternative URL path marker of a reel.
pub open spec fn reels_marker() -> Seq<char> {
    seq!['/', 'r', 'e', 'e', 'l', 's', '/']
}

/// The URL path marker of a regular post.
pub open spec fn post_marker() -> Seq<char> {
    seq!['/', 'p', '/']
}

/// A URL is a story URL when its path holds the story marker.
pub open spec fn spec_is_story_url(u: Seq<char>) -> bool {
    has_substring(u, stories_marker())
}

/// A URL is a reel URL when its path holds either reel marker.
pub open spec fn spec_is_reel_url(u: Seq<char>) -> bool {
    has_substring(u, reel_marker()) || has_substring(u, reels_marker())
}

/// Whether `url` addresses a story.
pub fn is_story_url(url: &str) -> (r: bool)
    ensures
        r == spec_is_story_url(url@),
{
    let r = contains_str(url, "/stories/");
    proof {
        reveal_strlit("/stories/");
        assert(("/stories/")@ =~= stories_marker());
    }
    r
}

/// Whether `url` addresses a reel, under either marker.
pub fn is_reel_url(url: &str) -> (r: bool)
    ensures
        r == spec_is_reel_url(url@),
{
    proof {
        reveal_strlit("/reel/");
        reveal_strlit("/reels/");
        assert(("/reel/")@ =~= reel_marker());
        assert(("/reels/")@ =~= reels_marker());
    }
    contains_str(url, "/reel/") || contains_str(url, "/reels/")
}

/// The three content kinds the pipeline orchestrates.
#[derive(Clone, Copy, Debug, PartialEq, Eq, Structural)]
pub enum ContentKind {
    Post,
    Reel,
    Story,
}

/// Download dispatch: stories take precedence over reels; anything else
/// is treated as a post.
pub open spec fn spec_dispatch_kind(u: Seq<char>) -> ContentKind {
    if spec_is_story_url(u) {
        ContentKind::Story
    } else if spec_is_reel_url(u) {
        ContentKind::Reel
    } else {
        ContentKind::Post
    }
}

/// Classifies a download URL.  A pure function of the URL string, so
/// classifying the same URL twice always yields the same kind.
pub fn dispatch_kind(url: &str) -> (r: ContentKind)
    ensures
        r == spec_dispatch_kind(url@),
{
    if is_story_url(url) {
        ContentKind::Story
    } else if is_reel_url(url) {
        ContentKind::Reel
    } else {
        ContentKind::Post
    }
}

/// Preview classification: like dispatch, but it recognises only
/// explicit post URLs and rejects everything else.
pub open spec fn spec_preview_kind(u: Seq<char>) -> Option<ContentKind> {
    if spec_is_story_url(u) {
        Some(ContentKind::Story)
    } else if spec_is_reel_url(u) {
        Some(ContentKind::Reel)
    } else if has_substring(u, post_marker()) {
        Some(ContentKind::Post)
    } else {
        None
    }
}

/// Classifies a preview URL; `None` is an unsupported URL format.
pub fn preview_kind(url: &str) -> (r: Option<ContentKind>)
    ensures
        r == spec_preview_kind(url@),
{
    proof {
        reveal_strlit("/p/");
        assert(("/p/")@ =~= post_marker());
    }
    if is_story_url(url) {
        Some(ContentKind::Story)
    } else if is_reel_url(url) {
        Some(ContentKind::Reel)
    } else if contains_str(url, "/p/") {
        Some(ContentKind::Post)
    } else {
        None
    }
}

/// Classification is a function of the URL characters alone: equal URLs
/// classify equally, on every call.
pub proof fn lemma_classification_deterministic(u1: Seq<char>, u2: Seq<char>)
    requires
        u1 == u2,
    ensures
        spec_dispatch_kind(u1) == spec_dispatch_kind(u2),
        spec_preview_kind(u1) == spec_preview_kind(u2),
{
}

/// Which entries each extraction strategy keeps.
#[derive(Clone, Copy, Debug, PartialEq, Eq, Structural)]
pub enum FilterMode {
    /// Direct-video short circuit: only non-blob `.mp4` entries qualify.
    ReelVideo,
    /// Post scan: every well-formed, fetchable entry qualifies.
    PostMedia,
}

/// Whether an entry survives validation under `m`: its tag must parse,
/// its URL must be fetchable, and for the reel strategy it must name a
/// video file.
pub open spec fn spec_keep(m: FilterMode, e: RawEntry) -> bool {
    &&& spec_parse_kind(e.kind_tag@) is Some
    &&& spec_fetchable(e.url@)
    &&& (m == FilterMode::ReelVideo ==> has_suffix(e.url@, mp4_suffix()))
}

/// The validated item an entry maps to (meaningful when its tag parses).
pub open spec fn spec_entry_item(e: RawEntry) -> ExtractedItem {
    ExtractedItem {
        url: e.url,
        kind: if e.kind_tag@ == video_tag() {
            MediaKind::Video
        } else {
            MediaKind::Image
        },
    }
}

/// The validated items of `s` under mode `m`, in order.
pub open spec fn spec_filtered(m: FilterMode, s: Seq<RawEntry>) -> Seq<ExtractedItem>
    decreases s.len(),
{
    if s.len() == 0 {
        Seq::empty()
    } else {
        let init = spec_filtered(m, s.drop_last());
        if spec_keep(m, s.last()) {
            init.push(spec_entry_item(s.last()))
        } else {
            init
        }
    }
}

/// Validation never lets a temporary object reference through.
pub proof fn lemma_filtered_fetchable(m: FilterMode, s: Seq<RawEntry>)
    ensures
        all_fetchable(spec_filtered(m, s)),
    decreases s.len(),
{
    if s.len() > 0 {
        lemma_filtered_fetchable(m, s.drop_last());
    }
}

/// Whether `e` survives validation under `m`.
fn keep_entry(m: FilterMode, e: &RawEntry) -> (r: bool)
    ensures
        r == spec_keep(m, *e),
{
    let parsed = crate::media::parse_kind(e.kind_tag.as_str());
    if parsed.is_none() {
        return false;
    }
    if !crate::media::is_fetchable_url(e.url.as_str()) {
        return false;
    }
    match m {
        FilterMode::ReelVideo => crate::media::is_mp4_url(e.url.as_str()),
        FilterMode::PostMedia => true,
    }
}

/// The validated item for `e`; callers establish that the tag parses.
fn entry_item(e: &RawEntry) -> (r: ExtractedItem)
    ensures
        r == spec_entry_item(*e),
{
    proof {
        reveal_strlit("video");
        assert(("video")@ =~= video_tag());
    }
    let kind = if eq_str(e.kind_tag.as_str(), "video") {
        MediaKind::Video
    } else {
        MediaKind::Image
    };
    ExtractedItem { url: e.url.clone(), kind }
}

/// Validates script-reported entries under mode `m`, keeping order.
/// No returned item's URL begins with the temporary-object-reference
/// prefix.
pub fn filter_entries(m: FilterMode, entries: &Vec<RawEntry>) -> (r: Vec<ExtractedItem>)
    ensures
        r@ == spec_filtered(m, entries@),
        all_fetchable(r@),
{
    let mut out: Vec<ExtractedItem> = Vec::new();
    let n: usize = entries.len();
    let mut i: usize = 0;
    while i < n
        invariant
            i <= n,
            n == entries@.len(),
            out@ == spec_filtered(m, entries@.subrange(0, i as int)),
        decreases n - i,
    {
        let e = &entries[i];
        if keep_entry(m, e) {
            out.push(entry_item(e));
        }
        proof {
            let pre = entries@.subrange(0, i as int);
            let cur = entries@.subrange(0, i + 1);
            assert(cur.drop_last() =~= pre);
            assert(cur.last() == entries@[i as int]);
        }
        i += 1;
    }
    proof {
        assert(entries@.subrange(0, n as int) =~= entries@);
        lemma_filtered_fetchable(m, entries@);
    }
    out
}

/// A script entry that is a directly downloadable video: tagged as
/// video, fetchable, and naming an `.mp4` file.
pub open spec fn spec_reel_video_keep(e: RawEntry) -> bool {
    &&& e.kind_tag@ == video_tag()
    &&& spec_fetchable(e.url@)
    &&& has_suffix(e.url@, mp4_suffix())
}

/// The first directly downloadable video among `s`, if any.
pub open spec fn spec_first_reel_video(s: Seq<RawEntry>) -> Option<ExtractedItem>
    decreases s.len(),
{
    if s.len() == 0 {
        None
    } else if spec_reel_video_keep(s[0]) {
        Some(spec_entry_item(s[0]))
    } else {
        spec_first_reel_video(s.drop_first())
    }
}

/// Whether `e` is a directly downloadable video entry.
fn reel_video_keep(e: &RawEntry) -> (r: bool)
    ensures
        r == spec_reel_video_keep(*e),
{
    proof {
        reveal_strlit("video");
        assert(("video")@ =~= video_tag());
    }
    eq_str(e.kind_tag.as_str(), "video") && crate::media::is_fetchable_url(e.url.as_str())
        && crate::media::is_mp4_url(e.url.as_str())
}

/// The reel short circuit of the post strategy: the first qualifying
/// direct video element, returned alone; when it is present the
/// carousel and image scan is skipped entirely.
pub fn first_reel_video(entries: &Vec<RawEntry>) -> (r: Option<ExtractedItem>)
    ensures
        r == spec_first_reel_video(entries@),
        r is Some ==> r.unwrap().kind == MediaKind::Video && spec_fetchable(r.unwrap().url@),
{
    let n: usize = entries.len();
    let mut i: usize = 0;
    proof {
        assert(entries@.skip(0) =~= entries@);
    }
    while i < n
        invariant
            i <= n,
            n == entries@.len(),
            spec_first_reel_video(entries@.skip(i as int)) == spec_first_reel_video(entries@),
            forall|j: int| 0 <= j < i ==> !spec_reel_video_keep(#[trigger] entries@[j]),
        decreases n - i,
    {
        let e = &entries[i];
        proof {
            assert(entries@.skip(i as int)[0] == entries@[i as int]);
            assert(entries@.skip(i as int).drop_first() =~= entries@.skip(i + 1));
        }
        if reel_video_keep(e) {
            return Some(entry_item(e));
        }
        i += 1;
    }
    proof {
        assert(entries@.skip(n as int).len() == 0);
    }
    None
}

/// `u` is the URL of some item of `s`.
pub open spec fn spec_url_in(s: Seq<ExtractedItem>, u: Seq<char>) -> bool {
    exists|i: int| 0 <= i < s.len() && #[trigger] s[i].url@ == u
}

/// `s` with every later repetition of a URL removed: each item stays
/// only if its URL did not occur before it.
pub open spec fn spec_dedup(s: Seq<ExtractedItem>) -> Seq<ExtractedItem>
    decreases s.len(),
{
    if s.len() == 0 {
        Seq::empty()
    } else {
        let init = spec_dedup(s.drop_last());
        if spec_url_in(s.drop_last(), s.last().url@) {
            init
        } else {
            init.push(s.last())
        }
    }
}

/// Deduplication keeps exactly the URLs of the input.
pub proof fn lemma_dedup_urls(s: Seq<ExtractedItem>)
    ensures
        forall|u: Seq<char>| spec_url_in(spec_dedup(s), u) == spec_url_in(s, u),
    decreases s.len(),
{
    if s.len() > 0 {
        lemma_dedup_urls(s.drop_last());
        assert forall|u: Seq<char>| spec_url_in(spec_dedup(s), u) == spec_url_in(s, u) by {
            let last = s.last();
            if spec_url_in(s, u) {
                let i = choose|i: int| 0 <= i < s.len() && #[trigger] s[i].url@ == u;
                if i < s.len() - 1 {
                    assert(s.drop_last()[i].url@ == u);
                    assert(spec_url_in(s.drop_last(), u));
                } else {
                    if spec_url_in(s.drop_last(), u) {
                        assert(spec_url_in(spec_dedup(s.drop_last()), u));
                        let j = choose|j: int|
                            0 <= j < spec_dedup(s.drop_last()).len()
                                && #[trigger] spec_dedup(s.drop_last())[j].url@ == u;
                        assert(spec_dedup(s)[j].url@ == u);
                    } else {
                        assert(spec_dedup(s).last() == last);
                    }
                }
                if spec_url_in(s.drop_last(), u) {
                    let j = choose|j: int|
                        0 <= j < spec_dedup(s.drop_last()).len()
                            && #[trigger] spec_dedup(s.drop_last())[j].url@ == u;
                    assert(spec_dedup(s)[j].url@ == u);
                }
            }
            if spec_url_in(spec_dedup(s), u) {
                let i = choose|i: int|
                    0 <= i < spec_dedup(s).len() && #[trigger] spec_dedup(s)[i].url@ == u;
                if spec_url_in(s.drop_last(), last.url@) {
                    assert(spec_url_in(s.drop_last(), u));
                    let j = choose|j: int|
                        0 <= j < s.drop_last().len() && #[trigger] s.drop_last()[j].url@ == u;
                    assert(s[j].url@ == u);
                } else {
                    if i < spec_dedup(s).len() - 1 {
                        assert(spec_dedup(s.drop_last())[i].url@ == u);
                        assert(spec_url_in(s.drop_last(), u));
                        let j = choose|j: int|
                            0 <= j < s.drop_last().len() && #[trigger] s.drop_last()[j].url@ == u;
                        assert(s[j].url@ == u);
                    } else {
                        assert(spec_dedup(s)[i] == last);
                        assert(s[s.len() - 1].url@ == u);
                    }
                }
            }
        }
    }
}

/// Every deduplicated item is an item of the input.
pub proof fn lemma_dedup_members(s: Seq<ExtractedItem>)
    ensures
        forall|i: int|
            0 <= i < spec_dedup(s).len() ==> exists|j: int|
                0 <= j < s.len() && s[j] == #[trigger] spec_dedup(s)[i],
    decreases s.len(),
{
    if s.len() > 0 {
        lemma_dedup_members(s.drop_last());
        assert forall|i: int| 0 <= i < spec_dedup(s).len() implies exists|j: int|
            0 <= j < s.len() && s[j] == #[trigger] spec_dedup(s)[i] by {
            let init = spec_dedup(s.drop_last());
            if i < init.len() {
                assert(init[i] == spec_dedup(s)[i]);
                let j = choose|j: int| 0 <= j < s.drop_last().len() && s.drop_last()[j] == init[i];
                assert(s[j] == spec_dedup(s)[i]);
            } else {
                assert(spec_dedup(s)[i] == s[s.len() - 1]);
            }
        }
    }
}

/// Whether some item of `v` already carries the URL `u`.
fn url_present(v: &Vec<ExtractedItem>, u: &str) -> (r: bool)
    ensures
        r == spec_url_in(v@, u@),
{
    let n: usize = v.len();
    let mut i: usize = 0;
    while i < n
        invariant
            i <= n,
            n == v@.len(),
            forall|j: int| 0 <= j < i ==> #[trigger] v@[j].url@ != u@,
        decreases n - i,
    {
        if eq_str(v[i].url.as_str(), u) {
            return true;
        }
        i += 1;
    }
    false
}

/// Removes later repetitions of a URL, keeping first occurrences in
/// order, as the carousel scan does while advancing through slides.
pub fn dedup_by_url(items: &Vec<ExtractedItem>) -> (r: Vec<ExtractedItem>)
    ensures
        r@ == spec_dedup(items@),
        all_fetchable(items@) ==> all_fetchable(r@),
{
    let mut out: Vec<ExtractedItem> = Vec::new();
    let n: usize = items.len();
    let mut i: usize = 0;
    while i < n
        invariant
            i <= n,
            n == items@.len(),
            out@ == spec_dedup(items@.subrange(0, i as int)),
        decreases n - i,
    {
        let e = &items[i];
        proof {
            lemma_dedup_urls(items@.subrange(0, i as int));
            let pre = items@.subrange(0, i as int);
            let cur = items@.subrange(0, i + 1);
            assert(cur.drop_last() =~= pre);
            assert(cur.last() == items@[i as int]);
        }
        if !url_present(&out, e.url.as_str()) {
            out.push(ExtractedItem { url: e.url.clone(), kind: e.kind });
            proof {
                let pre = items@.subrange(0, i as int);
                assert(out@ =~= spec_dedup(pre).push(items@[i as int]));
            }
        }
        i += 1;
    }
    proof {
        assert(items@.subrange(0, n as int) =~= items@);
        if all_fetchable(items@) {
            lemma_dedup_members(items@);
            assert forall|i2: int| 0 <= i2 < spec_dedup(items@).len() implies spec_fetchable(
                #[trigger] spec_dedup(items@)[i2].url@,
            ) by {
                let j = choose|j: int|
                    0 <= j < items@.len() && items@[j] == spec_dedup(items@)[i2];
                assert(spec_fetchable(items@[j].url@));
            }
        }
    }
    out
}

/// The full post DOM scan: validated entries with duplicate URLs
/// removed.
pub fn post_scan_items(entries: &Vec<RawEntry>) -> (r: Vec<ExtractedItem>)
    ensures
        r@ == spec_dedup(spec_filtered(FilterMode::PostMedia, entries@)),
        all_fetchable(r@),
{
    let kept = filter_entries(FilterMode::PostMedia, entries);
    dedup_by_url(&kept)
}

/// Metadata-only extraction result.  For a reel request the first
/// qualifying video is returned alone; otherwise every validated entry
/// is returned.
pub fn normalize_metadata(entries: &Vec<RawEntry>, for_reel: bool) -> (r: Vec<ExtractedItem>)
    ensures
        for_reel && spec_first_reel_video(entries@) is Some ==> r@ == seq![
            spec_first_reel_video(entries@).unwrap(),
        ],
        !(for_reel && spec_first_reel_video(entries@) is Some) ==> r@ == spec_filtered(
            FilterMode::PostMedia,
            entries@,
        ),
        all_fetchable(r@),
{
    if for_reel {
        let first = first_reel_video(entries);
        match first {
            Some(item) => {
                let mut out: Vec<ExtractedItem> = Vec::new();
                out.push(item);
                return out;
            },
            None => {},
        }
    }
    filter_entries(FilterMode::PostMedia, entries)
}

/// A login wall is reported when any one heuristic signal is present:
/// a login call to action, explicit restriction text, or a platform
/// page that shows no media elements at all.
pub fn login_wall_detected(
    has_login_cta: bool,
    has_restriction_text: bool,
    platform_page_without_media: bool,
) -> (r: bool)
    ensures
        r == (has_login_cta || has_restriction_text || platform_page_without_media),
{
    has_login_cta || has_restriction_text || platform_page_without_media
}

/// The in-page strategies an extraction session can run.
#[derive(Clone, Copy, Debug, PartialEq, Eq, Structural)]
pub enum ExtractionStrategy {
    /// Meta tags and structured data only.
    MetadataOnly,
    /// The story scan loop.
    StoryScan,
    /// The post/reel DOM scan.
    PostScan,
}

/// Chooses the strategy for a page: metadata-only for a reel behind a
/// login wall, the story scan for stories, the DOM scan otherwise.
pub fn choose_strategy(kind: ContentKind, login_required: bool) -> (r: ExtractionStrategy)
    ensures
        login_required && kind == ContentKind::Reel ==> r == ExtractionStrategy::MetadataOnly,
        kind == ContentKind::Story ==> r == ExtractionStrategy::StoryScan,
        !(login_required && kind == ContentKind::Reel) && kind != ContentKind::Story ==> r
            == ExtractionStrategy::PostScan,
{
    if login_required && matches!(kind, ContentKind::Reel) {
        ExtractionStrategy::MetadataOnly
    } else if matches!(kind, ContentKind::Story) {
        ExtractionStrategy::StoryScan
    } else {
        ExtractionStrategy::PostScan
    }
}

/// The initial settle time in seconds before extraction: reels and
/// stories load more slowly than posts.
pub fn initial_wait_secs(kind: ContentKind) -> (r: u64)
    ensures
        kind == ContentKind::Post ==> r == 5,
        kind != ContentKind::Post ==> r == 10,
{
    match kind {
        ContentKind::Post => 5,
        _ => 10,
    }
}

/// The number of additional attempts an extraction strategy is given
/// after its first one.
pub const MAX_EXTRACTION_RETRIES: usize = 2;

/// What a single strategy attempt reported.
#[derive(Clone, Copy, Debug, PartialEq, Eq, Structural)]
pub enum ExtractAttemptEvent {
    /// The attempt yielded at least one item.
    NonEmpty,
    /// The attempt ran without error but found nothing; this is not
    /// success, and the strategy is retried.
    Empty,
    /// The attempt itself failed to run.
    Errored,
}

/// What the extraction retry loop does after an attempt.
#[derive(Clone, Copy, Debug, PartialEq, Eq, Structural)]
pub enum ExtractRetryDecision {
    /// Use the attempt's items.
    Accept,
    /// Pause, then run the strategy again.
    Retry,
    /// Surface the last attempt's outcome as it stands.
    GiveUp,
}

/// The retry decision after attempt number `attempt` (counted from 0)
/// reported `ev`.  An empty result is retried exactly like an error,
/// up to the configured retry count.
pub fn extraction_retry_decision(attempt: usize, ev: ExtractAttemptEvent) -> (r:
    ExtractRetryDecision)
    ensures
        ev == ExtractAttemptEvent::NonEmpty ==> r == ExtractRetryDecision::Accept,
        ev != ExtractAttemptEvent::NonEmpty && attempt < MAX_EXTRACTION_RETRIES ==> r
            == ExtractRetryDecision::Retry,
        ev != ExtractAttemptEvent::NonEmpty && attempt >= MAX_EXTRACTION_RETRIES ==> r
            == ExtractRetryDecision::GiveUp,
{
    if matches!(ev, ExtractAttemptEvent::NonEmpty) {
        ExtractRetryDecision::Accept
    } else if attempt < MAX_EXTRACTION_RETRIES {
        ExtractRetryDecision::Retry
    } else {
        ExtractRetryDecision::GiveUp
    }
}

/// How many attempts the retry loop performs when the successive
/// attempts would report `evs`: it stops at the first non-empty
/// attempt, and otherwise uses every allowed attempt.
pub open spec fn spec_extraction_attempts_used(evs: Seq<ExtractAttemptEvent>) -> int {
    if evs[0] == ExtractAttemptEvent::NonEmpty {
        1
    } else if evs[1] == ExtractAttemptEvent::NonEmpty {
        2
    } else {
        3
    }
}

/// Replays the strategy retry loop against the attempt reports `evs`.
/// Returns the number of attempts performed and the final decision.
/// An empty attempt is retried up to the configured retry count before
/// the loop gives up and lets the caller fall back.
pub fn run_extraction_attempts(evs: &Vec<ExtractAttemptEvent>) -> (r: (usize,
    ExtractRetryDecision))
    requires
        evs@.len() == MAX_EXTRACTION_RETRIES + 1,
    ensures
        r.0 == spec_extraction_attempts_used(evs@),
        1 <= r.0 <= MAX_EXTRACTION_RETRIES + 1,
        r.1 == ExtractRetryDecision::Accept <==> evs@[r.0 - 1] == ExtractAttemptEvent::NonEmpty,
        r.1 != ExtractRetryDecision::Retry,
        forall|j: int| 0 <= j < r.0 - 1 ==> evs@[j] != ExtractAttemptEvent::NonEmpty,
{
    let mut attempt: usize = 0;
    loop
        invariant
            attempt <= MAX_EXTRACTION_RETRIES,
            evs@.len() == MAX_EXTRACTION_RETRIES + 1,
            forall|j: int| 0 <= j < attempt ==> evs@[j] != ExtractAttemptEvent::NonEmpty,
        decreases MAX_EXTRACTION_RETRIES - attempt,
    {
        let ev = evs[attempt];
        let d = extraction_retry_decision(attempt, ev);
        match d {
            ExtractRetryDecision::Accept => {
                return (attempt + 1, d);
            },
            ExtractRetryDecision::GiveUp => {
                return (attempt + 1, d);
            },
            ExtractRetryDecision::Retry => {
                attempt += 1;
            },
        }
    }
}

/// The poll budget of the dynamic reel wait loop.
pub const REEL_POLL_LIMIT: usize = 20;

/// Whether the reel wait loop polls again: only while nothing usable
/// was found and the budget is not exhausted.
pub fn reel_poll_should_continue(attempts: usize, found: bool) -> (r: bool)
    ensures
        r == (!found && attempts < REEL_POLL_LIMIT),
{
    !found && attempts < REEL_POLL_LIMIT
}

/// The first fetchable URL of `s`, if any.
pub open spec fn spec_first_fetchable(s: Seq<String>) -> Option<String>
    decreases s.len(),
{
    if s.len() == 0 {
        None
    } else if spec_fetchable(s[0]@) {
        Some(s[0])
    } else {
        spec_first_fetchable(s.drop_first())
    }
}

/// Picks the first fetchable candidate, in the order the extraction
/// methods produced them.
pub fn first_fetchable(cands: &Vec<String>) -> (r: Option<String>)
    ensures
        r == spec_first_fetchable(cands@),
        r is Some ==> spec_fetchable(r.unwrap()@),
{
    let n: usize = cands.len();
    let mut i: usize = 0;
    proof {
        assert(cands@.skip(0) =~= cands@);
    }
    while i < n
        invariant
            i <= n,
            n == cands@.len(),
            spec_first_fetchable(cands@.skip(i as int)) == spec_first_fetchable(cands@),
            forall|j: int| 0 <= j < i ==> !spec_fetchable(#[trigger] cands@[j]@),
        decreases n - i,
    {
        proof {
            assert(cands@.skip(i as int)[0] == cands@[i as int]);
            assert(cands@.skip(i as int).drop_first() =~= cands@.skip(i + 1));
        }
        if crate::media::is_fetchable_url(cands[i].as_str()) {
            return Some(cands[i].clone());
        }
        i += 1;
    }
    proof {
        assert(cands@.skip(n as int).len() == 0);
    }
    None
}

/// The hard cap on stories taken from one page.
pub const STORY_CAP: usize = 20;

/// Whether the story loop advances to another story: only while a
/// navigation control exists and the cap is not reached.
pub fn story_should_continue(count: usize, has_next: bool) -> (r: bool)
    ensures
        r == (has_next && count < STORY_CAP),
{
    has_next && count < STORY_CAP
}

/// One step of the story scan: whether a navigation control was still
/// present, and the media the current story yielded, if any.
#[derive(Clone, Debug)]
pub struct StoryStepObs {
    pub has_next: bool,
    pub item: Option<ExtractedItem>,
}

/// The items the story loop collects from `steps` when `count` items
/// are already held: it stops at the cap or at the first step with no
/// navigation control, and a step without media adds nothing.
pub open spec fn spec_story_scan(steps: Seq<StoryStepObs>, count: int) -> Seq<ExtractedItem>
    decreases steps.len(),
{
    if count >= STORY_CAP || steps.len() == 0 {
        Seq::empty()
    } else if !steps[0].has_next {
        Seq::empty()
    } else {
        match steps[0].item {
            Some(it) => seq![it] + spec_story_scan(steps.drop_first(), count + 1),
            None => spec_story_scan(steps.drop_first(), count),
        }
    }
}

/// The scan never collects more than the cap leaves room for.
pub proof fn lemma_story_scan_len(steps: Seq<StoryStepObs>, count: int)
    requires
        0 <= count,
    ensures
        spec_story_scan(steps, count).len() + count <= STORY_CAP || spec_story_scan(
            steps,
            count,
        ).len() == 0,
    decreases steps.len(),
{
    if count < STORY_CAP && steps.len() > 0 && steps[0].has_next {
        match steps[0].item {
            Some(it) => lemma_story_scan_len(steps.drop_first(), count + 1),
            None => lemma_story_scan_len(steps.drop_first(), count),
        }
    }
}

/// Replays the story loop: `first` is what the initial extraction
/// yielded, `steps` what each later navigate-and-extract step would
/// observe.  With no first story the scan ends empty at once; else it
/// follows the navigation control, stops cleanly at the cap, and
/// returns at most the cap's worth of items.
pub fn run_story_scan(first: Option<ExtractedItem>, steps: &Vec<StoryStepObs>) -> (r: Vec<
    ExtractedItem>)
    ensures
        first is None ==> r@.len() == 0,
        first is Some ==> r@ == seq![first.unwrap()] + spec_story_scan(steps@, 1),
        r@.len() <= STORY_CAP,
{
    let mut out: Vec<ExtractedItem> = Vec::new();
    let f = match &first {
        None => {
            return out;
        },
        Some(f0) => ExtractedItem { url: f0.url.clone(), kind: f0.kind },
    };
    proof {
        assert(first.unwrap() == f);
    }
    let ghost f0 = f;
    let ghost target: Seq<ExtractedItem> = seq![f0] + spec_story_scan(steps@, 1);
    out.push(f);
    let mut count: usize = 1;
    let n: usize = steps.len();
    let mut i: usize = 0;
    proof {
        assert(steps@.skip(0) =~= steps@);
    }
    while i < n
        invariant
            i <= n,
            n == steps@.len(),
            1 <= count <= STORY_CAP,
            count == out@.len(),
            first == Some(f0),
            target == seq![f0] + spec_story_scan(steps@, 1),
            out@ + spec_story_scan(steps@.skip(i as int), count as int) == target,
        decreases n - i,
    {
        proof {
            assert(steps@.skip(i as int)[0] == steps@[i as int]);
            assert(steps@.skip(i as int).drop_first() =~= steps@.skip(i + 1));
        }
        if count >= STORY_CAP {
            proof {
                assert(out@ + spec_story_scan(steps@.skip(i as int), count as int) =~= out@);
            }
            return out;
        }
        let step = &steps[i];
        if !step.has_next {
            proof {
                assert(out@ + spec_story_scan(steps@.skip(i as int), count as int) =~= out@);
            }
            return out;
        }
        match &step.item {
            Some(it) => {
                out.push(ExtractedItem { url: it.url.clone(), kind: it.kind });
                count += 1;
                proof {
                    assert(out@ + spec_story_scan(steps@.skip(i + 1), count as int) =~= target);
                }
            },
            None => {
                proof {
                    assert(out@ + spec_story_scan(steps@.skip(i + 1), count as int) =~= target);
                }
            },
        }
        i += 1;
    }
    proof {
        assert(steps@.skip(n as int).len() == 0);
        assert(out@ + spec_story_scan(steps@.skip(n as int), count as int) =~= out@);
    }
    out
}

/// The index of the best responsive-image candidate: the first entry
/// whose declared width no later entry exceeds.
pub fn best_candidate_index(widths: &Vec<u64>) -> (r: Option<usize>)
    ensures
        (r is None) <==> widths@.len() == 0,
        r is Some ==> {
            let bi = r.unwrap() as int;
            &&& 0 <= bi < widths@.len()
            &&& forall|j: int| 0 <= j < widths@.len() ==> #[trigger] widths@[j] <= widths@[bi]
            &&& forall|j: int| 0 <= j < bi ==> #[trigger] widths@[j] < widths@[bi]
        },
{
    let n: usize = widths.len();
    if n == 0 {
        return None;
    }
    let mut best: usize = 0;
    let mut i: usize = 1;
    while i < n
        invariant
            1 <= i <= n,
            n == widths@.len(),
            best < i,
            forall|j: int| 0 <= j < i ==> #[trigger] widths@[j] <= widths@[best as int],
            forall|j: int| 0 <= j < best ==> #[trigger] widths@[j] < widths@[best as int],
        decreases n - i,
    {
        if widths[i] > widths[best] {
            best = i;
        }
        i += 1;
    }
    Some(best)
}

/// The live-video tier of the story chooser: the video element's
/// source, when it is fetchable.
pub open spec fn spec_video_choice(video: Option<String>) -> Option<ExtractedItem> {
    match video {
        Some(v) => {
            if spec_fetchable(v@) {
                Some(ExtractedItem { url: v, kind: MediaKind::Video })
            } else {
                None
            }
        },
        None => None,
    }
}

/// `bi` is the index of the best responsive-image candidate: the
/// first whose declared width no other exceeds.
pub open spec fn spec_best_width_at(widths: Seq<u64>, bi: int) -> bool {
    &&& 0 <= bi < widths.len()
    &&& forall|j: int| 0 <= j < widths.len() ==> #[trigger] widths[j] <= widths[bi]
    &&& forall|j: int| 0 <= j < bi ==> #[trigger] widths[j] < widths[bi]
}

/// At most one index is the best candidate.
pub proof fn lemma_best_width_unique(widths: Seq<u64>, b1: int, b2: int)
    requires
        spec_best_width_at(widths, b1),
        spec_best_width_at(widths, b2),
    ensures
        b1 == b2,
{
    if b1 < b2 {
        assert(widths[b1] < widths[b2]);
        assert(widths[b2] <= widths[b1]);
    }
    if b2 < b1 {
        assert(widths[b2] < widths[b1]);
        assert(widths[b1] <= widths[b2]);
    }
}

/// The media the current story shows: a fetchable live video is
/// preferred; else the best responsive-image candidate when its URL is
/// fetchable; else the plain image when it is neither an inline data
/// URI nor a temporary object reference; else nothing.
pub fn story_media_choice(
    video: &Option<String>,
    srcset_urls: &Vec<String>,
    srcset_widths: &Vec<u64>,
    plain_image: &Option<String>,
) -> (r: Option<ExtractedItem>)
    requires
        srcset_urls@.len() == srcset_widths@.len(),
    ensures
        spec_video_choice(*video) is Some ==> r == spec_video_choice(*video),
        spec_video_choice(*video) is None ==> forall|bi: int|
            spec_best_width_at(srcset_widths@, bi) && spec_fetchable(
                #[trigger] srcset_urls@[bi]@,
            ) ==> r == Some(ExtractedItem { url: srcset_urls@[bi], kind: MediaKind::Image }),
        (spec_video_choice(*video) is None && (forall|bi: int|
            spec_best_width_at(srcset_widths@, bi) ==> !spec_fetchable(
                #[trigger] srcset_urls@[bi]@,
            ))) ==> match *plain_image {
            Some(p) => {
                if !has_prefix(p@, crate::media::data_prefix()) && spec_fetchable(p@) {
                    r == Some(ExtractedItem { url: p, kind: MediaKind::Image })
                } else {
                    r is None
                }
            },
            None => r is None,
        },
{
    match video {
        Some(v) => {
            if crate::media::is_fetchable_url(v.as_str()) {
                return Some(ExtractedItem { url: v.clone(), kind: MediaKind::Video });
            }
        },
        None => {},
    }
    match best_candidate_index(&srcset_widths) {
        Some(bi) => {
            proof {
                assert forall|b2: int| spec_best_width_at(srcset_widths@, b2) implies b2
                    == bi as int by {
                    lemma_best_width_unique(srcset_widths@, b2, bi as int);
                }
            }
            let u = srcset_urls[bi].clone();
            if crate::media::is_fetchable_url(u.as_str()) {
                return Some(ExtractedItem { url: u, kind: MediaKind::Image });
            }
        },
        None => {},
    }
    match plain_image {
        Some(p) => {
            if !crate::media::is_data_url(p.as_str()) && crate::media::is_fetchable_url(
                p.as_str(),
            ) {
                return Some(ExtractedItem { url: p.clone(), kind: MediaKind::Image });
            }
        },
        None => {},
    }
    None
}

} // verus!
