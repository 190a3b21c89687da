//! The batch download coordinator's verified core: deterministic
//! file naming, the bounded-concurrency permit gauge, and per-item
//! outcome aggregation.
//!
//! Downloads run concurrently in the shell; every decision — which
//! file each item is written to, when a worker may start, and what
//! each item's outcome is — is taken here.

use vstd::prelude::*;
use vstd::string::StringExecFns;
use crate::media::MediaKind;
use crate::media::ExtractedItem;
use crate::downloader::DownloadError;
use crate::downloader::spec_download_verified;
use crate::downloader::verify_download;
use crate::downloader::VerifyFailure;
use crate::text::spec_decimal;
use crate::text::spec_padded_min3;
use crate::text::u64_label;
use crate::text::padded_min3_label;

verus! {

/// How one item's download ended.
#[derive(Debug, Clone)]
pub enum DownloadResult {
    /// The file was written and passed post-download verification.
    Success { size: u64, declared: Option<u64> },
    /// The download failed; the reason is carried.
    Failed(DownloadError),
}

/// The record the coordinator produces for one item.
#[derive(Debug, Clone)]
pub struct DownloadOutcome {
    pub item: ExtractedItem,
    pub destination_path: String,
    pub result: DownloadResult,
}

/// A well-formed outcome never reports success for a file that failed
/// verification: a successful download is non-empty and matches the
/// declared content length when one was given.
pub open spec fn outcome_verified(o: DownloadOutcome) -> bool {
    o.result matches DownloadResult::Success { size, declared } ==> spec_download_verified(
        size,
        declared,
    )
}

/// The file extension an item is stored under.
pub open spec fn spec_media_ext(kind: MediaKind) -> Seq<char> {
    match kind {
        MediaKind::Video => ("mp4")@,
        MediaKind::Image => ("jpg")@,
    }
}

/// The extension for `kind`.
pub fn media_ext(kind: MediaKind) -> (r: &'static str)
    ensures
        r@ == spec_media_ext(kind),
{
    match kind {
        MediaKind::Video => "mp4",
        MediaKind::Image => "jpg",
    }
}

/// The destination of item number `index` (counted from 0) of a post
/// batch: `media_<index+1>.<ext>` inside the request folder.
pub open spec fn spec_media_filename(folder: Seq<char>, index: nat, kind: MediaKind) -> Seq<
    char,
> {
    folder + ("/media_")@ + spec_decimal(index + 1) + (".")@ + spec_media_ext(kind)
}

/// Derives the destination path of a post-batch item.
pub fn media_filename(folder: &str, index: usize, kind: MediaKind) -> (r: String)
    requires
        index < usize::MAX,
    ensures
        r@ == spec_media_filename(folder@, index as nat, kind),
{
    let mut s = String::from_str(folder);
    s.append("/media_");
    let label = u64_label((index + 1) as u64);
    s.append(label.as_str());
    s.append(".");
    s.append(media_ext(kind));
    s
}

/// The destination of story number `index` (counted from 0):
/// `story_<NNN>.<ext>`, zero-padded, inside the request folder.
pub open spec fn spec_story_filename(folder: Seq<char>, index: nat, kind: MediaKind) -> Seq<
    char,
> {
    folder + ("/story_")@ + spec_padded_min3(index + 1) + (".")@ + spec_media_ext(kind)
}

/// Derives the destination path of a story item.
pub fn story_filename(folder: &str, index: usize, kind: MediaKind) -> (r: String)
    requires
        index < usize::MAX,
    ensures
        r@ == spec_story_filename(folder@, index as nat, kind),
{
    let mut s = String::from_str(folder);
    s.append("/story_");
    let label = padded_min3_label((index + 1) as u64);
    s.append(label.as_str());
    s.append(".");
    s.append(media_ext(kind));
    s
}

/// The counting permit that bounds how many downloads run at once.
#[derive(Debug, Clone, Copy)]
pub struct PermitGauge {
    pub limit: usize,
    pub in_flight: usize,
}

/// The gauge never admits more workers than its limit.
pub open spec fn gauge_wf(g: PermitGauge) -> bool {
    g.in_flight <= g.limit
}

/// A fresh gauge with no worker in flight.
pub fn new_gauge(limit: usize) -> (g: PermitGauge)
    ensures
        gauge_wf(g),
        g.limit == limit,
        g.in_flight == 0,
{
    PermitGauge { limit, in_flight: 0 }
}

/// Admits a worker when a permit is free.  However often this is
/// called, the number in flight never exceeds the limit.
pub fn try_acquire(g: &mut PermitGauge) -> (admitted: bool)
    requires
        gauge_wf(*old(g)),
    ensures
        gauge_wf(*final(g)),
        final(g).limit == old(g).limit,
        admitted == (old(g).in_flight < old(g).limit),
        admitted ==> final(g).in_flight == old(g).in_flight + 1,
        !admitted ==> final(g).in_flight == old(g).in_flight,
{
    if g.in_flight < g.limit {
        g.in_flight = g.in_flight + 1;
        true
    } else {
        false
    }
}

/// Returns a worker's permit.
pub fn release(g: &mut PermitGauge)
    requires
        gauge_wf(*old(g)),
        old(g).in_flight > 0,
    ensures
        gauge_wf(*final(g)),
        final(g).limit == old(g).limit,
        final(g).in_flight == old(g).in_flight - 1,
{
    g.in_flight = g.in_flight - 1;
}

/// One event of a batch's concurrency trace: a worker asking for a
/// permit, or returning one.
#[derive(Clone, Copy, Debug, PartialEq, Eq, Structural)]
pub enum PermitEvent {
    Acquire,
    Release,
}

/// The number of workers in flight after `evs`: an acquire admits a
/// worker only while a permit is free, and a release below zero is
/// impossible and ignored.
pub open spec fn spec_in_flight_after(evs: Seq<PermitEvent>, limit: nat) -> nat
    decreases evs.len(),
{
    if evs.len() == 0 {
        0
    } else {
        let before = spec_in_flight_after(evs.drop_last(), limit);
        match evs.last() {
            PermitEvent::Acquire => {
                if before < limit {
                    before + 1
                } else {
                    before
                }
            },
            PermitEvent::Release => {
                if before > 0 {
                    (before - 1) as nat
                } else {
                    0
                }
            },
        }
    }
}

/// However a batch's workers interleave their starts and finishes,
/// the number in flight never exceeds the permit limit.
pub proof fn lemma_in_flight_bounded(evs: Seq<PermitEvent>, limit: nat)
    ensures
        spec_in_flight_after(evs, limit) <= limit,
    decreases evs.len(),
{
    if evs.len() > 0 {
        lemma_in_flight_bounded(evs.drop_last(), limit);
    }
}

/// What the shell observed for one item: `None` when the fetch itself
/// failed after its retries; else the written file's size and the
/// declared content length.
#[derive(Debug, Clone)]
pub enum ItemFetchReport {
    Failed(DownloadError),
    Written { size: u64, declared: Option<u64> },
}

/// The description of a size-mismatch failure.
pub open spec fn spec_mismatch_text(expected: nat, got: nat) -> Seq<char> {
    ("File size mismatch. Expected: ")@ + spec_decimal(expected) + (", Got: ")@ + spec_decimal(
        got,
    )
}

/// The description of an empty-file failure.
pub open spec fn spec_empty_text() -> Seq<char> {
    ("Downloaded file is empty")@
}

/// How the outcome recorded for one item relates to what the shell
/// observed: a written file succeeds exactly when it passes
/// post-download verification; a mismatched or empty file fails with
/// the matching description; a failed fetch carries its own error.
pub open spec fn spec_outcome_matches(rep: ItemFetchReport, o: DownloadOutcome) -> bool {
    match rep {
        ItemFetchReport::Failed(e) => o.result == DownloadResult::Failed(e),
        ItemFetchReport::Written { size, declared } => {
            if spec_download_verified(size, declared) {
                o.result == (DownloadResult::Success { size, declared })
            } else if declared is Some && size != declared.unwrap() {
                o.result matches DownloadResult::Failed(f) && f.0@ == spec_mismatch_text(
                    declared.unwrap() as nat,
                    size as nat,
                )
            } else {
                o.result matches DownloadResult::Failed(f) && f.0@ == spec_empty_text()
            }
        },
    }
}

/// Records the outcome of one item.  A truncated or empty file is a
/// failure, never a success, even though its network stream completed
/// normally.
pub fn record_outcome(item: ExtractedItem, path: String, rep: ItemFetchReport) -> (o:
    DownloadOutcome)
    ensures
        o.item == item,
        o.destination_path == path,
        outcome_verified(o),
        spec_outcome_matches(rep, o),
{
    match rep {
        ItemFetchReport::Failed(e) => DownloadOutcome {
            item,
            destination_path: path,
            result: DownloadResult::Failed(e),
        },
        ItemFetchReport::Written { size, declared } => {
            match verify_download(size, declared) {
                None => DownloadOutcome {
                    item,
                    destination_path: path,
                    result: DownloadResult::Success { size, declared },
                },
                Some(VerifyFailure::SizeMismatch) => {
                    let expected = match declared {
                        Some(len) => len,
                        None => 0,
                    };
                    let mut msg = String::from_str("File size mismatch. Expected: ");
                    let expected_label = u64_label(expected);
                    msg.append(expected_label.as_str());
                    msg.append(", Got: ");
                    let got_label = u64_label(size);
                    msg.append(got_label.as_str());
                    DownloadOutcome {
                        item,
                        destination_path: path,
                        result: DownloadResult::Failed(DownloadError(msg)),
                    }
                },
                Some(VerifyFailure::EmptyFile) => DownloadOutcome {
                    item,
                    destination_path: path,
                    result: DownloadResult::Failed(
                        DownloadError(String::from_str("Downloaded file is empty")),
                    ),
                },
            }
        },
    }
}

/// An exact copy of a report.
fn clone_report(rep: &ItemFetchReport) -> (r: ItemFetchReport)
    ensures
        r == *rep,
{
    match rep {
        ItemFetchReport::Failed(e) => ItemFetchReport::Failed(DownloadError(e.0.clone())),
        ItemFetchReport::Written { size, declared } => ItemFetchReport::Written {
            size: *size,
            declared: *declared,
        },
    }
}

/// Aggregates the whole batch: every item — downloaded or not —
/// produces exactly one outcome, at the index-derived destination, so
/// result identity is unambiguous whatever order downloads completed
/// in.
pub fn collect_outcomes(
    items: &Vec<ExtractedItem>,
    folder: &str,
    story_naming: bool,
    reports: &Vec<ItemFetchReport>,
) -> (r: Vec<DownloadOutcome>)
    requires
        reports@.len() == items@.len(),
    ensures
        r@.len() == items@.len(),
        forall|i: int|
            0 <= i < r@.len() ==> {
                &&& (#[trigger] r@[i]).item == items@[i]
                &&& outcome_verified(r@[i])
                &&& spec_outcome_matches(reports@[i], r@[i])
                &&& r@[i].destination_path@ == if story_naming {
                    spec_story_filename(folder@, i as nat, items@[i].kind)
                } else {
                    spec_media_filename(folder@, i as nat, items@[i].kind)
                }
            },
{
    let n: usize = items.len();
    let mut out: Vec<DownloadOutcome> = Vec::new();
    let mut i: usize = 0;
    while i < n
        invariant
            i <= n,
            n == items@.len(),
            n == reports@.len(),
            out@.len() == i,
            forall|k: int|
                0 <= k < i ==> {
                    &&& (#[trigger] out@[k]).item == items@[k]
                    &&& outcome_verified(out@[k])
                    &&& spec_outcome_matches(reports@[k], out@[k])
                    &&& out@[k].destination_path@ == if story_naming {
                        spec_story_filename(folder@, k as nat, items@[k].kind)
                    } else {
                        spec_media_filename(folder@, k as nat, items@[k].kind)
                    }
                },
        decreases n - i,
    {
        let item = &items[i];
        let path = if story_naming {
            story_filename(folder, i, item.kind)
        } else {
            media_filename(folder, i, item.kind)
        };
        let rep = clone_report(&reports[i]);
        let copy = ExtractedItem { url: item.url.clone(), kind: item.kind };
        out.push(record_outcome(copy, path, rep));
        i += 1;
    }
    out
}

/// How many outcomes of `s` are successes.
pub open spec fn spec_success_count(s: Seq<DownloadOutcome>) -> nat
    decreases s.len(),
{
    if s.len() == 0 {
        0
    } else {
        spec_success_count(s.drop_last()) + if s.last().result matches DownloadResult::Success {
            ..
        } {
            1nat
        } else {
            0nat
        }
    }
}

/// The success count never exceeds the batch size.
pub proof fn lemma_success_count_bound(s: Seq<DownloadOutcome>)
    ensures
        spec_success_count(s) <= s.len(),
    decreases s.len(),
{
    if s.len() > 0 {
        lemma_success_count_bound(s.drop_last());
    }
}

/// Counts the successes of a batch; the caller decides pass or fail
/// policy from this ratio.
pub fn count_successes(outcomes: &Vec<DownloadOutcome>) -> (r: usize)
    ensures
        r == spec_success_count(outcomes@),
        r <= outcomes@.len(),
{
    let n: usize = outcomes.len();
    let mut count: usize = 0;
    let mut i: usize = 0;
    while i < n
        invariant
            i <= n,
            n == outcomes@.len(),
            count == spec_success_count(outcomes@.subrange(0, i as int)),
            count <= i,
        decreases n - i,
    {
        proof {
            let pre = outcomes@.subrange(0, i as int);
            let cur = outcomes@.subrange(0, i + 1);
            assert(cur.drop_last() =~= pre);
            assert(cur.last() == outcomes@[i as int]);
        }
        if matches!(outcomes[i].result, DownloadResult::Success { .. }) {
            count += 1;
        }
        i += 1;
    }
    proof {
        assert(outcomes@.subrange(0, n as int) =~= outcomes@);
    }
    count
}

} // verus!
