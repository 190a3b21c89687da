//! Story acquisition: the per-request state machine, the post-hoc
//! scan for tool-written story files, and the request's reports.
//!
//! The cascade for stories: the external tool with site cookies first
//! (stories need an authenticated session); whether it yielded files
//! is judged by scanning the folder for story-prefixed names; else a
//! browser story scan followed by the batch downloader.  No further
//! fallback exists past browser extraction.

use vstd::prelude::*;
use vstd::string::StringExecFns;
use crate::text::has_prefix;
use crate::text::starts_with_str;
use crate::text::spec_decimal;
use crate::text::u64_label;

verus! {

/// A story download request.
#[derive(Debug, Clone)]
pub struct StoryDownloadRequest {
    pub url: String,
    pub browser: Option<String>,
}

/// The name prefix under which story files are written.
pub open spec fn story_file_prefix() -> Seq<char> {
    seq!['s', 't', 'o', 'r', 'y', '_']
}

/// How many of `names` are story files.
pub open spec fn spec_story_file_count(names: Seq<String>) -> nat
    decreases names.len(),
{
    if names.len() == 0 {
        0
    } else {
        spec_story_file_count(names.drop_last()) + if has_prefix(
            names.last()@,
            story_file_prefix(),
        ) {
            1nat
        } else {
            0nat
        }
    }
}

/// Counts the story files among the folder's entries: the post-hoc
/// check of what the external tool downloaded.
pub fn count_story_files(names: &Vec<String>) -> (r: usize)
    ensures
        r == spec_story_file_count(names@),
        r <= names@.len(),
{
    proof {
        reveal_strlit("story_");
        assert(("story_")@ =~= story_file_prefix());
    }
    let n: usize = names.len();
    let mut count: usize = 0;
    let mut i: usize = 0;
    while i < n
        invariant
            i <= n,
            n == names@.len(),
            count == spec_story_file_count(names@.subrange(0, i as int)),
            count <= i,
            ("story_")@ == story_file_prefix(),
        decreases n - i,
    {
        proof {
            let pre = names@.subrange(0, i as int);
            let cur = names@.subrange(0, i + 1);
            assert(cur.drop_last() =~= pre);
            assert(cur.last() == names@[i as int]);
        }
        if starts_with_str(names[i].as_str(), "story_") {
            count += 1;
        }
        i += 1;
    }
    proof {
        assert(names@.subrange(0, n as int) =~= names@);
    }
    count
}

/// The states of a story request.
#[derive(Clone, Copy, Debug, PartialEq, Eq, Structural)]
pub enum StoryState {
    Init,
    /// The external tool runs with site cookies.
    CookieToolAttempt,
    /// The browser story scan runs.
    BrowserAttempt,
    /// The scanned items go through the batch downloader.
    DownloadBatch,
    Succeeded,
    Failed,
}

/// What the shell observed while carrying out the current action.
#[derive(Clone, Copy, Debug, PartialEq, Eq, Structural)]
pub enum StoryEvent {
    Start,
    /// The tool ran; the folder scan found this many story files.
    ToolFinished { story_files: usize },
    /// The tool could not run at all.
    ToolFailed,
    SessionFailed,
    NavigationFailed,
    ExtractionFailed,
    /// The story scan yielded this many items.
    Extracted { count: usize },
    /// The batch finished with this many successes.
    BatchFinished { successes: usize },
}

/// What the shell must do next.
#[derive(Clone, Copy, Debug, PartialEq, Eq, Structural)]
pub enum StoryAction {
    RunToolWithCookies,
    RunBrowserExtraction,
    RunBatchDownload,
    ReportSuccess,
    ReportFailure,
}

/// A state no event leaves.
pub open spec fn spec_story_terminal(s: StoryState) -> bool {
    s == StoryState::Succeeded || s == StoryState::Failed
}

/// Which events each state can observe.
pub open spec fn spec_story_event_ok(s: StoryState, ev: StoryEvent) -> bool {
    match s {
        StoryState::Init => ev == StoryEvent::Start,
        StoryState::CookieToolAttempt => (ev matches StoryEvent::ToolFinished { .. }) || ev
            == StoryEvent::ToolFailed,
        StoryState::BrowserAttempt => ev == StoryEvent::SessionFailed || ev
            == StoryEvent::NavigationFailed || ev == StoryEvent::ExtractionFailed || (
        ev matches StoryEvent::Extracted { .. }),
        StoryState::DownloadBatch => ev matches StoryEvent::BatchFinished { .. },
        StoryState::Succeeded => false,
        StoryState::Failed => false,
    }
}

/// The transition relation of a story request.
pub open spec fn spec_story_step(s: StoryState, ev: StoryEvent) -> (StoryState, StoryAction) {
    match (s, ev) {
        (StoryState::Init, StoryEvent::Start) => (
            StoryState::CookieToolAttempt,
            StoryAction::RunToolWithCookies,
        ),
        (StoryState::CookieToolAttempt, StoryEvent::ToolFinished { story_files }) => {
            if story_files > 0 {
                (StoryState::Succeeded, StoryAction::ReportSuccess)
            } else {
                (StoryState::BrowserAttempt, StoryAction::RunBrowserExtraction)
            }
        },
        (StoryState::CookieToolAttempt, StoryEvent::ToolFailed) => (
            StoryState::BrowserAttempt,
            StoryAction::RunBrowserExtraction,
        ),
        (StoryState::BrowserAttempt, StoryEvent::SessionFailed) => (
            StoryState::Failed,
            StoryAction::ReportFailure,
        ),
        (StoryState::BrowserAttempt, StoryEvent::NavigationFailed) => (
            StoryState::Failed,
            StoryAction::ReportFailure,
        ),
        (StoryState::BrowserAttempt, StoryEvent::ExtractionFailed) => (
            StoryState::Failed,
            StoryAction::ReportFailure,
        ),
        (StoryState::BrowserAttempt, StoryEvent::Extracted { count }) => {
            if count > 0 {
                (StoryState::DownloadBatch, StoryAction::RunBatchDownload)
            } else {
                (StoryState::Failed, StoryAction::ReportFailure)
            }
        },
        (StoryState::DownloadBatch, StoryEvent::BatchFinished { successes }) => {
            if successes > 0 {
                (StoryState::Succeeded, StoryAction::ReportSuccess)
            } else {
                (StoryState::Failed, StoryAction::ReportFailure)
            }
        },
        _ => (s, StoryAction::ReportFailure),
    }
}

/// One step of the story state machine.  Zero results at any stage is
/// a terminal failure for that branch: an empty extraction and an
/// all-failed batch both end the request.
pub fn story_step(s: StoryState, ev: StoryEvent) -> (r: (StoryState, StoryAction))
    requires
        spec_story_event_ok(s, ev),
    ensures
        r == spec_story_step(s, ev),
        r.1 == StoryAction::RunToolWithCookies <==> s == StoryState::Init,
        spec_story_terminal(r.0) <==> (r.1 == StoryAction::ReportSuccess || r.1
            == StoryAction::ReportFailure),
{
    match (s, ev) {
        (StoryState::Init, StoryEvent::Start) => (
            StoryState::CookieToolAttempt,
            StoryAction::RunToolWithCookies,
        ),
        (StoryState::CookieToolAttempt, StoryEvent::ToolFinished { story_files }) => {
            if story_files > 0 {
                (StoryState::Succeeded, StoryAction::ReportSuccess)
            } else {
                (StoryState::BrowserAttempt, StoryAction::RunBrowserExtraction)
            }
        },
        (StoryState::CookieToolAttempt, _) => (
            StoryState::BrowserAttempt,
            StoryAction::RunBrowserExtraction,
        ),
        (StoryState::BrowserAttempt, StoryEvent::Extracted { count }) => {
            if count > 0 {
                (StoryState::DownloadBatch, StoryAction::RunBatchDownload)
            } else {
                (StoryState::Failed, StoryAction::ReportFailure)
            }
        },
        (StoryState::BrowserAttempt, _) => (StoryState::Failed, StoryAction::ReportFailure),
        (StoryState::DownloadBatch, StoryEvent::BatchFinished { successes }) => {
            if successes > 0 {
                (StoryState::Succeeded, StoryAction::ReportSuccess)
            } else {
                (StoryState::Failed, StoryAction::ReportFailure)
            }
        },
        (s2, _) => (s2, StoryAction::ReportFailure),
    }
}

/// The report of stories fetched by the external tool.
pub fn story_tool_success_report(count: usize, folder: &str) -> (r: String)
    ensures
        r@ == ("✅ Downloaded ")@ + spec_decimal(count as nat) + (
        " stories with yt-dlp. Saved to '")@ + folder@ + ("'")@,
{
    let mut s = String::from_str("✅ Downloaded ");
    let label = u64_label(count as u64);
    s.append(label.as_str());
    s.append(" stories with yt-dlp. Saved to '");
    s.append(folder);
    s.append("'");
    s
}

/// The report of a batch of downloaded stories.
pub fn story_batch_report(successes: usize, total: usize, folder: &str) -> (r: String)
    ensures
        r@ == ("✅ Downloaded ")@ + spec_decimal(successes as nat) + ("/")@ + spec_decimal(
            total as nat,
        ) + (" stories. Saved to '")@ + folder@ + ("'")@,
{
    let mut s = String::from_str("✅ Downloaded ");
    let label = u64_label(successes as u64);
    s.append(label.as_str());
    s.append("/");
    let total_label = u64_label(total as u64);
    s.append(total_label.as_str());
    s.append(" stories. Saved to '");
    s.append(folder);
    s.append("'");
    s
}

/// The report when no stories were found at the URL.
pub fn story_none_found_report(url: &str) -> (r: String)
    ensures
        r@ == ("❌ No stories found at URL: ")@ + url@,
{
    let mut s = String::from_str("❌ No stories found at URL: ");
    s.append(url);
    s
}

/// The report when every story download failed.
pub fn story_all_failed_report() -> (r: String)
    ensures
        r@ == ("❌ Failed to download any stories. Check logs for details.")@,
{
    String::from_str("❌ Failed to download any stories. Check logs for details.")
}

/// The summary written beside a browser-extracted story batch.
pub fn story_metadata_text(
    url: &str,
    username: &str,
    found: usize,
    downloaded: usize,
    at: &str,
) -> (r: String)
    ensures
        r@ == ("Downloaded from: ")@ + url@ + ("\nUser: ")@ + username@ + ("\nStories found: ")@
            + spec_decimal(found as nat) + ("\nStories successfully downloaded: ")@
            + spec_decimal(downloaded as nat) + ("\nDownloaded at: ")@ + at@ + ("\n")@,
{
    let mut s = String::from_str("Downloaded from: ");
    s.append(url);
    s.append("\nUser: ");
    s.append(username);
    s.append("\nStories found: ");
    let found_label = u64_label(found as u64);
    s.append(found_label.as_str());
    s.append("\nStories successfully downloaded: ");
    let down_label = u64_label(downloaded as u64);
    s.append(down_label.as_str());
    s.append("\nDownloaded at: ");
    s.append(at);
    s.append("\n");
    s
}

/// The summary written beside a tool-downloaded story batch.
pub fn story_tool_metadata_text(url: &str, username: &str, count: usize, at: &str) -> (r: String)
    ensures
        r@ == ("Downloaded from: ")@ + url@ + ("\nUser: ")@ + username@ + (
        "\nStories downloaded: ")@ + spec_decimal(count as nat) + ("\nDownloaded at: ")@ + at@ + (
        "\n")@,
{
    let mut s = String::from_str("Downloaded from: ");
    s.append(url);
    s.append("\nUser: ");
    s.append(username);
    s.append("\nStories downloaded: ");
    let count_label = u64_label(count as u64);
    s.append(count_label.as_str());
    s.append("\nDownloaded at: ");
    s.append(at);
    s.append("\n");
    s
}

} // verus!
