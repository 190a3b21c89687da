//! Post acquisition: the per-request state machine and its reports.
//!
//! The cascade for a post: browser extraction first (the documented
//! primary path for posts), with the external tool only as fallback —
//! when no session can be opened, when extraction finds nothing, or
//! when every download of a non-empty batch fails.  An extraction
//! error, past the extractor's own retries, is terminal.

use vstd::prelude::*;
use vstd::string::StringExecFns;
use crate::text::spec_decimal;
use crate::text::u64_label;

verus! {

/// A post download request.
#[derive(Debug, Clone)]
pub struct PostDownloadRequest {
    pub url: String,
    pub browser: Option<String>,
}

/// The states of a post request.
#[derive(Clone, Copy, Debug, PartialEq, Eq, Structural)]
pub enum PostState {
    Init,
    /// A session is opened, the page loaded, and the DOM scanned.
    BrowserAttempt,
    /// The extracted items go through the batch downloader.
    DownloadBatch,
    /// The external tool runs without cookies.
    ToolFallback,
    Succeeded,
    Failed,
}

/// What the shell observed while carrying out the current action.
#[derive(Clone, Copy, Debug, PartialEq, Eq, Structural)]
pub enum PostEvent {
    Start,
    SessionFailed,
    NavigationFailed,
    ExtractionFailed,
    /// The DOM scan yielded this many items.
    Extracted { count: usize },
    /// The batch finished with this many successes.
    BatchFinished { successes: usize },
    ToolSucceeded,
    ToolFailed,
}

/// What the shell must do next.
#[derive(Clone, Copy, Debug, PartialEq, Eq, Structural)]
pub enum PostAction {
    RunBrowserExtraction,
    RunBatchDownload,
    RunToolWithoutCookies,
    ReportSuccess,
    ReportFailure,
}

/// A state no event leaves.
pub open spec fn spec_post_terminal(s: PostState) -> bool {
    s == PostState::Succeeded || s == PostState::Failed
}

/// Which events each state can observe.
pub open spec fn spec_post_event_ok(s: PostState, ev: PostEvent) -> bool {
    match s {
        PostState::Init => ev == PostEvent::Start,
        PostState::BrowserAttempt => ev == PostEvent::SessionFailed || ev
            == PostEvent::NavigationFailed || ev == PostEvent::ExtractionFailed || (
        ev matches PostEvent::Extracted { .. }),
        PostState::DownloadBatch => ev matches PostEvent::BatchFinished { .. },
        PostState::ToolFallback => ev == PostEvent::ToolSucceeded || ev == PostEvent::ToolFailed,
        PostState::Succeeded => false,
        PostState::Failed => false,
    }
}

/// The transition relation of a post request.
pub open spec fn spec_post_step(s: PostState, ev: PostEvent) -> (PostState, PostAction) {
    match (s, ev) {
        (PostState::Init, PostEvent::Start) => (
            PostState::BrowserAttempt,
            PostAction::RunBrowserExtraction,
        ),
        (PostState::BrowserAttempt, PostEvent::SessionFailed) => (
            PostState::ToolFallback,
            PostAction::RunToolWithoutCookies,
        ),
        (PostState::BrowserAttempt, PostEvent::NavigationFailed) => (
            PostState::Failed,
            PostAction::ReportFailure,
        ),
        (PostState::BrowserAttempt, PostEvent::ExtractionFailed) => (
            PostState::Failed,
            PostAction::ReportFailure,
        ),
        (PostState::BrowserAttempt, PostEvent::Extracted { count }) => {
            if count > 0 {
                (PostState::DownloadBatch, PostAction::RunBatchDownload)
            } else {
                (PostState::ToolFallback, PostAction::RunToolWithoutCookies)
            }
        },
        (PostState::DownloadBatch, PostEvent::BatchFinished { successes }) => {
            if successes > 0 {
                (PostState::Succeeded, PostAction::ReportSuccess)
            } else {
                (PostState::ToolFallback, PostAction::RunToolWithoutCookies)
            }
        },
        (PostState::ToolFallback, PostEvent::ToolSucceeded) => (
            PostState::Succeeded,
            PostAction::ReportSuccess,
        ),
        (PostState::ToolFallback, PostEvent::ToolFailed) => (
            PostState::Failed,
            PostAction::ReportFailure,
        ),
        _ => (s, PostAction::ReportFailure),
    }
}

/// One step of the post state machine.  Browser extraction runs before
/// the tool; an empty extraction and an all-failed batch fall back to
/// the tool; an extraction error is terminal, with no fallback past
/// the extractor's own retries.
pub fn post_step(s: PostState, ev: PostEvent) -> (r: (PostState, PostAction))
    requires
        spec_post_event_ok(s, ev),
    ensures
        r == spec_post_step(s, ev),
        spec_post_terminal(r.0) <==> (r.1 == PostAction::ReportSuccess || r.1
            == PostAction::ReportFailure),
        s == PostState::BrowserAttempt && ev == PostEvent::ExtractionFailed ==> r.0
            == PostState::Failed,
        s == PostState::BrowserAttempt && ev == (PostEvent::Extracted { count: 0 }) ==> r == (
            PostState::ToolFallback,
            PostAction::RunToolWithoutCookies,
        ),
{
    match (s, ev) {
        (PostState::Init, PostEvent::Start) => (
            PostState::BrowserAttempt,
            PostAction::RunBrowserExtraction,
        ),
        (PostState::BrowserAttempt, PostEvent::SessionFailed) => (
            PostState::ToolFallback,
            PostAction::RunToolWithoutCookies,
        ),
        (PostState::BrowserAttempt, PostEvent::Extracted { count }) => {
            if count > 0 {
                (PostState::DownloadBatch, PostAction::RunBatchDownload)
            } else {
                (PostState::ToolFallback, PostAction::RunToolWithoutCookies)
            }
        },
        (PostState::BrowserAttempt, _) => (PostState::Failed, PostAction::ReportFailure),
        (PostState::DownloadBatch, PostEvent::BatchFinished { successes }) => {
            if successes > 0 {
                (PostState::Succeeded, PostAction::ReportSuccess)
            } else {
                (PostState::ToolFallback, PostAction::RunToolWithoutCookies)
            }
        },
        (PostState::ToolFallback, PostEvent::ToolSucceeded) => (
            PostState::Succeeded,
            PostAction::ReportSuccess,
        ),
        (PostState::ToolFallback, _) => (PostState::Failed, PostAction::ReportFailure),
        (s2, _) => (s2, PostAction::ReportFailure),
    }
}

/// The report of a downloaded post batch.
pub fn post_batch_report(successes: usize, total: usize, folder: &str) -> (r: String)
    ensures
        r@ == ("✅ Downloaded ")@ + spec_decimal(successes as nat) + ("/")@ + spec_decimal(
            total as nat,
        ) + (" media items successfully to '")@ + folder@ + ("'")@,
{
    let mut s = String::from_str("✅ Downloaded ");
    let label = u64_label(successes as u64);
    s.append(label.as_str());
    s.append("/");
    let total_label = u64_label(total as u64);
    s.append(total_label.as_str());
    s.append(" media items successfully to '");
    s.append(folder);
    s.append("'");
    s
}

/// The report when extraction found nothing and the tool was run
/// instead.
pub fn post_empty_fallback_report() -> (r: String)
    ensures
        r@ == ("No valid media found, fallback to yt-dlp executed.")@,
{
    String::from_str("No valid media found, fallback to yt-dlp executed.")
}

/// The report when every download failed and the tool was run
/// instead.
pub fn post_all_failed_report() -> (r: String)
    ensures
        r@ == ("All downloads failed. yt-dlp fallback executed.")@,
{
    String::from_str("All downloads failed. yt-dlp fallback executed.")
}

/// The report when the page could not be opened.
pub fn post_navigation_error_report(error: &str) -> (r: String)
    ensures
        r@ == ("Failed to navigate to Instagram post: ")@ + error@,
{
    let mut s = String::from_str("Failed to navigate to Instagram post: ");
    s.append(error);
    s
}

/// The report when extraction itself failed; terminal for the
/// request.
pub fn post_extraction_error_report(error: &str) -> (r: String)
    ensures
        r@ == ("Failed to extract media: ")@ + error@,
{
    let mut s = String::from_str("Failed to extract media: ");
    s.append(error);
    s
}

} // verus!
