//! Reel acquisition: the per-request state machine and its reports.
//!
//! The cascade for a reel: the external tool with site cookies first;
//! on failure a browser poll for a direct video URL; a found candidate
//! is downloaded and held to a minimum size so a thumbnail-sized false
//! positive is rejected; every remaining branch falls back to the
//! external tool without cookies.

use vstd::prelude::*;
use vstd::string::StringExecFns;
use crate::text::u64_label;
use crate::naming::spec_ts_label;

verus! {

/// A reel download request.
#[derive(Debug, Clone)]
pub struct ReelDownloadRequest {
    pub url: String,
    pub browser: Option<String>,
    pub use_ytdlp_first: Option<bool>,
}

/// The smallest file accepted as a real reel video; anything smaller
/// is treated as a thumbnail.
pub const MIN_REEL_BYTES: u64 = 200000;

/// Whether a directly downloaded reel file is large enough to be the
/// video rather than a thumbnail.
pub fn reel_size_acceptable(size: u64) -> (r: bool)
    ensures
        r == (size >= MIN_REEL_BYTES),
{
    size >= MIN_REEL_BYTES
}

/// Whether a file captured by the isolated headless browser is large
/// enough to be a real video; the capture path demands strictly more
/// than the threshold.
pub fn capture_size_acceptable(size: u64) -> (r: bool)
    ensures
        r == (size > MIN_REEL_BYTES),
{
    size > MIN_REEL_BYTES
}

/// The states of a reel request.
#[derive(Clone, Copy, Debug, PartialEq, Eq, Structural)]
pub enum ReelState {
    Init,
    /// The external tool runs with site cookies.
    CookieToolAttempt,
    /// The browser poll looks for a direct video URL.
    BrowserAttempt,
    /// A found candidate is downloaded and verified.
    DirectDownload,
    /// The external tool runs once more, without cookies.
    FallbackToolAttempt,
    Succeeded,
    Failed,
}

/// What the shell observed while carrying out the current action.
#[derive(Clone, Copy, Debug, PartialEq, Eq, Structural)]
pub enum ReelEvent {
    Start,
    ToolSucceeded,
    ToolFailed,
    /// No automation endpoint accepted a connection.
    BrowserUnavailable,
    NavigationFailed,
    /// The poll found a fetchable video URL.
    CandidateFound,
    /// The poll budget ran out without a usable URL.
    NoCandidate,
    /// The candidate was downloaded; the written size is reported.
    DownloadCompleted { size: u64 },
    DownloadFailed,
}

/// What the shell must do next.
#[derive(Clone, Copy, Debug, PartialEq, Eq, Structural)]
pub enum ReelAction {
    RunToolWithCookies,
    RunBrowserPoll,
    DownloadCandidate,
    RunToolWithoutCookies,
    ReportSuccess,
    ReportFailure,
}

/// A state no event leaves.
pub open spec fn spec_reel_terminal(s: ReelState) -> bool {
    s == ReelState::Succeeded || s == ReelState::Failed
}

/// Which events each state can observe.
pub open spec fn spec_reel_event_ok(s: ReelState, ev: ReelEvent) -> bool {
    match s {
        ReelState::Init => ev == ReelEvent::Start,
        ReelState::CookieToolAttempt => ev == ReelEvent::ToolSucceeded || ev
            == ReelEvent::ToolFailed,
        ReelState::FallbackToolAttempt => ev == ReelEvent::ToolSucceeded || ev
            == ReelEvent::ToolFailed,
        ReelState::BrowserAttempt => ev == ReelEvent::BrowserUnavailable || ev
            == ReelEvent::NavigationFailed || ev == ReelEvent::CandidateFound || ev
            == ReelEvent::NoCandidate,
        ReelState::DirectDownload => (ev matches ReelEvent::DownloadCompleted { .. }) || ev
            == ReelEvent::DownloadFailed,
        ReelState::Succeeded => false,
        ReelState::Failed => false,
    }
}

/// The transition relation of a reel request.
pub open spec fn spec_reel_step(s: ReelState, ev: ReelEvent) -> (ReelState, ReelAction) {
    match (s, ev) {
        (ReelState::Init, ReelEvent::Start) => (
            ReelState::CookieToolAttempt,
            ReelAction::RunToolWithCookies,
        ),
        (ReelState::CookieToolAttempt, ReelEvent::ToolSucceeded) => (
            ReelState::Succeeded,
            ReelAction::ReportSuccess,
        ),
        (ReelState::CookieToolAttempt, ReelEvent::ToolFailed) => (
            ReelState::BrowserAttempt,
            ReelAction::RunBrowserPoll,
        ),
        (ReelState::BrowserAttempt, ReelEvent::BrowserUnavailable) => (
            ReelState::FallbackToolAttempt,
            ReelAction::RunToolWithoutCookies,
        ),
        (ReelState::BrowserAttempt, ReelEvent::NavigationFailed) => (
            ReelState::FallbackToolAttempt,
            ReelAction::RunToolWithoutCookies,
        ),
        (ReelState::BrowserAttempt, ReelEvent::NoCandidate) => (
            ReelState::FallbackToolAttempt,
            ReelAction::RunToolWithoutCookies,
        ),
        (ReelState::BrowserAttempt, ReelEvent::CandidateFound) => (
            ReelState::DirectDownload,
            ReelAction::DownloadCandidate,
        ),
        (ReelState::DirectDownload, ReelEvent::DownloadCompleted { size }) => {
            if size < MIN_REEL_BYTES {
                (ReelState::FallbackToolAttempt, ReelAction::RunToolWithoutCookies)
            } else {
                (ReelState::Succeeded, ReelAction::ReportSuccess)
            }
        },
        (ReelState::DirectDownload, ReelEvent::DownloadFailed) => (
            ReelState::FallbackToolAttempt,
            ReelAction::RunToolWithoutCookies,
        ),
        (ReelState::FallbackToolAttempt, ReelEvent::ToolSucceeded) => (
            ReelState::Succeeded,
            ReelAction::ReportSuccess,
        ),
        (ReelState::FallbackToolAttempt, ReelEvent::ToolFailed) => (
            ReelState::Failed,
            ReelAction::ReportFailure,
        ),
        _ => (s, ReelAction::ReportFailure),
    }
}

/// One step of the reel state machine.  Site cookies are used only on
/// the very first tool attempt; a downloaded file below the minimum
/// size is rejected as a thumbnail and triggers the cookie-less tool
/// fallback.
pub fn reel_step(s: ReelState, ev: ReelEvent) -> (r: (ReelState, ReelAction))
    requires
        spec_reel_event_ok(s, ev),
    ensures
        r == spec_reel_step(s, ev),
        r.1 == ReelAction::RunToolWithCookies <==> s == ReelState::Init,
        spec_reel_terminal(r.0) <==> (r.1 == ReelAction::ReportSuccess || r.1
            == ReelAction::ReportFailure),
        (s == ReelState::DirectDownload && (ev matches ReelEvent::DownloadCompleted { size }
            && size < MIN_REEL_BYTES)) ==> r == (
            ReelState::FallbackToolAttempt,
            ReelAction::RunToolWithoutCookies,
        ),
{
    match (s, ev) {
        (ReelState::Init, ReelEvent::Start) => (
            ReelState::CookieToolAttempt,
            ReelAction::RunToolWithCookies,
        ),
        (ReelState::CookieToolAttempt, ReelEvent::ToolSucceeded) => (
            ReelState::Succeeded,
            ReelAction::ReportSuccess,
        ),
        (ReelState::CookieToolAttempt, ReelEvent::ToolFailed) => (
            ReelState::BrowserAttempt,
            ReelAction::RunBrowserPoll,
        ),
        (ReelState::BrowserAttempt, ReelEvent::CandidateFound) => (
            ReelState::DirectDownload,
            ReelAction::DownloadCandidate,
        ),
        (ReelState::BrowserAttempt, _) => (
            ReelState::FallbackToolAttempt,
            ReelAction::RunToolWithoutCookies,
        ),
        (ReelState::DirectDownload, ReelEvent::DownloadCompleted { size }) => {
            if size < MIN_REEL_BYTES {
                (ReelState::FallbackToolAttempt, ReelAction::RunToolWithoutCookies)
            } else {
                (ReelState::Succeeded, ReelAction::ReportSuccess)
            }
        },
        (ReelState::DirectDownload, _) => (
            ReelState::FallbackToolAttempt,
            ReelAction::RunToolWithoutCookies,
        ),
        (ReelState::FallbackToolAttempt, ReelEvent::ToolSucceeded) => (
            ReelState::Succeeded,
            ReelAction::ReportSuccess,
        ),
        (ReelState::FallbackToolAttempt, _) => (ReelState::Failed, ReelAction::ReportFailure),
        (s2, _) => (s2, ReelAction::ReportFailure),
    }
}

/// The summary written beside a reel download.
pub fn reel_metadata_text(url: &str, ts: i64, browser: &str) -> (r: String)
    ensures
        r@ == ("Source URL: ")@ + url@ + ("\nTimestamp: ")@ + spec_ts_label(ts) + ("\nBrowser: ")@
            + browser@ + ("\n")@,
{
    let clamped: u64 = if ts >= 0 {
        ts as u64
    } else {
        0
    };
    let mut s = String::from_str("Source URL: ");
    s.append(url);
    s.append("\nTimestamp: ");
    let label = u64_label(clamped);
    s.append(label.as_str());
    s.append("\nBrowser: ");
    s.append(browser);
    s.append("\n");
    s
}

/// The report of a reel fetched by the external tool.
pub fn reel_tool_success_report(folder: &str) -> (r: String)
    ensures
        r@ == ("✅ Reel downloaded with yt-dlp. Saved to '")@ + folder@ + ("'")@,
{
    let mut s = String::from_str("✅ Reel downloaded with yt-dlp. Saved to '");
    s.append(folder);
    s.append("'");
    s
}

/// The report of a reel downloaded directly from a found URL.
pub fn reel_direct_success_report(output_path: &str) -> (r: String)
    ensures
        r@ == ("🎉 Download complete: ")@ + output_path@,
{
    let mut s = String::from_str("🎉 Download complete: ");
    s.append(output_path);
    s
}

/// The report when the last tool fallback failed too.
pub fn reel_tool_failure_report(error: &str) -> (r: String)
    ensures
        r@ == ("❌ yt-dlp failed: ")@ + error@,
{
    let mut s = String::from_str("❌ yt-dlp failed: ");
    s.append(error);
    s
}

/// The report when the request folder could not be created.
pub fn reel_folder_error_report(error: &str) -> (r: String)
    ensures
        r@ == ("❌ Failed to create folder: ")@ + error@,
{
    let mut s = String::from_str("❌ Failed to create folder: ");
    s.append(error);
    s
}

} // verus!
