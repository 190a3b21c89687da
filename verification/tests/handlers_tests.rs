use insta_fetch::insta_post::post_started_message;
use insta_fetch::post::PostAction;
use insta_fetch::post::PostEvent;
use insta_fetch::post::PostState;
use insta_fetch::post::post_all_failed_report;
use insta_fetch::post::post_batch_report;
use insta_fetch::post::post_empty_fallback_report;
use insta_fetch::post::post_step;
use insta_fetch::reel::MIN_REEL_BYTES;
use insta_fetch::reel::ReelAction;
use insta_fetch::reel::ReelEvent;
use insta_fetch::reel::ReelState;
use insta_fetch::reel::capture_size_acceptable;
use insta_fetch::reel::reel_direct_success_report;
use insta_fetch::reel::reel_metadata_text;
use insta_fetch::reel::reel_size_acceptable;
use insta_fetch::reel::reel_step;
use insta_fetch::reel::reel_tool_success_report;
use insta_fetch::story::StoryAction;
use insta_fetch::story::StoryEvent;
use insta_fetch::story::StoryState;
use insta_fetch::story::count_story_files;
use insta_fetch::story::story_all_failed_report;
use insta_fetch::story::story_batch_report;
use insta_fetch::story::story_metadata_text;
use insta_fetch::story::story_step;
use insta_fetch::story::story_tool_success_report;
use insta_fetch::naming::story_username;

#[test]
fn reel_cascade_starts_with_cookies() {
    let (s, a) = reel_step(ReelState::Init, ReelEvent::Start);
    assert_eq!(s, ReelState::CookieToolAttempt);
    assert_eq!(a, ReelAction::RunToolWithCookies);
}

#[test]
fn reel_tool_success_is_terminal() {
    let (s, a) = reel_step(ReelState::CookieToolAttempt, ReelEvent::ToolSucceeded);
    assert_eq!(s, ReelState::Succeeded);
    assert_eq!(a, ReelAction::ReportSuccess);
}

#[test]
fn reel_tool_failure_moves_to_browser() {
    let (s, a) = reel_step(ReelState::CookieToolAttempt, ReelEvent::ToolFailed);
    assert_eq!(s, ReelState::BrowserAttempt);
    assert_eq!(a, ReelAction::RunBrowserPoll);
}

#[test]
fn reel_candidate_is_downloaded() {
    let (s, a) = reel_step(ReelState::BrowserAttempt, ReelEvent::CandidateFound);
    assert_eq!(s, ReelState::DirectDownload);
    assert_eq!(a, ReelAction::DownloadCandidate);
}

#[test]
fn small_reel_file_triggers_cookieless_fallback() {
    let (s, a) = reel_step(
        ReelState::DirectDownload,
        ReelEvent::DownloadCompleted { size: 150 * 1024 },
    );
    assert_eq!(s, ReelState::FallbackToolAttempt);
    assert_eq!(a, ReelAction::RunToolWithoutCookies);
}

#[test]
fn large_reel_file_succeeds() {
    let (s, a) = reel_step(
        ReelState::DirectDownload,
        ReelEvent::DownloadCompleted { size: 5_000_000 },
    );
    assert_eq!(s, ReelState::Succeeded);
    assert_eq!(a, ReelAction::ReportSuccess);
}

#[test]
fn reel_poll_exhaustion_falls_back_without_cookies() {
    let (s, a) = reel_step(ReelState::BrowserAttempt, ReelEvent::NoCandidate);
    assert_eq!(s, ReelState::FallbackToolAttempt);
    assert_eq!(a, ReelAction::RunToolWithoutCookies);
    let (s2, _) = reel_step(ReelState::FallbackToolAttempt, ReelEvent::ToolFailed);
    assert_eq!(s2, ReelState::Failed);
}

#[test]
fn reel_size_thresholds() {
    assert_eq!(MIN_REEL_BYTES, 200_000);
    assert!(!reel_size_acceptable(150 * 1024));
    assert!(reel_size_acceptable(200_000));
    assert!(!capture_size_acceptable(200_000));
    assert!(capture_size_acceptable(200_001));
}

#[test]
fn story_cascade_starts_with_cookies() {
    let (s, a) = story_step(StoryState::Init, StoryEvent::Start);
    assert_eq!(s, StoryState::CookieToolAttempt);
    assert_eq!(a, StoryAction::RunToolWithCookies);
}

#[test]
fn story_tool_files_decide_the_branch() {
    let (s, a) = story_step(
        StoryState::CookieToolAttempt,
        StoryEvent::ToolFinished { story_files: 3 },
    );
    assert_eq!(s, StoryState::Succeeded);
    assert_eq!(a, StoryAction::ReportSuccess);
    let (s2, a2) = story_step(
        StoryState::CookieToolAttempt,
        StoryEvent::ToolFinished { story_files: 0 },
    );
    assert_eq!(s2, StoryState::BrowserAttempt);
    assert_eq!(a2, StoryAction::RunBrowserExtraction);
}

#[test]
fn story_empty_extraction_is_terminal() {
    let (s, a) = story_step(StoryState::BrowserAttempt, StoryEvent::Extracted { count: 0 });
    assert_eq!(s, StoryState::Failed);
    assert_eq!(a, StoryAction::ReportFailure);
}

#[test]
fn story_batch_outcome_decides_the_request() {
    let (s, _) = story_step(StoryState::BrowserAttempt, StoryEvent::Extracted { count: 4 });
    assert_eq!(s, StoryState::DownloadBatch);
    let (ok, _) = story_step(StoryState::DownloadBatch, StoryEvent::BatchFinished { successes: 2 });
    assert_eq!(ok, StoryState::Succeeded);
    let (bad, _) = story_step(StoryState::DownloadBatch, StoryEvent::BatchFinished { successes: 0 });
    assert_eq!(bad, StoryState::Failed);
}

#[test]
fn story_session_failure_is_terminal() {
    let (s, _) = story_step(StoryState::BrowserAttempt, StoryEvent::SessionFailed);
    assert_eq!(s, StoryState::Failed);
}

#[test]
fn post_cascade_starts_with_the_browser() {
    let (s, a) = post_step(PostState::Init, PostEvent::Start);
    assert_eq!(s, PostState::BrowserAttempt);
    assert_eq!(a, PostAction::RunBrowserExtraction);
}

#[test]
fn post_session_failure_falls_back_to_the_tool() {
    let (s, a) = post_step(PostState::BrowserAttempt, PostEvent::SessionFailed);
    assert_eq!(s, PostState::ToolFallback);
    assert_eq!(a, PostAction::RunToolWithoutCookies);
}

#[test]
fn post_empty_extraction_falls_back_to_the_tool() {
    let (s, a) = post_step(PostState::BrowserAttempt, PostEvent::Extracted { count: 0 });
    assert_eq!(s, PostState::ToolFallback);
    assert_eq!(a, PostAction::RunToolWithoutCookies);
}

#[test]
fn post_extraction_error_is_terminal() {
    let (s, a) = post_step(PostState::BrowserAttempt, PostEvent::ExtractionFailed);
    assert_eq!(s, PostState::Failed);
    assert_eq!(a, PostAction::ReportFailure);
}

#[test]
fn post_all_downloads_failed_falls_back() {
    let (s, _) = post_step(PostState::BrowserAttempt, PostEvent::Extracted { count: 3 });
    assert_eq!(s, PostState::DownloadBatch);
    let (fb, a) = post_step(PostState::DownloadBatch, PostEvent::BatchFinished { successes: 0 });
    assert_eq!(fb, PostState::ToolFallback);
    assert_eq!(a, PostAction::RunToolWithoutCookies);
    let (ok, _) = post_step(PostState::DownloadBatch, PostEvent::BatchFinished { successes: 2 });
    assert_eq!(ok, PostState::Succeeded);
}

#[test]
fn counting_tool_written_story_files() {
    let names = vec![
        "story_001.mp4".to_string(),
        "metadata.txt".to_string(),
        "story_002.jpg".to_string(),
        "poster.jpg".to_string(),
    ];
    assert_eq!(count_story_files(&names), 2);
    let none: Vec<String> = vec![];
    assert_eq!(count_story_files(&none), 0);
}

#[test]
fn story_username_extraction() {
    assert_eq!(
        story_username("https://www.instagram.com/stories/alice/3141592653/"),
        "alice"
    );
    assert_eq!(story_username("https://www.instagram.com/stories/bob"), "bob");
    assert_eq!(story_username("https://www.instagram.com/p/xyz/"), "unknown");
}

#[test]
fn handler_reports() {
    assert_eq!(
        reel_tool_success_report("insta_reel_1"),
        "✅ Reel downloaded with yt-dlp. Saved to 'insta_reel_1'"
    );
    assert_eq!(
        reel_direct_success_report("insta_reel_1/reel.mp4"),
        "🎉 Download complete: insta_reel_1/reel.mp4"
    );
    assert_eq!(
        story_tool_success_report(3, "f"),
        "✅ Downloaded 3 stories with yt-dlp. Saved to 'f'"
    );
    assert_eq!(
        story_batch_report(2, 5, "f"),
        "✅ Downloaded 2/5 stories. Saved to 'f'"
    );
    assert_eq!(
        story_all_failed_report(),
        "❌ Failed to download any stories. Check logs for details."
    );
    assert_eq!(
        post_batch_report(3, 4, "g"),
        "✅ Downloaded 3/4 media items successfully to 'g'"
    );
    assert_eq!(
        post_empty_fallback_report(),
        "No valid media found, fallback to yt-dlp executed."
    );
    assert_eq!(
        post_all_failed_report(),
        "All downloads failed. yt-dlp fallback executed."
    );
    assert_eq!(
        post_started_message("https://u"),
        "✅ Post download started for URL: https://u"
    );
}

#[test]
fn reel_metadata_contents() {
    let text = reel_metadata_text("https://u", 1700000000, "chrome");
    assert_eq!(
        text,
        "Source URL: https://u\nTimestamp: 1700000000\nBrowser: chrome\n"
    );
}

#[test]
fn story_metadata_contents() {
    let text = story_metadata_text("https://u", "alice", 5, 4, "now");
    assert_eq!(
        text,
        "Downloaded from: https://u\nUser: alice\nStories found: 5\nStories successfully downloaded: 4\nDownloaded at: now\n"
    );
}
