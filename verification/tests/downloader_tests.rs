use insta_fetch::downloader::DownloadError;
use insta_fetch::downloader::FetchError;
use insta_fetch::downloader::ToolError;
use insta_fetch::downloader::ToolRunEvent;
use insta_fetch::downloader::VerifyFailure;
use insta_fetch::downloader::backoff_for_attempt;
use insta_fetch::downloader::classify_tool_outcome;
use insta_fetch::downloader::direct_download_filename;
use insta_fetch::downloader::direct_ext_for;
use insta_fetch::downloader::fetch_headers;
use insta_fetch::downloader::find_tool_output;
use insta_fetch::downloader::run_fetch_attempts;
use insta_fetch::downloader::should_retry;
use insta_fetch::downloader::sleep_before_retry;
use insta_fetch::downloader::tool_error_message;
use insta_fetch::downloader::tool_missing_message;
use insta_fetch::downloader::verify_download;
use insta_fetch::downloader::ytdlp_args;
use insta_fetch::downloader::ytdlp_output_template;

#[test]
fn backoff_doubles_per_attempt() {
    assert_eq!(backoff_for_attempt(1), 600);
    assert_eq!(backoff_for_attempt(2), 1200);
    assert_eq!(backoff_for_attempt(3), 2400);
    assert_eq!(backoff_for_attempt(4), 4800);
    assert_eq!(backoff_for_attempt(5), 9600);
}

#[test]
fn sleep_stays_within_the_jitter_band() {
    for _ in 0..50 {
        for attempt in 1..=5u64 {
            let backoff = backoff_for_attempt(attempt);
            let slept = sleep_before_retry(attempt);
            assert!(slept >= backoff);
            assert!(slept <= backoff + 3 * (backoff / 10));
        }
    }
}

#[test]
fn five_failures_exhaust_the_budget() {
    let outcomes = vec![
        Some(DownloadError("first".to_string())),
        Some(DownloadError("second".to_string())),
        Some(DownloadError("third".to_string())),
        Some(DownloadError("fourth".to_string())),
        Some(DownloadError("fifth".to_string())),
    ];
    match run_fetch_attempts(&outcomes) {
        Err(FetchError::ExhaustedRetries(last)) => assert_eq!(last.0, "fifth"),
        Ok(_) => panic!("five failed attempts must exhaust the fetcher"),
    }
}

#[test]
fn success_stops_the_retry_loop() {
    let outcomes = vec![
        Some(DownloadError("first".to_string())),
        Some(DownloadError("second".to_string())),
        None,
        Some(DownloadError("unused".to_string())),
        None,
    ];
    assert_eq!(run_fetch_attempts(&outcomes).expect("third attempt succeeds"), 3);
}

#[test]
fn first_attempt_success_uses_one_attempt() {
    let outcomes = vec![None, None, None, None, None];
    assert_eq!(run_fetch_attempts(&outcomes).expect("first attempt succeeds"), 1);
}

#[test]
fn retry_budget_boundary() {
    assert!(should_retry(0));
    assert!(should_retry(4));
    assert!(!should_retry(5));
}

#[test]
fn verification_accepts_matching_size() {
    assert_eq!(verify_download(1024, Some(1024)), None);
    assert_eq!(verify_download(1024, None), None);
}

#[test]
fn verification_rejects_mismatch_and_empty() {
    assert_eq!(verify_download(1000, Some(1024)), Some(VerifyFailure::SizeMismatch));
    assert_eq!(verify_download(0, None), Some(VerifyFailure::EmptyFile));
    assert_eq!(verify_download(0, Some(1024)), Some(VerifyFailure::SizeMismatch));
    assert_eq!(verify_download(0, Some(0)), Some(VerifyFailure::EmptyFile));
}

#[test]
fn missing_binary_is_detected_without_retry() {
    let ev = ToolRunEvent::SpawnError { probe_found: false, message: "no such file".to_string() };
    match classify_tool_outcome(ev) {
        Err(ToolError::BinaryMissing) => {},
        _ => panic!("an absent binary must classify as BinaryMissing"),
    }
    let guidance = tool_missing_message();
    assert!(guidance.contains("install"));
}

#[test]
fn spawn_error_with_present_binary() {
    let ev = ToolRunEvent::SpawnError { probe_found: true, message: "denied".to_string() };
    match classify_tool_outcome(ev) {
        Err(ToolError::SpawnFailure(m)) => assert_eq!(m, "denied"),
        _ => panic!("a spawn error with the binary present is a SpawnFailure"),
    }
}

#[test]
fn nonzero_exit_carries_diagnostics() {
    let ev = ToolRunEvent::Exited {
        success: false,
        status: "exit status: 1".to_string(),
        stderr: "HTTP 403".to_string(),
    };
    match classify_tool_outcome(ev) {
        Err(ToolError::ExecutionFailed { status, stderr }) => {
            assert_eq!(status, "exit status: 1");
            assert_eq!(stderr, "HTTP 403");
        }
        _ => panic!("a non-zero exit is an ExecutionFailed"),
    }
    let ok = ToolRunEvent::Exited {
        success: true,
        status: "exit status: 0".to_string(),
        stderr: String::new(),
    };
    assert!(classify_tool_outcome(ok).is_ok());
}

#[test]
fn tool_error_messages() {
    let m1 = tool_error_message(&ToolError::BinaryMissing);
    assert!(m1.contains("pip install yt-dlp"));
    let m2 = tool_error_message(&ToolError::ExecutionFailed {
        status: "exit status: 1".to_string(),
        stderr: "boom".to_string(),
    });
    assert_eq!(m2, "yt-dlp execution failed (exit status: 1): boom");
    let m3 = tool_error_message(&ToolError::SpawnFailure("denied".to_string()));
    assert_eq!(m3, "Failed to execute yt-dlp: denied");
}

#[test]
fn output_template_per_folder() {
    assert_eq!(
        ytdlp_output_template(&Some("out".to_string())),
        "out/%(title)s_%(id)s.%(ext)s"
    );
    assert_eq!(ytdlp_output_template(&None), "downloaded_media_%(id)s.%(ext)s");
}

#[test]
fn tool_args_without_cookies() {
    let args = ytdlp_args("https://u", &Some("out".to_string()), &None, false);
    let expected = vec![
        "--no-warnings",
        "--concurrent-fragments",
        "5",
        "--add-metadata",
        "--retry-sleep",
        "3",
        "--retries",
        "10",
        "--no-playlist",
        "--progress",
        "-o",
        "out/%(title)s_%(id)s.%(ext)s",
        "https://u",
    ];
    let got: Vec<&str> = args.iter().map(|s| s.as_str()).collect();
    assert_eq!(got, expected);
}

#[test]
fn tool_args_with_cookies_name_the_browser() {
    let args = ytdlp_args("https://u", &None, &Some("firefox".to_string()), true);
    assert_eq!(args.len(), 15);
    assert_eq!(args[12], "--cookies-from-browser");
    assert_eq!(args[13], "firefox");
    assert_eq!(args[14], "https://u");
}

#[test]
fn cookie_browser_defaults_to_chrome() {
    let args = ytdlp_args("https://u", &None, &None, true);
    assert_eq!(args[13], "chrome");
}

#[test]
fn direct_extension_guess() {
    assert_eq!(direct_ext_for("https://cdn/v.mp4?x=1"), "mp4");
    assert_eq!(direct_ext_for("https://cdn/p"), "jpg");
    assert_eq!(
        direct_download_filename("out", "https://cdn/v.mp4"),
        "out/direct_download.mp4"
    );
    assert_eq!(
        direct_download_filename("out", "https://cdn/p"),
        "out/direct_download.jpg"
    );
}

#[test]
fn tool_output_scan_skips_the_direct_file() {
    let paths = vec![
        "out/direct_download.mp4".to_string(),
        "out/title_abc.mp4".to_string(),
    ];
    assert_eq!(find_tool_output(&paths, "out/direct_download.mp4"), Some(1));
    let only_direct = vec!["out/direct_download.mp4".to_string()];
    assert_eq!(find_tool_output(&only_direct, "out/direct_download.mp4"), None);
}

#[test]
fn fetch_identity_is_fixed() {
    let headers = fetch_headers();
    assert_eq!(headers.len(), 5);
    assert_eq!(headers[0].0, "User-Agent");
    assert!(headers[0].1.contains("iPhone"));
    assert_eq!(headers[1].0, "Referer");
    assert_eq!(headers[1].1, "https://www.instagram.com/");
    assert_eq!(headers[2], ("Accept".to_string(), "*/*".to_string()));
    assert_eq!(
        headers[3],
        ("Accept-Language".to_string(), "en-US,en;q=0.9".to_string())
    );
    assert_eq!(headers[4], ("Connection".to_string(), "keep-alive".to_string()));
}
