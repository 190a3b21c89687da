use insta_fetch::api::attachment_filename;
use insta_fetch::api::content_disposition_value;
use insta_fetch::api::handler_user_agent;
use insta_fetch::api::kind_name;
use insta_fetch::api::media_content_type;
use insta_fetch::api::preview_needs_headless_fallback;
use insta_fetch::api::preview_response;
use insta_fetch::api::process_media_url;
use insta_fetch::api::proxy_user_agent;
use insta_fetch::api::to_media_items;
use insta_fetch::api::unsupported_url_message;
use insta_fetch::api::url_required_message;
use insta_fetch::error::AppError;
use insta_fetch::error::browser_error;
use insta_fetch::error::classify_request_error;
use insta_fetch::error::io_error;
use insta_fetch::error::json_error;
use insta_fetch::error::log_error;
use insta_fetch::error::network_error;
use insta_fetch::extractor::ContentKind;
use insta_fetch::media::ExtractedItem;
use insta_fetch::media::MediaKind;
use insta_fetch::naming::folder_name_for;
use insta_fetch::naming::fresh_folder_name;
use insta_fetch::naming::metadata_path;
use insta_fetch::naming::reel_capture_path;
use insta_fetch::naming::reel_output_path;
use insta_fetch::naming::reel_preview_folder;
use insta_fetch::naming::screenshot_path;
use insta_fetch::session::cookie_db_candidates;
use insta_fetch::session::first_connected;
use insta_fetch::session::reel_browser_args;
use insta_fetch::session::session_exhausted_message;
use insta_fetch::session::stealth_browser_args;
use insta_fetch::session::webdriver_endpoints;

#[test]
fn direct_mp4_urls_pass_through() {
    assert_eq!(process_media_url("https://cdn/v.mp4"), "https://cdn/v.mp4");
    assert_eq!(
        process_media_url("https://cdn/v.mp4?token=1"),
        "https://cdn/v.mp4?token=1"
    );
}

#[test]
fn short_video_links_get_the_canonical_path() {
    assert_eq!(
        process_media_url("https://host/v/abc/"),
        "https://host/v/abc/video/index.mp4"
    );
}

#[test]
fn extensionless_reel_urls_get_the_canonical_path() {
    assert_eq!(
        process_media_url("https://www.instagram.com/reel/abc/"),
        "https://www.instagram.com/reel/abc/video/index.mp4"
    );
}

#[test]
fn other_urls_pass_through() {
    assert_eq!(process_media_url("https://cdn/p.jpg"), "https://cdn/p.jpg");
    assert_eq!(process_media_url("https://host/p/abc/"), "https://host/p/abc/");
}

#[test]
fn proxy_content_types() {
    assert_eq!(media_content_type("https://c/v.mp4", "x"), "video/mp4");
    assert_eq!(media_content_type("https://c/p.jpg", "x"), "image/jpeg");
    assert_eq!(media_content_type("https://c/p.jpeg", "x"), "image/jpeg");
    assert_eq!(media_content_type("https://c/p.png", "x"), "image/png");
    assert_eq!(
        media_content_type("https://c/p", "application/octet-stream"),
        "application/octet-stream"
    );
}

#[test]
fn attachment_names() {
    assert_eq!(
        attachment_filename(&Some("given.mp4".to_string()), "https://c/a/b.mp4?x=1"),
        "given.mp4"
    );
    assert_eq!(
        attachment_filename(&None, "https://c/a/b.mp4?x=1"),
        "b.mp4"
    );
    assert_eq!(attachment_filename(&None, "plain"), "plain");
    assert_eq!(
        content_disposition_value("b.mp4"),
        "attachment; filename=\"b.mp4\""
    );
}

#[test]
fn media_items_carry_labels_and_no_blobs() {
    let items = vec![
        ExtractedItem { url: "https://cdn/v.mp4".to_string(), kind: MediaKind::Video },
        ExtractedItem { url: "https://cdn/p.jpg".to_string(), kind: MediaKind::Image },
    ];
    let served = to_media_items(&items);
    assert_eq!(served.len(), 2);
    assert_eq!(served[0].media_type, "video");
    assert_eq!(served[1].media_type, "image");
    for m in &served {
        assert!(!m.url.starts_with("blob:"));
        assert!(m.thumbnail_url.is_none());
    }
}

#[test]
fn preview_success_tracks_items() {
    let item = insta_fetch::api::MediaItem {
        url: "https://cdn/v.mp4".to_string(),
        media_type: "video".to_string(),
        thumbnail_url: None,
    };
    let with_items = preview_response(
        "reel".to_string(),
        Some(vec![item]),
        None,
        None,
    );
    assert!(with_items.success);
    assert_eq!(with_items.media_items.as_ref().map(|m| m.len()), Some(1));
    let without = preview_response(
        "reel".to_string(),
        None,
        Some("nothing found".to_string()),
        None,
    );
    assert!(!without.success);
    assert_eq!(without.content_type.as_deref(), Some("reel"));
    assert_eq!(without.error.as_deref(), Some("nothing found"));
}

#[test]
fn preview_headless_fallback_only_for_empty_reels() {
    assert!(preview_needs_headless_fallback(ContentKind::Reel, 0));
    assert!(!preview_needs_headless_fallback(ContentKind::Reel, 2));
    assert!(!preview_needs_headless_fallback(ContentKind::Post, 0));
}

#[test]
fn api_fixed_strings() {
    assert_eq!(kind_name(ContentKind::Post), "post");
    assert_eq!(kind_name(ContentKind::Reel), "reel");
    assert_eq!(kind_name(ContentKind::Story), "story");
    assert_eq!(unsupported_url_message(), "Unsupported URL format");
    assert_eq!(url_required_message(), "❌ URL is required");
    assert!(proxy_user_agent().contains("iPhone"));
    assert!(handler_user_agent().contains("Windows NT"));
}

#[test]
fn app_error_rendering() {
    let e = AppError::BadRequest("no url".to_string());
    assert_eq!(e.message(), "Bad request: no url");
    assert_eq!(e.status_code(), 400);
    assert_eq!(e.error_type_label(), "bad_request");
    assert_eq!(log_error(&e), "[ERROR] Bad request: no url");
    let nf = AppError::NotFound("gone".to_string());
    assert_eq!(nf.status_code(), 404);
    assert_eq!(nf.error_type_label(), "not_found");
    let ise = AppError::InternalServerError("boom".to_string());
    assert_eq!(ise.status_code(), 500);
    assert_eq!(ise.message(), "Internal server error: boom");
    let ve = AppError::ValidationError("bad".to_string());
    assert_eq!(ve.status_code(), 400);
    assert_eq!(ve.error_type_label(), "validation_error");
}

#[test]
fn error_constructors() {
    let b = browser_error("driver gone");
    assert_eq!(b.message(), "Browser error: driver gone");
    assert_eq!(b.status_code(), 503);
    let n = network_error("refused");
    assert_eq!(n.message(), "Network error: refused");
    assert_eq!(n.status_code(), 502);
    let i = io_error("disk full");
    assert_eq!(i.message(), "Internal server error: IO error: disk full");
    let j = json_error("bad token");
    assert_eq!(j.message(), "Bad request: JSON error: bad token");
}

#[test]
fn request_error_classification() {
    let t = classify_request_error(true, false, "t");
    assert_eq!(t.message(), "Network error: Request timed out: t");
    let c = classify_request_error(false, true, "c");
    assert_eq!(c.message(), "Network error: Connection error: c");
    let o = classify_request_error(false, false, "o");
    assert_eq!(o.message(), "Internal server error: Request error: o");
}

#[test]
fn folder_names() {
    assert_eq!(
        folder_name_for(ContentKind::Reel, 1700000000),
        "insta_reel_1700000000"
    );
    assert_eq!(
        folder_name_for(ContentKind::Story, 1700000000),
        "insta_stories_1700000000"
    );
    assert_eq!(folder_name_for(ContentKind::Post, 0), "insta_post_0");
    assert_eq!(reel_preview_folder(7), "insta_reel_preview_7");
}

#[test]
fn fresh_folder_carries_the_kind_prefix() {
    let name = fresh_folder_name(ContentKind::Reel);
    assert!(name.starts_with("insta_reel_"));
    assert!(name.len() > "insta_reel_".len());
}

#[test]
fn derived_paths() {
    assert_eq!(metadata_path("f"), "f/metadata.txt");
    assert_eq!(reel_output_path("f"), "f/reel.mp4");
    assert_eq!(reel_capture_path("f"), "f/reel_video.mp4");
    assert_eq!(screenshot_path("f"), "f/debug_screenshot.png");
}

#[test]
fn endpoint_candidates_in_order() {
    let eps = webdriver_endpoints();
    let got: Vec<&str> = eps.iter().map(|s| s.as_str()).collect();
    assert_eq!(
        got,
        vec![
            "http://localhost:9515",
            "http://localhost:4444",
            "http://127.0.0.1:9515",
            "http://127.0.0.1:4444",
        ]
    );
}

#[test]
fn first_connected_endpoint_wins() {
    assert_eq!(first_connected(&vec![false, true, false, true]), Some(1));
    assert_eq!(first_connected(&vec![false, false]), None);
    assert_eq!(first_connected(&vec![]), None);
}

#[test]
fn session_failure_message() {
    assert_eq!(
        session_exhausted_message(&Some("refused".to_string())),
        "Failed to connect to WebDriver. Please ensure ChromeDriver is running.\nLast error: refused"
    );
    assert_eq!(
        session_exhausted_message(&None),
        "Failed to connect to WebDriver. Please ensure ChromeDriver is running.\nLast error: Unknown error"
    );
}

#[test]
fn browser_argument_sets() {
    let stealth = stealth_browser_args();
    assert_eq!(stealth.len(), 13);
    assert_eq!(stealth[0], "--no-sandbox");
    assert!(stealth[6].contains("iPhone"));
    let lean = reel_browser_args();
    assert_eq!(lean.len(), 6);
    assert_eq!(lean[0], "--disable-blink-features=AutomationControlled");
}

#[test]
fn cookie_database_candidates() {
    let paths = cookie_db_candidates("/home/u");
    assert_eq!(paths[0], "/home/u/.config/google-chrome/Default/Cookies");
    assert_eq!(paths[1], "/home/u/.config/chromium/Default/Cookies");
}
