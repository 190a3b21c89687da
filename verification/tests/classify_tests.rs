use insta_fetch::extractor::ContentKind;
use insta_fetch::extractor::dispatch_kind;
use insta_fetch::extractor::is_reel_url;
use insta_fetch::extractor::is_story_url;
use insta_fetch::extractor::preview_kind;

#[test]
fn story_url_is_recognised() {
    assert!(is_story_url("https://www.instagram.com/stories/alice/3141592653/"));
    assert!(!is_story_url("https://www.instagram.com/reel/abc123/"));
    assert!(!is_story_url(""));
}

#[test]
fn reel_url_is_recognised() {
    assert!(is_reel_url("https://www.instagram.com/reel/abc123/"));
    assert!(is_reel_url("https://www.instagram.com/reels/abc123/"));
    assert!(!is_reel_url("https://www.instagram.com/p/xyz/"));
    assert!(!is_reel_url("https://www.instagram.com/reeling/abc/"));
}

#[test]
fn dispatch_prefers_story_over_reel() {
    let url = "https://www.instagram.com/stories/bob/reel/77/";
    assert!(is_story_url(url) && is_reel_url(url));
    assert_eq!(dispatch_kind(url), ContentKind::Story);
}

#[test]
fn dispatch_defaults_to_post() {
    assert_eq!(dispatch_kind("https://www.instagram.com/p/xyz/"), ContentKind::Post);
    assert_eq!(dispatch_kind("https://example.com/"), ContentKind::Post);
    assert_eq!(dispatch_kind("https://www.instagram.com/reel/abc/"), ContentKind::Reel);
}

#[test]
fn dispatch_routes_both_reel_markers() {
    assert_eq!(
        dispatch_kind("https://www.instagram.com/reels/abc123/"),
        ContentKind::Reel
    );
    assert_eq!(
        dispatch_kind("https://www.instagram.com/reel/abc123/"),
        ContentKind::Reel
    );
}

#[test]
fn preview_kind_accepts_reels_marker() {
    assert_eq!(
        preview_kind("https://www.instagram.com/reels/abc123/"),
        Some(ContentKind::Reel)
    );
    assert_eq!(
        preview_kind("https://www.instagram.com/reel/abc123/"),
        Some(ContentKind::Reel)
    );
}

#[test]
fn preview_kind_recognises_posts_and_stories() {
    assert_eq!(preview_kind("https://www.instagram.com/p/xyz/"), Some(ContentKind::Post));
    assert_eq!(
        preview_kind("https://www.instagram.com/stories/alice/1/"),
        Some(ContentKind::Story)
    );
}

#[test]
fn preview_kind_rejects_unsupported() {
    assert_eq!(preview_kind("https://www.instagram.com/alice/"), None);
}

#[test]
fn classification_is_idempotent() {
    let url = "https://www.instagram.com/reel/abc123/?igshid=1";
    let first = dispatch_kind(url);
    let second = dispatch_kind(url);
    assert_eq!(first, second);
    let p1 = preview_kind(url);
    let p2 = preview_kind(url);
    assert_eq!(p1, p2);
}
