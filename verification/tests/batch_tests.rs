use insta_fetch::batch::DownloadResult;
use insta_fetch::batch::ItemFetchReport;
use insta_fetch::batch::collect_outcomes;
use insta_fetch::batch::count_successes;
use insta_fetch::batch::media_filename;
use insta_fetch::batch::new_gauge;
use insta_fetch::batch::record_outcome;
use insta_fetch::batch::release;
use insta_fetch::batch::story_filename;
use insta_fetch::batch::try_acquire;
use insta_fetch::downloader::DownloadError;
use insta_fetch::media::ExtractedItem;
use insta_fetch::media::MediaKind;

fn item(url: &str, kind: MediaKind) -> ExtractedItem {
    ExtractedItem { url: url.to_string(), kind }
}

#[test]
fn post_batch_filenames_preserve_index() {
    assert_eq!(media_filename("out", 0, MediaKind::Video), "out/media_1.mp4");
    assert_eq!(media_filename("out", 1, MediaKind::Image), "out/media_2.jpg");
    assert_eq!(media_filename("out", 11, MediaKind::Image), "out/media_12.jpg");
}

#[test]
fn story_filenames_are_zero_padded() {
    assert_eq!(story_filename("out", 0, MediaKind::Image), "out/story_001.jpg");
    assert_eq!(story_filename("out", 18, MediaKind::Video), "out/story_019.mp4");
    assert_eq!(story_filename("out", 999, MediaKind::Image), "out/story_1000.jpg");
}

#[test]
fn gauge_admits_at_most_the_limit() {
    let mut gauge = new_gauge(8);
    let mut admitted = 0;
    let mut refused = 0;
    for _ in 0..10 {
        if try_acquire(&mut gauge) {
            admitted += 1;
        } else {
            refused += 1;
        }
        assert!(gauge.in_flight <= gauge.limit);
    }
    assert_eq!(admitted, 8);
    assert_eq!(refused, 2);
    release(&mut gauge);
    assert_eq!(gauge.in_flight, 7);
    assert!(try_acquire(&mut gauge));
    assert_eq!(gauge.in_flight, 8);
    assert!(!try_acquire(&mut gauge));
}

#[test]
fn every_item_gets_an_outcome() {
    let mut items = Vec::new();
    let mut reports = Vec::new();
    for i in 0..10 {
        items.push(item(&format!("https://cdn/m{}.jpg", i), MediaKind::Image));
        if i % 3 == 0 {
            reports.push(ItemFetchReport::Failed(DownloadError(format!("error {}", i))));
        } else {
            reports.push(ItemFetchReport::Written { size: 100 + i as u64, declared: None });
        }
    }
    let outcomes = collect_outcomes(&items, "out", false, &reports);
    assert_eq!(outcomes.len(), 10);
    for (i, o) in outcomes.iter().enumerate() {
        assert_eq!(o.item.url, format!("https://cdn/m{}.jpg", i));
        assert_eq!(o.destination_path, format!("out/media_{}.jpg", i + 1));
    }
    assert_eq!(count_successes(&outcomes), 6);
}

#[test]
fn story_batch_uses_story_naming() {
    let items = vec![item("https://cdn/s.mp4", MediaKind::Video)];
    let reports = vec![ItemFetchReport::Written { size: 5000, declared: Some(5000) }];
    let outcomes = collect_outcomes(&items, "stories", true, &reports);
    assert_eq!(outcomes.len(), 1);
    assert_eq!(outcomes[0].destination_path, "stories/story_001.mp4");
    assert!(matches!(outcomes[0].result, DownloadResult::Success { .. }));
}

#[test]
fn written_file_succeeds_only_when_verified() {
    let o = record_outcome(
        item("https://cdn/a.jpg", MediaKind::Image),
        "out/media_1.jpg".to_string(),
        ItemFetchReport::Written { size: 2048, declared: Some(2048) },
    );
    match o.result {
        DownloadResult::Success { size, declared } => {
            assert_eq!(size, 2048);
            assert_eq!(declared, Some(2048));
        },
        DownloadResult::Failed(_) => panic!("a verified file must succeed"),
    }
}

#[test]
fn truncated_file_fails_with_mismatch_reason() {
    let o = record_outcome(
        item("https://cdn/a.jpg", MediaKind::Image),
        "out/media_1.jpg".to_string(),
        ItemFetchReport::Written { size: 150, declared: Some(2048) },
    );
    match o.result {
        DownloadResult::Failed(e) => {
            assert_eq!(e.0, "File size mismatch. Expected: 2048, Got: 150");
        },
        DownloadResult::Success { .. } => panic!("a truncated file must fail"),
    }
}

#[test]
fn empty_file_fails_even_with_clean_stream() {
    let o = record_outcome(
        item("https://cdn/a.jpg", MediaKind::Image),
        "out/media_1.jpg".to_string(),
        ItemFetchReport::Written { size: 0, declared: None },
    );
    match o.result {
        DownloadResult::Failed(e) => assert_eq!(e.0, "Downloaded file is empty"),
        DownloadResult::Success { .. } => panic!("an empty file must fail"),
    }
}

#[test]
fn fetch_failure_carries_its_error() {
    let o = record_outcome(
        item("https://cdn/a.jpg", MediaKind::Image),
        "out/media_1.jpg".to_string(),
        ItemFetchReport::Failed(DownloadError("HTTP error: 503".to_string())),
    );
    match o.result {
        DownloadResult::Failed(e) => assert_eq!(e.0, "HTTP error: 503"),
        DownloadResult::Success { .. } => panic!("a failed fetch must fail"),
    }
}

#[test]
fn counting_successes_of_empty_batch() {
    let outcomes = Vec::new();
    assert_eq!(count_successes(&outcomes), 0);
}
