use visual_logger::cache::{CachedFrame, FrameCache};
use visual_logger::config::{CACHE_CAPACITY, CORRELATION_MAX_AGE_MS};
use visual_logger::crop::Rect;
use visual_logger::pipeline::{
    choose_screenshot, first_screenshot_action, next_screenshot_action, ScreenshotAction,
};

fn frame(captured_at: u64, path: &str) -> CachedFrame {
    CachedFrame { captured_at, path: path.to_string(), origin_x: -10, origin_y: 20 }
}

fn paths(frames: &[CachedFrame]) -> Vec<String> {
    frames.iter().map(|f| f.path.clone()).collect()
}

fn cache_paths(cache: &FrameCache) -> Vec<String> {
    (0..cache.len()).map(|i| cache.frame(i).path.clone()).collect()
}

#[test]
fn new_cache_is_empty() {
    let cache = FrameCache::new(3);
    assert_eq!(cache.len(), 0);
    assert_eq!(cache.capacity(), 3);
    assert_eq!(cache.select(100, 10), None);
}

#[test]
fn push_within_capacity_evicts_nothing() {
    let mut cache = FrameCache::new(3);
    assert!(cache.push(frame(1, "a")).is_empty());
    assert!(cache.push(frame(2, "b")).is_empty());
    assert!(cache.push(frame(3, "c")).is_empty());
    assert_eq!(cache_paths(&cache), vec!["a", "b", "c"]);
}

#[test]
fn push_beyond_capacity_evicts_the_oldest_first() {
    let mut cache = FrameCache::new(2);
    cache.push(frame(1, "a"));
    cache.push(frame(2, "b"));
    let evicted = cache.push(frame(3, "c"));
    assert_eq!(paths(&evicted), vec!["a"]);
    assert_eq!(cache_paths(&cache), vec!["b", "c"]);
    let evicted = cache.push(frame(4, "d"));
    assert_eq!(paths(&evicted), vec!["b"]);
    assert_eq!(cache_paths(&cache), vec!["c", "d"]);
}

#[test]
fn cache_never_exceeds_its_capacity() {
    let mut cache = FrameCache::new(CACHE_CAPACITY);
    let mut removed = 0;
    for t in 0..100u64 {
        removed += cache.push(frame(t * 800, "f")).len();
        assert!(cache.len() <= CACHE_CAPACITY);
    }
    assert_eq!(cache.len(), 20);
    assert_eq!(removed, 80);
    assert_eq!(cache.frame(0).captured_at, 80 * 800);
    assert_eq!(cache.frame(19).captured_at, 99 * 800);
}

#[test]
fn cache_of_capacity_zero_keeps_nothing() {
    let mut cache = FrameCache::new(0);
    let evicted = cache.push(frame(1, "a"));
    assert_eq!(paths(&evicted), vec!["a"]);
    assert_eq!(cache.len(), 0);
}

#[test]
fn duplicate_keeps_every_field() {
    let f = frame(5, "p");
    let g = f.duplicate();
    assert_eq!(g.captured_at, 5);
    assert_eq!(g.path, "p");
    assert_eq!(g.origin_x, -10);
    assert_eq!(g.origin_y, 20);
}

#[test]
fn correlation_selects_the_youngest_frame() {
    let now = 100_000;
    let mut cache = FrameCache::new(20);
    cache.push(frame(now - 12_000, "old"));
    cache.push(frame(now - 5_000, "mid"));
    cache.push(frame(now - 1_000, "new"));
    assert_eq!(cache.select(now, CORRELATION_MAX_AGE_MS), Some(2));
    assert_eq!(cache.frame(2).path, "new");
}

#[test]
fn correlation_falls_back_when_every_frame_is_too_old() {
    let now = 100_000;
    let mut cache = FrameCache::new(20);
    cache.push(frame(now - 12_000, "old"));
    assert_eq!(cache.select(now, CORRELATION_MAX_AGE_MS), None);
    let action = choose_screenshot(&cache, now, CORRELATION_MAX_AGE_MS, None);
    assert!(matches!(action, ScreenshotAction::CaptureLive));
}

#[test]
fn frame_at_exactly_the_maximum_age_is_too_old() {
    let mut cache = FrameCache::new(20);
    cache.push(frame(90_000, "edge"));
    assert_eq!(cache.select(99_999, 10_000), Some(0));
    assert_eq!(cache.select(100_000, 10_000), None);
    assert_eq!(cache.select(100_001, 10_000), None);
    let action = choose_screenshot(&cache, 100_000, 10_000, None);
    assert!(matches!(action, ScreenshotAction::CaptureLive));
    let action = choose_screenshot(&cache, 99_999, 10_000, None);
    assert!(matches!(action, ScreenshotAction::CopyCached { .. }));
}

#[test]
fn first_of_equally_young_frames_wins() {
    let mut cache = FrameCache::new(20);
    cache.push(frame(50, "a"));
    cache.push(frame(70, "b"));
    cache.push(frame(70, "c"));
    assert_eq!(cache.select(100, 1000), Some(1));
}

#[test]
fn frame_stamped_in_the_future_has_age_zero() {
    let mut cache = FrameCache::new(20);
    cache.push(frame(95, "a"));
    cache.push(frame(200, "b"));
    assert_eq!(cache.select(100, 1), Some(1));
    assert_eq!(cache.select(100, 0), None);
}

#[test]
fn chosen_frame_is_cropped_to_the_window() {
    let mut cache = FrameCache::new(20);
    cache.push(frame(1_000, "a.png"));
    cache.push(frame(2_000, "b.png"));
    let window = Rect { left: 1, top: 2, right: 3, bottom: 4 };
    match choose_screenshot(&cache, 2_500, 10_000, Some(window)) {
        ScreenshotAction::CropCached { path, origin_x, origin_y, rect } => {
            assert_eq!(path, "b.png");
            assert_eq!((origin_x, origin_y), (-10, 20));
            assert_eq!(rect, window);
        }
        _ => panic!("expected a crop of the cached frame"),
    }
}

#[test]
fn chosen_frame_is_copied_whole_without_a_window() {
    let mut cache = FrameCache::new(20);
    cache.push(frame(1_000, "a.png"));
    match choose_screenshot(&cache, 2_500, 10_000, None) {
        ScreenshotAction::CopyCached { path } => assert_eq!(path, "a.png"),
        _ => panic!("expected a copy of the cached frame"),
    }
}

#[test]
fn failed_actions_fall_back_in_order() {
    let f = frame(1, "a.png");
    let window = Rect { left: 0, top: 0, right: 5, bottom: 5 };
    let first = first_screenshot_action(Some(&f), Some(window));
    assert!(matches!(first, ScreenshotAction::CropCached { .. }));
    let second = next_screenshot_action(first).unwrap();
    match &second {
        ScreenshotAction::CopyCached { path } => assert_eq!(path, "a.png"),
        _ => panic!("expected a copy after a failed crop"),
    }
    let third = next_screenshot_action(second).unwrap();
    assert!(matches!(third, ScreenshotAction::CaptureLive));
    assert!(next_screenshot_action(third).is_none());
    assert!(matches!(first_screenshot_action(None, Some(window)), ScreenshotAction::CaptureLive));
}
