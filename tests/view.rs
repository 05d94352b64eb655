use image::{DynamicImage, Rgb, RgbImage};
use img_utils::view::{file_filter_extensions, TaskResult, ViewState};

fn solid(level: u8) -> DynamicImage {
    DynamicImage::ImageRgb8(RgbImage::from_pixel(1, 1, Rgb([level, level, level])))
}

fn level_of(image: &Option<DynamicImage>) -> Option<u8> {
    image.as_ref().map(|i| i.to_rgb8().get_pixel(0, 0)[0])
}

fn completed(level: u8, micros: u64, epoch: u64) -> TaskResult {
    TaskResult::OperationCompleted { image: solid(level), elapsed_micros: micros, epoch }
}

#[test]
fn new_state_is_idle() {
    let s = ViewState::new();
    assert!(s.image.is_none());
    assert!(s.modified_image.is_none());
    assert!(s.image_path.is_none());
    assert!(s.last_operation_micros.is_none());
    assert_eq!(s.epoch, 0);
}

#[test]
fn open_clears_and_loaded_image_is_shown() {
    let mut s = ViewState::new();
    s.modified_image = Some(solid(3));
    let epoch = s.begin_open();
    assert_eq!(epoch, 1);
    assert!(s.modified_image.is_none());
    let applied = s.apply_result(TaskResult::ImageLoaded {
        image: solid(7),
        path: String::from("a.png"),
        epoch,
    });
    assert!(applied);
    assert_eq!(level_of(&s.image), Some(7));
    assert_eq!(s.image_path.as_deref(), Some("a.png"));
}

#[test]
fn fast_completion_drained_first_slow_one_wins() {
    let mut s = ViewState::new();
    s.image = Some(solid(1));
    // The slow operation was submitted first, the fast one second; they
    // arrive in completion order.
    let fast = completed(20, 5, 0);
    let slow = completed(10, 900, 0);
    s.apply_results(vec![fast, slow]);
    assert_eq!(level_of(&s.modified_image), Some(10));
    assert_eq!(s.last_operation_micros, Some(900));
}

#[test]
fn drain_from_channel_in_completion_order() {
    let (tx, mut rx) = tokio::sync::mpsc::channel(32);
    tx.try_send(completed(20, 5, 0)).ok().unwrap();
    tx.try_send(completed(10, 900, 0)).ok().unwrap();
    let mut s = ViewState::new();
    assert_eq!(s.drain_results(&mut rx), 2);
    assert_eq!(level_of(&s.modified_image), Some(10));
    assert_eq!(s.last_operation_micros, Some(900));
    assert_eq!(s.drain_results(&mut rx), 0);
    assert_eq!(level_of(&s.modified_image), Some(10));
}

#[test]
fn stale_completion_is_discarded_after_open() {
    let mut s = ViewState::new();
    s.image = Some(solid(1));
    let old_epoch = s.epoch;
    s.begin_open();
    assert!(!s.apply_result(completed(20, 5, old_epoch)));
    assert!(s.modified_image.is_none());
    assert!(s.last_operation_micros.is_none());
}

#[test]
fn epoch_wraps_at_the_top() {
    let mut s = ViewState::new();
    s.epoch = u64::MAX;
    assert_eq!(s.begin_open(), 0);
}

#[test]
fn apply_current_moves_modified_into_image() {
    let mut s = ViewState::new();
    s.image = Some(solid(1));
    assert!(!s.apply_current());
    assert_eq!(level_of(&s.image), Some(1));
    s.modified_image = Some(solid(2));
    assert!(s.apply_current());
    assert_eq!(level_of(&s.image), Some(2));
    assert!(s.modified_image.is_none());
}

#[test]
fn remove_current_drops_modified() {
    let mut s = ViewState::new();
    s.image = Some(solid(1));
    s.modified_image = Some(solid(2));
    s.remove_current();
    assert!(s.modified_image.is_none());
    assert_eq!(level_of(&s.image), Some(1));
}

#[test]
fn filter_extensions_from_source_or_defaults() {
    assert_eq!(file_filter_extensions(Some(String::from("bmp"))), vec![String::from("bmp")]);
    assert_eq!(
        file_filter_extensions(None),
        vec![String::from("jpg"), String::from("jpeg"), String::from("png")]
    );
}
