use wrench::handler::{ExternalImage, ExternalImageId, ExternalImageSource, Handler, LeaseError, LeaseState};
use wrench::notifier::{FrameObservation, FrameReady, Notifier, REPORT_INTERVAL};
use wrench::scene::{build_image_scene, DeviceSize, DisplayItem, DisplayListBuilder, ImageKey, PipelineId, Rect};
use wrench::timing::TimingChannel;
use wrench::wrench::{
    format_for, recording_directory, renderer_options, ImageEntry, ImageFormat, PixelLayout, Rgba8, SaveType,
    ScrollLayerId, SubmitError, Wrench,
};

fn host() -> Wrench {
    Wrench::new(
        DeviceSize { width: 100, height: 100 },
        String::from("1"),
        String::from("Mesa"),
        String::from("3.2"),
        false,
        false,
    )
}

fn empty_list() -> DisplayListBuilder {
    DisplayListBuilder::new(PipelineId(0, 0))
}

#[test]
fn pop_on_empty_channel_is_no_record() {
    let mut c = TimingChannel::new();
    assert_eq!(c.pop(), None);
    assert_eq!(c.pop(), None);
}

#[test]
fn pop_twice_after_one_push() {
    let mut c = TimingChannel::new();
    c.push(42);
    assert_eq!(c.pop(), Some(42));
    assert_eq!(c.pop(), None);
}

#[test]
fn channel_is_first_in_first_out() {
    let mut c = TimingChannel::new();
    c.push(10);
    c.push(20);
    c.push(30);
    assert_eq!(c.pop(), Some(10));
    c.push(40);
    assert_eq!(c.pop(), Some(20));
    assert_eq!(c.pop(), Some(30));
    assert_eq!(c.pop(), Some(40));
    assert_eq!(c.pop(), None);
}

#[test]
fn latency_is_time_since_submission() {
    let mut n = Notifier::new(true, false);
    let r = n.on_frame_ready(Some(1_000), 1_250);
    assert_eq!(r, FrameReady { observation: FrameObservation::Latency(250), report: false, wake: true });
    assert_eq!(n.frames_notified, 1);
}

#[test]
fn latency_with_clock_behind_stamp_is_zero() {
    let mut n = Notifier::new(true, false);
    let r = n.on_frame_ready(Some(500), 400);
    assert_eq!(r.observation, FrameObservation::Latency(0));
}

#[test]
fn missing_record_is_a_warning_and_still_wakes() {
    let mut n = Notifier::new(true, true);
    let r = n.on_frame_ready(None, 7);
    assert_eq!(r, FrameReady { observation: FrameObservation::MissingRecord, report: false, wake: true });
    assert_eq!(n.frames_notified, 0);
}

#[test]
fn no_window_means_no_wake() {
    let mut n = Notifier::new(false, false);
    assert!(!n.on_frame_ready(Some(1), 2).wake);
    assert!(!n.new_scroll_frame_ready(true));
    let w = Notifier::new(true, false);
    assert!(w.new_scroll_frame_ready(false));
    assert!(w.new_scroll_frame_ready(true));
}

#[test]
fn verbose_notifier_reports_every_interval() {
    let mut n = Notifier::new(true, true);
    for i in 0..(REPORT_INTERVAL - 1) {
        let r = n.on_frame_ready(Some(i as u64), i as u64 + 3);
        assert!(!r.report);
    }
    assert_eq!(n.frames_notified, REPORT_INTERVAL - 1);
    let r = n.on_frame_ready(Some(10), 15);
    assert!(r.report);
    assert_eq!(r.observation, FrameObservation::Latency(5));
    assert_eq!(n.frames_notified, 0);
}

#[test]
fn quiet_notifier_never_reports() {
    let mut n = Notifier::new(true, false);
    for i in 0..(2 * REPORT_INTERVAL) {
        assert!(!n.on_frame_ready(Some(0), i as u64).report);
    }
}

#[test]
fn each_submission_pairs_with_one_ready() {
    let mut c = TimingChannel::new();
    let mut n = Notifier::new(true, false);
    let stamps = [100u64, 200, 300];
    for s in stamps {
        c.push(s);
    }
    for s in stamps {
        let now = s + 5;
        let record = c.pop();
        assert_eq!(record, Some(s));
        let r = n.on_frame_ready(record, now);
        assert_eq!(r.observation, FrameObservation::Latency(5));
    }
    let r = n.on_frame_ready(c.pop(), 1_000);
    assert_eq!(r.observation, FrameObservation::MissingRecord);
}

#[test]
fn image_scene_of_a_square_viewport() {
    let key = ImageKey(1, 7);
    let list = build_image_scene(PipelineId(0, 0), key, DeviceSize { width: 100, height: 100 });
    let full = Rect { x: 0, y: 0, width: 100, height: 100 };
    assert_eq!(list.pipeline_id, PipelineId(0, 0));
    assert_eq!(list.depth, 0);
    assert_eq!(
        list.items,
        vec![
            DisplayItem::PushStackingContext { bounds: full },
            DisplayItem::Image { bounds: full, key },
            DisplayItem::PopStackingContext,
        ]
    );
    let again = build_image_scene(PipelineId(0, 0), key, DeviceSize { width: 100, height: 100 });
    assert_eq!(again.items, list.items);
}

#[test]
fn builder_tracks_open_contexts() {
    let mut b = empty_list();
    let r = Rect { x: 1, y: 2, width: 3, height: 4 };
    b.push_stacking_context(r);
    b.push_stacking_context(r);
    assert_eq!(b.depth, 2);
    b.pop_stacking_context();
    b.push_image(r, ImageKey(0, 1));
    b.pop_stacking_context();
    assert_eq!(b.depth, 0);
    assert_eq!(b.items.len(), 5);
}

#[test]
fn submit_epoch_zero_then_ready_once() {
    let mut w = host();
    let mut n = Notifier::new(true, false);
    // the renderer's own first frame
    let first = n.new_frame_ready(&mut w.frame_start_sender);
    assert!(matches!(first.observation, FrameObservation::Latency(_)));
    let list = build_image_scene(w.root_pipeline_id, ImageKey(0, 0), w.window_size);
    let s = w.send_lists(0, list).unwrap();
    assert_eq!(s.epoch, 0);
    assert_eq!(s.viewport, DeviceSize { width: 100, height: 100 });
    assert_eq!(s.background, Some(Rgba8 { r: 255, g: 255, b: 255, a: 255 }));
    assert_eq!(s.display_list.items.len(), 3);
    let r = n.new_frame_ready(&mut w.frame_start_sender);
    assert!(matches!(r.observation, FrameObservation::Latency(_)));
    assert!(r.wake);
    assert_eq!(n.frames_notified, 2);
    let spurious = n.new_frame_ready(&mut w.frame_start_sender);
    assert_eq!(spurious.observation, FrameObservation::MissingRecord);
}

#[test]
fn epochs_may_skip_values() {
    let mut w = host();
    assert!(w.send_lists(3, empty_list()).is_ok());
    assert!(w.send_lists(5, empty_list()).is_ok());
    assert_eq!(w.last_epoch, Some(5));
}

#[test]
fn stale_or_repeated_epoch_is_refused() {
    let mut w = host();
    assert!(w.send_lists(5, empty_list()).is_ok());
    assert_eq!(w.send_lists(5, empty_list()).err(), Some(SubmitError::StaleEpoch { last: 5, given: 5 }));
    assert_eq!(w.send_lists(4, empty_list()).err(), Some(SubmitError::StaleEpoch { last: 5, given: 4 }));
    assert_eq!(w.last_epoch, Some(5));
    // the start record and the one accepted submission only
    assert!(w.frame_start_sender.pop().is_some());
    assert!(w.frame_start_sender.pop().is_some());
    assert_eq!(w.frame_start_sender.pop(), None);
}

#[test]
fn refresh_and_begin_frame_stamp_a_record_each() {
    let mut w = host();
    assert!(w.frame_start_sender.pop().is_some());
    w.refresh();
    w.begin_frame();
    assert!(w.frame_start_sender.pop().is_some());
    assert!(w.frame_start_sender.pop().is_some());
    assert_eq!(w.frame_start_sender.pop(), None);
}

#[test]
fn title_is_set_then_taken() {
    let mut w = host();
    assert_eq!(w.take_title(), Some(String::from("Wrench: start (1x) - Mesa - 3.2")));
    assert_eq!(w.take_title(), None);
    w.set_title("frame 3");
    assert_eq!(w.take_title(), Some(String::from("Wrench: frame 3 (1x) - Mesa - 3.2")));
}

#[test]
fn scroll_layer_ids_count_up() {
    let mut w = host();
    assert_eq!(
        w.next_scroll_layer_id(),
        ScrollLayerId { pipeline_id: PipelineId(0, 0), index: 0, scroll_root: 0 }
    );
    assert_eq!(w.next_scroll_layer_id().scroll_root, 1);
    assert_eq!(w.next_scroll_layer_id().scroll_root, 2);
}

#[test]
fn update_reports_size_changes() {
    let mut w = host();
    assert!(!w.update(DeviceSize { width: 100, height: 100 }));
    assert!(w.update(DeviceSize { width: 640, height: 480 }));
    assert_eq!(w.window_size, DeviceSize { width: 640, height: 480 });
    assert!(!w.should_rebuild_display_lists());
}

#[test]
fn image_cache_finds_what_was_stored() {
    let mut w = host();
    assert_eq!(w.cached_image("a.png"), None);
    let a = ImageEntry { key: ImageKey(0, 1), size: DeviceSize { width: 2, height: 3 } };
    let b = ImageEntry { key: ImageKey(0, 2), size: DeviceSize { width: 4, height: 5 } };
    w.cache_image(String::from("a.png"), a);
    w.cache_image(String::from("b.png"), b);
    assert_eq!(w.cached_image("a.png"), Some(a));
    assert_eq!(w.cached_image("b.png"), Some(b));
    assert_eq!(w.cached_image("c.png"), None);
}

#[test]
fn pixel_layouts_map_to_formats() {
    assert_eq!(format_for(PixelLayout::Luma8), Some(ImageFormat::A8));
    assert_eq!(format_for(PixelLayout::Rgb8), Some(ImageFormat::RGB8));
    assert_eq!(format_for(PixelLayout::Rgba8), Some(ImageFormat::RGBA8));
    assert_eq!(format_for(PixelLayout::Other), None);
}

#[test]
fn image_lifecycle_in_order() {
    let mut h = Handler::new();
    let id = ExternalImageId(9);
    let other = ExternalImageId(3);
    assert_eq!(h.state(id), LeaseState::Unlocked);
    assert_eq!(
        h.lock(id),
        Ok(ExternalImage { source: ExternalImageSource::NativeTexture(0) })
    );
    assert_eq!(h.state(id), LeaseState::Locked);
    assert_eq!(h.state(other), LeaseState::Unlocked);
    assert_eq!(h.unlock(id), Ok(()));
    assert_eq!(h.lock(id).is_ok(), true);
    assert_eq!(h.unlock(id), Ok(()));
    assert_eq!(h.release(id), Ok(()));
    assert_eq!(h.state(id), LeaseState::Released);
}

#[test]
fn image_lifecycle_out_of_turn_is_refused() {
    let mut h = Handler::new();
    let id = ExternalImageId(1);
    assert_eq!(h.unlock(id), Err(LeaseError::NotLocked));
    assert!(h.lock(id).is_ok());
    assert_eq!(h.lock(id), Err(LeaseError::AlreadyLocked));
    assert_eq!(h.release(id), Err(LeaseError::StillLocked));
    assert_eq!(h.state(id), LeaseState::Locked);
    assert_eq!(h.unlock(id), Ok(()));
    assert_eq!(h.release(id), Ok(()));
    assert_eq!(h.release(id), Err(LeaseError::Released));
    assert_eq!(h.lock(id), Err(LeaseError::Released));
    assert_eq!(h.unlock(id), Err(LeaseError::Released));
}

#[test]
fn recording_follows_save_type() {
    let o = renderer_options(None, Some(SaveType::Json), true, false);
    assert!(o.enable_recording);
    assert!(o.enable_subpixel_aa);
    assert!(!o.debug);
    assert!(o.clear_framebuffer);
    assert!(!o.enable_aa && !o.enable_profiler && !o.enable_scrollbars && !o.precache_shaders);
    assert_eq!(o.clear_color, Rgba8 { r: 255, g: 255, b: 255, a: 255 });
    let p = renderer_options(Some(String::from("shaders")), None, false, true);
    assert!(!p.enable_recording);
    assert!(p.debug);
    assert_eq!(p.resource_override_path, Some(String::from("shaders")));
}

#[test]
fn recordings_go_to_their_own_directories() {
    assert_eq!(recording_directory(SaveType::Yaml), "yaml_frames");
    assert_eq!(recording_directory(SaveType::Json), "json_frames");
}

#[test]
fn size_change_hook_leaves_the_notifier_alone() {
    let mut n = Notifier::new(true, false);
    n.on_frame_ready(Some(1), 2);
    n.pipeline_size_changed(PipelineId(0, 0), Some(DeviceSize { width: 5, height: 6 }));
    n.pipeline_size_changed(PipelineId(0, 1), None);
    assert_eq!(n.frames_notified, 1);
}

#[test]
fn latency_depends_on_stamp_and_clock_only() {
    let mut a = Notifier::new(true, false);
    let mut b = Notifier::new(true, false);
    assert_eq!(a.on_frame_ready(Some(7_000), 7_400), b.on_frame_ready(Some(7_000), 7_400));
    assert_eq!(a.on_frame_ready(Some(9_000), 9_001).observation, FrameObservation::Latency(1));
}
