use bevy_mod_kira::level_monitor::builder::SAMPLE_CAPACITY;
use bevy_mod_kira::{
    Frame, LevelMonitorBuilder, LevelMonitorHandle, LevelSample, SampleError,
};

fn frame(left: f32, right: f32) -> Frame {
    Frame::from_bits(left.to_bits(), right.to_bits())
}

fn ramp(from: usize, to: usize) -> Vec<Frame> {
    (from..to).map(|i| frame(i as f32, i as f32)).collect()
}

#[test]
fn channel_holds_one_snapshot() {
    assert_eq!(SAMPLE_CAPACITY, 1);
}

#[test]
fn frame_keeps_the_bits_of_both_channels() {
    let f = frame(0.25, -1.0);
    assert_eq!(f.left, 0.25f32.to_bits());
    assert_eq!(f.right, (-1.0f32).to_bits());
    assert_eq!(f32::from_bits(f.left), 0.25);
    assert_eq!(f32::from_bits(f.right), -1.0);
    assert_eq!(Frame::zero(), frame(0.0, 0.0));
    assert_ne!(frame(0.0, 0.0), frame(-0.0, 0.0));
}

#[test]
fn nothing_is_published_before_the_window_fills() {
    let (mut monitor, mut handle) = LevelMonitorBuilder::<4>.build();
    assert_eq!(handle.get_sample().unwrap_err(), SampleError::NoSample);
    for f in ramp(0, 3) {
        monitor.process_frame(f);
        assert_eq!(handle.get_sample().unwrap_err(), SampleError::NoSample);
    }
    monitor.process_frame(frame(3.0, 3.0));
    assert!(handle.get_sample().is_ok());
}

#[test]
fn window_holds_the_last_frames_in_arrival_order() {
    let (mut monitor, mut handle) = LevelMonitorBuilder::<4>.build();
    for end in 1..=20usize {
        monitor.process_frame(frame((end - 1) as f32, (end - 1) as f32));
        if end >= 4 {
            let sample = handle.get_sample().expect("the channel was drained");
            assert_eq!(sample.window.to_vec(), ramp(end - 4, end));
        }
    }
}

#[test]
fn every_frame_passes_through_unchanged() {
    let (mut monitor, _handle) = LevelMonitorBuilder::<4>.build();
    let values = [0.0f32, -0.0, 1.0, -1.0, 0.5, f32::NAN, f32::INFINITY, f32::MIN_POSITIVE, 3.5];
    for left in values {
        for right in values {
            let input = frame(left, right);
            let output = monitor.process_frame(input);
            assert_eq!(output.left, left.to_bits());
            assert_eq!(output.right, right.to_bits());
        }
    }
}

#[test]
fn a_block_is_left_as_it_was() {
    let (mut monitor, mut handle) = LevelMonitorBuilder::<4>.build();
    let mut block = ramp(0, 10);
    monitor.process(&mut block[..]);
    assert_eq!(block, ramp(0, 10));
    let sample = handle.get_sample().expect("a snapshot is pending");
    assert_eq!(sample.window.to_vec(), ramp(0, 4));
    assert_eq!(handle.get_sample().unwrap_err(), SampleError::NoSample);
    // The window went on past the refused snapshots.
    monitor.process_frame(frame(10.0, 10.0));
    let sample = handle.get_sample().expect("the channel was drained");
    assert_eq!(sample.window.to_vec(), ramp(7, 11));
}

#[test]
fn an_empty_block_changes_nothing() {
    let (mut monitor, mut handle) = LevelMonitorBuilder::<2>.build();
    let mut nothing: Vec<Frame> = Vec::new();
    monitor.process(&mut nothing[..]);
    assert_eq!(handle.get_sample().unwrap_err(), SampleError::NoSample);
    let mut block = ramp(0, 2);
    monitor.process(&mut block[..]);
    assert_eq!(handle.get_sample().unwrap().window.to_vec(), ramp(0, 2));
}

#[test]
fn five_frames_undrained_leave_the_first_full_window() {
    let (mut monitor, mut handle) = LevelMonitorBuilder::<4>.build();
    for f in ramp(0, 5) {
        monitor.process_frame(f);
    }
    // The one slot took the window that filled with the fourth frame; the
    // window made with the fifth was refused.
    let sample = handle.get_sample().expect("a snapshot is pending");
    assert_eq!(sample.window.to_vec(), ramp(0, 4));
    assert_eq!(handle.get_sample().unwrap_err(), SampleError::NoSample);
}

#[test]
fn fifth_frame_publishes_the_last_four_to_a_drained_channel() {
    let (mut monitor, mut handle) = LevelMonitorBuilder::<4>.build();
    for f in ramp(0, 4) {
        monitor.process_frame(f);
    }
    assert_eq!(handle.get_sample().unwrap().window.to_vec(), ramp(0, 4));
    monitor.process_frame(frame(4.0, 4.0));
    let sample = handle.get_sample().expect("exactly one snapshot is pending");
    assert_eq!(
        sample.window.to_vec(),
        vec![frame(1.0, 1.0), frame(2.0, 2.0), frame(3.0, 3.0), frame(4.0, 4.0)]
    );
    assert_eq!(handle.get_sample().unwrap_err(), SampleError::NoSample);
}

#[test]
fn eight_frames_undrained_drop_all_but_the_first_snapshot() {
    let (mut monitor, mut handle) = LevelMonitorBuilder::<4>.build();
    for f in ramp(0, 8) {
        let out = monitor.process_frame(f);
        assert_eq!(out, f);
    }
    let sample = handle.get_sample().expect("one snapshot is pending");
    assert_eq!(sample.window.to_vec(), ramp(0, 4));
    assert_eq!(handle.get_sample().unwrap_err(), SampleError::NoSample);
    // The drops left the window intact.
    monitor.process_frame(frame(8.0, 8.0));
    assert_eq!(handle.get_sample().unwrap().window.to_vec(), ramp(5, 9));
}

#[test]
fn polling_an_empty_channel_says_so_every_time() {
    let (_monitor, mut handle) = LevelMonitorBuilder::<16>.build();
    for _ in 0..100 {
        assert_eq!(handle.get_sample().unwrap_err(), SampleError::NoSample);
    }
}

#[test]
fn a_handle_outlives_its_monitor() {
    let (mut monitor, mut handle) = LevelMonitorBuilder::<2>.build();
    let mut block = ramp(0, 2);
    monitor.process(&mut block[..]);
    drop(monitor);
    assert_eq!(handle.get_sample().unwrap().window.to_vec(), ramp(0, 2));
    assert_eq!(handle.get_sample().unwrap_err(), SampleError::NoSample);
    assert_eq!(handle.get_sample().unwrap_err(), SampleError::NoSample);
}

#[test]
fn a_monitor_outlives_its_handle() {
    let (mut monitor, handle) = LevelMonitorBuilder::<2>.build();
    drop(handle);
    let mut block = ramp(0, 6);
    monitor.process(&mut block[..]);
    assert_eq!(block, ramp(0, 6));
}

#[test]
fn snapshots_do_not_share_memory() {
    let (mut monitor, mut handle) = LevelMonitorBuilder::<2>.build();
    let mut block = ramp(0, 2);
    monitor.process(&mut block[..]);
    let mut first: LevelSample<2> = handle.get_sample().unwrap();
    monitor.process_frame(frame(2.0, 2.0));
    let second = handle.get_sample().unwrap();
    first.window[0] = frame(9.0, 9.0);
    first.window[1] = frame(9.0, 9.0);
    assert_eq!(second.window.to_vec(), ramp(1, 3));
    monitor.process_frame(frame(3.0, 3.0));
    assert_eq!(second.window.to_vec(), ramp(1, 3));
    assert_eq!(handle.get_sample().unwrap().window.to_vec(), ramp(2, 4));
}

#[test]
fn a_window_of_one_frame_follows_the_newest_frame() {
    let (mut monitor, mut handle) = LevelMonitorBuilder::<1>.build();
    for i in 0..5 {
        monitor.process_frame(frame(i as f32, -(i as f32)));
        let sample = handle.get_sample().unwrap();
        assert_eq!(sample.window, [frame(i as f32, -(i as f32))]);
    }
}

#[test]
fn a_window_of_no_frames_publishes_empty_snapshots() {
    let (mut monitor, mut handle) = LevelMonitorBuilder::<0>.build();
    assert_eq!(handle.get_sample().unwrap_err(), SampleError::NoSample);
    monitor.process_frame(frame(1.0, 1.0));
    assert_eq!(handle.get_sample().unwrap().window.len(), 0);
    assert_eq!(handle.get_sample().unwrap_err(), SampleError::NoSample);
}

#[test]
fn snapshot_is_made_only_of_a_full_window() {
    let (mut monitor, _handle) = LevelMonitorBuilder::<3>.build();
    assert!(monitor.snapshot().is_none());
    monitor.process_frame(frame(0.0, 0.0));
    monitor.process_frame(frame(1.0, 1.0));
    assert!(monitor.snapshot().is_none());
    monitor.process_frame(frame(2.0, 2.0));
    assert_eq!(monitor.snapshot().unwrap().window.to_vec(), ramp(0, 3));
    monitor.process_frame(frame(3.0, 3.0));
    assert_eq!(monitor.snapshot().unwrap().window.to_vec(), ramp(1, 4));
}

#[test]
fn a_snapshot_is_offered_only_of_a_full_window_to_a_free_slot() {
    let (mut monitor, _handle) = LevelMonitorBuilder::<3>.build();
    assert!(monitor.offer(false).is_none());
    assert!(monitor.offer(true).is_none());
    monitor.process_frame(frame(0.0, 0.0));
    monitor.process_frame(frame(1.0, 1.0));
    assert!(monitor.offer(false).is_none());
    monitor.process_frame(frame(2.0, 2.0));
    assert!(monitor.offer(true).is_none());
    assert_eq!(monitor.offer(false).unwrap().window.to_vec(), ramp(0, 3));
    monitor.process_frame(frame(3.0, 3.0));
    assert!(monitor.offer(true).is_none());
    assert_eq!(monitor.offer(false).unwrap().window.to_vec(), ramp(1, 4));
    let (empty, _handle) = LevelMonitorBuilder::<0>.build();
    assert_eq!(empty.offer(false).unwrap().window.len(), 0);
}

#[test]
fn the_answer_of_a_poll_follows_what_the_channel_gave() {
    let sample = LevelSample::<2> { window: [frame(1.0, 2.0), frame(3.0, 4.0)] };
    let answer = LevelMonitorHandle::<2>::sample_or_error(Some(sample));
    assert_eq!(answer.unwrap().window, [frame(1.0, 2.0), frame(3.0, 4.0)]);
    let answer = LevelMonitorHandle::<2>::sample_or_error(None);
    assert_eq!(answer.unwrap_err(), SampleError::NoSample);
}

#[test]
fn no_sample_reads_as_no_sample_available() {
    assert_eq!(SampleError::NoSample.to_string(), "no sample available");
}
