use ushidashi::capture::CaptureSlot;
use ushidashi::codec::{encode, FormatError, SampleBuffer};
use ushidashi::playback::{prepare_playback, PlaybackQueue};

#[test]
fn capture_accumulates_every_batch_in_order() {
    let mut slot = CaptureSlot::new();
    slot.append(&vec![1i16, 2, 3]);
    slot.append(&vec![]);
    slot.append(&vec![4i16, 5]);
    let taken = slot.take();
    assert_eq!(taken, vec![1i16, 2, 3, 4, 5]);
}

#[test]
fn capture_take_leaves_the_slot_empty() {
    let mut slot = CaptureSlot::new();
    slot.append(&vec![7i16]);
    let first = slot.take();
    assert_eq!(first, vec![7i16]);
    // a batch straggling in after the stop is dropped, not resurrected
    slot.append(&vec![9i16]);
    let mut fresh = CaptureSlot::new();
    fresh.append(&vec![8i16]);
    assert_eq!(fresh.take(), vec![8i16]);
}

#[test]
fn playback_serves_queued_samples_then_silence() {
    let mut q = PlaybackQueue::new(vec![10i16, 20, 30]);
    let (block, signal) = q.next_block(5);
    assert_eq!(block, vec![10i16, 20, 30, 0, 0]);
    assert!(signal);
}

#[test]
fn playback_signals_completion_exactly_once() {
    let mut q = PlaybackQueue::new(vec![1i16, 2, 3, 4]);
    let (block, signal) = q.next_block(3);
    assert_eq!(block, vec![1i16, 2, 3]);
    assert!(!signal, "queue still holds a sample: no completion yet");
    let (block, signal) = q.next_block(3);
    assert_eq!(block, vec![4i16, 0, 0]);
    assert!(signal, "the first exhausting call signals");
    let (block, signal) = q.next_block(2);
    assert_eq!(block, vec![0i16, 0]);
    assert!(!signal, "a later call never signals again");
}

#[test]
fn playback_queue_comes_from_the_decoded_container() {
    let bytes = encode(&SampleBuffer {
        samples: vec![11i16, -12, 13],
        channels: 1,
        sample_rate: 8000,
    });
    let (mut q, channels, rate) = prepare_playback(&bytes).expect("well-formed container");
    assert_eq!((channels, rate), (1, 8000));
    let (block, signal) = q.next_block(4);
    assert_eq!(block, vec![11i16, -12, 13, 0]);
    assert!(signal);

    let mut garbage = bytes.clone();
    garbage[0] = b'Q';
    assert!(matches!(
        prepare_playback(&garbage),
        Err(FormatError::BadMagic)
    ));
}

#[test]
fn playback_of_empty_queue_is_all_silence() {
    let mut q = PlaybackQueue::new(vec![]);
    let (block, signal) = q.next_block(4);
    assert_eq!(block, vec![0i16; 4]);
    assert!(signal);
    let (_, signal) = q.next_block(4);
    assert!(!signal);
}
