use ushidashi::capture::CaptureSlot;
use ushidashi::codec::{encode, SampleBuffer};
use ushidashi::session::{session_step, Phase, SessionAction};
use ushidashi::trigger::{aggregate_pressed, SourceStatus};

#[test]
fn aggregate_is_true_when_any_source_is_pressed() {
    let sources = vec![SourceStatus::Released, SourceStatus::Pressed];
    assert_eq!(aggregate_pressed(&sources), Some(true));
}

#[test]
fn aggregate_ignores_a_terminated_source_while_another_is_pressed() {
    // source A pressed, source B terminated: the aggregate is true, not gone
    let sources = vec![SourceStatus::Pressed, SourceStatus::Terminated];
    assert_eq!(aggregate_pressed(&sources), Some(true));
}

#[test]
fn aggregate_is_false_only_while_some_source_lives() {
    let sources = vec![SourceStatus::Released, SourceStatus::Terminated];
    assert_eq!(aggregate_pressed(&sources), Some(false));
}

#[test]
fn aggregate_is_gone_once_every_source_terminated() {
    let sources = vec![SourceStatus::Terminated, SourceStatus::Terminated];
    assert_eq!(aggregate_pressed(&sources), None);
    assert_eq!(aggregate_pressed(&vec![]), None);
}

#[test]
fn controller_transitions_cover_every_poll() {
    assert_eq!(
        session_step(Phase::Idle, Some(false)),
        (Phase::Idle, SessionAction::Sleep)
    );
    assert_eq!(
        session_step(Phase::Idle, Some(true)),
        (Phase::Recording, SessionAction::StartCapture)
    );
    assert_eq!(
        session_step(Phase::Idle, None),
        (Phase::Idle, SessionAction::Terminate)
    );
    assert_eq!(
        session_step(Phase::Recording, Some(true)),
        (Phase::Recording, SessionAction::Sleep)
    );
    assert_eq!(
        session_step(Phase::Recording, Some(false)),
        (Phase::Idle, SessionAction::StopAndDispatch)
    );
    assert_eq!(
        session_step(Phase::Recording, None),
        (Phase::Idle, SessionAction::StopAndTerminate)
    );
}

#[test]
fn press_record_release_encodes_one_second_of_silence() {
    // Idle, the trigger is pressed: start recording
    let (phase, action) = session_step(Phase::Idle, Some(true));
    assert_eq!(action, SessionAction::StartCapture);

    // the callback delivers one second of 16 kHz mono silence in batches
    let mut slot = CaptureSlot::new();
    for _ in 0..100 {
        slot.append(&vec![0i16; 160]);
    }

    // still held: keep recording; released: stop and dispatch
    let (phase, action) = session_step(phase, Some(true));
    assert_eq!((phase, action), (Phase::Recording, SessionAction::Sleep));
    let (_, action) = session_step(phase, Some(false));
    assert_eq!(action, SessionAction::StopAndDispatch);

    let samples = slot.take();
    assert_eq!(samples.len(), 16000);
    let bytes = encode(&SampleBuffer {
        samples,
        channels: 1,
        sample_rate: 16000,
    });
    // a 32000-byte 16-bit PCM payload behind a 44-byte header
    assert_eq!(bytes.len() - 44, 32000);
    assert_eq!(u16::from_le_bytes([bytes[22], bytes[23]]), 1);
    assert_eq!(u32::from_le_bytes([bytes[24], bytes[25], bytes[26], bytes[27]]), 16000);
    assert_eq!(u16::from_le_bytes([bytes[34], bytes[35]]), 16);
    assert!(bytes[44..].iter().all(|&b| b == 0));
}
