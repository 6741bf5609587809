use base64::Engine;
use ushidashi::chatlog::{Author, LogMessage};
use ushidashi::codec::{encode, FormatError, SampleBuffer};
use ushidashi::dispatch::{
    compose_request, decode_audio_reply, extract_reply, get_history, system_prompt,
    timestamped_prompt, DispatchError, Role,
};

#[test]
fn history_replays_bot_turns_on_the_system_channel() {
    let log = vec![
        LogMessage::user(String::from("hello")),
        LogMessage::bot(String::from("hi there")),
    ];
    let history = get_history(&log);
    assert_eq!(history.len(), 3);
    assert_eq!(history[0].role, Role::System);
    assert_eq!(history[0].text, system_prompt());
    assert_eq!(history[1].role, Role::User);
    assert_eq!(history[1].text, "hello");
    assert_eq!(history[2].role, Role::System);
    assert_eq!(history[2].text, "hi there");
}

#[test]
fn history_of_an_empty_log_is_the_system_prompt_alone() {
    let history = get_history(&vec![]);
    assert_eq!(history.len(), 1);
    assert_eq!(history[0].role, Role::System);
    assert_eq!(history[0].text, system_prompt());
}

#[test]
fn composed_request_ends_with_the_new_utterance() {
    let log = vec![LogMessage::user(String::from("first"))];
    let request = compose_request(&log, String::from("second"));
    assert_eq!(request.len(), 3);
    assert_eq!(request[2].role, Role::User);
    assert_eq!(request[2].text, "second");
}

#[test]
fn timestamp_goes_on_its_own_line() {
    let p = timestamped_prompt("2023-05-01 12:00:00", "what is a whale?");
    assert_eq!(p, "2023-05-01 12:00:00\nwhat is a whale?");
}

#[test]
fn exactly_one_choice_is_accepted() {
    let r = extract_reply(vec![String::from("the reply")]);
    assert_eq!(r.unwrap(), "the reply");
}

#[test]
fn zero_or_many_choices_violate_the_contract() {
    assert_eq!(
        extract_reply(vec![]),
        Err(DispatchError::WrongChoiceCount(0))
    );
    assert_eq!(
        extract_reply(vec![String::from("a"), String::from("b")]),
        Err(DispatchError::WrongChoiceCount(2))
    );
}

#[test]
fn synthesized_audio_round_trips_through_base64() {
    let buf = SampleBuffer {
        samples: vec![3i16, -4, 5, -6],
        channels: 1,
        sample_rate: 24000,
    };
    let bytes = encode(&buf);
    let content = base64::prelude::BASE64_STANDARD.encode(&bytes);
    // the base64 text is not the container itself, so a decoder that handed
    // its input through unchanged could not produce these samples
    assert_ne!(content.as_bytes(), &bytes[..]);
    let out = decode_audio_reply(&content).expect("valid payload");
    assert_eq!(out.samples, vec![3i16, -4, 5, -6]);
    assert_eq!(out.channels, 1);
    assert_eq!(out.sample_rate, 24000);
}

#[test]
fn invalid_base64_fails_the_cycle() {
    assert_eq!(
        decode_audio_reply("not/base64!!"),
        Err(DispatchError::BadAudioEncoding)
    );
}

#[test]
fn base64_of_a_malformed_container_fails_the_cycle() {
    let content = base64::prelude::BASE64_STANDARD.encode(b"just some bytes");
    assert_eq!(
        decode_audio_reply(&content),
        Err(DispatchError::BadAudioFormat(FormatError::TooShort))
    );
}
