//! Dispatching one captured utterance to the collaborators.
//!
//! After a recording ends, the controller composes the outbound request from
//! the persisted conversation, hands the reply-generation response's choices
//! to [`extract_reply`], and turns the synthesis response's payload back
//! into samples. The network calls themselves are the surrounding
//! application's; everything here is the composition and checking around
//! them.

use vstd::prelude::*;
use vstd::string::StringExecFns;
use base64::Engine;

use crate::chatlog::{Author, LogMessage};
use crate::codec::{decode, decode_spec, FormatError, SampleBuffer};

verus! {

/// Why one dispatch cycle failed. Any of these ends the cycle, never the
/// process: the controller logs it and resumes polling.
#[derive(Clone, Copy, Debug, PartialEq, Eq, Structural)]
pub enum DispatchError {
    /// The synthesis response's audio payload was not valid base64.
    BadAudioEncoding,
    /// The decoded synthesis payload is not a well-formed audio container.
    BadAudioFormat(FormatError),
    /// The reply-generation response did not contain exactly one choice.
    WrongChoiceCount(usize),
}

/// The role tag a message carries in an outbound request.
#[derive(Clone, Copy, Debug, PartialEq, Eq, Structural)]
pub enum Role {
    System,
    User,
}

/// One message of an outbound reply-generation request.
#[derive(Clone, Debug)]
pub struct Message {
    pub role: Role,
    pub text: String,
}

impl Message {
    /// An instruction-channel message.
    pub fn system(text: String) -> (r: Message)
        ensures
            r.role is System,
            r.text@ == text@,
    {
        Message { role: Role::System, text }
    }

    /// A message attributed to the user.
    pub fn user(text: String) -> (r: Message)
        ensures
            r.role is User,
            r.text@ == text@,
    {
        Message { role: Role::User, text }
    }
}

/// The fixed instruction that leads every outbound request.
pub fn system_prompt() -> (r: &'static str)
    ensures
        r@ == system_prompt_spec(),
{
    "\nAs an AI language model, your purpose is to be a fun and engaging educational friend for children. You will be interacting with them through a text-to-speech system via a learning-tool/toy. Teach the child whatever they want to know in a simple, age-appropriate, and entertaining manner. Ensure that your responses are easily pronounceable and suitable for text-to-speech output. Encourage curiosity, provide positive reinforcement, and promote a love for learning. All content provided must be accurate and suitable for children.\n"
}

/// The instruction's text.
pub open spec fn system_prompt_spec() -> Seq<char> {
    "\nAs an AI language model, your purpose is to be a fun and engaging educational friend for children. You will be interacting with them through a text-to-speech system via a learning-tool/toy. Teach the child whatever they want to know in a simple, age-appropriate, and entertaining manner. Ensure that your responses are easily pronounceable and suitable for text-to-speech output. Encourage curiosity, provide positive reinforcement, and promote a love for learning. All content provided must be accurate and suitable for children.\n"@
}

/// The role a replayed record takes in an outbound request. The assistant's
/// own past turns are re-injected on the instruction channel, not as
/// assistant turns — deliberately mirroring the stored-history convention.
pub open spec fn replay_role(author: Author) -> Role {
    match author {
        Author::User => Role::User,
        Author::Bot => Role::System,
    }
}

/// Compose the full conversation history for an outbound request: the fixed
/// system prompt first, then every stored record in order, each under its
/// replay role.
pub fn get_history(log: &Vec<LogMessage>) -> (r: Vec<Message>)
    ensures
        r@.len() == 1 + log@.len(),
        r@[0].role is System,
        r@[0].text@ == system_prompt_spec(),
        forall|i: int|
            #![trigger log@[i]]
            0 <= i < log@.len() ==> {
                &&& r@[i + 1].role == replay_role(log@[i].author)
                &&& r@[i + 1].text@ == log@[i].text@
            },
{
    let mut r: Vec<Message> = Vec::new();
    r.push(Message::system(String::from_str(system_prompt())));
    let n: usize = log.len();
    for i in 0..n
        invariant
            n == log@.len(),
            r@.len() == 1 + i,
            r@[0].role is System,
            r@[0].text@ == system_prompt_spec(),
            forall|k: int|
                #![trigger log@[k]]
                0 <= k < i ==> {
                    &&& r@[k + 1].role == replay_role(log@[k].author)
                    &&& r@[k + 1].text@ == log@[k].text@
                },
    {
        let text = log[i].text.clone();
        let m = match log[i].author {
            Author::User => Message::user(text),
            Author::Bot => Message::system(text),
        };
        r.push(m);
    }
    r
}

/// Compose the messages of one outbound request: the whole history, then
/// the new utterance as the final user turn.
pub fn compose_request(log: &Vec<LogMessage>, prompt: String) -> (r: Vec<Message>)
    ensures
        r@.len() == 2 + log@.len(),
        r@[0].role is System,
        r@[0].text@ == system_prompt_spec(),
        forall|i: int|
            #![trigger log@[i]]
            0 <= i < log@.len() ==> {
                &&& r@[i + 1].role == replay_role(log@[i].author)
                &&& r@[i + 1].text@ == log@[i].text@
            },
        r@.last().role is User,
        r@.last().text@ == prompt@,
{
    let mut r = get_history(log);
    r.push(Message::user(prompt));
    r
}

/// Relies on chrono's `Local::now`: the local wall-clock timestamp, rendered
/// as text. Nothing is promised of the result — it depends on the moment of
/// the call.
#[verifier::external_body]
fn local_now_string() -> String {
    format!("{}", chrono::Local::now())
}

/// Prefix an utterance with a timestamp line.
pub fn timestamped_prompt(now: &str, text: &str) -> (r: String)
    ensures
        r@ == now@ + "\n"@ + text@,
{
    let mut s = String::from_str(now);
    s.append("\n");
    s.append(text);
    s
}

/// The prompt actually sent and stored for an utterance: the current local
/// time on its own line, then the transcribed text.
pub fn make_prompt(text: &str) -> (r: String)
    ensures
        exists|now: Seq<char>| r@ == now + "\n"@ + text@,
{
    let now = local_now_string();
    let r = timestamped_prompt(now.as_str(), text);
    proof {
        assert(r@ == now@ + "\n"@ + text@);
    }
    r
}

/// Take the one reply out of a reply-generation response. Exactly one choice
/// is the collaborator's contract; any other count is a violation reported
/// with the count seen.
pub fn extract_reply(choices: Vec<String>) -> (r: Result<String, DispatchError>)
    ensures
        r is Ok <==> choices@.len() == 1,
        r matches Ok(t) ==> t@ == choices@[0]@,
        r matches Err(e) ==> e == DispatchError::WrongChoiceCount(choices@.len() as usize),
{
    if choices.len() == 1 {
        let mut choices = choices;
        Ok(choices.remove(0))
    } else {
        Err(DispatchError::WrongChoiceCount(choices.len()))
    }
}

/// What the base64 decoder yields for a string: the decoded bytes, or
/// nothing if the string is not valid base64. A function of the characters
/// alone.
pub uninterp spec fn base64_decoding(s: Seq<char>) -> Option<Seq<u8>>;

/// Relies on base64's `BASE64_STANDARD` engine: decoding either yields the
/// bytes the string encodes or fails, depending on the input alone.
#[verifier::external_body]
fn base64_decode(s: &str) -> (r: Option<Vec<u8>>)
    ensures
        match r {
            Some(v) => base64_decoding(s@) == Some(v@),
            None => base64_decoding(s@) is None,
        },
{
    match base64::prelude::BASE64_STANDARD.decode(s.as_bytes()) {
        Ok(v) => Some(v),
        Err(_) => None,
    }
}

/// Turn a synthesis response's payload into samples: decode the base64
/// text, then parse the resulting bytes as an audio container. Fails — for
/// this cycle only — when the payload is not base64 or the bytes are not a
/// well-formed container.
pub fn decode_audio_reply(content: &str) -> (r: Result<SampleBuffer, DispatchError>)
    ensures
        base64_decoding(content@) is None ==> r == Err::<SampleBuffer, DispatchError>(
            DispatchError::BadAudioEncoding,
        ),
        base64_decoding(content@) matches Some(bytes) ==> match decode_spec(bytes) {
            Ok(t) => r matches Ok(buf) && buf.samples@ == t.0 && buf.channels == t.1
                && buf.sample_rate == t.2 && buf.wf(),
            Err(e) => r == Err::<SampleBuffer, DispatchError>(DispatchError::BadAudioFormat(e)),
        },
{
    match base64_decode(content) {
        None => Err(DispatchError::BadAudioEncoding),
        Some(bytes) => match decode(&bytes) {
            Ok(buf) => Ok(buf),
            Err(e) => Err(DispatchError::BadAudioFormat(e)),
        },
    }
}

} // verus!
