use windows_tts::error::{PlatformError, SpeakError};
use windows_tts::format::{Format, ProfileKind};
use windows_tts::path::Target;
use windows_tts::request::Request;
use std::path::MAIN_SEPARATOR;

use windows_tts::session::{
    create_synth_text_buffer, earliest_failure, Action, Branch, Event, Session, StreamKind,
};

fn message_request(text: &str, output: Option<&str>, format: Option<Format>) -> Request {
    Request::new(Some(String::from(text)), None, output.map(String::from), format, false).unwrap()
}

fn broken(message: &str) -> PlatformError {
    PlatformError { code: -1, message: String::from(message) }
}

fn produced() -> Event {
    Event::Produced { file: Ok(()), stream: Ok(()), first: Branch::Stream }
}

#[test]
fn wav_file_receives_the_synthesized_bytes() {
    let session = Session::new(message_request("hello", Some("out.wav"), None), Some("/home/user"));
    assert!(session.accepts(&Event::Begin));
    let (session, action) = session.step(Event::Begin).unwrap();
    assert_eq!(
        action,
        Action::Produce {
            target: Target { folder: String::from("/home/user"), file_name: String::from("out.wav") },
            text: String::from("hello"),
            ssml: false,
        }
    );
    assert_eq!(session, Session::Producing { format: Format::WAV });
    let (session, action) = session.step(produced()).unwrap();
    assert_eq!(action, Action::ReadBuffer(StreamKind::Synthesized));
    let bytes = vec![82u8, 73, 70, 70, 0, 1, 2, 3];
    let (session, action) = session.step(Event::Buffered(Ok(bytes.clone()))).unwrap();
    assert_eq!(action, Action::Write(bytes));
    assert_eq!(session, Session::Writing);
    let (session, action) = session.step(Event::Written(Ok(()))).unwrap();
    assert_eq!(action, Action::Finish(Ok(())));
    assert!(session.is_finished());
}

#[test]
fn mp3_file_receives_the_transcoded_bytes() {
    let session = Session::new(message_request("hello", Some("out.mp3"), Some(Format::MP3)), None);
    let (session, action) = session.step(Event::Begin).unwrap();
    assert_eq!(
        action,
        Action::Produce {
            target: Target { folder: String::new(), file_name: String::from("out.mp3") },
            text: String::from("hello"),
            ssml: false,
        }
    );
    let (session, action) = session.step(produced()).unwrap();
    assert_eq!(action, Action::PrepareTranscode(ProfileKind::Mp3));
    assert_eq!(session, Session::Preparing);
    let (session, action) = session.step(Event::Prepared(Ok(true))).unwrap();
    assert_eq!(action, Action::Transcode);
    let (session, action) = session.step(Event::Transcoded(Ok(()))).unwrap();
    assert_eq!(action, Action::ReadBuffer(StreamKind::Transcoded));
    let (session, action) = session.step(Event::Buffered(Ok(vec![255u8, 251, 144]))).unwrap();
    assert_eq!(action, Action::Write(vec![255u8, 251, 144]));
    let (session, action) = session.step(Event::Written(Ok(()))).unwrap();
    assert_eq!(action, Action::Finish(Ok(())));
    assert_eq!(session, Session::Finished);
}

#[test]
fn unsupported_transcode_fails_without_a_write() {
    for format in [Format::ALAC, Format::FLAC, Format::M4A, Format::MP3, Format::WMA] {
        let session = Session::Producing { format };
        let (session, action) = session.step(produced()).unwrap();
        assert!(matches!(action, Action::PrepareTranscode(_)));
        let (session, action) = session.step(Event::Prepared(Ok(false))).unwrap();
        assert_eq!(action, Action::Finish(Err(SpeakError::TranscodeFailed)));
        assert!(session.is_finished());
        assert!(!session.accepts(&Event::Buffered(Ok(vec![1u8]))));
        assert!(!session.accepts(&Event::Written(Ok(()))));
    }
}

#[test]
fn empty_output_path_fails_before_anything_is_produced() {
    let session = Session::new(message_request("hello", Some(""), None), None);
    let (session, action) = session.step(Event::Begin).unwrap();
    assert_eq!(action, Action::Finish(Err(SpeakError::NoPathParent)));
    assert!(session.is_finished());
}

#[test]
fn empty_output_path_fails_with_a_known_working_directory() {
    let session = Session::new(message_request("hello", Some(""), None), Some("/home/user"));
    let (session, action) = session.step(Event::Begin).unwrap();
    assert_eq!(action, Action::Finish(Err(SpeakError::NoPathParent)));
    assert!(session.is_finished());
}

#[test]
fn empty_output_path_fails_after_the_text_was_read() {
    let request =
        Request::new(None, Some(String::from("in.txt")), Some(String::new()), None, false).unwrap();
    let (session, action) = Session::new(request, Some("/home/user")).step(Event::Begin).unwrap();
    assert!(matches!(action, Action::ReadText(_)));
    let (session, action) = session.step(Event::TextRead(Ok(String::from("hello")))).unwrap();
    assert_eq!(action, Action::Finish(Err(SpeakError::NoPathParent)));
    assert!(session.is_finished());
}

#[test]
fn output_without_file_name_fails() {
    let session = Session::new(message_request("hello", Some("music/.."), None), None);
    let (_, action) = session.step(Event::Begin).unwrap();
    assert_eq!(action, Action::Finish(Err(SpeakError::NoFileName)));
}

#[test]
fn no_output_plays_and_never_writes() {
    let request = Request::new(Some(String::from("<speak>hi</speak>")), None, None, None, true).unwrap();
    let session = Session::new(request, Some("/home/user"));
    let (session, action) = session.step(Event::Begin).unwrap();
    assert_eq!(action, Action::Play { text: String::from("<speak>hi</speak>"), ssml: true });
    assert_eq!(session, Session::Playing);
    assert!(!session.accepts(&Event::Written(Ok(()))));
    let (session, action) = session.step(Event::Played(Ok(()))).unwrap();
    assert_eq!(action, Action::Finish(Ok(())));
    assert!(session.is_finished());
}

#[test]
fn playback_failure_is_passed_on() {
    let (session, action) = Session::Playing.step(Event::Played(Err(broken("no audio device")))).unwrap();
    assert_eq!(action, Action::Finish(Err(SpeakError::Platform(broken("no audio device")))));
    assert!(session.is_finished());
}

#[test]
fn text_file_is_read_before_speaking() {
    let request = Request::new(None, Some(String::from("notes/in.txt")), None, None, false).unwrap();
    let session = Session::new(request, Some("/home/user"));
    let (session, action) = session.step(Event::Begin).unwrap();
    assert_eq!(
        action,
        Action::ReadText(Target {
            folder: format!("/home/user{}notes", MAIN_SEPARATOR),
            file_name: String::from("in.txt"),
        })
    );
    assert!(session.accepts(&Event::TextRead(Ok(String::new()))));
    let (session, action) = session.step(Event::TextRead(Ok(String::from("read me")))).unwrap();
    assert_eq!(action, Action::Play { text: String::from("read me"), ssml: false });
    assert_eq!(session, Session::Playing);
}

#[test]
fn text_file_without_parent_fails() {
    let request = Request::new(None, Some(String::new()), Some(String::from("out.wav")), None, false).unwrap();
    let (session, action) = Session::new(request, None).step(Event::Begin).unwrap();
    assert_eq!(action, Action::Finish(Err(SpeakError::NoPathParent)));
    assert!(session.is_finished());
}

#[test]
fn read_failure_ends_the_request() {
    let request = Request::new(None, Some(String::from("in.txt")), Some(String::from("out.wav")), None, false).unwrap();
    let (session, _) = Session::new(request, None).step(Event::Begin).unwrap();
    let (session, action) = session.step(Event::TextRead(Err(broken("access denied")))).unwrap();
    assert_eq!(action, Action::Finish(Err(SpeakError::Platform(broken("access denied")))));
    assert!(session.is_finished());
}

#[test]
fn earlier_failure_wins_when_both_branches_fail() {
    let session = Session::Producing { format: Format::MP3 };
    let event = Event::Produced {
        file: Err(broken("folder missing")),
        stream: Err(broken("bad ssml")),
        first: Branch::Stream,
    };
    let (session, action) = session.step(event).unwrap();
    assert_eq!(action, Action::Finish(Err(SpeakError::Platform(broken("bad ssml")))));
    assert!(session.is_finished());

    let session = Session::Producing { format: Format::MP3 };
    let event = Event::Produced {
        file: Err(broken("folder missing")),
        stream: Err(broken("bad ssml")),
        first: Branch::File,
    };
    let (session, action) = session.step(event).unwrap();
    assert_eq!(action, Action::Finish(Err(SpeakError::Platform(broken("folder missing")))));
    assert!(session.is_finished());
}

#[test]
fn single_failure_wins_whichever_branch_ended_first() {
    assert_eq!(earliest_failure(Ok(()), Ok(()), Branch::File), None);
    assert_eq!(earliest_failure(Ok(()), Ok(()), Branch::Stream), None);
    assert_eq!(earliest_failure(Err(broken("f")), Ok(()), Branch::Stream), Some(broken("f")));
    assert_eq!(earliest_failure(Err(broken("f")), Ok(()), Branch::File), Some(broken("f")));
    assert_eq!(earliest_failure(Ok(()), Err(broken("s")), Branch::File), Some(broken("s")));
    assert_eq!(earliest_failure(Ok(()), Err(broken("s")), Branch::Stream), Some(broken("s")));
    assert_eq!(earliest_failure(Err(broken("f")), Err(broken("s")), Branch::File), Some(broken("f")));
    assert_eq!(earliest_failure(Err(broken("f")), Err(broken("s")), Branch::Stream), Some(broken("s")));
}

#[test]
fn file_failure_ends_the_request() {
    let session = Session::Producing { format: Format::WAV };
    let event = Event::Produced { file: Err(broken("folder missing")), stream: Ok(()), first: Branch::Stream };
    let (session, action) = session.step(event).unwrap();
    assert_eq!(action, Action::Finish(Err(SpeakError::Platform(broken("folder missing")))));
    assert!(session.is_finished());
}

#[test]
fn synthesis_failure_ends_the_request() {
    let session = Session::Producing { format: Format::WAV };
    let event = Event::Produced { file: Ok(()), stream: Err(broken("bad ssml")), first: Branch::File };
    let (_, action) = session.step(event).unwrap();
    assert_eq!(action, Action::Finish(Err(SpeakError::Platform(broken("bad ssml")))));
}

#[test]
fn platform_failures_end_every_later_stage() {
    let (_, action) = Session::Preparing.step(Event::Prepared(Err(broken("a")))).unwrap();
    assert_eq!(action, Action::Finish(Err(SpeakError::Platform(broken("a")))));
    let (_, action) = Session::Transcoding.step(Event::Transcoded(Err(broken("b")))).unwrap();
    assert_eq!(action, Action::Finish(Err(SpeakError::Platform(broken("b")))));
    let (_, action) = Session::Buffering.step(Event::Buffered(Err(broken("c")))).unwrap();
    assert_eq!(action, Action::Finish(Err(SpeakError::Platform(broken("c")))));
    let (_, action) = Session::Writing.step(Event::Written(Err(broken("d")))).unwrap();
    assert_eq!(action, Action::Finish(Err(SpeakError::Platform(broken("d")))));
}

#[test]
fn session_accepts_only_the_awaited_event() {
    assert!(Session::Buffering.accepts(&Event::Buffered(Ok(vec![]))));
    assert!(!Session::Buffering.accepts(&Event::Begin));
    assert!(!Session::Preparing.accepts(&Event::Transcoded(Ok(()))));
    assert!(!Session::Finished.accepts(&Event::Begin));
    assert!(Session::Writing.accepts(&Event::Written(Ok(()))));
    assert!(!Session::Playing.accepts(&Event::Written(Ok(()))));
}

#[test]
fn buffer_source_follows_the_format() {
    assert_eq!(
        create_synth_text_buffer(&Format::WAV),
        (Session::Buffering, Action::ReadBuffer(StreamKind::Synthesized))
    );
    assert_eq!(
        create_synth_text_buffer(&Format::FLAC),
        (Session::Preparing, Action::PrepareTranscode(ProfileKind::Flac))
    );
}

#[test]
fn unexpected_event_changes_nothing() {
    let rejected = Session::Preparing.step(Event::Written(Ok(())));
    assert_eq!(rejected, Err((Session::Preparing, Event::Written(Ok(())))));
    let rejected = Session::Finished.step(Event::Begin);
    assert_eq!(rejected, Err((Session::Finished, Event::Begin)));
}

#[test]
fn same_request_twice_asks_for_the_same_replacing_creation() {
    let first = Session::new(message_request("hello", Some("out.wav"), None), Some("/tmp")).step(Event::Begin);
    let second = Session::new(message_request("hello", Some("out.wav"), None), Some("/tmp")).step(Event::Begin);
    assert_eq!(first, second);
    let (_, action) = first.unwrap();
    assert!(matches!(action, Action::Produce { .. }));
}
