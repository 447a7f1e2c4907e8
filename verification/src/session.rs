//! One request as a state machine.
//!
//! The caller performs each [`Action`] against the platform and reports what
//! came of it as an [`Event`]. The session decides what is done next. A
//! request ends with [`Action::Finish`], which carries its outcome.

use vstd::prelude::*;
use vstd::pervasive::unreached;
use crate::error::{lifted, PlatformError, SpeakError};
use crate::format::{choose_profile, Format, ProfileKind};
use crate::path::{agrees, input_of, input_target, output_of, output_target, slice_text, Target};
use crate::request::{Input, Request};

verus! {

/// The text to speak, or the file to read it from.
#[derive(Debug, PartialEq, Eq)]
pub enum Source {
    Literal(String),
    File(Result<Target, SpeakError>),
}

/// Which of the two streams of a request a buffer is read from.
#[derive(Clone, Copy, Debug, PartialEq, Eq, Structural)]
pub enum StreamKind {
    /// The stream that the synthesizer produced.
    Synthesized,
    /// The stream that the transcoder filled.
    Transcoded,
}

/// One of the two branches that run together while a file is produced.
#[derive(Clone, Copy, Debug, PartialEq, Eq, Structural)]
pub enum Branch {
    /// Creating the target file.
    File,
    /// Synthesizing the text.
    Stream,
}

/// What the caller does next.
#[derive(Debug, PartialEq, Eq)]
pub enum Action {
    /// Read the whole text file at the target.
    ReadText(Target),
    /// Synthesize the text and play it on the default device until it ends.
    Play { text: String, ssml: bool },
    /// Create the file at the target, replacing one of the same name, and
    /// synthesize the text; the two are started together and both awaited.
    /// The file is created here, before the transcoder is asked and before
    /// anything is written: a request that fails after this action leaves
    /// an empty file of that name behind, and a file that was there before
    /// is gone.
    Produce { target: Target, text: String, ssml: bool },
    /// Ask the transcoder whether it can bring the synthesized stream into
    /// a profile of this kind.
    PrepareTranscode(ProfileKind),
    /// Run the prepared transcode into a fresh in-memory stream.
    Transcode,
    /// Read all bytes of the stream.
    ReadBuffer(StreamKind),
    /// Write the bytes to the created file in one operation.
    Write(Vec<u8>),
    /// The request is over, with this outcome.
    Finish(Result<(), SpeakError>),
}

/// What the platform answered to the last action.
#[derive(Debug, PartialEq, Eq)]
pub enum Event {
    /// Nothing happened yet: the request starts.
    Begin,
    TextRead(Result<String, PlatformError>),
    Played(Result<(), PlatformError>),
    /// Both branches of `Produce` have ended: how each one ended, and which
    /// of the two ended first.
    Produced { file: Result<(), PlatformError>, stream: Result<(), PlatformError>, first: Branch },
    /// The transcoder's answer: whether it can transcode.
    Prepared(Result<bool, PlatformError>),
    Transcoded(Result<(), PlatformError>),
    Buffered(Result<Vec<u8>, PlatformError>),
    Written(Result<(), PlatformError>),
}

/// The state of a request: what it waits for, with what is still needed.
#[derive(Debug, PartialEq, Eq)]
pub enum Session {
    Ready { source: Source, sink: Option<Result<Target, SpeakError>>, format: Format, ssml: bool },
    ReadingText { sink: Option<Result<Target, SpeakError>>, format: Format, ssml: bool },
    Playing,
    Producing { format: Format },
    Preparing,
    Transcoding,
    Buffering,
    Writing,
    Finished,
}

/// The step that ends a request with `outcome`.
pub open spec fn finish(outcome: Result<(), SpeakError>) -> (Session, Action) {
    (Session::Finished, Action::Finish(outcome))
}

/// The step that ends a request with a failure of the platform.
pub open spec fn fail(e: PlatformError) -> (Session, Action) {
    finish(Err(SpeakError::Platform(e)))
}

/// The step taken once the text is known: play it, or start producing the
/// file, or give up where the output path names no file.
pub open spec fn speak(
    text: String,
    sink: Option<Result<Target, SpeakError>>,
    format: Format,
    ssml: bool,
) -> (Session, Action) {
    match sink {
        None => (Session::Playing, Action::Play { text, ssml }),
        Some(Err(e)) => finish(Err(e)),
        Some(Ok(target)) => (Session::Producing { format }, Action::Produce { target, text, ssml }),
    }
}

/// The failure that ends a request whose two branches have ended: none
/// where both succeeded, and the one that occurred first where both failed.
/// The outcome of the other branch is discarded.
pub open spec fn first_failure(
    file: Result<(), PlatformError>,
    stream: Result<(), PlatformError>,
    first: Branch,
) -> Option<PlatformError> {
    match (file, stream) {
        (Ok(_), Ok(_)) => None,
        (Err(e), Ok(_)) => Some(e),
        (Ok(_), Err(e)) => Some(e),
        (Err(of_file), Err(of_stream)) => match first {
            Branch::File => Some(of_file),
            Branch::Stream => Some(of_stream),
        },
    }
}

/// The step taken once the file is created and the text synthesized: WAV is
/// read as it was synthesized, every other format goes to the transcoder.
pub open spec fn encode(format: Format) -> (Session, Action) {
    match format.profile() {
        None => (Session::Buffering, Action::ReadBuffer(StreamKind::Synthesized)),
        Some(kind) => (Session::Preparing, Action::PrepareTranscode(kind)),
    }
}

impl Session {
    /// Whether `event` answers what the session waits for.
    pub open spec fn expects(self, event: Event) -> bool {
        match (self, event) {
            (Session::Ready { .. }, Event::Begin) => true,
            (Session::ReadingText { .. }, Event::TextRead(_)) => true,
            (Session::Playing, Event::Played(_)) => true,
            (Session::Producing { .. }, Event::Produced { .. }) => true,
            (Session::Preparing, Event::Prepared(_)) => true,
            (Session::Transcoding, Event::Transcoded(_)) => true,
            (Session::Buffering, Event::Buffered(_)) => true,
            (Session::Writing, Event::Written(_)) => true,
            _ => false,
        }
    }

    /// The transition: the state after `event`, and the action it asks for.
    /// The first failure ends the request; nothing is retried.
    pub open spec fn next(self, event: Event) -> (Session, Action)
        recommends
            self.expects(event),
    {
        match (self, event) {
            (Session::Ready { source, sink, format, ssml }, Event::Begin) => match source {
                Source::Literal(text) => speak(text, sink, format, ssml),
                Source::File(Ok(target)) => (
                    Session::ReadingText { sink, format, ssml },
                    Action::ReadText(target),
                ),
                Source::File(Err(e)) => finish(Err(e)),
            },
            (Session::ReadingText { sink, format, ssml }, Event::TextRead(read)) => match read {
                Ok(text) => speak(text, sink, format, ssml),
                Err(e) => fail(e),
            },
            (Session::Playing, Event::Played(outcome)) => finish(lifted(outcome)),
            (Session::Producing { format }, Event::Produced { file, stream, first }) => match first_failure(
                file,
                stream,
                first,
            ) {
                Some(e) => fail(e),
                None => encode(format),
            },
            (Session::Preparing, Event::Prepared(answer)) => match answer {
                Ok(true) => (Session::Transcoding, Action::Transcode),
                Ok(false) => finish(Err(SpeakError::TranscodeFailed)),
                Err(e) => fail(e),
            },
            (Session::Transcoding, Event::Transcoded(outcome)) => match outcome {
                Ok(_) => (Session::Buffering, Action::ReadBuffer(StreamKind::Transcoded)),
                Err(e) => fail(e),
            },
            (Session::Buffering, Event::Buffered(read)) => match read {
                Ok(bytes) => (Session::Writing, Action::Write(bytes)),
                Err(e) => fail(e),
            },
            (Session::Writing, Event::Written(outcome)) => finish(lifted(outcome)),
            _ => arbitrary(),
        }
    }

    /// The resolved output of a request that has not started to speak yet.
    pub open spec fn sink(self) -> Option<Result<Target, SpeakError>> {
        match self {
            Session::Ready { sink, .. } => sink,
            Session::ReadingText { sink, .. } => sink,
            _ => None,
        }
    }

    /// The text or the resolved text file of a request that has not started.
    pub open spec fn source(self) -> Option<Source> {
        match self {
            Session::Ready { source, .. } => Some(source),
            _ => None,
        }
    }

    /// Whether the session was made for `request` with the working
    /// directory `current`: the input file found as `input_of` says, the
    /// output file as `output_of` says.
    pub open spec fn prepared_for(self, request: Request, current: Option<Seq<char>>) -> bool {
        &&& self matches Session::Ready { source, sink, format, ssml }
        &&& format == request.format
        &&& ssml == request.ssml
        &&& match request.input {
            Input::Message(text) => source == Source::Literal(text),
            Input::File(path) => source matches Source::File(r) && agrees(r, input_of(current, path@)),
        }
        &&& match request.output {
            None => sink is None,
            Some(path) => sink matches Some(r) && agrees(r, output_of(current, path@)),
        }
    }

    /// Prepares a session for `request`. `current` is the working directory,
    /// or `None` where it could not be determined. An empty output path is
    /// refused with `NoPathParent` under every working directory, an empty
    /// input path where there is no working directory to resolve it against.
    pub fn new(request: Request, current: Option<&str>) -> (s: Session)
        ensures
            s.prepared_for(request, slice_text(current)),
            s.expects(Event::Begin),
            (request.output is Some && request.output.unwrap()@.len() == 0) ==> s.sink() == Some(
                Err::<Target, SpeakError>(SpeakError::NoPathParent),
            ),
            (current is None && request.input is File && request.input->File_0@.len() == 0)
                ==> s.source() == Some(
                Source::File(Err::<Target, SpeakError>(SpeakError::NoPathParent)),
            ),
    {
        let Request { input, output, format, ssml } = request;
        let source = match input {
            Input::Message(text) => Source::Literal(text),
            Input::File(path) => Source::File(input_target(current, path.as_str())),
        };
        let sink = match output {
            None => None,
            Some(path) => Some(output_target(current, path.as_str())),
        };
        Session::Ready { source, sink, format, ssml }
    }

    /// Whether `event` answers what the session waits for.
    pub fn accepts(&self, event: &Event) -> (r: bool)
        ensures
            r == self.expects(*event),
    {
        match self {
            Session::Ready { .. } => matches!(event, Event::Begin),
            Session::ReadingText { .. } => matches!(event, Event::TextRead(_)),
            Session::Playing => matches!(event, Event::Played(_)),
            Session::Producing { .. } => matches!(event, Event::Produced { .. }),
            Session::Preparing => matches!(event, Event::Prepared(_)),
            Session::Transcoding => matches!(event, Event::Transcoded(_)),
            Session::Buffering => matches!(event, Event::Buffered(_)),
            Session::Writing => matches!(event, Event::Written(_)),
            Session::Finished => false,
        }
    }

    /// Whether the request is over.
    pub fn is_finished(&self) -> (r: bool)
        ensures
            r == (*self is Finished),
    {
        matches!(self, Session::Finished)
    }

    /// Takes one step: consumes the answer to the last action and returns
    /// the state that follows with the next action. An event that the
    /// session does not wait for changes nothing: session and event are
    /// handed back.
    pub fn step(self, event: Event) -> (r: Result<(Session, Action), (Session, Event)>)
        ensures
            self.expects(event) ==> r == Ok::<(Session, Action), (Session, Event)>(self.next(event)),
            !self.expects(event) ==> r == Err::<(Session, Action), (Session, Event)>((self, event)),
    {
        if self.accepts(&event) {
            Ok(self.advance(event))
        } else {
            Err((self, event))
        }
    }

    /// The step itself, for an event that the session waits for.
    fn advance(self, event: Event) -> (r: (Session, Action))
        requires
            self.expects(event),
        ensures
            r == self.next(event),
    {
        match self {
            Session::Ready { source, sink, format, ssml } => match source {
                Source::Literal(text) => speak_next(text, sink, format, ssml),
                Source::File(Ok(target)) => (
                    Session::ReadingText { sink, format, ssml },
                    Action::ReadText(target),
                ),
                Source::File(Err(e)) => (Session::Finished, Action::Finish(Err(e))),
            },
            Session::ReadingText { sink, format, ssml } => match event {
                Event::TextRead(Ok(text)) => speak_next(text, sink, format, ssml),
                Event::TextRead(Err(e)) => failed(e),
                _ => unreached(),
            },
            Session::Playing => match event {
                Event::Played(outcome) => finished(outcome),
                _ => unreached(),
            },
            Session::Producing { format } => match event {
                Event::Produced { file, stream, first } => match earliest_failure(
                    file,
                    stream,
                    first,
                ) {
                    Some(e) => failed(e),
                    None => create_synth_text_buffer(&format),
                },
                _ => unreached(),
            },
            Session::Preparing => match event {
                Event::Prepared(Ok(true)) => (Session::Transcoding, Action::Transcode),
                Event::Prepared(Ok(false)) => (
                    Session::Finished,
                    Action::Finish(Err(SpeakError::TranscodeFailed)),
                ),
                Event::Prepared(Err(e)) => failed(e),
                _ => unreached(),
            },
            Session::Transcoding => match event {
                Event::Transcoded(Ok(_)) => (
                    Session::Buffering,
                    Action::ReadBuffer(StreamKind::Transcoded),
                ),
                Event::Transcoded(Err(e)) => failed(e),
                _ => unreached(),
            },
            Session::Buffering => match event {
                Event::Buffered(Ok(bytes)) => (Session::Writing, Action::Write(bytes)),
                Event::Buffered(Err(e)) => failed(e),
                _ => unreached(),
            },
            Session::Writing => match event {
                Event::Written(outcome) => finished(outcome),
                _ => unreached(),
            },
            Session::Finished => unreached(),
        }
    }
}

/// Picks the failure that ends a request out of the outcomes of its two
/// branches: the one that occurred first, if there is any.
pub fn earliest_failure(
    file: Result<(), PlatformError>,
    stream: Result<(), PlatformError>,
    first: Branch,
) -> (r: Option<PlatformError>)
    ensures
        r == first_failure(file, stream, first),
        r is None <==> file is Ok && stream is Ok,
        file matches Err(e) ==> (stream is Ok || first == Branch::File) ==> r == Some(e),
        stream matches Err(e) ==> (file is Ok || first == Branch::Stream) ==> r == Some(e),
{
    match file {
        Ok(_) => match stream {
            Ok(_) => None,
            Err(e) => Some(e),
        },
        Err(f) => match stream {
            Ok(_) => Some(f),
            Err(s) => match first {
                Branch::File => Some(f),
                Branch::Stream => Some(s),
            },
        },
    }
}

/// Ends the request with the outcome of the last platform call.
fn finished(outcome: Result<(), PlatformError>) -> (r: (Session, Action))
    ensures
        r == finish(lifted(outcome)),
{
    match outcome {
        Ok(_) => (Session::Finished, Action::Finish(Ok(()))),
        Err(e) => (Session::Finished, Action::Finish(Err(SpeakError::Platform(e)))),
    }
}

/// Ends the request with a failure of the platform.
fn failed(e: PlatformError) -> (r: (Session, Action))
    ensures
        r == fail(e),
{
    (Session::Finished, Action::Finish(Err(SpeakError::Platform(e))))
}

/// Routes the text to the audio device or towards the output file.
fn speak_next(text: String, sink: Option<Result<Target, SpeakError>>, format: Format, ssml: bool) -> (r:
    (Session, Action))
    ensures
        r == speak(text, sink, format, ssml),
{
    match sink {
        None => (Session::Playing, Action::Play { text, ssml }),
        Some(Err(e)) => (Session::Finished, Action::Finish(Err(e))),
        Some(Ok(target)) => (Session::Producing { format }, Action::Produce { target, text, ssml }),
    }
}

/// Decides how the synthesized stream becomes the buffer that is written:
/// read as it is for WAV, through the transcoder for every other format.
pub fn create_synth_text_buffer(format: &Format) -> (r: (Session, Action))
    ensures
        r == encode(*format),
        *format == Format::WAV ==> r == (Session::Buffering, Action::ReadBuffer(StreamKind::Synthesized)),
        *format != Format::WAV ==> r.0 == Session::Preparing && r.1 is PrepareTranscode,
        r.1 matches Action::PrepareTranscode(kind) ==> kind.format() == *format,
{
    match choose_profile(format) {
        None => (Session::Buffering, Action::ReadBuffer(StreamKind::Synthesized)),
        Some(kind) => (Session::Preparing, Action::PrepareTranscode(kind)),
    }
}

/// The number of bytes to load from a stream of `size` bytes, where one load
/// can take it: a stream buffer is addressed with 32 bits.
pub fn stream_length(size: u64) -> (r: Option<u32>)
    ensures
        r is Some <==> size <= u32::MAX,
        r matches Some(n) ==> n == size,
{
    if size <= 0xffff_ffffu64 {
        Some(size as u32)
    } else {
        None
    }
}

/// A step asks to write exactly when a buffer was read, and it writes the
/// bytes of that buffer unchanged.
pub proof fn write_carries_the_buffer(s: Session, event: Event, bytes: Vec<u8>)
    requires
        s.expects(event),
    ensures
        s.next(event).1 == Action::Write(bytes) <==> s is Buffering && event == Event::Buffered(
            Ok::<Vec<u8>, PlatformError>(bytes),
        ),
{
}

/// The transcoder is asked whether it can transcode before it is run: a
/// transcode follows only its own positive answer, the question is put only
/// for a format other than WAV, and the transcoded stream is read only after
/// the transcode succeeded.
pub proof fn transcode_follows_the_check(s: Session, event: Event)
    requires
        s.expects(event),
    ensures
        s.next(event).1 is Transcode ==> s is Preparing && event == Event::Prepared(
            Ok::<bool, PlatformError>(true),
        ),
        s.next(event).1 matches Action::PrepareTranscode(kind) ==> s matches Session::Producing {
            format,
        } && format != Format::WAV && format.profile() == Some(kind),
        s.next(event).1 == Action::ReadBuffer(StreamKind::Transcoded) ==> s is Transcoding
            && event matches Event::Transcoded(Ok(_)),
{
}

/// A request is over exactly when its outcome is handed out, and a finished
/// session takes no further event.
pub proof fn finish_ends_the_session(s: Session, event: Event)
    ensures
        s.expects(event) ==> (s.next(event).0 is Finished <==> s.next(event).1 is Finish),
        !Session::Finished.expects(event),
{
}

/// A failure of the platform ends the request with that failure, whatever
/// the session was waiting for.
pub proof fn first_failure_ends_the_request(s: Session, event: Event, e: PlatformError)
    requires
        s.expects(event),
        event == Event::TextRead(Err::<String, PlatformError>(e)) || event == Event::Played(
            Err::<(), PlatformError>(e),
        ) || event == Event::Prepared(Err::<bool, PlatformError>(e)) || event == Event::Transcoded(
            Err::<(), PlatformError>(e),
        ) || event == Event::Buffered(Err::<Vec<u8>, PlatformError>(e)) || event == Event::Written(
            Err::<(), PlatformError>(e),
        ) || (event matches Event::Produced { file, stream, first } && first_failure(
            file,
            stream,
            first,
        ) == Some(e)),
    ensures
        s.next(event) == fail(e),
{
}

/// Where creating the file and synthesizing the text both fail, the request
/// ends with the failure that occurred first, whichever branch it is from,
/// and the session is finished: nothing is transcoded, read or written.
pub proof fn earlier_failure_wins(
    format: Format,
    file_error: PlatformError,
    stream_error: PlatformError,
)
    ensures
        (Session::Producing { format }).next(
            Event::Produced { file: Err(file_error), stream: Err(stream_error), first: Branch::File },
        ) == fail(file_error),
        (Session::Producing { format }).next(
            Event::Produced {
                file: Err(file_error),
                stream: Err(stream_error),
                first: Branch::Stream,
            },
        ) == fail(stream_error),
{
}

/// With the WAV format the file receives the synthesizer's bytes untouched.
/// A request with a literal message and a usable output path first creates
/// the target and synthesizes the message; then the synthesized stream
/// itself is read, and the bytes read are the bytes written. The transcoder
/// is never involved.
pub proof fn wav_is_written_as_synthesized(
    s: Session,
    request: Request,
    current: Option<Seq<char>>,
    text: String,
    target: Target,
    first: Branch,
    bytes: Vec<u8>,
)
    requires
        s.prepared_for(request, current),
        request.input == Input::Message(text),
        request.format == Format::WAV,
        s.sink() == Some(Ok::<Target, SpeakError>(target)),
    ensures
        s.next(Event::Begin) == (
            Session::Producing { format: Format::WAV },
            Action::Produce { target, text, ssml: request.ssml },
        ),
        (Session::Producing { format: Format::WAV }).next(
            Event::Produced { file: Ok(()), stream: Ok(()), first },
        ) == (Session::Buffering, Action::ReadBuffer(StreamKind::Synthesized)),
        Session::Buffering.next(Event::Buffered(Ok(bytes))) == (
            Session::Writing,
            Action::Write(bytes),
        ),
        Session::Writing.next(Event::Written(Ok(()))) == finish(Ok(())),
{
}

/// With any other format, a transcoder that reports the conversion as
/// unsupported ends the request with `TranscodeFailed`: the question is put
/// with the profile of the format, and after the negative answer the session
/// is finished, so that no buffer is read and nothing is written.
pub proof fn unsupported_transcode_fails(
    s: Session,
    request: Request,
    current: Option<Seq<char>>,
    text: String,
    target: Target,
    first: Branch,
)
    requires
        s.prepared_for(request, current),
        request.input == Input::Message(text),
        request.format != Format::WAV,
        s.sink() == Some(Ok::<Target, SpeakError>(target)),
    ensures
        s.next(Event::Begin) == (
            Session::Producing { format: request.format },
            Action::Produce { target, text, ssml: request.ssml },
        ),
        ({
            let asked = (Session::Producing { format: request.format }).next(
                Event::Produced { file: Ok(()), stream: Ok(()), first },
            );
            &&& asked.0 == Session::Preparing
            &&& asked.1 is PrepareTranscode
            &&& request.format.profile() == Some(asked.1->PrepareTranscode_0)
        }),
        Session::Preparing.next(Event::Prepared(Ok(false))) == finish(
            Err(SpeakError::TranscodeFailed),
        ),
        forall|event: Event| !Session::Finished.expects(event),
{
}

/// A request without an output file plays the text, read from the input
/// file first where the request names one, and ends with the outcome of the
/// playback: no target is created and nothing is written.
pub proof fn playback_writes_nothing(
    s: Session,
    request: Request,
    current: Option<Seq<char>>,
    text: String,
    outcome: Result<(), PlatformError>,
)
    requires
        s.prepared_for(request, current),
        request.output is None,
    ensures
        request.input == Input::Message(text) ==> s.next(Event::Begin) == (
            Session::Playing,
            Action::Play { text, ssml: request.ssml },
        ),
        request.input is File ==> s.next(Event::Begin).1 is Finish || (s.next(Event::Begin).1
            is ReadText && s.next(Event::Begin).0 == Session::ReadingText {
            sink: None,
            format: request.format,
            ssml: request.ssml,
        }),
        (Session::ReadingText { sink: None, format: request.format, ssml: request.ssml }).next(
            Event::TextRead(Ok(text)),
        ) == (Session::Playing, Action::Play { text, ssml: request.ssml }),
        Session::Playing.next(Event::Played(outcome)) == finish(lifted(outcome)),
{
}

/// An output path that names no file ends the request as soon as the text is
/// known, before the target is created or anything is synthesized.
pub proof fn bad_output_path_fails_early(text: String, e: SpeakError, format: Format, ssml: bool)
    ensures
        speak(text, Some(Err(e)), format, ssml) == finish(Err(e)),
        (Session::Ready { source: Source::Literal(text), sink: Some(Err(e)), format, ssml }).next(
            Event::Begin,
        ) == finish(Err(e)),
        (Session::ReadingText { sink: Some(Err(e)), format, ssml }).next(Event::TextRead(Ok(text)))
            == finish(Err(e)),
{
}

} // verus!
