//! The request that the command line describes.

use vstd::prelude::*;
use crate::format::Format;

verus! {

/// Where the text to speak comes from.
#[derive(Clone, Debug, PartialEq, Eq)]
pub enum Input {
    /// The text itself.
    Message(String),
    /// The path of a file that holds the text.
    File(String),
}

/// One validated request.
#[derive(Clone, Debug, PartialEq, Eq)]
pub struct Request {
    pub input: Input,
    /// The file to write; `None` plays the audio instead.
    pub output: Option<String>,
    /// Only meaningful together with `output`.
    pub format: Format,
    pub ssml: bool,
}

/// The input that the two options give: exactly one of them must be there.
pub open spec fn selected(message: Option<String>, input: Option<String>) -> Option<Input> {
    match (message, input) {
        (Some(text), None) => Some(Input::Message(text)),
        (None, Some(path)) => Some(Input::File(path)),
        _ => None,
    }
}

/// The format of a request: WAV unless another one was asked for.
pub open spec fn format_or_default(format: Option<Format>) -> Format {
    match format {
        Some(f) => f,
        None => Format::WAV,
    }
}

/// Chooses between the literal message and the input file. Supplying
/// neither is rejected, and so is supplying both.
pub fn select_input(message: Option<String>, input: Option<String>) -> (r: Option<Input>)
    ensures
        r == selected(message, input),
        r is Some <==> (message is Some) != (input is Some),
        message is None && input is None ==> r is None,
        message is Some && input is Some ==> r is None,
{
    match message {
        Some(text) => match input {
            Some(_) => None,
            None => Some(Input::Message(text)),
        },
        None => match input {
            Some(path) => Some(Input::File(path)),
            None => None,
        },
    }
}

impl Request {
    /// Builds the request from the parsed options, or `None` where the
    /// options name no input or two.
    pub fn new(
        message: Option<String>,
        input: Option<String>,
        output: Option<String>,
        format: Option<Format>,
        ssml: bool,
    ) -> (r: Option<Request>)
        ensures
            r is Some <==> selected(message, input) is Some,
            r matches Some(req) ==> Some(req.input) == selected(message, input) && req.output
                == output && req.format == format_or_default(format) && req.ssml == ssml,
    {
        let format = match format {
            Some(f) => f,
            None => Format::default(),
        };
        match select_input(message, input) {
            Some(input) => Some(Request { input, output, format, ssml }),
            None => None,
        }
    }
}

} // verus!
