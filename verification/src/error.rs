//! Errors of the pipeline and how they read.

use vstd::prelude::*;

use crate::session::{state_label, state_label_text, SessionState};

verus! {

/// What went wrong in a recorder. Its view is the message.
#[derive(Clone, Debug, PartialEq, Eq)]
pub struct RecorderError {
    message: String,
}

impl View for RecorderError {
    type V = Seq<char>;

    closed spec fn view(&self) -> Seq<char> {
        self.message@
    }
}

impl RecorderError {
    /// An error with the given message.
    pub fn new(message: &str) -> (error: RecorderError)
        ensures
            error@ == message@,
    {
        RecorderError { message: message.to_owned() }
    }

    /// The message.
    pub fn message(&self) -> (message: &str)
        ensures
            message@ == self@,
    {
        self.message.as_str()
    }
}

/// What went wrong in a transcriber. Its view is the message.
#[derive(Clone, Debug, PartialEq, Eq)]
pub struct TranscriptionError {
    message: String,
}

impl View for TranscriptionError {
    type V = Seq<char>;

    closed spec fn view(&self) -> Seq<char> {
        self.message@
    }
}

impl TranscriptionError {
    /// An error with the given message.
    pub fn new(message: &str) -> (error: TranscriptionError)
        ensures
            error@ == message@,
    {
        TranscriptionError { message: message.to_owned() }
    }

    /// The message.
    pub fn message(&self) -> (message: &str)
        ensures
            message@ == self@,
    {
        self.message.as_str()
    }
}

/// What went wrong in a post-processor. Its view is the message.
#[derive(Clone, Debug, PartialEq, Eq)]
pub struct PostProcessError {
    message: String,
}

impl View for PostProcessError {
    type V = Seq<char>;

    closed spec fn view(&self) -> Seq<char> {
        self.message@
    }
}

impl PostProcessError {
    /// An error with the given message.
    pub fn new(message: &str) -> (error: PostProcessError)
        ensures
            error@ == message@,
    {
        PostProcessError { message: message.to_owned() }
    }

    /// The message.
    pub fn message(&self) -> (message: &str)
        ensures
            message@ == self@,
    {
        self.message.as_str()
    }
}

/// What went wrong in a text sink. Its view is the message.
#[derive(Clone, Debug, PartialEq, Eq)]
pub struct SinkError {
    message: String,
}

impl View for SinkError {
    type V = Seq<char>;

    closed spec fn view(&self) -> Seq<char> {
        self.message@
    }
}

impl SinkError {
    /// An error with the given message.
    pub fn new(message: &str) -> (error: SinkError)
        ensures
            error@ == message@,
    {
        SinkError { message: message.to_owned() }
    }

    /// The message.
    pub fn message(&self) -> (message: &str)
        ensures
            message@ == self@,
    {
        self.message.as_str()
    }
}

/// Why a session request failed.
#[derive(Clone, Debug, PartialEq, Eq)]
pub enum AppError {
    /// The session was not in the state that the request needs.
    InvalidState {
        /// The state that the request needs.
        expected: SessionState,
        /// The state that the session was in.
        actual: SessionState,
    },
    /// The recorder failed.
    Recorder(RecorderError),
    /// The transcriber failed.
    Transcription(TranscriptionError),
    /// The post-processor failed.
    PostProcess(PostProcessError),
    /// The text sink failed.
    Sink(SinkError),
    /// The operation was cancelled.
    Cancelled,
    /// There was no text to send.
    EmptyTranscript,
}

/// The text of an `InvalidState` error.
pub open spec fn invalid_state_text(expected: SessionState, actual: SessionState) -> Seq<char> {
    "invalid session state: expected "@ + state_label_text(expected) + ", got "@ + state_label_text(
        actual,
    )
}

/// The text of an `InvalidState` error.
pub fn invalid_state_error(expected: SessionState, actual: SessionState) -> (text: String)
    ensures
        text@ == invalid_state_text(expected, actual),
{
    let mut text = String::new();
    text.append("invalid session state: expected ");
    text.append(state_label(expected));
    text.append(", got ");
    text.append(state_label(actual));
    text
}

/// `prefix` followed by `message`.
pub fn with_prefix(prefix: &str, message: &str) -> (text: String)
    ensures
        text@ == prefix@ + message@,
{
    let mut text = prefix.to_owned();
    text.append(message);
    text
}

impl AppError {
    /// How the error reads.
    pub open spec fn text(&self) -> Seq<char> {
        match self {
            AppError::InvalidState { expected, actual } => invalid_state_text(*expected, *actual),
            AppError::Recorder(error) => "recorder error: "@ + error@,
            AppError::Transcription(error) => "transcription error: "@ + error@,
            AppError::PostProcess(error) => "post-process error: "@ + error@,
            AppError::Sink(error) => "sink error: "@ + error@,
            AppError::Cancelled => "operation cancelled"@,
            AppError::EmptyTranscript => "transcript is empty"@,
        }
    }

    /// How the error reads.
    pub fn describe(&self) -> (text: String)
        ensures
            text@ == self.text(),
    {
        match self {
            AppError::InvalidState { expected, actual } => invalid_state_error(*expected, *actual),
            AppError::Recorder(error) => with_prefix("recorder error: ", error.message()),
            AppError::Transcription(error) => with_prefix("transcription error: ", error.message()),
            AppError::PostProcess(error) => with_prefix("post-process error: ", error.message()),
            AppError::Sink(error) => with_prefix("sink error: ", error.message()),
            AppError::Cancelled => "operation cancelled".to_owned(),
            AppError::EmptyTranscript => "transcript is empty".to_owned(),
        }
    }
}

impl From<RecorderError> for AppError {
    fn from(error: RecorderError) -> AppError {
        AppError::Recorder(error)
    }
}

impl vstd::std_specs::convert::FromSpecImpl<RecorderError> for AppError {
    open spec fn obeys_from_spec() -> bool {
        true
    }

    open spec fn from_spec(error: RecorderError) -> AppError {
        AppError::Recorder(error)
    }
}

impl From<TranscriptionError> for AppError {
    fn from(error: TranscriptionError) -> AppError {
        AppError::Transcription(error)
    }
}

impl vstd::std_specs::convert::FromSpecImpl<TranscriptionError> for AppError {
    open spec fn obeys_from_spec() -> bool {
        true
    }

    open spec fn from_spec(error: TranscriptionError) -> AppError {
        AppError::Transcription(error)
    }
}

impl From<PostProcessError> for AppError {
    fn from(error: PostProcessError) -> AppError {
        AppError::PostProcess(error)
    }
}

impl vstd::std_specs::convert::FromSpecImpl<PostProcessError> for AppError {
    open spec fn obeys_from_spec() -> bool {
        true
    }

    open spec fn from_spec(error: PostProcessError) -> AppError {
        AppError::PostProcess(error)
    }
}

impl From<SinkError> for AppError {
    fn from(error: SinkError) -> AppError {
        AppError::Sink(error)
    }
}

impl vstd::std_specs::convert::FromSpecImpl<SinkError> for AppError {
    open spec fn obeys_from_spec() -> bool {
        true
    }

    open spec fn from_spec(error: SinkError) -> AppError {
        AppError::Sink(error)
    }
}

/// How each error reads.
pub proof fn law_errors_read_as_their_cause(
    error: AppError,
    text: String,
    expected: SessionState,
    actual: SessionState,
    state_text: String,
    expected_label: &'static str,
    actual_label: &'static str,
)
    requires
        call_ensures(AppError::describe, (&error,), text),
        call_ensures(invalid_state_error, (expected, actual), state_text),
        call_ensures(state_label, (expected,), expected_label),
        call_ensures(state_label, (actual,), actual_label),
    ensures
        state_text@ == "invalid session state: expected "@ + expected_label@ + ", got "@
            + actual_label@,
        error == (AppError::InvalidState { expected, actual }) ==> text@ == state_text@,
        error matches AppError::Recorder(cause) ==> text@ == "recorder error: "@ + cause@,
        error matches AppError::Transcription(cause) ==> text@ == "transcription error: "@ + cause@,
        error matches AppError::PostProcess(cause) ==> text@ == "post-process error: "@ + cause@,
        error matches AppError::Sink(cause) ==> text@ == "sink error: "@ + cause@,
        error == AppError::Cancelled ==> text@ == "operation cancelled"@,
        error == AppError::EmptyTranscript ==> text@ == "transcript is empty"@,
{
}

/// An error says the message that it was made with.
pub proof fn law_errors_keep_their_message(
    message: &str,
    recorder: RecorderError,
    recorder_message: &str,
    transcription: TranscriptionError,
    transcription_message: &str,
    post_process: PostProcessError,
    post_process_message: &str,
    sink: SinkError,
    sink_message: &str,
)
    requires
        call_ensures(RecorderError::new, (message,), recorder),
        call_ensures(RecorderError::message, (&recorder,), recorder_message),
        call_ensures(TranscriptionError::new, (message,), transcription),
        call_ensures(TranscriptionError::message, (&transcription,), transcription_message),
        call_ensures(PostProcessError::new, (message,), post_process),
        call_ensures(PostProcessError::message, (&post_process,), post_process_message),
        call_ensures(SinkError::new, (message,), sink),
        call_ensures(SinkError::message, (&sink,), sink_message),
    ensures
        recorder@ == message@ && recorder_message@ == message@,
        transcription@ == message@ && transcription_message@ == message@,
        post_process@ == message@ && post_process_message@ == message@,
        sink@ == message@ && sink_message@ == message@,
{
}

/// A prefix comes before the message, and nothing between them.
pub proof fn law_prefixes_come_first(prefix: &str, message: &str, text: String)
    requires
        call_ensures(with_prefix, (prefix, message), text),
    ensures
        text@.len() == prefix@.len() + message@.len(),
        text@.take(prefix@.len() as int) == prefix@,
        text@.skip(prefix@.len() as int) == message@,
{
    assert(text@.take(prefix@.len() as int) == prefix@);
    assert(text@.skip(prefix@.len() as int) == message@);
}

} // verus!
