//! Local voice input: record, transcribe, process the text and hand it to a sink.
//!
//! The library holds the parts that decide and compute. A [`SessionCoordinator`] runs a session
//! through its stages, an [`AgentRuntime`] carries out the commands of clients, and the modules
//! around them read command lines, the line protocol and WAV files, and say what a recorder, a
//! transcriber and the sinks do with what the outside world returned. Devices, models, files and
//! sockets are left to the caller, who reaches the stages through the traits [`Recorder`],
//! [`Transcriber`], [`PostProcessor`] and [`TextSink`].
//!
//! The contracts speak of views: a text is a sequence of characters, a span of time a number of
//! nanoseconds, a session its state, its context and the number of the next one.

pub mod agent;
pub mod cancellation;
pub mod cli;
pub mod duration;
pub mod error;
pub mod flags;
pub mod model;
pub mod pipeline;
pub mod post_process;
pub mod protocol;
pub mod recorder;
pub mod server;
pub mod session;
pub mod sinks;
pub mod text;
pub mod traits;
pub mod transcriber;
pub mod wav;

pub use agent::AgentRuntime;
pub use cancellation::CancellationToken;
pub use duration::Duration;
pub use error::{AppError, PostProcessError, RecorderError, SinkError, TranscriptionError};
pub use model::{
    AudioBuffer, AudioDevice, DictionaryEntry, DictionaryMode, Float32, LanguageMode,
    OutputContext, OutputFormat, ProcessedText, ProcessingContext, RecordingOptions, SendReceipt,
    Transcript, TranscriptSegment, TranscriptionOptions,
};
pub use pipeline::SessionCoordinator;
pub use post_process::DeterministicPostProcessor;
pub use protocol::{AgentCommand, AgentReply};
pub use recorder::CpalRecorder;
pub use session::SessionState;
pub use sinks::StdoutSink;
pub use traits::{PostProcessor, Recorder, TextSink, Transcriber};
pub use transcriber::WhisperTranscriber;
