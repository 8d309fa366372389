//! The stages of the pipeline, for adapters to implement.

use vstd::prelude::*;

use crate::cancellation::CancellationToken;
use crate::error::{PostProcessError, RecorderError, SinkError, TranscriptionError};
use crate::model::{
    AudioBuffer, AudioDevice, OutputContext, ProcessedText, ProcessingContext, RecordingOptions,
    SendReceipt, Transcript, TranscriptionOptions,
};

verus! {

/// Records audio from an input device.
pub trait Recorder: Send {
    /// The input devices.
    fn list_devices(&self) -> Result<Vec<AudioDevice>, RecorderError>;

    /// Starts a recording.
    fn start(&mut self, options: &RecordingOptions) -> Result<(), RecorderError>;

    /// Ends the recording and hands it over.
    fn stop(&mut self) -> Result<AudioBuffer, RecorderError>;

    /// Ends the recording and discards it.
    fn cancel(&mut self) -> Result<(), RecorderError>;
}

/// Turns audio into text.
pub trait Transcriber: Send + Sync {
    /// Transcribes `audio`, unless `cancel` asks to stop.
    fn transcribe(
        &self,
        audio: &AudioBuffer,
        options: &TranscriptionOptions,
        cancel: &CancellationToken,
    ) -> Result<Transcript, TranscriptionError>;
}

/// Turns a transcript into the text to send.
pub trait PostProcessor: Send + Sync {
    /// Processes `transcript` as `context` asks.
    fn process(&self, transcript: Transcript, context: &ProcessingContext) -> Result<
        ProcessedText,
        PostProcessError,
    >;
}

/// Takes the text of a session.
pub trait TextSink: Send + Sync {
    /// Sends `text` to where `context` says.
    fn send(&mut self, text: &ProcessedText, context: &OutputContext) -> Result<
        SendReceipt,
        SinkError,
    >;
}

} // verus!
