//! The data that passes between the stages of the pipeline.

use vstd::prelude::*;

use std::time::SystemTime;

use crate::duration::{Duration, NANOS_PER_SEC};

verus! {

/// The point in time type of the standard library, carried as it is.
#[verifier::external_type_specification]
#[verifier::external_body]
pub struct ExSystemTime(SystemTime);

/// `SystemTime::now` reads the system clock; nothing is claimed of the time that it returns.
pub assume_specification[ SystemTime::now ]() -> SystemTime
;

/// A single-precision number, held by its IEEE 754 bit pattern.
#[derive(Clone, Copy, Debug, PartialEq, Eq, Structural)]
pub struct Float32 {
    /// The bit pattern.
    pub bits: u32,
}

/// Recorded audio: interleaved samples and their format.
#[derive(Debug, PartialEq, Eq)]
pub struct AudioBuffer {
    /// The samples, interleaved by channel.
    pub samples: Vec<Float32>,
    /// Samples per second and channel.
    pub sample_rate_hz: u32,
    /// The number of channels.
    pub channels: u16,
    /// When the recording started.
    pub started_at: SystemTime,
    /// How long the recording is.
    pub duration: Duration,
}

impl AudioBuffer {
    /// A buffer of `samples` that starts now.
    ///
    /// `measured` is the number of samples divided by the rate and by the number of channels; a
    /// buffer without a rate or without channels has no length.
    pub fn new(
        samples: Vec<Float32>,
        sample_rate_hz: u32,
        channels: u16,
        measured: Duration,
    ) -> (audio: AudioBuffer)
        ensures
            audio.samples == samples,
            audio.sample_rate_hz == sample_rate_hz,
            audio.channels == channels,
            sample_rate_hz == 0 || channels == 0 ==> audio.duration@ == 0,
            sample_rate_hz != 0 && channels != 0 ==> audio.duration == measured,
    {
        let duration = if sample_rate_hz == 0 || channels == 0 {
            Duration::zero()
        } else {
            measured
        };
        AudioBuffer { samples, sample_rate_hz, channels, started_at: SystemTime::now(), duration }
    }
}

impl Clone for AudioBuffer {
    /// The same audio.
    fn clone(&self) -> (audio: AudioBuffer)
        ensures
            audio.samples@ == self.samples@,
            audio.sample_rate_hz == self.sample_rate_hz,
            audio.channels == self.channels,
            audio.started_at == self.started_at,
            audio.duration == self.duration,
    {
        AudioBuffer {
            samples: self.samples.clone(),
            sample_rate_hz: self.sample_rate_hz,
            channels: self.channels,
            started_at: self.started_at,
            duration: self.duration,
        }
    }
}

/// An audio input device.
#[derive(Clone, Debug, PartialEq, Eq)]
pub struct AudioDevice {
    /// The name of the device.
    pub name: String,
    /// Whether it is the default input device.
    pub is_default: bool,
}

/// What a transcriber made of a recording.
#[derive(Clone, Debug, PartialEq, Eq)]
pub struct Transcript {
    /// The whole text.
    pub text: String,
    /// The language of the text, where it is known.
    pub language: Option<String>,
    /// How long the recording is.
    pub duration: Duration,
    /// The parts of the text with their times.
    pub segments: Vec<TranscriptSegment>,
}

/// A part of a transcript.
#[derive(Clone, Debug, PartialEq, Eq)]
pub struct TranscriptSegment {
    /// Where the segment starts in the recording.
    pub start: Duration,
    /// Where the segment ends in the recording.
    pub end: Duration,
    /// The text of the segment.
    pub text: String,
}

/// Where the text of a session goes.
#[derive(Debug, PartialEq, Eq)]
pub struct OutputContext {
    /// The name of the session.
    pub session_id: String,
    /// When the session started.
    pub started_at: SystemTime,
    /// The application that had the focus.
    pub focused_app: Option<String>,
    /// The window that had the focus.
    pub focused_window_id: Option<String>,
    /// The Herdr pane that the text is meant for.
    pub herdr_pane_id: Option<String>,
    /// The tmux pane that the text is meant for.
    pub tmux_target_pane: Option<String>,
}

impl OutputContext {
    /// The context names no application, window or pane.
    pub open spec fn is_untargeted(&self) -> bool {
        &&& self.focused_app is None
        &&& self.focused_window_id is None
        &&& self.herdr_pane_id is None
        &&& self.tmux_target_pane is None
    }

    /// The context of a session that starts now and has no particular target.
    pub fn new(session_id: &str) -> (context: OutputContext)
        ensures
            context.session_id@ == session_id@,
            context.is_untargeted(),
    {
        OutputContext {
            session_id: session_id.to_owned(),
            started_at: SystemTime::now(),
            focused_app: None,
            focused_window_id: None,
            herdr_pane_id: None,
            tmux_target_pane: None,
        }
    }
}

impl Clone for OutputContext {
    /// The same context.
    fn clone(&self) -> (context: OutputContext)
        ensures
            context == *self,
    {
        OutputContext {
            session_id: self.session_id.clone(),
            started_at: self.started_at,
            focused_app: self.focused_app.clone(),
            focused_window_id: self.focused_window_id.clone(),
            herdr_pane_id: self.herdr_pane_id.clone(),
            tmux_target_pane: self.tmux_target_pane.clone(),
        }
    }
}

/// How to record.
#[derive(Clone, Debug, PartialEq, Eq)]
pub struct RecordingOptions {
    /// The input device; the default one where none is named.
    pub device_name: Option<String>,
    /// The longest recording to keep.
    pub max_duration: Duration,
    /// The sample rate to deliver.
    pub sample_rate_hz: u32,
    /// The number of channels to deliver.
    pub channels: u16,
}

impl Default for RecordingOptions {
    /// Two minutes of 16 kHz mono from the default device.
    fn default() -> (options: RecordingOptions)
        ensures
            options.device_name is None,
            options.max_duration@ == 120 * NANOS_PER_SEC,
            options.sample_rate_hz == 16_000,
            options.channels == 1,
    {
        RecordingOptions {
            device_name: None,
            max_duration: Duration::from_secs(120),
            sample_rate_hz: 16_000,
            channels: 1,
        }
    }
}

/// How to transcribe.
#[derive(Clone, Debug, PartialEq, Eq)]
pub struct TranscriptionOptions {
    /// The language to expect.
    pub language: LanguageMode,
    /// Text that primes the recognition.
    pub initial_prompt: Option<String>,
    /// The sampling temperature.
    pub temperature: Float32,
    /// Whether to translate into English.
    pub translate_to_english: bool,
}

impl Default for TranscriptionOptions {
    /// The language as detected, no prompt, temperature zero, no translation.
    fn default() -> (options: TranscriptionOptions)
        ensures
            options.language == LanguageMode::Auto,
            options.initial_prompt is None,
            options.temperature == (Float32 { bits: 0 }),
            !options.translate_to_english,
    {
        TranscriptionOptions {
            language: LanguageMode::Auto,
            initial_prompt: None,
            temperature: Float32 { bits: 0 },
            translate_to_english: false,
        }
    }
}

/// The language that a transcriber expects.
#[derive(Clone, Copy, Debug, PartialEq, Eq, Structural)]
pub enum LanguageMode {
    /// Whatever the transcriber detects.
    Auto,
    /// Japanese.
    Japanese,
    /// English.
    English,
}

/// A replacement that post-processing applies.
#[derive(Clone, Debug, PartialEq, Eq)]
pub struct DictionaryEntry {
    /// The text to replace.
    pub spoken: String,
    /// The text to put in its place.
    pub replacement: String,
    /// Where the entry applies.
    pub mode: DictionaryMode,
}

/// Where a dictionary entry applies.
#[derive(Clone, Copy, Debug, PartialEq, Eq, Structural)]
pub enum DictionaryMode {
    /// To a text that equals the spoken form.
    Exact,
    /// To every whole word of a text that is the spoken form.
    WordBoundary,
}

/// How to process a transcript.
#[derive(Clone, Debug, PartialEq, Eq)]
pub struct ProcessingContext {
    /// The replacements, in the order in which they are applied.
    pub dictionary: Vec<DictionaryEntry>,
    /// Whether line breaks survive the normalization of spaces.
    pub preserve_newlines: bool,
    /// Whether to normalize spaces.
    pub normalize_spaces: bool,
    /// Whether to end the text with a line break.
    pub append_newline: bool,
    /// Whether to end the text with a space.
    pub append_space: bool,
    /// The format in which the text will be written.
    pub output_format: OutputFormat,
}

impl Default for ProcessingContext {
    /// Normalize spaces, keep line breaks, append nothing, replace nothing.
    fn default() -> (context: ProcessingContext)
        ensures
            context.dictionary@.len() == 0,
            context.preserve_newlines,
            context.normalize_spaces,
            !context.append_newline,
            !context.append_space,
            context.output_format == OutputFormat::Plain,
    {
        ProcessingContext {
            dictionary: Vec::new(),
            preserve_newlines: true,
            normalize_spaces: true,
            append_newline: false,
            append_space: false,
            output_format: OutputFormat::Plain,
        }
    }
}

/// The format in which text is written.
#[derive(Clone, Copy, Debug, PartialEq, Eq, Structural)]
pub enum OutputFormat {
    /// The text and a line break.
    Plain,
    /// One JSON object per line.
    Json,
}

/// Text that is ready to be sent, with the transcript that it was made from.
#[derive(Clone, Debug, PartialEq, Eq)]
pub struct ProcessedText {
    /// The text to send.
    pub text: String,
    /// The transcript that it was made from.
    pub source: Transcript,
}

/// What a sink reports of a text that it took.
#[derive(Clone, Debug, PartialEq, Eq)]
pub struct SendReceipt {
    /// The name of the sink.
    pub sink_name: String,
    /// The number of bytes that were sent.
    pub bytes_sent: usize,
    /// Whether the text was pasted into an application.
    pub pasted: bool,
}

/// By default two minutes of 16 kHz mono are recorded from the default device, transcribed in the
/// language that is heard, without a prompt, a temperature or a translation, and processed by
/// normalizing spaces and keeping line breaks alone.
pub proof fn law_defaults_ask_for_nothing_special(
    recording: RecordingOptions,
    transcription: TranscriptionOptions,
    processing: ProcessingContext,
)
    requires
        call_ensures(RecordingOptions::default, (), recording),
        call_ensures(TranscriptionOptions::default, (), transcription),
        call_ensures(ProcessingContext::default, (), processing),
    ensures
        recording.device_name is None,
        recording.max_duration@ == 120_000_000_000,
        recording.sample_rate_hz == 16_000,
        recording.channels == 1,
        transcription.language == LanguageMode::Auto,
        transcription.initial_prompt is None,
        transcription.temperature.bits == 0,
        !transcription.translate_to_english,
        processing.dictionary@.len() == 0,
        processing.preserve_newlines,
        processing.normalize_spaces,
        !processing.append_newline,
        !processing.append_space,
        processing.output_format == OutputFormat::Plain,
{
}

/// Audio has the samples, the rate, the channels and the length that it was made with, and no length
/// where it has no rate or no channels. A copy of it is the same audio.
pub proof fn law_audio_keeps_what_it_is_made_of(
    samples: Vec<Float32>,
    sample_rate_hz: u32,
    channels: u16,
    measured: Duration,
    audio: AudioBuffer,
    copy: AudioBuffer,
)
    requires
        call_ensures(AudioBuffer::new, (samples, sample_rate_hz, channels, measured), audio),
        call_ensures(AudioBuffer::clone, (&audio,), copy),
    ensures
        audio.samples@ == samples@,
        audio.sample_rate_hz == sample_rate_hz,
        audio.channels == channels,
        sample_rate_hz > 0 && channels > 0 ==> audio.duration == measured,
        sample_rate_hz == 0 || channels == 0 ==> audio.duration@ == 0,
        copy.samples@ == audio.samples@,
        copy.sample_rate_hz == audio.sample_rate_hz,
        copy.channels == audio.channels,
        copy.started_at == audio.started_at,
        copy.duration == audio.duration,
{
}

/// A context names its session and no target, and a copy of it is the same context.
pub proof fn law_contexts_name_their_session(
    session_id: &str,
    context: OutputContext,
    copy: OutputContext,
)
    requires
        call_ensures(OutputContext::new, (session_id,), context),
        call_ensures(OutputContext::clone, (&context,), copy),
    ensures
        context.session_id@ == session_id@,
        context.focused_app is None,
        context.focused_window_id is None,
        context.herdr_pane_id is None,
        context.tmux_target_pane is None,
        copy == context,
{
}

} // verus!
