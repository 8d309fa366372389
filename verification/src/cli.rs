//! What the command line asks for, and the order in which its commands do their work.

use vstd::prelude::*;

use crate::cancellation::CancellationToken;
use crate::duration::{Duration, NANOS_PER_MILLI, NANOS_PER_SEC};
use crate::error::{with_prefix, RecorderError, SinkError, TranscriptionError};
use crate::flags::{
    flag_text, flag_text_or, flag_value_or, missing_flag_text, required_flag,
};
use crate::model::{
    AudioBuffer, AudioDevice, LanguageMode, OutputContext, OutputFormat, ProcessedText,
    ProcessingContext, RecordingOptions, SendReceipt, Transcript, TranscriptionOptions,
};
use crate::post_process::{
    law_trimming_first_does_not_matter, normalized, DeterministicPostProcessor,
};
use crate::server::UsageError;
use crate::text::{
    decimal, digits_value, is_unsigned, parse_u64, push_decimal, same_text, texts, trimmed,
    unsigned_digits,
};
use crate::traits::{PostProcessor, Transcriber};

verus! {

/// A command of the command line.
#[derive(Clone, Copy, Debug, PartialEq, Eq, Structural)]
pub enum CliCommand {
    /// Show the help.
    Help,
    /// List the input devices.
    ListDevices,
    /// Check the setup.
    Doctor,
    /// Record to a file.
    Record,
    /// Transcribe a file.
    Transcribe,
    /// Run or control the agent.
    Agent,
}

/// The command that the arguments ask for.
pub open spec fn cli_command(args: Seq<Seq<char>>) -> Option<CliCommand> {
    if args.len() == 0 {
        Some(CliCommand::Help)
    } else if args[0] == "--help"@ || args[0] == "-h"@ {
        Some(CliCommand::Help)
    } else if args[0] == "devices"@ && args.len() == 2 && args[1] == "list"@ {
        Some(CliCommand::ListDevices)
    } else if args[0] == "doctor"@ && args.len() == 1 {
        Some(CliCommand::Doctor)
    } else if args[0] == "record"@ {
        Some(CliCommand::Record)
    } else if args[0] == "transcribe"@ {
        Some(CliCommand::Transcribe)
    } else if args[0] == "agent"@ {
        Some(CliCommand::Agent)
    } else {
        None
    }
}

/// Finds the command that the arguments ask for.
pub fn choose_command(args: &[String]) -> (result: Result<CliCommand, UsageError>)
    ensures
        match cli_command(texts(args@)) {
            Some(command) => result == Ok::<CliCommand, UsageError>(command),
            None => result matches Err(error) && error.message@ == "unknown command"@
                && error.show_help,
        },
{
    if args.len() == 0 {
        return Ok(CliCommand::Help);
    }
    let command = args[0].as_str();
    if same_text(command, "--help") || same_text(command, "-h") {
        Ok(CliCommand::Help)
    } else if same_text(command, "devices") && args.len() == 2 && same_text(
        args[1].as_str(),
        "list",
    ) {
        Ok(CliCommand::ListDevices)
    } else if same_text(command, "doctor") && args.len() == 1 {
        Ok(CliCommand::Doctor)
    } else if same_text(command, "record") {
        Ok(CliCommand::Record)
    } else if same_text(command, "transcribe") {
        Ok(CliCommand::Transcribe)
    } else if same_text(command, "agent") {
        Ok(CliCommand::Agent)
    } else {
        Err(UsageError { message: "unknown command".to_owned(), show_help: true })
    }
}

/// The line for a device: a star marks the default one.
pub open spec fn device_line(device: AudioDevice) -> Seq<char> {
    if device.is_default {
        "* "@ + device.name@
    } else {
        "  "@ + device.name@
    }
}

/// The lines are what is printed of the devices.
pub open spec fn are_device_lines(devices: Seq<AudioDevice>, lines: Seq<String>) -> bool {
    if devices.len() == 0 {
        lines.len() == 1 && lines[0]@ == "no input devices"@
    } else {
        &&& lines.len() == devices.len()
        &&& forall|i: int|
            0 <= i < devices.len() ==> (#[trigger] lines[i])@ == device_line(devices[i])
    }
}

/// What is printed of the input devices.
pub fn device_lines(devices: Result<Vec<AudioDevice>, RecorderError>) -> (result: Result<
    Vec<String>,
    String,
>)
    ensures
        match devices {
            Ok(devices) => result matches Ok(lines) && are_device_lines(devices@, lines@),
            Err(error) => result matches Err(message) && message@
                == "failed to list input devices: "@ + error@,
        },
{
    let devices = match devices {
        Ok(devices) => devices,
        Err(error) => {
            return Err(with_prefix("failed to list input devices: ", error.message()));
        },
    };
    let mut lines: Vec<String> = Vec::new();
    if devices.len() == 0 {
        lines.push("no input devices".to_owned());
        return Ok(lines);
    }
    let mut i: usize = 0;
    while i < devices.len()
        invariant
            i <= devices@.len(),
            lines@.len() == i,
            forall|j: int| 0 <= j < i ==> (#[trigger] lines@[j])@ == device_line(devices@[j]),
        decreases devices@.len() - i,
    {
        let marker = if devices[i].is_default {
            "* "
        } else {
            "  "
        };
        lines.push(with_prefix(marker, devices[i].name.as_str()));
        i += 1;
    }
    Ok(lines)
}

/// What the check of the setup prints and how it ends.
#[derive(Debug, PartialEq, Eq)]
pub struct DoctorReport {
    /// The lines to print.
    pub lines: Vec<String>,
    /// What is wrong, if anything is.
    pub problem: Option<String>,
}

/// Checks the setup: there must be an input device.
pub fn doctor(devices: Result<Vec<AudioDevice>, RecorderError>) -> (report: DoctorReport)
    ensures
        match devices {
            Ok(devices) => {
                &&& texts(report.lines@) == seq![
                    "input_devices: "@ + decimal(devices@.len()),
                    "recorder: cpal"@,
                    "target_audio: 16000Hz mono f32"@,
                    "stdout_sink: available"@,
                    "whisper_model: configure a model path before transcription"@,
                ]
                &&& if devices@.len() == 0 {
                    report.problem matches Some(problem) && problem@
                        == "no input device is available"@
                } else {
                    report.problem is None
                }
            },
            Err(error) => {
                &&& report.lines@.len() == 0
                &&& report.problem matches Some(problem) && problem@
                    == "input device check failed: "@ + error@
            },
        },
{
    let mut lines: Vec<String> = Vec::new();
    let devices = match devices {
        Ok(devices) => devices,
        Err(error) => {
            let problem = with_prefix("input device check failed: ", error.message());
            return DoctorReport { lines, problem: Some(problem) };
        },
    };
    let mut count = "input_devices: ".to_owned();
    push_decimal(&mut count, devices.len() as u128);
    lines.push(count);
    lines.push("recorder: cpal".to_owned());
    lines.push("target_audio: 16000Hz mono f32".to_owned());
    lines.push("stdout_sink: available".to_owned());
    lines.push("whisper_model: configure a model path before transcription".to_owned());
    let problem = if devices.len() == 0 {
        Some("no input device is available".to_owned())
    } else {
        None
    };
    DoctorReport { lines, problem }
}

/// A recording that the command line asks for.
#[derive(Debug, PartialEq, Eq)]
pub struct RecordRequest {
    /// The file to write.
    pub output: String,
    /// How long to record, in seconds.
    pub duration_seconds: u64,
}

/// The number of seconds that a text asks for: a positive integer that fits.
pub open spec fn seconds(text: Seq<char>) -> Option<nat> {
    let value = digits_value(unsigned_digits(text));
    if is_unsigned(text) && 0 < value <= u64::MAX {
        Some(value)
    } else {
        None
    }
}

impl RecordRequest {
    /// Reads the arguments of a recording.
    pub fn parse(args: &[String]) -> (result: Result<RecordRequest, String>)
        ensures
            match flag_text(texts(args@), "--output"@) {
                None => result matches Err(message) && message@ == missing_flag_text("--output"@),
                Some(output) => match seconds(
                    flag_text_or(texts(args@), "--duration"@, "5"@),
                ) {
                    None => result matches Err(message) && message@
                        == "--duration must be a positive integer"@,
                    Some(seconds) => result matches Ok(request) && request.output@ == output
                        && request.duration_seconds == seconds,
                },
            },
    {
        let output = match required_flag(args, "--output") {
            Ok(output) => output,
            Err(message) => {
                return Err(message);
            },
        };
        match parse_u64(flag_value_or(args, "--duration", "5")) {
            Some(duration_seconds) if duration_seconds > 0 => Ok(
                RecordRequest { output: output.to_owned(), duration_seconds },
            ),
            _ => Err("--duration must be a positive integer".to_owned()),
        }
    }

    /// How the recording is made.
    pub fn recording_options(&self) -> (options: RecordingOptions)
        ensures
            options.device_name is None,
            options.max_duration@ == self.duration_seconds * NANOS_PER_SEC,
            options.sample_rate_hz == 16_000,
            options.channels == 1,
    {
        RecordingOptions {
            max_duration: Duration::from_secs(self.duration_seconds),
            ..RecordingOptions::default()
        }
    }

    /// What is printed when the recording starts.
    pub fn announcement(&self) -> (text: String)
        ensures
            text@ == "recording for "@ + decimal(self.duration_seconds as nat) + " seconds..."@,
    {
        let mut text = "recording for ".to_owned();
        push_decimal(&mut text, self.duration_seconds as u128);
        text.append(" seconds...");
        text
    }
}

/// What happened while a recording was made.
#[derive(Debug, PartialEq, Eq)]
pub enum RecordEvent {
    /// The recorder was asked to start.
    Started(Result<(), String>),
    /// The recording has been running for this long.
    Running(Duration),
    /// The recorder was asked to discard the recording.
    Cancelled(Result<(), String>),
    /// The recorder was asked for the recording.
    Stopped(Result<(), String>),
}

/// What the making of a recording does next.
#[derive(Debug, PartialEq, Eq)]
pub enum RecordAction {
    /// See how long the recording has been running.
    Watch,
    /// Wait for this long.
    Sleep(Duration),
    /// Ask the recorder to discard the recording.
    CancelRecorder,
    /// Ask the recorder for the recording.
    StopRecorder,
    /// Write the recording.
    Save,
    /// End with an error.
    Fail(String),
}

/// How long to wait when `elapsed` of `duration` is over: until the end, but look after a
/// cancellation every 50 milliseconds.
pub open spec fn pause_nanos(duration: nat, elapsed: nat) -> nat {
    let remaining = (duration - elapsed) as nat;
    if remaining <= 50 * NANOS_PER_MILLI {
        remaining
    } else {
        50 * NANOS_PER_MILLI as nat
    }
}

/// The action ends the making of a recording with the given text.
pub open spec fn fails_with(action: RecordAction, text: Seq<char>) -> bool {
    action matches RecordAction::Fail(message) && message@ == text
}

/// What follows an event, where a token that is asked says `cancelled`.
pub open spec fn is_record_action(
    duration: nat,
    event: RecordEvent,
    cancelled: bool,
    action: RecordAction,
) -> bool {
    match event {
        RecordEvent::Started(Err(message)) => fails_with(
            action,
            "failed to start recording: "@ + message@,
        ),
        RecordEvent::Started(Ok(_)) => if cancelled {
            action == RecordAction::CancelRecorder
        } else {
            action == RecordAction::Watch
        },
        RecordEvent::Running(elapsed) => if cancelled {
            action == RecordAction::CancelRecorder
        } else if elapsed@ < duration {
            action matches RecordAction::Sleep(pause) && pause@ == pause_nanos(duration, elapsed@)
        } else {
            action == RecordAction::StopRecorder
        },
        RecordEvent::Cancelled(Err(message)) => fails_with(
            action,
            "failed to cancel recording: "@ + message@,
        ),
        RecordEvent::Cancelled(Ok(_)) => fails_with(action, "operation cancelled"@),
        RecordEvent::Stopped(Err(message)) => fails_with(
            action,
            "failed to stop recording: "@ + message@,
        ),
        RecordEvent::Stopped(Ok(_)) => if cancelled {
            fails_with(action, "operation cancelled"@)
        } else {
            action == RecordAction::Save
        },
    }
}

/// The token is asked after the event.
pub open spec fn asks_token(event: RecordEvent) -> bool {
    match event {
        RecordEvent::Started(outcome) => outcome is Ok,
        RecordEvent::Running(_) => true,
        RecordEvent::Cancelled(_) => false,
        RecordEvent::Stopped(outcome) => outcome is Ok,
    }
}

/// Decides what the making of a recording of the given length does after an event.
pub fn record_step(duration: Duration, event: RecordEvent, cancel: &CancellationToken) -> (action:
    RecordAction)
    ensures
        exists|cancelled: bool| #[trigger]
            is_record_action(duration@, event, cancelled, action) && (asks_token(event)
                ==> cancel.may_load(cancelled)),
{
    match event {
        RecordEvent::Started(Err(message)) => {
            let text = with_prefix("failed to start recording: ", message.as_str());
            let action = RecordAction::Fail(text);
            assert(is_record_action(duration@, event, false, action));
            action
        },
        RecordEvent::Started(Ok(_)) => {
            let cancelled = cancel.is_cancelled();
            let action = if cancelled {
                RecordAction::CancelRecorder
            } else {
                RecordAction::Watch
            };
            assert(is_record_action(duration@, event, cancelled, action));
            action
        },
        RecordEvent::Running(elapsed) => {
            let cancelled = cancel.is_cancelled();
            let action = if cancelled {
                RecordAction::CancelRecorder
            } else if elapsed.as_nanos() < duration.as_nanos() {
                let remaining = duration.saturating_sub(elapsed);
                RecordAction::Sleep(remaining.min(Duration::from_millis(50)))
            } else {
                RecordAction::StopRecorder
            };
            assert(is_record_action(duration@, event, cancelled, action));
            action
        },
        RecordEvent::Cancelled(Err(message)) => {
            let text = with_prefix("failed to cancel recording: ", message.as_str());
            let action = RecordAction::Fail(text);
            assert(is_record_action(duration@, event, false, action));
            action
        },
        RecordEvent::Cancelled(Ok(_)) => {
            let action = RecordAction::Fail("operation cancelled".to_owned());
            assert(is_record_action(duration@, event, false, action));
            action
        },
        RecordEvent::Stopped(Err(message)) => {
            let text = with_prefix("failed to stop recording: ", message.as_str());
            let action = RecordAction::Fail(text);
            assert(is_record_action(duration@, event, false, action));
            action
        },
        RecordEvent::Stopped(Ok(_)) => {
            let cancelled = cancel.is_cancelled();
            let action = if cancelled {
                RecordAction::Fail("operation cancelled".to_owned())
            } else {
                RecordAction::Save
            };
            assert(is_record_action(duration@, event, cancelled, action));
            action
        },
    }
}

/// The recorder is asked for the recording only when the recording ran as long as it should, and it
/// is saved only when the recorder gave it; until then there is always something left to wait for.
pub proof fn law_recordings_run_their_time(
    duration: nat,
    event: RecordEvent,
    cancelled: bool,
    action: RecordAction,
)
    requires
        is_record_action(duration, event, cancelled, action),
    ensures
        action == RecordAction::StopRecorder ==> !cancelled && (event matches RecordEvent::Running(
            elapsed,
        ) && elapsed@ >= duration),
        action == RecordAction::Save ==> !cancelled && (event matches RecordEvent::Stopped(outcome)
            && outcome is Ok),
        action matches RecordAction::Sleep(pause) ==> pause@ > 0 && (
        event matches RecordEvent::Running(elapsed) && elapsed@ + pause@ <= duration),
{
}

/// A recording that was cancelled is not saved: a cancellation that is seen leads to its end.
pub proof fn law_cancelled_recordings_are_not_saved(
    duration: nat,
    event: RecordEvent,
    action: RecordAction,
)
    requires
        is_record_action(duration, event, true, action),
    ensures
        action == RecordAction::CancelRecorder || action is Fail,
{
}

/// The format that a text asks for.
pub open spec fn output_format(text: Seq<char>) -> Option<OutputFormat> {
    if text == "plain"@ {
        Some(OutputFormat::Plain)
    } else if text == "json"@ {
        Some(OutputFormat::Json)
    } else {
        None
    }
}

/// Reads a format.
pub fn parse_output_format(value: &str) -> (result: Result<OutputFormat, String>)
    ensures
        match output_format(value@) {
            Some(format) => result == Ok::<OutputFormat, String>(format),
            None => result matches Err(message) && message@ == "--format must be plain or json"@,
        },
{
    if same_text(value, "plain") {
        Ok(OutputFormat::Plain)
    } else if same_text(value, "json") {
        Ok(OutputFormat::Json)
    } else {
        Err("--format must be plain or json".to_owned())
    }
}

/// A transcription that the command line asks for.
#[derive(Debug, PartialEq, Eq)]
pub struct TranscribeRequest {
    /// The file to transcribe.
    pub input: String,
    /// The file with the model.
    pub model: String,
    /// The name of the sink.
    pub sink_name: String,
    /// The format to write.
    pub format: OutputFormat,
}

/// Where a text is written.
#[derive(Clone, Copy, Debug, PartialEq, Eq, Structural)]
pub enum SinkChoice {
    /// To the standard output.
    Stdout,
    /// To the clipboard.
    Clipboard,
}

/// Where a text is written, or why it is not.
pub open spec fn sink_choice(name: Seq<char>, format: OutputFormat) -> Result<
    SinkChoice,
    Seq<char>,
> {
    if name == "stdout"@ {
        Ok(SinkChoice::Stdout)
    } else if name == "clipboard"@ {
        if format == OutputFormat::Json {
            Err("--format json requires --sink stdout"@)
        } else {
            Ok(SinkChoice::Clipboard)
        }
    } else {
        Err("--sink must be stdout or clipboard"@)
    }
}

impl TranscribeRequest {
    /// Reads the arguments of a transcription.
    pub fn parse(args: &[String]) -> (result: Result<TranscribeRequest, String>)
        ensures
            match flag_text(texts(args@), "--input"@) {
                None => result matches Err(message) && message@ == missing_flag_text("--input"@),
                Some(input) => match flag_text(texts(args@), "--model"@) {
                    None => result matches Err(message) && message@ == missing_flag_text(
                        "--model"@,
                    ),
                    Some(model) => match output_format(
                        flag_text_or(texts(args@), "--format"@, "plain"@),
                    ) {
                        None => result matches Err(message) && message@
                            == "--format must be plain or json"@,
                        Some(format) => result matches Ok(request) && request.input@ == input
                            && request.model@ == model && request.sink_name@ == flag_text_or(
                            texts(args@),
                            "--sink"@,
                            "stdout"@,
                        ) && request.format == format,
                    },
                },
            },
    {
        let input = match required_flag(args, "--input") {
            Ok(input) => input,
            Err(message) => {
                return Err(message);
            },
        };
        let model = match required_flag(args, "--model") {
            Ok(model) => model,
            Err(message) => {
                return Err(message);
            },
        };
        let sink_name = flag_value_or(args, "--sink", "stdout");
        match parse_output_format(flag_value_or(args, "--format", "plain")) {
            Ok(format) => Ok(
                TranscribeRequest {
                    input: input.to_owned(),
                    model: model.to_owned(),
                    sink_name: sink_name.to_owned(),
                    format,
                },
            ),
            Err(message) => Err(message),
        }
    }

    /// Chooses where the text is written.
    pub fn choose_sink(&self) -> (result: Result<SinkChoice, String>)
        ensures
            match sink_choice(self.sink_name@, self.format) {
                Ok(choice) => result == Ok::<SinkChoice, String>(choice),
                Err(text) => result matches Err(message) && message@ == text,
            },
    {
        let name = self.sink_name.as_str();
        if same_text(name, "stdout") {
            Ok(SinkChoice::Stdout)
        } else if same_text(name, "clipboard") {
            if self.format == OutputFormat::Json {
                Err("--format json requires --sink stdout".to_owned())
            } else {
                Ok(SinkChoice::Clipboard)
            }
        } else {
            Err("--sink must be stdout or clipboard".to_owned())
        }
    }
}

/// The options under which the command line transcribes: those that are the default.
pub open spec fn is_default_transcription(options: &TranscriptionOptions) -> bool {
    &&& options.language == LanguageMode::Auto
    &&& options.initial_prompt is None
    &&& options.temperature.bits == 0
    &&& !options.translate_to_english
}

/// A text as the command line processes it: trimmed, with spaces normalized and line breaks kept.
pub open spec fn default_text(transcript: Seq<char>) -> Seq<char> {
    normalized(trimmed(transcript), true)
}

/// What the token said at the points at which the transcription of a file asks it: after the
/// transcriber returned, after its text was processed, and before the text is written.
pub struct TranscribeChecks {
    /// After the transcriber returned.
    pub after_transcription: bool,
    /// After the text was processed.
    pub after_processing: bool,
    /// Before the text is written.
    pub before_writing: bool,
}

/// What comes of the text of a file, where the transcriber returned `outcome` and the token said
/// what `checks` holds: the text to write, or the error to report.
pub open spec fn is_transcribed(
    outcome: Result<Transcript, TranscriptionError>,
    checks: TranscribeChecks,
    result: Result<ProcessedText, String>,
) -> bool {
    if checks.after_transcription {
        result matches Err(message) && message@ == "operation cancelled"@
    } else {
        match outcome {
            Err(error) => result matches Err(message) && message@ == "transcription failed: "@
                + error@,
            Ok(transcript) => if checks.after_processing {
                result matches Err(message) && message@ == "operation cancelled"@
            } else if default_text(transcript.text@).len() == 0 {
                result matches Err(message) && message@ == "transcription result is empty"@
            } else if checks.before_writing {
                result matches Err(message) && message@ == "operation cancelled"@
            } else {
                result matches Ok(done) && done.text@ == default_text(transcript.text@)
                    && done.source == transcript
            },
        }
    }
}

/// Transcribes audio and processes its text, up to the point where it is written.
pub fn transcribe_audio<T: Transcriber>(
    transcriber: &T,
    audio: &AudioBuffer,
    cancel: &CancellationToken,
) -> (result: Result<ProcessedText, String>)
    ensures
        exists|
            options: &TranscriptionOptions,
            outcome: Result<Transcript, TranscriptionError>,
            checks: TranscribeChecks,
        |
            {
                &&& is_default_transcription(options)
                &&& #[trigger] call_ensures(
                    T::transcribe,
                    (transcriber, audio, options, cancel),
                    outcome,
                )
                &&& #[trigger] is_transcribed(outcome, checks, result)
                &&& cancel.may_load(checks.after_transcription)
                &&& outcome is Ok && !checks.after_transcription ==> cancel.may_load(
                    checks.after_processing,
                )
                &&& outcome is Ok && !checks.after_transcription && !checks.after_processing
                    && default_text(outcome->Ok_0.text@).len() > 0 ==> cancel.may_load(
                    checks.before_writing,
                )
            },
{
    let options = TranscriptionOptions::default();
    let outcome = transcriber.transcribe(audio, &options, cancel);
    let ghost given = outcome;
    let cancelled = cancel.is_cancelled();
    let ghost mut checks = TranscribeChecks {
        after_transcription: cancelled,
        after_processing: false,
        before_writing: false,
    };
    if cancelled {
        let result = Err("operation cancelled".to_owned());
        assert(is_transcribed(given, checks, result));
        return result;
    }
    let transcript = match outcome {
        Ok(transcript) => transcript,
        Err(error) => {
            let result = Err(with_prefix("transcription failed: ", error.message()));
            assert(is_transcribed(given, checks, result));
            return result;
        },
    };
    let context = ProcessingContext::default();
    let processed_text = match DeterministicPostProcessor.process(transcript, &context) {
        Ok(processed_text) => processed_text,
        Err(error) => {
            return Err(with_prefix("post-processing failed: ", error.message()));
        },
    };
    assert(processed_text.text@ == default_text(transcript.text@));
    let cancelled = cancel.is_cancelled();
    proof {
        checks.after_processing = cancelled;
    }
    if cancelled {
        let result = Err("operation cancelled".to_owned());
        assert(is_transcribed(given, checks, result));
        return result;
    }
    if processed_text.text.as_str().is_empty() {
        let result = Err("transcription result is empty".to_owned());
        assert(is_transcribed(given, checks, result));
        return result;
    }
    let cancelled = cancel.is_cancelled();
    proof {
        checks.before_writing = cancelled;
    }
    if cancelled {
        let result = Err("operation cancelled".to_owned());
        assert(is_transcribed(given, checks, result));
        return result;
    }
    let result = Ok(processed_text);
    assert(is_transcribed(given, checks, result));
    result
}

/// How a text that could not be written is reported.
pub open spec fn sink_error_text(choice: SinkChoice, error: Seq<char>) -> Seq<char> {
    match choice {
        SinkChoice::Stdout => "stdout output failed: "@ + error,
        SinkChoice::Clipboard => "clipboard output failed: "@ + error,
    }
}

/// What comes of the writing of a text. A cancellation that was requested until now is reported
/// even if the text was written.
pub open spec fn is_written(
    choice: SinkChoice,
    sent: Result<SendReceipt, SinkError>,
    cancelled: bool,
    result: Result<(), String>,
) -> bool {
    if cancelled {
        result matches Err(message) && message@ == "operation cancelled"@
    } else {
        match sent {
            Ok(_) => result == Ok::<(), String>(()),
            Err(error) => result matches Err(message) && message@ == sink_error_text(
                choice,
                error@,
            ),
        }
    }
}

/// Ends a transcription after its text was handed to the sink.
pub fn finish_transcription(
    choice: SinkChoice,
    sent: Result<SendReceipt, SinkError>,
    cancel: &CancellationToken,
) -> (result: Result<(), String>)
    ensures
        exists|cancelled: bool| #[trigger]
            cancel.may_load(cancelled) && is_written(choice, sent, cancelled, result),
{
    let cancelled = cancel.is_cancelled();
    if cancelled {
        return Err("operation cancelled".to_owned());
    }
    match sent {
        Ok(_) => Ok(()),
        Err(error) => {
            let prefix = match choice {
                SinkChoice::Stdout => "stdout output failed: ",
                SinkChoice::Clipboard => "clipboard output failed: ",
            };
            Err(with_prefix(prefix, error.message()))
        },
    }
}

/// What came of handing a text to its sink.
#[derive(Debug, PartialEq, Eq)]
pub enum Written {
    /// The sink could not be opened.
    Unopened(SinkError),
    /// The sink was opened and got the text.
    Sent(Result<SendReceipt, SinkError>),
}

/// Where the command line hands its text to.
pub trait TextOutput {
    /// Opens the sink that was chosen and hands the text to it.
    fn write(
        &mut self,
        request: &TranscribeRequest,
        choice: SinkChoice,
        text: &ProcessedText,
        context: &OutputContext,
    ) -> Written;
}

/// What the steps of the transcription of a file gave, and what the token said in between. A step
/// that was not reached says nothing.
pub struct TranscribeTrace<T> {
    /// What reading the audio gave.
    pub audio: Result<AudioBuffer, String>,
    /// Whether cancellation had been requested when the audio was read.
    pub cancelled: bool,
    /// What loading the model gave.
    pub loaded: Result<T, TranscriptionError>,
    /// What transcribing and processing gave.
    pub text: Result<ProcessedText, String>,
    /// What came of handing the text to its sink.
    pub written: Written,
    /// Whether cancellation had been requested when the text was written.
    pub cancelled_at_end: bool,
}

impl<T: Transcriber> TranscribeTrace<T> {
    /// The audio was read and nobody had cancelled, so that the model was loaded.
    pub open spec fn reaches_loading(self) -> bool {
        self.audio is Ok && !self.cancelled
    }

    /// The model was loaded, so that the audio was transcribed.
    pub open spec fn reaches_transcription(self) -> bool {
        self.reaches_loading() && self.loaded is Ok
    }

    /// There was a text and the request names a sink that takes it, so that the text was written.
    pub open spec fn reaches_writing(self, request: &TranscribeRequest) -> bool {
        self.reaches_transcription() && self.text is Ok && sink_choice(
            request.sink_name@,
            request.format,
        ) is Ok
    }

    /// The caller gets `result`.
    pub open spec fn gives(self, request: &TranscribeRequest, result: Result<(), String>) -> bool {
        if self.audio is Err {
            result == Err::<(), String>(self.audio->Err_0)
        } else if self.cancelled {
            result matches Err(message) && message@ == "operation cancelled"@
        } else if self.loaded is Err {
            result matches Err(message) && message@ == "failed to initialize transcriber: "@
                + self.loaded->Err_0@
        } else if self.text is Err {
            result == Err::<(), String>(self.text->Err_0)
        } else {
            match sink_choice(request.sink_name@, request.format) {
                Err(reason) => result matches Err(message) && message@ == reason,
                Ok(choice) => match self.written {
                    Written::Unopened(error) => result matches Err(message) && message@
                        == "failed to initialize clipboard: "@ + error@,
                    Written::Sent(sent) => is_written(choice, sent, self.cancelled_at_end, result),
                },
            }
        }
    }

    /// The token and the transcriber gave what the trace says, and `result` follows from it.
    pub open spec fn ends_with(
        self,
        request: &TranscribeRequest,
        cancel: &CancellationToken,
        result: Result<(), String>,
    ) -> bool {
        &&& self.audio is Ok ==> cancel.may_load(self.cancelled)
        &&& self.reaches_transcription() ==> call_ensures(
            transcribe_audio::<T>,
            (&self.loaded->Ok_0, &self.audio->Ok_0, cancel),
            self.text,
        )
        &&& self.reaches_writing(request) && self.written is Sent ==> cancel.may_load(
            self.cancelled_at_end,
        )
        &&& self.gives(request, result)
    }
}

/// Transcribes a file as the command line asks for. `read` reads the audio, `load` loads the model
/// and `output` takes the text. They are asked in this order: a model is loaded only where the audio
/// was read and nobody has cancelled, and the text is written once, where there is one and the
/// request names a sink that takes it. In every other case the output is left alone.
pub fn transcribe_command<
    T: Transcriber,
    A: FnOnce(&TranscribeRequest, &CancellationToken) -> Result<AudioBuffer, String>,
    L: FnOnce(&TranscribeRequest) -> Result<T, TranscriptionError>,
    O: TextOutput,
>(
    request: &TranscribeRequest,
    cancel: &CancellationToken,
    read: A,
    load: L,
    output: &mut O,
) -> (result: Result<(), String>)
    requires
        call_requires(read, (request, cancel)),
        call_requires(load, (request,)),
    ensures
        exists|trace: TranscribeTrace<T>|
            {
                &&& #[trigger] trace.ends_with(request, cancel, result)
                &&& call_ensures(read, (request, cancel), trace.audio)
                &&& trace.reaches_loading() ==> call_ensures(load, (request,), trace.loaded)
                &&& !trace.reaches_writing(request) ==> *final(output) == *old(output)
                &&& trace.reaches_writing(request) ==> exists|
                    before: &mut O,
                    context: &OutputContext,
                |
                    {
                        &&& *before == *old(output)
                        &&& *final(before) == *final(output)
                        &&& context.session_id@ == "cli-transcribe"@
                        &&& context.is_untargeted()
                        &&& #[trigger] call_ensures(
                            O::write,
                            (
                                before,
                                request,
                                sink_choice(request.sink_name@, request.format)->Ok_0,
                                &trace.text->Ok_0,
                                context,
                            ),
                            trace.written,
                        )
                    }
            },
{
    let ghost mut trace: TranscribeTrace<T> = arbitrary();
    let audio = read(request, cancel);
    proof {
        trace.audio = audio;
    }
    let audio = match audio {
        Ok(audio) => audio,
        Err(message) => {
            let result = Err(message);
            assert(trace.ends_with(request, cancel, result));
            return result;
        },
    };
    let cancelled = cancel.is_cancelled();
    proof {
        trace.cancelled = cancelled;
    }
    if cancelled {
        let result = Err("operation cancelled".to_owned());
        assert(trace.ends_with(request, cancel, result));
        return result;
    }
    let loaded = load(request);
    proof {
        trace.loaded = loaded;
    }
    let transcriber = match loaded {
        Ok(transcriber) => transcriber,
        Err(error) => {
            let result = Err(with_prefix("failed to initialize transcriber: ", error.message()));
            assert(trace.ends_with(request, cancel, result));
            return result;
        },
    };
    let text = transcribe_audio(&transcriber, &audio, cancel);
    proof {
        trace.text = text;
    }
    let text = match text {
        Ok(text) => text,
        Err(message) => {
            let result = Err(message);
            assert(trace.ends_with(request, cancel, result));
            return result;
        },
    };
    let choice = match request.choose_sink() {
        Ok(choice) => choice,
        Err(message) => {
            let result = Err(message);
            assert(trace.ends_with(request, cancel, result));
            return result;
        },
    };
    let context = OutputContext::new("cli-transcribe");
    let written = output.write(request, choice, &text, &context);
    proof {
        trace.written = written;
    }
    match written {
        Written::Unopened(error) => {
            let message = with_prefix("failed to initialize clipboard: ", error.message());
            let result = Err(message);
            assert(trace.ends_with(request, cancel, result));
            result
        },
        Written::Sent(sent) => {
            let result = finish_transcription(choice, sent, cancel);
            proof {
                trace.cancelled_at_end = choose|cancelled: bool| #[trigger]
                    cancel.may_load(cancelled) && is_written(choice, sent, cancelled, result);
            }
            assert(trace.ends_with(request, cancel, result));
            result
        },
    }
}

/// A transcription that succeeds has handed a text that is not empty to the sink of its request,
/// and that sink took it.
pub proof fn law_success_means_sent<T: Transcriber>(
    request: &TranscribeRequest,
    cancel: &CancellationToken,
    trace: TranscribeTrace<T>,
)
    requires
        trace.ends_with(request, cancel, Ok(())),
    ensures
        trace.reaches_writing(request),
        trace.written matches Written::Sent(sent) && sent is Ok,
        trace.text->Ok_0.text@.len() > 0,
        request.sink_name@ == "stdout"@ || (request.sink_name@ == "clipboard"@ && request.format
            == OutputFormat::Plain),
{
}

/// A request that is refused, cancelled before its text is ready, or fails before that writes
/// nothing: only a text for a sink that takes it is written.
pub proof fn law_refusals_write_nothing<T: Transcriber>(
    request: &TranscribeRequest,
    trace: TranscribeTrace<T>,
)
    requires
        trace.audio is Err || trace.cancelled || trace.loaded is Err || trace.text is Err
            || sink_choice(request.sink_name@, request.format) is Err,
    ensures
        !trace.reaches_writing(request),
{
}

/// A command line asks for the command that its first word names. The list of devices and the check
/// of the setup take no further words, apart from the one that the list needs; no word at all asks
/// for the help.
pub proof fn law_command_lines_name_their_command(
    args: &[String],
    result: Result<CliCommand, UsageError>,
)
    requires
        call_ensures(choose_command, (args,), result),
    ensures
        args@.len() == 0 ==> result == Ok::<CliCommand, UsageError>(CliCommand::Help),
        args@.len() > 0 ==> match result {
            Ok(CliCommand::Help) => args@[0]@ == "--help"@ || args@[0]@ == "-h"@,
            Ok(CliCommand::ListDevices) => args@.len() == 2 && args@[0]@ == "devices"@
                && args@[1]@ == "list"@,
            Ok(CliCommand::Doctor) => args@.len() == 1 && args@[0]@ == "doctor"@,
            Ok(CliCommand::Record) => args@[0]@ == "record"@,
            Ok(CliCommand::Transcribe) => args@[0]@ == "transcribe"@,
            Ok(CliCommand::Agent) => args@[0]@ == "agent"@,
            Err(error) => {
                &&& error.message@ == "unknown command"@
                &&& error.show_help
                &&& args@[0]@ != "--help"@ && args@[0]@ != "-h"@ && args@[0]@ != "record"@
                &&& args@[0]@ != "transcribe"@ && args@[0]@ != "agent"@
                &&& !(args@[0]@ == "doctor"@ && args@.len() == 1)
                &&& !(args@[0]@ == "devices"@ && args@.len() == 2 && args@[1]@ == "list"@)
            },
        },
{
    if args@.len() > 0 {
        assert(texts(args@)[0] == args@[0]@);
    }
    if args@.len() > 1 {
        assert(texts(args@)[1] == args@[1]@);
    }
}

/// Every device gets a line with its name, in order, and the default one a star; where there is none
/// a line says so.
pub proof fn law_devices_get_a_line_each(
    devices: Result<Vec<AudioDevice>, RecorderError>,
    result: Result<Vec<String>, String>,
)
    requires
        call_ensures(device_lines, (devices,), result),
    ensures
        devices matches Err(error) ==> (result matches Err(message) && message@
            == "failed to list input devices: "@ + error@),
        devices matches Ok(devices) ==> (result matches Ok(lines) && {
            &&& devices@.len() == 0 ==> lines@.len() == 1 && lines@[0]@ == "no input devices"@
            &&& devices@.len() > 0 ==> lines@.len() == devices@.len() && forall|i: int|
                0 <= i < lines@.len() ==> (#[trigger] lines@[i])@ == (if devices@[i].is_default {
                    seq!['*', ' ']
                } else {
                    seq![' ', ' ']
                }) + devices@[i].name@
        }),
{
    reveal_strlit("* ");
    reveal_strlit("  ");
    assert("* "@ == seq!['*', ' ']);
    assert("  "@ == seq![' ', ' ']);
}

/// The check of the setup counts the devices, and finds a problem where there is none or where they
/// cannot be listed.
pub proof fn law_setups_need_a_device(
    devices: Result<Vec<AudioDevice>, RecorderError>,
    report: DoctorReport,
    written: String,
)
    requires
        call_ensures(doctor, (devices,), report),
        devices matches Ok(devices) ==> exists|out: &mut String|
            out@.len() == 0 && *final(out) == written && #[trigger] call_ensures(
                push_decimal,
                (out, devices@.len() as u128),
                (),
            ),
    ensures
        report.problem is None <==> (devices matches Ok(devices) && devices@.len() > 0),
        devices matches Ok(devices) ==> {
            &&& devices@.len() == 0 ==> report.problem->0@ == "no input device is available"@
            &&& report.lines@.len() == 5
            &&& report.lines@[0]@ == "input_devices: "@ + written@
            &&& report.lines@[1]@ == "recorder: cpal"@
            &&& report.lines@[2]@ == "target_audio: 16000Hz mono f32"@
            &&& report.lines@[3]@ == "stdout_sink: available"@
            &&& report.lines@[4]@ == "whisper_model: configure a model path before transcription"@
        },
        devices matches Err(error) ==> report.lines@.len() == 0 && report.problem->0@
            == "input device check failed: "@ + error@,
{
    if let Ok(devices) = devices {
        assert(devices@.len() <= usize::MAX) by {
            assert(devices@.len() == devices.len());
        }
        assert(written@ == decimal(devices@.len()));
        let lines = texts(report.lines@);
        assert(lines.len() == 5);
        assert(lines[0] == report.lines@[0]@);
        assert(lines[1] == report.lines@[1]@);
        assert(lines[2] == report.lines@[2]@);
        assert(lines[3] == report.lines@[3]@);
        assert(lines[4] == report.lines@[4]@);
    }
}

/// A recording goes to the file that is named and lasts as many seconds as are asked for, five unless
/// a number is given, which must be positive.
pub proof fn law_recordings_last_as_long_as_asked(
    args: &[String],
    result: Result<RecordRequest, String>,
    flag: &str,
    default: &str,
    duration_text: &str,
    number: Option<u64>,
)
    requires
        call_ensures(RecordRequest::parse, (args,), result),
        flag@ == "--duration"@,
        default@ == "5"@,
        call_ensures(flag_value_or, (args, flag, default), duration_text),
        call_ensures(parse_u64, (duration_text,), number),
    ensures
        match flag_text(texts(args@), "--output"@) {
            None => result matches Err(message) && message@ == "missing required flag: "@
                + "--output"@,
            Some(output) => if number is Some && number->0 > 0 {
                result matches Ok(request) && request.output@ == output
                    && request.duration_seconds == number->0
            } else {
                result matches Err(message) && message@ == "--duration must be a positive integer"@
            },
        },
{
}

/// A recording of the command line is made from the default device, at 16 kHz in one channel, for as
/// long as it was asked for, and is announced with this number of seconds.
pub proof fn law_record_requests_are_for_16khz_mono(
    request: &RecordRequest,
    options: RecordingOptions,
    text: String,
    written: String,
)
    requires
        call_ensures(RecordRequest::recording_options, (request,), options),
        call_ensures(RecordRequest::announcement, (request,), text),
        exists|out: &mut String|
            out@.len() == 0 && *final(out) == written && #[trigger] call_ensures(
                push_decimal,
                (out, request.duration_seconds as u128),
                (),
            ),
    ensures
        options.device_name is None,
        options.max_duration@ == request.duration_seconds * 1_000_000_000,
        options.sample_rate_hz == 16_000,
        options.channels == 1,
        text@ == "recording for "@ + written@ + " seconds..."@,
{
    assert(written@ == decimal(request.duration_seconds as nat));
}

/// A recording runs until its time is over, is looked after every 50 milliseconds until then, and is
/// then stopped and saved. A cancellation that is seen discards it, and what fails ends it with what
/// failed.
pub proof fn law_recordings_are_made_step_by_step(
    duration: Duration,
    event: RecordEvent,
    cancel: &CancellationToken,
    action: RecordAction,
)
    requires
        call_ensures(record_step, (duration, event, cancel), action),
    ensures
        event matches RecordEvent::Started(outcome) ==> match outcome {
            Err(failure) => action matches RecordAction::Fail(message) && message@
                == "failed to start recording: "@ + failure@,
            Ok(_) => {
                ||| action == RecordAction::CancelRecorder && cancel.may_load(true)
                ||| action == RecordAction::Watch && cancel.may_load(false)
            },
        },
        event matches RecordEvent::Running(elapsed) ==> {
            ||| action == RecordAction::CancelRecorder && cancel.may_load(true)
            ||| cancel.may_load(false) && elapsed@ >= duration@ && action
                == RecordAction::StopRecorder
            ||| cancel.may_load(false) && elapsed@ < duration@ && (
            action matches RecordAction::Sleep(pause) && 0 < pause@ <= 50_000_000 && elapsed@
                + pause@ <= duration@ && (pause@ == 50_000_000 || elapsed@ + pause@ == duration@))
        },
        event matches RecordEvent::Cancelled(outcome) ==> match outcome {
            Err(failure) => action matches RecordAction::Fail(message) && message@
                == "failed to cancel recording: "@ + failure@,
            Ok(_) => action matches RecordAction::Fail(message) && message@
                == "operation cancelled"@,
        },
        event matches RecordEvent::Stopped(outcome) ==> match outcome {
            Err(failure) => action matches RecordAction::Fail(message) && message@
                == "failed to stop recording: "@ + failure@,
            Ok(_) => {
                ||| cancel.may_load(false) && action == RecordAction::Save
                ||| cancel.may_load(true) && (action matches RecordAction::Fail(message)
                    && message@ == "operation cancelled"@)
            },
        },
{
}

/// A format is named by its word.
pub proof fn law_formats_are_named(value: &str, result: Result<OutputFormat, String>)
    requires
        call_ensures(parse_output_format, (value,), result),
    ensures
        result == Ok::<OutputFormat, String>(OutputFormat::Plain) <==> value@ == "plain"@,
        result == Ok::<OutputFormat, String>(OutputFormat::Json) <==> value@ == "json"@,
        result matches Err(message) ==> message@ == "--format must be plain or json"@,
{
    reveal_strlit("plain");
    reveal_strlit("json");
    assert("plain"@.len() == 5);
    assert("json"@.len() == 4);
}

/// A transcription is of the file and with the model that are named, goes to the standard output
/// unless another sink is named, and is plain unless another format is.
pub proof fn law_transcriptions_name_their_files(
    args: &[String],
    result: Result<TranscribeRequest, String>,
    format_text: &str,
    format: Result<OutputFormat, String>,
)
    requires
        call_ensures(TranscribeRequest::parse, (args,), result),
        format_text@ == match flag_text(texts(args@), "--format"@) {
            Some(text) => text,
            None => "plain"@,
        },
        call_ensures(parse_output_format, (format_text,), format),
    ensures
        flag_text(texts(args@), "--input"@) is None ==> (result matches Err(message) && message@
            == "missing required flag: "@ + "--input"@),
        flag_text(texts(args@), "--input"@) is Some && flag_text(texts(args@), "--model"@) is None
            ==> (result matches Err(message) && message@ == "missing required flag: "@
            + "--model"@),
        flag_text(texts(args@), "--input"@) is Some && flag_text(texts(args@), "--model"@) is Some
            ==> match format {
            Err(_) => result matches Err(message) && message@ == "--format must be plain or json"@,
            Ok(format) => result matches Ok(request) && {
                &&& Some(request.input@) == flag_text(texts(args@), "--input"@)
                &&& Some(request.model@) == flag_text(texts(args@), "--model"@)
                &&& request.format == format
                &&& request.sink_name@ == match flag_text(texts(args@), "--sink"@) {
                    Some(text) => text,
                    None => "stdout"@,
                }
            },
        },
{
}

/// A text goes to the sink that is named: to the standard output in either format, and to the
/// clipboard in the plain one.
pub proof fn law_sinks_are_named(
    request: &TranscribeRequest,
    result: Result<SinkChoice, String>,
)
    requires
        call_ensures(TranscribeRequest::choose_sink, (request,), result),
    ensures
        result == Ok::<SinkChoice, String>(SinkChoice::Stdout) <==> request.sink_name@
            == "stdout"@,
        result == Ok::<SinkChoice, String>(SinkChoice::Clipboard) <==> request.sink_name@
            == "clipboard"@ && request.format == OutputFormat::Plain,
        request.sink_name@ == "clipboard"@ && request.format == OutputFormat::Json ==> (
        result matches Err(message) && message@ == "--format json requires --sink stdout"@),
        request.sink_name@ != "stdout"@ && request.sink_name@ != "clipboard"@ ==> (
        result matches Err(message) && message@ == "--sink must be stdout or clipboard"@),
{
    reveal_strlit("stdout");
    reveal_strlit("clipboard");
    assert("stdout"@.len() == 6);
    assert("clipboard"@.len() == 9);
}

/// The text of a file is its transcript with its spaces normalized and its line breaks kept, and is
/// not empty; it is transcribed under the default options.
pub proof fn law_files_become_their_transcript<T: Transcriber>(
    transcriber: &T,
    audio: &AudioBuffer,
    cancel: &CancellationToken,
    text: ProcessedText,
)
    requires
        call_ensures(
            transcribe_audio::<T>,
            (transcriber, audio, cancel),
            Ok::<ProcessedText, String>(text),
        ),
    ensures
        cancel.may_load(false),
        text.text@.len() > 0,
        exists|
            options: &TranscriptionOptions,
            outcome: Result<Transcript, TranscriptionError>,
        |
            {
                &&& #[trigger] call_ensures(
                    T::transcribe,
                    (transcriber, audio, options, cancel),
                    outcome,
                )
                &&& options.language == LanguageMode::Auto
                &&& options.initial_prompt is None
                &&& options.temperature.bits == 0
                &&& !options.translate_to_english
                &&& outcome == Ok::<Transcript, TranscriptionError>(text.source)
            },
        text.text@ == normalized(text.source.text@, true),
{
    law_trimming_first_does_not_matter(text.source.text@, true);
}

/// A file that gives no text is reported with what kept it from doing so: the transcriber, a
/// cancellation, or that nothing is left of its transcript.
pub proof fn law_files_without_text_are_reported<T: Transcriber>(
    transcriber: &T,
    audio: &AudioBuffer,
    cancel: &CancellationToken,
    message: String,
)
    requires
        call_ensures(
            transcribe_audio::<T>,
            (transcriber, audio, cancel),
            Err::<ProcessedText, String>(message),
        ),
    ensures
        exists|
            options: &TranscriptionOptions,
            outcome: Result<Transcript, TranscriptionError>,
        |
            {
                &&& #[trigger] call_ensures(
                    T::transcribe,
                    (transcriber, audio, options, cancel),
                    outcome,
                )
                &&& options.language == LanguageMode::Auto
                &&& options.initial_prompt is None
                &&& options.temperature.bits == 0
                &&& !options.translate_to_english
                &&& {
                    ||| cancel.may_load(true) && message@ == "operation cancelled"@
                    ||| cancel.may_load(false) && (outcome matches Err(error) && message@
                        == "transcription failed: "@ + error@)
                    ||| cancel.may_load(false) && (outcome matches Ok(transcript) && normalized(
                        transcript.text@,
                        true,
                    ).len() == 0) && message@ == "transcription result is empty"@
                }
            },
{
    assert forall|transcript: Transcript| #[trigger]
        default_text(transcript.text@) == normalized(transcript.text@, true) by {
        law_trimming_first_does_not_matter(transcript.text@, true);
    }
}

/// What comes of writing a text: a cancellation that was requested, or what came of the sink.
pub proof fn law_writing_is_reported_by_its_sink(
    choice: SinkChoice,
    sent: Result<SendReceipt, SinkError>,
    cancel: &CancellationToken,
    result: Result<(), String>,
)
    requires
        call_ensures(finish_transcription, (choice, sent, cancel), result),
    ensures
        result is Ok ==> sent is Ok && cancel.may_load(false),
        result matches Err(message) ==> {
            ||| cancel.may_load(true) && message@ == "operation cancelled"@
            ||| cancel.may_load(false) && (sent matches Err(error) && match choice {
                SinkChoice::Stdout => message@ == "stdout output failed: "@ + error@,
                SinkChoice::Clipboard => message@ == "clipboard output failed: "@ + error@,
            })
        },
{
}

/// A transcription that succeeds has read the audio that the request names, loaded the model that it
/// names, transcribed the one with the other, and handed the text once, as it is, to the sink that it
/// names, which took it.
pub proof fn law_transcriptions_write_what_they_read<
    T: Transcriber,
    A: FnOnce(&TranscribeRequest, &CancellationToken) -> Result<AudioBuffer, String>,
    L: FnOnce(&TranscribeRequest) -> Result<T, TranscriptionError>,
    O: TextOutput,
>(
    request: &TranscribeRequest,
    cancel: &CancellationToken,
    read: A,
    load: L,
    before: O,
    after: O,
)
    requires
        exists|output: &mut O|
            *output == before && *final(output) == after && #[trigger] call_ensures(
                transcribe_command::<T, A, L, O>,
                (request, cancel, read, load, output),
                Ok::<(), String>(()),
            ),
    ensures
        cancel.may_load(false),
        exists|
            audio: Result<AudioBuffer, String>,
            model: Result<T, TranscriptionError>,
            text: Result<ProcessedText, String>,
            output: &mut O,
            choice: SinkChoice,
            context: &OutputContext,
            written: Written,
        |
            {
                &&& #[trigger] call_ensures(read, (request, cancel), audio)
                &&& audio is Ok
                &&& #[trigger] call_ensures(load, (request,), model)
                &&& model is Ok
                &&& #[trigger] call_ensures(
                    transcribe_audio::<T>,
                    (&model->Ok_0, &audio->Ok_0, cancel),
                    text,
                )
                &&& text is Ok
                &&& *output == before
                &&& *final(output) == after
                &&& #[trigger] call_ensures(
                    O::write,
                    (output, request, choice, &text->Ok_0, context),
                    written,
                )
                &&& choice == SinkChoice::Stdout ==> request.sink_name@ == "stdout"@
                &&& choice == SinkChoice::Clipboard ==> request.sink_name@ == "clipboard"@
                    && request.format == OutputFormat::Plain
                &&& context.session_id@ == "cli-transcribe"@
                &&& context.focused_app is None && context.focused_window_id is None
                &&& context.herdr_pane_id is None && context.tmux_target_pane is None
                &&& written matches Written::Sent(sent) && sent is Ok
            },
{
}

/// A transcription is reported with what failed: the audio, a cancellation, the model, the text, the
/// sink that was named or the writing. Before the text is written the output is left alone.
pub proof fn law_failed_transcriptions_write_nothing<
    T: Transcriber,
    A: FnOnce(&TranscribeRequest, &CancellationToken) -> Result<AudioBuffer, String>,
    L: FnOnce(&TranscribeRequest) -> Result<T, TranscriptionError>,
    O: TextOutput,
>(
    request: &TranscribeRequest,
    cancel: &CancellationToken,
    read: A,
    load: L,
    before: O,
    result: Result<(), String>,
    after: O,
)
    requires
        exists|output: &mut O|
            *output == before && *final(output) == after && #[trigger] call_ensures(
                transcribe_command::<T, A, L, O>,
                (request, cancel, read, load, output),
                result,
            ),
    ensures
        exists|audio: Result<AudioBuffer, String>|
            {
                &&& #[trigger] call_ensures(read, (request, cancel), audio)
                &&& audio matches Err(message) ==> after == before && result == Err::<(), String>(
                    message,
                )
                &&& audio matches Ok(audio) ==> {
                    ||| after == before && cancel.may_load(true) && (result matches Err(message)
                        && message@ == "operation cancelled"@)
                    ||| cancel.may_load(false) && exists|model: Result<T, TranscriptionError>|
                        {
                            &&& #[trigger] call_ensures(load, (request,), model)
                            &&& model matches Err(error) ==> after == before && (
                            result matches Err(message) && message@
                                == "failed to initialize transcriber: "@ + error@)
                            &&& model matches Ok(model) ==> exists|
                                text: Result<ProcessedText, String>,
                            |
                                {
                                    &&& #[trigger] call_ensures(
                                        transcribe_audio::<T>,
                                        (&model, &audio, cancel),
                                        text,
                                    )
                                    &&& text matches Err(message) ==> after == before && result
                                        == Err::<(), String>(message)
                                    &&& text is Ok && request.sink_name@ != "stdout"@
                                        && request.sink_name@ != "clipboard"@ ==> after == before
                                        && (result matches Err(message) && message@
                                        == "--sink must be stdout or clipboard"@)
                                    &&& text is Ok && request.sink_name@ == "clipboard"@
                                        && request.sink_name@ != "stdout"@ && request.format
                                        == OutputFormat::Json ==> after == before && (
                                    result matches Err(message) && message@
                                        == "--format json requires --sink stdout"@)
                                    &&& text is Ok && (request.sink_name@ == "stdout"@
                                        || request.sink_name@ == "clipboard"@ && request.format
                                        == OutputFormat::Plain) ==> exists|
                                        output: &mut O,
                                        choice: SinkChoice,
                                        context: &OutputContext,
                                        written: Written,
                                    |
                                        {
                                            &&& *output == before
                                            &&& *final(output) == after
                                            &&& #[trigger] call_ensures(
                                                O::write,
                                                (output, request, choice, &text->Ok_0, context),
                                                written,
                                            )
                                            &&& written matches Written::Unopened(error) ==> (
                                            result matches Err(message) && message@
                                                == "failed to initialize clipboard: "@ + error@)
                                            &&& written matches Written::Sent(sent) ==> {
                                                ||| cancel.may_load(true) && (
                                                result matches Err(message) && message@
                                                    == "operation cancelled"@)
                                                ||| match sent {
                                                    Ok(_) => result is Ok,
                                                    Err(error) => result matches Err(message)
                                                        && message@ == (if choice
                                                        == SinkChoice::Stdout {
                                                        "stdout output failed: "@
                                                    } else {
                                                        "clipboard output failed: "@
                                                    }) + error@,
                                                }
                                            }
                                        }
                                }
                        }
                }
            },
{
}

} // verus!
