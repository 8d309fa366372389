use voice_input::cli::{
    choose_command, device_lines, doctor, finish_transcription, parse_output_format, record_step,
    transcribe_audio, transcribe_command, CliCommand, DoctorReport, RecordAction, RecordEvent,
    RecordRequest, SinkChoice, TextOutput, TranscribeRequest, Written,
};
use voice_input::flags::{flag_value, required_flag};
use voice_input::server::UsageError;
use voice_input::{
    AudioBuffer, AudioDevice, CancellationToken, Duration, Float32, LanguageMode, OutputContext,
    OutputFormat, ProcessedText, RecorderError, SendReceipt, SinkError, Transcriber, Transcript,
    TranscriptionError, TranscriptionOptions,
};

fn words(text: &str) -> Vec<String> {
    text.split(' ').map(str::to_owned).collect()
}

#[test]
fn commands_are_chosen_by_their_words() {
    assert_eq!(choose_command(&[]), Ok(CliCommand::Help));
    for (line, command) in [
        ("--help", CliCommand::Help),
        ("-h", CliCommand::Help),
        ("devices list", CliCommand::ListDevices),
        ("doctor", CliCommand::Doctor),
        ("record", CliCommand::Record),
        ("record --output a.wav", CliCommand::Record),
        ("transcribe", CliCommand::Transcribe),
        ("agent toggle", CliCommand::Agent),
    ] {
        assert_eq!(choose_command(&words(line)), Ok(command));
    }
    for line in ["devices", "devices list all", "devices show", "doctor now", "help"] {
        assert_eq!(
            choose_command(&words(line)),
            Err(UsageError {
                message: "unknown command".to_owned(),
                show_help: true
            })
        );
    }
}

#[test]
fn flags_take_the_argument_behind_them() {
    let args = words("record --output a --output b --duration");
    assert_eq!(flag_value(&args, "--output"), Some("a"));
    assert_eq!(flag_value(&args, "--duration"), None);
    assert_eq!(flag_value(&args, "--other"), None);
    assert_eq!(required_flag(&args, "--output"), Ok("a"));
    assert_eq!(
        required_flag(&args, "--duration"),
        Err("missing required flag: --duration".to_owned())
    );
    let args = words("--sink --format json");
    assert_eq!(flag_value(&args, "--sink"), Some("--format"));
}

fn device(name: &str, is_default: bool) -> AudioDevice {
    AudioDevice {
        name: name.to_owned(),
        is_default,
    }
}

#[test]
fn devices_are_listed_with_a_mark() {
    assert_eq!(
        device_lines(Ok(vec![device("a", false), device("b", true)])),
        Ok(vec!["  a".to_owned(), "* b".to_owned()])
    );
    assert_eq!(device_lines(Ok(Vec::new())), Ok(vec!["no input devices".to_owned()]));
    assert_eq!(
        device_lines(Err(RecorderError::new("x"))),
        Err("failed to list input devices: x".to_owned())
    );
}

#[test]
fn the_doctor_wants_a_device() {
    let lines = |count: &str| {
        vec![
            format!("input_devices: {count}"),
            "recorder: cpal".to_owned(),
            "target_audio: 16000Hz mono f32".to_owned(),
            "stdout_sink: available".to_owned(),
            "whisper_model: configure a model path before transcription".to_owned(),
        ]
    };
    assert_eq!(
        doctor(Ok(vec![device("a", true)])),
        DoctorReport {
            lines: lines("1"),
            problem: None
        }
    );
    assert_eq!(
        doctor(Ok(Vec::new())),
        DoctorReport {
            lines: lines("0"),
            problem: Some("no input device is available".to_owned())
        }
    );
    assert_eq!(
        doctor(Err(RecorderError::new("x"))),
        DoctorReport {
            lines: Vec::new(),
            problem: Some("input device check failed: x".to_owned())
        }
    );
}

#[test]
fn recordings_take_a_file_and_a_number_of_seconds() {
    let request = RecordRequest::parse(&words("record --output a.wav")).unwrap();
    assert_eq!(request.output, "a.wav");
    assert_eq!(request.duration_seconds, 5);
    assert_eq!(request.announcement(), "recording for 5 seconds...");
    let request = RecordRequest::parse(&words("record --duration +12 --output a.wav")).unwrap();
    assert_eq!(request.duration_seconds, 12);
    let options = request.recording_options();
    assert_eq!(options.max_duration, Duration::from_secs(12));
    assert_eq!(options.sample_rate_hz, 16_000);
    assert_eq!(options.channels, 1);
    assert_eq!(options.device_name, None);
    assert_eq!(
        RecordRequest::parse(&words("record --duration 3")),
        Err("missing required flag: --output".to_owned())
    );
    for value in ["0", "-1", "x", "", "+", "1.5", "18446744073709551616", "00", " 5"] {
        let args = vec![
            "record".to_owned(),
            "--output".to_owned(),
            "a".to_owned(),
            "--duration".to_owned(),
            value.to_owned(),
        ];
        assert_eq!(
            RecordRequest::parse(&args),
            Err("--duration must be a positive integer".to_owned())
        );
    }
    let longest = words("record --output a --duration 18446744073709551615");
    assert_eq!(RecordRequest::parse(&longest).unwrap().duration_seconds, u64::MAX);
}

#[test]
fn a_recording_runs_its_time_and_is_saved() {
    let cancel = CancellationToken::new();
    let second = Duration::from_secs(1);
    assert_eq!(
        record_step(second, RecordEvent::Started(Ok(())), &cancel),
        RecordAction::Watch
    );
    let running = |millis| RecordEvent::Running(Duration::from_millis(millis));
    assert_eq!(
        record_step(second, running(0), &cancel),
        RecordAction::Sleep(Duration::from_millis(50))
    );
    assert_eq!(
        record_step(second, running(980), &cancel),
        RecordAction::Sleep(Duration::from_millis(20))
    );
    assert_eq!(record_step(second, running(1000), &cancel), RecordAction::StopRecorder);
    assert_eq!(record_step(second, running(1100), &cancel), RecordAction::StopRecorder);
    assert_eq!(
        record_step(second, RecordEvent::Stopped(Ok(())), &cancel),
        RecordAction::Save
    );
}

#[test]
fn a_cancelled_recording_is_not_saved() {
    let cancel = CancellationToken::new();
    cancel.cancel();
    let second = Duration::from_secs(1);
    let fail = |text: &str| RecordAction::Fail(text.to_owned());
    assert_eq!(
        record_step(second, RecordEvent::Started(Ok(())), &cancel),
        RecordAction::CancelRecorder
    );
    assert_eq!(
        record_step(second, RecordEvent::Running(Duration::zero()), &cancel),
        RecordAction::CancelRecorder
    );
    assert_eq!(
        record_step(second, RecordEvent::Running(second), &cancel),
        RecordAction::CancelRecorder
    );
    assert_eq!(
        record_step(second, RecordEvent::Cancelled(Ok(())), &cancel),
        fail("operation cancelled")
    );
    assert_eq!(
        record_step(second, RecordEvent::Stopped(Ok(())), &cancel),
        fail("operation cancelled")
    );
}

#[test]
fn failures_of_a_recording_are_described() {
    let cancel = CancellationToken::new();
    let second = Duration::from_secs(1);
    let broken = || Err("x".to_owned());
    for (event, text) in [
        (RecordEvent::Started(broken()), "failed to start recording: x"),
        (RecordEvent::Cancelled(broken()), "failed to cancel recording: x"),
        (RecordEvent::Stopped(broken()), "failed to stop recording: x"),
    ] {
        assert_eq!(
            record_step(second, event, &cancel),
            RecordAction::Fail(text.to_owned())
        );
    }
}

#[test]
fn transcriptions_take_a_file_and_a_model() {
    let request = TranscribeRequest::parse(&words("transcribe --input a --model m")).unwrap();
    assert_eq!(
        request,
        TranscribeRequest {
            input: "a".to_owned(),
            model: "m".to_owned(),
            sink_name: "stdout".to_owned(),
            format: OutputFormat::Plain,
        }
    );
    assert_eq!(request.choose_sink(), Ok(SinkChoice::Stdout));
    assert_eq!(
        TranscribeRequest::parse(&words("transcribe --model m")),
        Err("missing required flag: --input".to_owned())
    );
    assert_eq!(
        TranscribeRequest::parse(&words("transcribe --input a")),
        Err("missing required flag: --model".to_owned())
    );
    assert_eq!(
        TranscribeRequest::parse(&words("transcribe --input a --model m --format xml")),
        Err("--format must be plain or json".to_owned())
    );
    assert_eq!(parse_output_format("json"), Ok(OutputFormat::Json));
    assert!(parse_output_format("JSON").is_err());
}

#[test]
fn sinks_are_chosen_by_name_and_format() {
    let sink = |rest: &str| {
        TranscribeRequest::parse(&words(&format!("transcribe --input a --model m {rest}")))
            .unwrap()
            .choose_sink()
    };
    assert_eq!(sink("--sink stdout --format json"), Ok(SinkChoice::Stdout));
    assert_eq!(sink("--sink clipboard"), Ok(SinkChoice::Clipboard));
    assert_eq!(
        sink("--sink clipboard --format json"),
        Err("--format json requires --sink stdout".to_owned())
    );
    assert_eq!(
        sink("--sink file"),
        Err("--sink must be stdout or clipboard".to_owned())
    );
}

struct TextTranscriber {
    text: Result<&'static str, &'static str>,
    cancels: bool,
}

impl Transcriber for TextTranscriber {
    fn transcribe(
        &self,
        audio: &AudioBuffer,
        options: &TranscriptionOptions,
        cancel: &CancellationToken,
    ) -> Result<Transcript, TranscriptionError> {
        assert_eq!(options.language, LanguageMode::Auto);
        if self.cancels {
            cancel.cancel();
        }
        match self.text {
            Ok(text) => Ok(Transcript {
                text: text.to_owned(),
                language: None,
                duration: audio.duration,
                segments: Vec::new(),
            }),
            Err(message) => Err(TranscriptionError::new(message)),
        }
    }
}

fn transcribed(text: Result<&'static str, &'static str>, cancels: bool) -> Result<String, String> {
    let audio = AudioBuffer::new(vec![Float32 { bits: 0 }], 16_000, 1, Duration::zero());
    let cancel = CancellationToken::new();
    transcribe_audio(&TextTranscriber { text, cancels }, &audio, &cancel)
        .map(|processed| processed.text)
}

#[test]
fn audio_becomes_text() {
    assert_eq!(transcribed(Ok("  a  b "), false), Ok("a b".to_owned()));
    assert_eq!(
        transcribed(Ok(" \n "), false),
        Err("transcription result is empty".to_owned())
    );
    assert_eq!(
        transcribed(Err("x"), false),
        Err("transcription failed: x".to_owned())
    );
    assert_eq!(transcribed(Err("x"), true), Err("operation cancelled".to_owned()));
    assert_eq!(transcribed(Ok("a"), true), Err("operation cancelled".to_owned()));
}

#[test]
fn written_text_is_reported() {
    let cancel = CancellationToken::new();
    let receipt = || {
        Ok(SendReceipt {
            sink_name: "stdout".to_owned(),
            bytes_sent: 1,
            pasted: false,
        })
    };
    assert_eq!(finish_transcription(SinkChoice::Stdout, receipt(), &cancel), Ok(()));
    assert_eq!(
        finish_transcription(SinkChoice::Stdout, Err(SinkError::new("x")), &cancel),
        Err("stdout output failed: x".to_owned())
    );
    assert_eq!(
        finish_transcription(SinkChoice::Clipboard, Err(SinkError::new("x")), &cancel),
        Err("clipboard output failed: x".to_owned())
    );
    cancel.cancel();
    assert_eq!(
        finish_transcription(SinkChoice::Stdout, receipt(), &cancel),
        Err("operation cancelled".to_owned())
    );
}

/// An output that notes the texts that are written to it.
struct Output<N, S> {
    note: N,
    sent: S,
}

impl<N: Fn(String), S: Fn() -> Written> TextOutput for Output<N, S> {
    fn write(
        &mut self,
        request: &TranscribeRequest,
        choice: SinkChoice,
        text: &ProcessedText,
        context: &OutputContext,
    ) -> Written {
        assert_eq!(context.session_id, "cli-transcribe");
        assert_eq!(request.choose_sink(), Ok(choice));
        (self.note)(format!("write {}", text.text));
        (self.sent)()
    }
}

/// Runs a transcription and gives its end with the steps that were taken.
fn run_transcription(
    line: &str,
    audio: Result<(), &str>,
    model: Result<TextTranscriber, &str>,
    sent: impl Fn() -> Written,
    cancel_after: Option<&str>,
) -> (Result<(), String>, Vec<String>) {
    let request = TranscribeRequest::parse(&words(line)).unwrap();
    let cancel = CancellationToken::new();
    let steps = std::cell::RefCell::new(Vec::new());
    let model = std::cell::RefCell::new(Some(model));
    let note = |step: String| {
        if cancel_after == Some(step.as_str()) {
            cancel.cancel();
        }
        steps.borrow_mut().push(step);
    };
    let result = transcribe_command(
        &request,
        &cancel,
        |request: &TranscribeRequest, _: &CancellationToken| {
            note(format!("read {}", request.input));
            match audio {
                Ok(()) => Ok(AudioBuffer::new(
                    vec![Float32 { bits: 0 }],
                    16_000,
                    1,
                    Duration::zero(),
                )),
                Err(message) => Err(message.to_owned()),
            }
        },
        |request: &TranscribeRequest| {
            note(format!("load {}", request.model));
            match model.borrow_mut().take() {
                Some(Ok(model)) => Ok(model),
                Some(Err(message)) => Err(TranscriptionError::new(message)),
                None => panic!("the model is loaded once"),
            }
        },
        &mut Output { note: &note, sent },
    );
    (result, steps.into_inner())
}

fn text_model(text: &'static str) -> Result<TextTranscriber, &'static str> {
    Ok(TextTranscriber {
        text: Ok(text),
        cancels: false,
    })
}

fn taken() -> Written {
    Written::Sent(Ok(SendReceipt {
        sink_name: "test".to_owned(),
        bytes_sent: 1,
        pasted: false,
    }))
}

#[test]
fn a_file_is_transcribed_step_by_step() {
    let line = "transcribe --input a.wav --model m";
    let steps = |list: &[&str]| list.iter().map(|step| (*step).to_owned()).collect::<Vec<_>>();
    assert_eq!(
        run_transcription(line, Ok(()), text_model(" hi "), taken, None),
        (Ok(()), steps(&["read a.wav", "load m", "write hi"]))
    );
    assert_eq!(
        run_transcription(line, Err("no file"), text_model("hi"), taken, None),
        (Err("no file".to_owned()), steps(&["read a.wav"]))
    );
    assert_eq!(
        run_transcription(line, Ok(()), Err("no model"), taken, None),
        (
            Err("failed to initialize transcriber: no model".to_owned()),
            steps(&["read a.wav", "load m"])
        )
    );
    assert_eq!(
        run_transcription(line, Ok(()), text_model(" "), taken, None),
        (
            Err("transcription result is empty".to_owned()),
            steps(&["read a.wav", "load m"])
        )
    );
    let unknown = "transcribe --input a.wav --model m --sink file";
    assert_eq!(
        run_transcription(unknown, Ok(()), text_model("hi"), taken, None),
        (
            Err("--sink must be stdout or clipboard".to_owned()),
            steps(&["read a.wav", "load m"])
        )
    );
    let clipboard = "transcribe --input a.wav --model m --sink clipboard";
    let unopened = || Written::Unopened(SinkError::new("none"));
    assert_eq!(
        run_transcription(clipboard, Ok(()), text_model("hi"), unopened, None).0,
        Err("failed to initialize clipboard: none".to_owned())
    );
    let broken = || Written::Sent(Err(SinkError::new("full")));
    assert_eq!(
        run_transcription(clipboard, Ok(()), text_model("hi"), broken, None).0,
        Err("clipboard output failed: full".to_owned())
    );
}

#[test]
fn a_cancelled_transcription_goes_no_further() {
    let line = "transcribe --input a.wav --model m";
    let cancelled = Err("operation cancelled".to_owned());
    let (result, steps) =
        run_transcription(line, Ok(()), text_model("hi"), taken, Some("read a.wav"));
    assert_eq!(result, cancelled);
    assert_eq!(steps.len(), 1);
    let (result, steps) = run_transcription(line, Ok(()), text_model("hi"), taken, Some("load m"));
    assert_eq!(result, cancelled);
    assert_eq!(steps.len(), 2);
    let (result, steps) =
        run_transcription(line, Ok(()), text_model("hi"), taken, Some("write hi"));
    assert_eq!(result, cancelled);
    assert_eq!(steps.len(), 3);
}
