use std::sync::{Arc, Mutex};

use voice_input::agent::{plan, Operation};
use voice_input::protocol::{
    command_name, read_command_line_from, read_response, render_reply, render_request,
    render_response, sanitize_message, state_name, CommandLineReader, LineError, LineStep,
    ReadEvent, MAX_COMMAND_BYTES,
};
use voice_input::server::{
    accept_line, command, reserve, reserve_command, AcceptEvent, AgentInvocation, CommandDispatch,
    ServerStep, SharedAgentState, UsageError, DEFAULT_ENDPOINT,
};
use voice_input::{
    AgentCommand, AgentReply, AgentRuntime, AppError, AudioBuffer, AudioDevice, CancellationToken,
    DeterministicPostProcessor, Duration, Float32, OutputContext, ProcessedText,
    ProcessingContext, Recorder, RecorderError, RecordingOptions, SendReceipt, SessionCoordinator,
    SessionState, SinkError, TextSink, Transcriber, Transcript, TranscriptionError,
    TranscriptionOptions,
};

struct DummyRecorder {
    recording: bool,
}

impl Recorder for DummyRecorder {
    fn list_devices(&self) -> Result<Vec<AudioDevice>, RecorderError> {
        Ok(Vec::new())
    }

    fn start(&mut self, _options: &RecordingOptions) -> Result<(), RecorderError> {
        self.recording = true;
        Ok(())
    }

    fn stop(&mut self) -> Result<AudioBuffer, RecorderError> {
        if !self.recording {
            return Err(RecorderError::new("recorder is not running"));
        }
        self.recording = false;
        Ok(AudioBuffer::new(
            vec![Float32 { bits: 0 }; 16_000],
            16_000,
            1,
            Duration::from_secs(1),
        ))
    }

    fn cancel(&mut self) -> Result<(), RecorderError> {
        self.recording = false;
        Ok(())
    }
}

struct DummyTranscriber {
    text: &'static str,
}

impl Transcriber for DummyTranscriber {
    fn transcribe(
        &self,
        audio: &AudioBuffer,
        _options: &TranscriptionOptions,
        _cancel: &CancellationToken,
    ) -> Result<Transcript, TranscriptionError> {
        Ok(Transcript {
            text: self.text.to_owned(),
            language: Some("en".to_owned()),
            duration: audio.duration,
            segments: Vec::new(),
        })
    }
}

#[derive(Clone, Default)]
struct RecordingSink {
    sent: Arc<Mutex<Vec<String>>>,
}

impl TextSink for RecordingSink {
    fn send(
        &mut self,
        text: &ProcessedText,
        _context: &OutputContext,
    ) -> Result<SendReceipt, SinkError> {
        self.sent.lock().unwrap().push(text.text.clone());
        Ok(SendReceipt {
            sink_name: "test".to_owned(),
            bytes_sent: text.text.len(),
            pasted: false,
        })
    }
}

type Runtime =
    AgentRuntime<DummyRecorder, DummyTranscriber, DeterministicPostProcessor, RecordingSink>;

fn runtime_with(text: &'static str, operation_cancel: CancellationToken) -> Runtime {
    let coordinator = SessionCoordinator::new(
        DummyRecorder { recording: false },
        DummyTranscriber { text },
        DeterministicPostProcessor,
        RecordingSink::default(),
    );
    AgentRuntime::new(
        coordinator,
        RecordingOptions::default(),
        TranscriptionOptions::default(),
        ProcessingContext::default(),
        operation_cancel,
    )
}

fn runtime() -> Runtime {
    runtime_with("hello", CancellationToken::new())
}

fn shared(state: SessionState) -> SharedAgentState {
    SharedAgentState {
        state,
        operation_cancel: CancellationToken::new(),
        shutdown: CancellationToken::new(),
    }
}

#[test]
fn parses_supported_commands() {
    assert_eq!(AgentCommand::parse("toggle\n"), Ok(AgentCommand::Toggle));
    assert_eq!(AgentCommand::parse(" status "), Ok(AgentCommand::Status));
    assert!(AgentCommand::parse("unknown").is_err());
}

#[test]
fn toggle_starts_and_stops_one_session() {
    let mut runtime = runtime();

    assert_eq!(
        runtime.handle(AgentCommand::Status),
        Ok(AgentReply::State(SessionState::Idle))
    );
    assert_eq!(
        runtime.handle(AgentCommand::Toggle),
        Ok(AgentReply::State(SessionState::Recording))
    );
    assert!(matches!(
        runtime.handle(AgentCommand::Toggle),
        Ok(AgentReply::Completed(_))
    ));
    assert_eq!(runtime.state(), SessionState::Idle);
}

#[test]
fn cancel_returns_the_agent_to_idle() {
    let mut runtime = runtime();
    runtime
        .handle(AgentCommand::Start)
        .expect("recording must start");

    assert_eq!(
        runtime.handle(AgentCommand::Cancel),
        Ok(AgentReply::State(SessionState::Idle))
    );
}

#[test]
fn toggle_starts_a_new_session_after_completion() {
    let mut runtime = runtime();
    runtime
        .handle(AgentCommand::Start)
        .expect("recording must start");
    runtime
        .handle(AgentCommand::Stop)
        .expect("recording must stop");

    assert_eq!(
        runtime.handle(AgentCommand::Toggle),
        Ok(AgentReply::State(SessionState::Recording))
    );
}

#[test]
fn command_reader_enforces_limit_without_newline() {
    let input = vec![b'x'; MAX_COMMAND_BYTES + 1];
    let error =
        read_command_line_from(&input).expect_err("an oversized command must be rejected");

    assert_eq!(error, LineError::TooLong);
    assert_eq!(error.message(), "command is too long");
}

#[test]
fn command_reader_rejects_invalid_utf8() {
    let input = vec![0xff, b'\n'];
    let error = read_command_line_from(&input).expect_err("invalid UTF-8 must be rejected");

    assert_eq!(error, LineError::NotUtf8);
    assert_eq!(error.message(), "command is not valid UTF-8");
}

#[test]
fn starting_a_session_resets_operation_cancellation() {
    let operation_cancel = CancellationToken::new();
    let mut runtime = runtime_with("hello", operation_cancel.clone());
    operation_cancel.cancel();

    assert_eq!(
        runtime.handle(AgentCommand::Start),
        Ok(AgentReply::State(SessionState::Recording))
    );
    assert!(!operation_cancel.is_cancelled());
    assert!(matches!(
        runtime.handle(AgentCommand::Toggle),
        Ok(AgentReply::Completed(_))
    ));
}

#[test]
fn response_encoding_is_stable() {
    assert_eq!(
        render_reply(AgentReply::State(SessionState::Recording)),
        "OK state=recording"
    );
    assert_eq!(render_reply(AgentReply::Shutdown), "OK shutdown");
}

const COMMANDS: [AgentCommand; 7] = [
    AgentCommand::Start,
    AgentCommand::Stop,
    AgentCommand::Toggle,
    AgentCommand::Cancel,
    AgentCommand::Status,
    AgentCommand::Reset,
    AgentCommand::Shutdown,
];

const STATES: [SessionState; 7] = [
    SessionState::Idle,
    SessionState::Recording,
    SessionState::Transcribing,
    SessionState::PostProcessing,
    SessionState::Sending,
    SessionState::Completed,
    SessionState::Failed,
];

#[test]
fn commands_survive_the_wire() {
    for command in COMMANDS {
        assert_eq!(AgentCommand::parse(command_name(command)), Ok(command));
        let request = render_request(command);
        let line = read_command_line_from(request.as_bytes()).unwrap().unwrap();
        assert_eq!(line, command_name(command));
        assert_eq!(AgentCommand::parse(&line), Ok(command));
    }
}

#[test]
fn unknown_commands_are_named() {
    assert_eq!(
        AgentCommand::parse(" stopp "),
        Err("unknown agent command 'stopp'; expected start, stop, toggle, cancel, status, reset, or shutdown".to_owned())
    );
    assert!(AgentCommand::parse("Start").is_err());
    assert!(AgentCommand::parse("").is_err());
}

#[test]
fn lines_end_at_a_line_feed_or_at_the_end() {
    assert_eq!(read_command_line_from(b""), Ok(None));
    assert_eq!(read_command_line_from(b"\n"), Ok(Some(String::new())));
    assert_eq!(read_command_line_from(b"status"), Ok(Some("status".to_owned())));
    assert_eq!(
        read_command_line_from(b"status\r\nstop\n"),
        Ok(Some("status\r".to_owned()))
    );
    let longest = vec![b'x'; MAX_COMMAND_BYTES];
    assert_eq!(
        read_command_line_from(&longest),
        Ok(Some("x".repeat(MAX_COMMAND_BYTES)))
    );
    let mut with_end = longest.clone();
    with_end.push(b'\n');
    assert_eq!(
        read_command_line_from(&with_end),
        Ok(Some("x".repeat(MAX_COMMAND_BYTES)))
    );
    assert_eq!(
        read_command_line_from("こんにちは\n".as_bytes()),
        Ok(Some("こんにちは".to_owned()))
    );
}

#[test]
fn the_line_reader_starts_over_after_a_line() {
    let mut reader = CommandLineReader::new();
    assert_eq!(reader.accept(ReadEvent::Byte(b'a')), LineStep::Continue);
    assert_eq!(reader.accept(ReadEvent::Byte(b'\n')), LineStep::Line("a".to_owned()));
    assert_eq!(reader.accept(ReadEvent::End), LineStep::Closed);
    assert_eq!(reader.accept(ReadEvent::Byte(0xc3)), LineStep::Continue);
    assert_eq!(
        reader.accept(ReadEvent::End),
        LineStep::Rejected(LineError::NotUtf8)
    );
}

#[test]
fn responses_are_read_as_results() {
    assert_eq!(
        read_response(None),
        Err("agent closed the connection without a response".to_owned())
    );
    assert_eq!(
        read_response(Some("OK state=idle \r".to_owned())),
        Ok("OK state=idle".to_owned())
    );
    assert_eq!(
        read_response(Some("ERR agent is busy".to_owned())),
        Err("agent is busy".to_owned())
    );
    assert_eq!(read_response(Some("ERR ".to_owned())), Ok("ERR".to_owned()));
}

#[test]
fn errors_are_answered_on_one_line() {
    assert_eq!(sanitize_message("a\r\nb\nc"), "a  b c");
    let error = AppError::Recorder(RecorderError::new("no\ndevice"));
    let response = render_response(Err(error));
    assert_eq!(response, "ERR recorder error: no device");
    assert_eq!(
        read_response(Some(response)),
        Err("recorder error: no device".to_owned())
    );
    let receipt = SendReceipt {
        sink_name: "clipboard".to_owned(),
        bytes_sent: 120,
        pasted: false,
    };
    assert_eq!(
        render_response(Ok(AgentReply::Completed(receipt))),
        "OK completed sink=clipboard bytes=120"
    );
}

#[test]
fn states_have_names() {
    assert_eq!(state_name(SessionState::PostProcessing), "post_processing");
    for (i, a) in STATES.iter().enumerate() {
        for b in &STATES[i + 1..] {
            assert_ne!(state_name(*a), state_name(*b));
        }
    }
}

#[test]
fn a_busy_or_wrong_state_is_refused() {
    let mut runtime = runtime();
    assert_eq!(
        runtime.handle(AgentCommand::Stop),
        Err(AppError::InvalidState {
            expected: SessionState::Recording,
            actual: SessionState::Idle
        })
    );
    assert_eq!(
        runtime.handle(AgentCommand::Cancel),
        Err(AppError::InvalidState {
            expected: SessionState::Recording,
            actual: SessionState::Idle
        })
    );
    assert_eq!(
        runtime.handle(AgentCommand::Reset),
        Err(AppError::InvalidState {
            expected: SessionState::Failed,
            actual: SessionState::Idle
        })
    );
    runtime.handle(AgentCommand::Start).unwrap();
    assert_eq!(
        runtime.handle(AgentCommand::Start),
        Err(AppError::InvalidState {
            expected: SessionState::Idle,
            actual: SessionState::Recording
        })
    );
    assert_eq!(runtime.handle(AgentCommand::Shutdown), Ok(AgentReply::Shutdown));
    assert_eq!(runtime.state(), SessionState::Recording);
}

#[test]
fn a_failed_session_is_left_by_reset_or_toggle() {
    let mut runtime = runtime_with("  ", CancellationToken::new());
    runtime.handle(AgentCommand::Start).unwrap();
    assert_eq!(runtime.handle(AgentCommand::Stop), Err(AppError::EmptyTranscript));
    assert_eq!(runtime.state(), SessionState::Failed);
    assert_eq!(
        runtime.handle(AgentCommand::Toggle),
        Ok(AgentReply::State(SessionState::Recording))
    );
    assert_eq!(runtime.handle(AgentCommand::Toggle), Err(AppError::EmptyTranscript));
    assert_eq!(
        runtime.handle(AgentCommand::Reset),
        Ok(AgentReply::State(SessionState::Idle))
    );
}

#[test]
fn the_worker_answers_and_winds_down() {
    let mut runtime = runtime();
    assert_eq!(runtime.serve(AgentCommand::Start, false), "OK state=recording");
    assert_eq!(
        runtime.serve(AgentCommand::Stop, true),
        "ERR agent is shutting down"
    );
    assert_eq!(runtime.state(), SessionState::Recording);
    runtime.wind_down();
    assert_eq!(runtime.state(), SessionState::Idle);
    runtime.wind_down();
    assert_eq!(runtime.state(), SessionState::Idle);
    assert_eq!(
        runtime.serve(AgentCommand::Cancel, false),
        "ERR invalid session state: expected Recording, got Idle"
    );
    runtime.serve(AgentCommand::Start, false);
    assert_eq!(
        runtime.serve(AgentCommand::Stop, false),
        "OK completed sink=test bytes=5"
    );
}

#[test]
fn the_shared_state_starts_as_the_runtime_is() {
    let operation_cancel = CancellationToken::new();
    let runtime = runtime_with("hello", operation_cancel.clone());
    let shutdown = CancellationToken::new();
    let mut shared = SharedAgentState::new(&runtime, &shutdown);
    assert_eq!(shared.state, SessionState::Idle);
    shared.operation_cancel.cancel();
    shared.shutdown.cancel();
    assert!(operation_cancel.is_cancelled());
    assert!(runtime.cancellation().is_cancelled());
    assert!(shutdown.is_cancelled());
    shared.set_state(SessionState::Failed);
    assert_eq!(shared.state, SessionState::Failed);
}

fn reserved(command: AgentCommand, state: SessionState) -> (Result<CommandDispatch, String>, SessionState) {
    let mut shared = shared(state);
    let result = reserve_command(command, &mut shared);
    (result, shared.state)
}

#[test]
fn commands_reserve_the_state_they_lead_to() {
    let queue = |command| Ok(CommandDispatch::Queue(command));
    assert_eq!(
        reserved(AgentCommand::Start, SessionState::Idle),
        (queue(AgentCommand::Start), SessionState::Recording)
    );
    assert_eq!(
        reserved(AgentCommand::Stop, SessionState::Recording),
        (queue(AgentCommand::Stop), SessionState::Transcribing)
    );
    assert_eq!(
        reserved(AgentCommand::Toggle, SessionState::Idle),
        (queue(AgentCommand::Start), SessionState::Recording)
    );
    assert_eq!(
        reserved(AgentCommand::Toggle, SessionState::Recording),
        (queue(AgentCommand::Stop), SessionState::Transcribing)
    );
    assert_eq!(
        reserved(AgentCommand::Toggle, SessionState::Failed),
        (queue(AgentCommand::Toggle), SessionState::Recording)
    );
    assert_eq!(
        reserved(AgentCommand::Cancel, SessionState::Recording),
        (queue(AgentCommand::Cancel), SessionState::Idle)
    );
    assert_eq!(
        reserved(AgentCommand::Reset, SessionState::Failed),
        (queue(AgentCommand::Reset), SessionState::Idle)
    );
}

#[test]
fn commands_in_the_wrong_state_are_refused() {
    let refuse = |text: &str| Err(text.to_owned());
    assert_eq!(
        reserved(AgentCommand::Start, SessionState::Recording),
        (
            refuse("invalid session state: expected Idle, got Recording"),
            SessionState::Recording
        )
    );
    assert_eq!(
        reserved(AgentCommand::Stop, SessionState::Idle),
        (
            refuse("invalid session state: expected Recording, got Idle"),
            SessionState::Idle
        )
    );
    assert_eq!(
        reserved(AgentCommand::Toggle, SessionState::Sending),
        (refuse("agent is busy: state=sending"), SessionState::Sending)
    );
    assert_eq!(
        reserved(AgentCommand::Cancel, SessionState::Failed),
        (
            refuse("invalid session state: expected Recording, got Failed"),
            SessionState::Failed
        )
    );
    assert_eq!(
        reserved(AgentCommand::Reset, SessionState::Completed),
        (
            refuse("invalid session state: expected Failed, got Completed"),
            SessionState::Completed
        )
    );
}

#[test]
fn a_busy_agent_reports_cancels_and_shuts_down() {
    for state in [
        SessionState::Transcribing,
        SessionState::PostProcessing,
        SessionState::Sending,
    ] {
        let mut shared = shared(state);
        for command in COMMANDS {
            assert!(!matches!(
                reserve_command(command, &mut shared),
                Ok(CommandDispatch::Queue(_))
            ));
            assert_eq!(shared.state, state);
        }
    }
    let mut shared = shared(SessionState::Transcribing);
    assert_eq!(
        reserve_command(AgentCommand::Status, &mut shared),
        Ok(CommandDispatch::Respond("OK state=transcribing".to_owned()))
    );
    assert!(!shared.operation_cancel.is_cancelled());
    assert_eq!(
        reserve_command(AgentCommand::Cancel, &mut shared),
        Ok(CommandDispatch::Respond("OK cancel requested".to_owned()))
    );
    assert!(shared.operation_cancel.is_cancelled());
    assert!(!shared.shutdown.is_cancelled());
    assert_eq!(
        reserve_command(AgentCommand::Shutdown, &mut shared),
        Ok(CommandDispatch::Respond("OK shutdown".to_owned()))
    );
    assert!(shared.shutdown.is_cancelled());
}

#[test]
fn queued_commands_are_not_refused_by_the_runtime() {
    for command in COMMANDS {
        let mut shared = shared(SessionState::Idle);
        if let Ok(CommandDispatch::Queue(next)) = reserve_command(command, &mut shared) {
            let mut runtime = runtime();
            runtime.handle(next).expect("an idle agent accepts the command");
            assert_eq!(runtime.state(), shared.state);
        }
    }
}

#[test]
fn lines_are_dispatched() {
    let mut shared = shared(SessionState::Idle);
    assert_eq!(
        accept_line("nonsense", &mut shared),
        CommandDispatch::Respond(
            "ERR unknown agent command 'nonsense'; expected start, stop, toggle, cancel, status, reset, or shutdown"
                .to_owned()
        )
    );
    assert_eq!(
        accept_line(" stop", &mut shared),
        CommandDispatch::Respond(
            "ERR invalid session state: expected Recording, got Idle".to_owned()
        )
    );
    assert_eq!(
        accept_line("toggle", &mut shared),
        CommandDispatch::Queue(AgentCommand::Start)
    );
    assert_eq!(shared.state, SessionState::Recording);
}

#[test]
fn the_server_serves_until_it_is_shut_down() {
    let shared = shared(SessionState::Idle);
    assert!(shared.keeps_serving());
    assert_eq!(shared.accepted(AcceptEvent::Connected), ServerStep::Serve);
    assert_eq!(
        shared.accepted(AcceptEvent::WouldBlock),
        ServerStep::Wait(Duration::from_millis(25))
    );
    assert!(!shared.operation_cancel.is_cancelled());
    shared.shutdown.cancel();
    assert!(!shared.keeps_serving());
    assert!(shared.operation_cancel.is_cancelled());
    shared.operation_cancel.reset();
    assert_eq!(shared.accepted(AcceptEvent::Failed), ServerStep::Fail);
    assert!(shared.operation_cancel.is_cancelled());
}

fn words(text: &str) -> Vec<String> {
    text.split(' ').map(str::to_owned).collect()
}

#[test]
fn the_agent_is_invoked_as_daemon_or_client() {
    assert_eq!(
        command(&words("agent daemon --model m.bin")),
        Ok(AgentInvocation::Daemon {
            model: "m.bin".to_owned(),
            endpoint: DEFAULT_ENDPOINT.to_owned()
        })
    );
    assert_eq!(
        command(&words("agent toggle --endpoint 127.0.0.1:1")),
        Ok(AgentInvocation::Client {
            command: AgentCommand::Toggle,
            endpoint: "127.0.0.1:1".to_owned()
        })
    );
    assert_eq!(DEFAULT_ENDPOINT, "127.0.0.1:38741");
    assert_eq!(
        command(&words("agent daemon")),
        Err(UsageError {
            message: "missing required flag: --model".to_owned(),
            show_help: false
        })
    );
    assert_eq!(
        command(&words("agent")),
        Err(UsageError {
            message: "missing agent action".to_owned(),
            show_help: true
        })
    );
    for action in ["restart", "Start", " start"] {
        assert_eq!(
            command(&["agent".to_owned(), action.to_owned()]),
            Err(UsageError {
                message: "unknown agent action".to_owned(),
                show_help: true
            })
        );
    }
}

#[test]
fn tokens_are_set_by_shutdown_and_by_cancelling_work_alone() {
    for command in COMMANDS {
        for state in STATES {
            let under_way = matches!(
                state,
                SessionState::Transcribing | SessionState::PostProcessing | SessionState::Sending
            );
            let decided = reserve(command, state);
            let cancels = command == AgentCommand::Shutdown
                || (command == AgentCommand::Cancel && under_way);
            assert_eq!(decided.cancels_operation, cancels);
            assert_eq!(decided.shuts_down, command == AgentCommand::Shutdown);
            let mut shared = shared(state);
            let result = reserve_command(command, &mut shared);
            assert_eq!(result, decided.dispatch);
            assert_eq!(shared.state, decided.state);
            assert_eq!(shared.operation_cancel.is_cancelled(), decided.cancels_operation);
            assert_eq!(shared.shutdown.is_cancelled(), decided.shuts_down);
            if result.is_err() {
                assert_eq!(shared.state, state);
                assert!(!shared.operation_cancel.is_cancelled());
                assert!(!shared.shutdown.is_cancelled());
            }
        }
    }
}

#[test]
fn only_a_start_withdraws_a_cancellation() {
    for command in COMMANDS {
        for state in STATES {
            let starts = command == AgentCommand::Start
                || (command == AgentCommand::Toggle
                    && matches!(state, SessionState::Idle | SessionState::Failed));
            assert_eq!(plan(command, state).withdraws_cancellation, starts);
        }
    }
    assert_eq!(
        plan(AgentCommand::Toggle, SessionState::Failed).operation,
        Operation::ResetAndStart
    );
    assert_eq!(plan(AgentCommand::Toggle, SessionState::Sending).operation, Operation::Busy);
    for command in COMMANDS {
        let token = CancellationToken::new();
        let mut runtime = runtime_with("hello", token.clone());
        assert!(runtime.has_number_for(command));
        let _ = runtime.handle(command);
        assert!(!token.is_cancelled());
        token.cancel();
        let mut runtime = runtime_with("hello", token.clone());
        let _ = runtime.handle(command);
        let starts = matches!(command, AgentCommand::Start | AgentCommand::Toggle);
        assert_eq!(token.is_cancelled(), !starts);
    }
}
