use std::sync::{Arc, Mutex};

use voice_input::{
    AppError, AudioBuffer, AudioDevice, CancellationToken, DeterministicPostProcessor,
    DictionaryEntry, DictionaryMode, Duration, Float32, OutputContext, PostProcessError,
    PostProcessor, ProcessedText, ProcessingContext, Recorder, RecorderError, RecordingOptions,
    SendReceipt, SessionCoordinator, SessionState, SinkError, TextSink, Transcriber, Transcript,
    TranscriptionError, TranscriptionOptions,
};

struct DummyRecorder {
    started: bool,
    cancelled: bool,
}

fn second_of_silence() -> AudioBuffer {
    AudioBuffer::new(vec![Float32 { bits: 0 }; 16_000], 16_000, 1, Duration::from_secs(1))
}

impl Recorder for DummyRecorder {
    fn list_devices(&self) -> Result<Vec<AudioDevice>, RecorderError> {
        Ok(vec![AudioDevice {
            name: "dummy".to_owned(),
            is_default: true,
        }])
    }

    fn start(&mut self, _options: &RecordingOptions) -> Result<(), RecorderError> {
        self.started = true;
        Ok(())
    }

    fn stop(&mut self) -> Result<AudioBuffer, RecorderError> {
        if !self.started {
            return Err(RecorderError::new("not recording"));
        }
        self.started = false;
        Ok(second_of_silence())
    }

    fn cancel(&mut self) -> Result<(), RecorderError> {
        self.started = false;
        self.cancelled = true;
        Ok(())
    }
}

struct DummyTranscriber;

impl Transcriber for DummyTranscriber {
    fn transcribe(
        &self,
        audio: &AudioBuffer,
        _options: &TranscriptionOptions,
        cancel: &CancellationToken,
    ) -> Result<Transcript, TranscriptionError> {
        if cancel.is_cancelled() {
            return Err(TranscriptionError::new("cancelled"));
        }

        Ok(Transcript {
            text: format!("  hello   from {} Hz  ", audio.sample_rate_hz),
            language: Some("en".to_owned()),
            duration: audio.duration,
            segments: Vec::new(),
        })
    }
}

#[derive(Clone, Default)]
struct RecordingSink {
    sent: Arc<Mutex<Vec<(String, String)>>>,
}

impl TextSink for RecordingSink {
    fn send(
        &mut self,
        text: &ProcessedText,
        context: &OutputContext,
    ) -> Result<SendReceipt, SinkError> {
        self.sent
            .lock()
            .expect("sink mutex must not be poisoned")
            .push((context.session_id.clone(), text.text.clone()));

        Ok(SendReceipt {
            sink_name: "test".to_owned(),
            bytes_sent: text.text.len(),
            pasted: false,
        })
    }
}

type Coordinator =
    SessionCoordinator<DummyRecorder, DummyTranscriber, DeterministicPostProcessor, RecordingSink>;

fn idle_recorder() -> DummyRecorder {
    DummyRecorder {
        started: false,
        cancelled: false,
    }
}

fn coordinator(sink: RecordingSink) -> Coordinator {
    SessionCoordinator::new(idle_recorder(), DummyTranscriber, DeterministicPostProcessor, sink)
}

#[test]
fn runs_the_cross_platform_pipeline_without_platform_dependencies() {
    let sink = RecordingSink::default();
    let sent = sink.sent.clone();
    let mut coordinator = coordinator(sink);

    coordinator
        .start_recording(&RecordingOptions::default())
        .expect("recording must start");
    assert_eq!(coordinator.state(), SessionState::Recording);

    let receipt = coordinator
        .stop_and_send(
            &TranscriptionOptions::default(),
            &ProcessingContext::default(),
            &CancellationToken::new(),
        )
        .expect("pipeline must complete");

    assert_eq!(receipt.sink_name, "test");
    assert_eq!(coordinator.state(), SessionState::Idle);
    assert_eq!(
        sent.lock().unwrap().as_slice(),
        [("session-1".to_owned(), "hello from 16000 Hz".to_owned())]
    );
}

#[test]
fn rejects_a_second_start_until_the_current_session_is_finished() {
    let mut coordinator = coordinator(RecordingSink::default());
    coordinator
        .start_recording(&RecordingOptions::default())
        .expect("recording must start");

    let error = coordinator
        .start_recording(&RecordingOptions::default())
        .expect_err("a second session must be rejected");

    assert!(matches!(
        error,
        AppError::InvalidState {
            expected: SessionState::Idle,
            actual: SessionState::Recording
        }
    ));
}

#[test]
fn cancellation_discards_the_recording_and_returns_to_idle() {
    let mut coordinator = coordinator(RecordingSink::default());
    coordinator
        .start_recording(&RecordingOptions::default())
        .expect("recording must start");

    coordinator
        .cancel_recording()
        .expect("cancellation must succeed");

    assert_eq!(coordinator.state(), SessionState::Idle);
    assert!(coordinator.current_context().is_none());

    coordinator
        .start_recording(&RecordingOptions::default())
        .expect("a cancelled recording must be reusable");
    coordinator
        .stop_and_send(
            &TranscriptionOptions::default(),
            &ProcessingContext::default(),
            &CancellationToken::new(),
        )
        .expect("the session must be reusable after recording cancellation");
    assert_eq!(coordinator.state(), SessionState::Idle);
}

#[test]
fn cancelled_transcription_clears_session_before_reuse() {
    let mut coordinator = coordinator(RecordingSink::default());
    let cancel = CancellationToken::new();

    coordinator
        .start_recording(&RecordingOptions::default())
        .expect("recording must start");
    cancel.cancel();

    let error = coordinator
        .stop_and_send(
            &TranscriptionOptions::default(),
            &ProcessingContext::default(),
            &cancel,
        )
        .expect_err("cancelled transcription must return a cancellation error");

    assert_eq!(error, AppError::Cancelled);
    assert_eq!(coordinator.state(), SessionState::Idle);
    assert!(coordinator.current_context().is_none());

    coordinator
        .start_recording(&RecordingOptions::default())
        .expect("a cancelled transcription must be reusable");
    coordinator
        .stop_and_send(
            &TranscriptionOptions::default(),
            &ProcessingContext::default(),
            &CancellationToken::new(),
        )
        .expect("the session must be reusable after transcription cancellation");
    assert_eq!(coordinator.state(), SessionState::Idle);
}

struct CancellingSink {
    cancel: CancellationToken,
}

impl TextSink for CancellingSink {
    fn send(
        &mut self,
        _text: &ProcessedText,
        _context: &OutputContext,
    ) -> Result<SendReceipt, SinkError> {
        self.cancel.cancel();
        Ok(SendReceipt {
            sink_name: "test".to_owned(),
            bytes_sent: 1,
            pasted: false,
        })
    }
}

#[test]
fn successful_output_is_not_cancelled_after_sink_sends() {
    let cancel = CancellationToken::new();
    let mut coordinator = SessionCoordinator::new(
        idle_recorder(),
        DummyTranscriber,
        DeterministicPostProcessor,
        CancellingSink {
            cancel: cancel.clone(),
        },
    );

    coordinator
        .start_recording(&RecordingOptions::default())
        .expect("recording must start");
    let receipt = coordinator
        .stop_and_send(
            &TranscriptionOptions::default(),
            &ProcessingContext::default(),
            &cancel,
        )
        .expect("a successful send must remain successful");

    assert_eq!(receipt.sink_name, "test");
    assert_eq!(coordinator.state(), SessionState::Idle);
    assert!(coordinator.current_context().is_none());
}

struct TextTranscriber {
    text: String,
}

impl Transcriber for TextTranscriber {
    fn transcribe(
        &self,
        audio: &AudioBuffer,
        _options: &TranscriptionOptions,
        _cancel: &CancellationToken,
    ) -> Result<Transcript, TranscriptionError> {
        Ok(Transcript {
            text: self.text.clone(),
            language: None,
            duration: audio.duration,
            segments: Vec::new(),
        })
    }
}

#[test]
fn empty_processed_text_is_not_sent() {
    let sink = RecordingSink::default();
    let sent = sink.sent.clone();
    let mut coordinator = SessionCoordinator::new(
        idle_recorder(),
        TextTranscriber {
            text: " \n\t ".to_owned(),
        },
        DeterministicPostProcessor,
        sink,
    );
    coordinator
        .start_recording(&RecordingOptions::default())
        .expect("recording must start");

    let error = coordinator
        .stop_and_send(
            &TranscriptionOptions::default(),
            &ProcessingContext::default(),
            &CancellationToken::new(),
        )
        .expect_err("empty text must fail");

    assert_eq!(error, AppError::EmptyTranscript);
    assert_eq!(coordinator.state(), SessionState::Failed);
    assert!(sent.lock().unwrap().is_empty());
    coordinator
        .reset()
        .expect("failed session must be resettable");
    assert_eq!(coordinator.state(), SessionState::Idle);
}

#[test]
fn post_processor_applies_exact_dictionary_entry() {
    let processor = DeterministicPostProcessor;
    let result = processor
        .process(
            Transcript {
                text: "  たんすたっくくえり  ".to_owned(),
                language: Some("ja".to_owned()),
                duration: Duration::from_secs(1),
                segments: Vec::new(),
            },
            &ProcessingContext {
                dictionary: vec![DictionaryEntry {
                    spoken: "たんすたっくくえり".to_owned(),
                    replacement: "TanStack Query".to_owned(),
                    mode: DictionaryMode::Exact,
                }],
                ..ProcessingContext::default()
            },
        )
        .expect("post-processing must succeed");

    assert_eq!(result.text, "TanStack Query");
}

fn processed(text: &str, context: &ProcessingContext) -> String {
    DeterministicPostProcessor
        .process(
            Transcript {
                text: text.to_owned(),
                language: None,
                duration: Duration::zero(),
                segments: Vec::new(),
            },
            context,
        )
        .expect("post-processing must succeed")
        .text
}

#[test]
fn spaces_are_normalized_and_line_breaks_kept() {
    let context = ProcessingContext::default();
    assert_eq!(processed("  a \t b\u{3000}c  ", &context), "a b c");
    assert_eq!(processed("a  \n  b", &context), "a\nb");
    assert_eq!(processed("a \n\n b", &context), "a\n\nb");
    assert_eq!(processed("", &context), "");
}

#[test]
fn line_breaks_become_spaces_where_they_are_not_preserved() {
    let context = ProcessingContext {
        preserve_newlines: false,
        ..ProcessingContext::default()
    };
    assert_eq!(processed("a \n\n b\r\nc", &context), "a b c");
}

#[test]
fn without_normalization_only_the_ends_are_trimmed() {
    let context = ProcessingContext {
        normalize_spaces: false,
        ..ProcessingContext::default()
    };
    assert_eq!(processed("  a  b \n c  ", &context), "a  b \n c");
}

#[test]
fn endings_are_appended_to_text_but_not_to_nothing() {
    let context = ProcessingContext {
        append_newline: true,
        append_space: true,
        ..ProcessingContext::default()
    };
    assert_eq!(processed(" a ", &context), "a\n ");
    assert_eq!(processed("   ", &context), "");
}

#[test]
fn dictionary_entries_apply_in_order() {
    let entry = |spoken: &str, replacement: &str, mode: DictionaryMode| DictionaryEntry {
        spoken: spoken.to_owned(),
        replacement: replacement.to_owned(),
        mode,
    };
    let context = ProcessingContext {
        dictionary: vec![
            entry("a", "b", DictionaryMode::Exact),
            entry("b", "c", DictionaryMode::Exact),
            entry("a", "d", DictionaryMode::Exact),
            entry("c", "e", DictionaryMode::WordBoundary),
        ],
        ..ProcessingContext::default()
    };
    assert_eq!(processed("a", &context), "e");
    assert_eq!(processed("a a", &context), "a a");
    assert_eq!(processed("c cc c", &context), "e cc e");
}

#[test]
fn whole_words_are_replaced() {
    let replaced = |text: &str, spoken: &str, replacement: &str| {
        let context = ProcessingContext {
            dictionary: vec![DictionaryEntry {
                spoken: spoken.to_owned(),
                replacement: replacement.to_owned(),
                mode: DictionaryMode::WordBoundary,
            }],
            ..ProcessingContext::default()
        };
        processed(text, &context)
    };
    assert_eq!(replaced("foo", "foo", "Foo"), "Foo");
    assert_eq!(replaced("foo bar\nfoo", "foo", "Foo"), "Foo bar\nFoo");
    assert_eq!(replaced("food snafoo foo", "foo", "Foo"), "food snafoo Foo");
    assert_eq!(replaced("Foo fo", "foo", "x"), "Foo fo");
    assert_eq!(replaced("foo foo foo", "foo", "foo foo"), "foo foo foo foo foo foo");
    assert_eq!(replaced("use tan stack now", "tan stack", "TanStack"), "use TanStack now");
    assert_eq!(replaced("tan stacks", "tan stack", "TanStack"), "tan stacks");
    assert_eq!(replaced("a b", "", "x"), "a b");
    assert_eq!(replaced("a b", "b", ""), "a ");
}

#[test]
fn normalization_is_idempotent_and_keeps_visible_text() {
    let context = ProcessingContext::default();
    let text = " x\t y \u{a0}\n z\u{2028}w ";
    let once = processed(text, &context);
    assert_eq!(processed(&once, &context), once);
    let visible = |s: &str| s.chars().filter(|c| !c.is_whitespace()).collect::<String>();
    assert_eq!(visible(&once), visible(text));
}

#[test]
fn sessions_are_numbered_one_after_the_other() {
    let mut coordinator = coordinator(RecordingSink::default());
    assert_eq!(coordinator.next_session_number(), 1);
    assert!(coordinator.current_context().is_none());
    coordinator.start_recording(&RecordingOptions::default()).unwrap();
    assert_eq!(coordinator.current_context().unwrap().session_id, "session-1");
    assert!(coordinator.current_context().unwrap().focused_app.is_none());
    coordinator.cancel_recording().unwrap();
    coordinator.start_recording(&RecordingOptions::default()).unwrap();
    assert_eq!(coordinator.current_context().unwrap().session_id, "session-2");
    assert_eq!(coordinator.next_session_number(), 3);
}

#[test]
fn requests_in_the_wrong_state_change_nothing() {
    let mut coordinator = coordinator(RecordingSink::default());
    assert_eq!(
        coordinator.cancel_recording(),
        Err(AppError::InvalidState {
            expected: SessionState::Recording,
            actual: SessionState::Idle
        })
    );
    assert_eq!(
        coordinator.stop_and_send(
            &TranscriptionOptions::default(),
            &ProcessingContext::default(),
            &CancellationToken::new(),
        ),
        Err(AppError::InvalidState {
            expected: SessionState::Recording,
            actual: SessionState::Idle
        })
    );
    assert_eq!(
        coordinator.reset(),
        Err(AppError::InvalidState {
            expected: SessionState::Failed,
            actual: SessionState::Idle
        })
    );
    assert_eq!(coordinator.state(), SessionState::Idle);
    assert_eq!(coordinator.next_session_number(), 1);
}

struct BrokenRecorder;

impl Recorder for BrokenRecorder {
    fn list_devices(&self) -> Result<Vec<AudioDevice>, RecorderError> {
        Err(RecorderError::new("no devices"))
    }

    fn start(&mut self, _options: &RecordingOptions) -> Result<(), RecorderError> {
        Err(RecorderError::new("no microphone"))
    }

    fn stop(&mut self) -> Result<AudioBuffer, RecorderError> {
        Err(RecorderError::new("no recording"))
    }

    fn cancel(&mut self) -> Result<(), RecorderError> {
        Err(RecorderError::new("no recording"))
    }
}

#[test]
fn a_recorder_that_does_not_start_fails_the_session() {
    let mut coordinator = SessionCoordinator::new(
        BrokenRecorder,
        DummyTranscriber,
        DeterministicPostProcessor,
        RecordingSink::default(),
    );
    let error = coordinator
        .start_recording(&RecordingOptions::default())
        .expect_err("the recorder is broken");
    assert_eq!(error, AppError::Recorder(RecorderError::new("no microphone")));
    assert_eq!(error.describe(), "recorder error: no microphone");
    assert_eq!(coordinator.state(), SessionState::Failed);
    assert_eq!(coordinator.next_session_number(), 2);
    coordinator.reset().unwrap();
    assert_eq!(coordinator.state(), SessionState::Idle);
}

struct BrokenTranscriber;

impl Transcriber for BrokenTranscriber {
    fn transcribe(
        &self,
        _audio: &AudioBuffer,
        _options: &TranscriptionOptions,
        _cancel: &CancellationToken,
    ) -> Result<Transcript, TranscriptionError> {
        Err(TranscriptionError::new("no model"))
    }
}

struct BrokenProcessor;

impl PostProcessor for BrokenProcessor {
    fn process(
        &self,
        _transcript: Transcript,
        _context: &ProcessingContext,
    ) -> Result<ProcessedText, PostProcessError> {
        Err(PostProcessError::new("no rules"))
    }
}

struct BrokenSink;

impl TextSink for BrokenSink {
    fn send(
        &mut self,
        _text: &ProcessedText,
        _context: &OutputContext,
    ) -> Result<SendReceipt, SinkError> {
        Err(SinkError::new("no output"))
    }
}

fn outcome<T: Transcriber, P: PostProcessor, S: TextSink>(
    transcriber: T,
    processor: P,
    sink: S,
) -> (AppError, SessionState, bool) {
    let mut coordinator = SessionCoordinator::new(idle_recorder(), transcriber, processor, sink);
    coordinator.start_recording(&RecordingOptions::default()).unwrap();
    let error = coordinator
        .stop_and_send(
            &TranscriptionOptions::default(),
            &ProcessingContext::default(),
            &CancellationToken::new(),
        )
        .expect_err("a stage is broken");
    (error, coordinator.state(), coordinator.current_context().is_some())
}

#[test]
fn each_broken_stage_fails_the_session_with_its_own_error() {
    assert_eq!(
        outcome(BrokenTranscriber, DeterministicPostProcessor, RecordingSink::default()),
        (
            AppError::Transcription(TranscriptionError::new("no model")),
            SessionState::Failed,
            true
        )
    );
    assert_eq!(
        outcome(DummyTranscriber, BrokenProcessor, RecordingSink::default()),
        (
            AppError::PostProcess(PostProcessError::new("no rules")),
            SessionState::Failed,
            true
        )
    );
    assert_eq!(
        outcome(DummyTranscriber, DeterministicPostProcessor, BrokenSink),
        (
            AppError::Sink(SinkError::new("no output")),
            SessionState::Failed,
            true
        )
    );
}

struct CancellingProcessor {
    cancel: CancellationToken,
}

impl PostProcessor for CancellingProcessor {
    fn process(
        &self,
        transcript: Transcript,
        context: &ProcessingContext,
    ) -> Result<ProcessedText, PostProcessError> {
        self.cancel.cancel();
        DeterministicPostProcessor.process(transcript, context)
    }
}

#[test]
fn a_cancellation_during_processing_keeps_the_text_from_being_sent() {
    let cancel = CancellationToken::new();
    let sink = RecordingSink::default();
    let sent = sink.sent.clone();
    let mut coordinator = SessionCoordinator::new(
        idle_recorder(),
        DummyTranscriber,
        CancellingProcessor {
            cancel: cancel.clone(),
        },
        sink,
    );
    coordinator.start_recording(&RecordingOptions::default()).unwrap();
    assert_eq!(
        coordinator.stop_and_send(
            &TranscriptionOptions::default(),
            &ProcessingContext::default(),
            &cancel,
        ),
        Err(AppError::Cancelled)
    );
    assert!(sent.lock().unwrap().is_empty());
    assert_eq!(coordinator.state(), SessionState::Idle);
    assert!(coordinator.current_context().is_none());
}

#[test]
fn a_recording_that_is_lost_fails_the_session() {
    let mut coordinator = coordinator(RecordingSink::default());
    coordinator.start_recording(&RecordingOptions::default()).unwrap();
    let cancelled = coordinator.cancel_recording();
    assert_eq!(cancelled, Ok(()));

    let mut coordinator = SessionCoordinator::new(
        LosingRecorder,
        DummyTranscriber,
        DeterministicPostProcessor,
        RecordingSink::default(),
    );
    coordinator.start_recording(&RecordingOptions::default()).unwrap();
    assert_eq!(
        coordinator.stop_and_send(
            &TranscriptionOptions::default(),
            &ProcessingContext::default(),
            &CancellationToken::new(),
        ),
        Err(AppError::Recorder(RecorderError::new("lost")))
    );
    assert_eq!(coordinator.state(), SessionState::Failed);
}

struct LosingRecorder;

impl Recorder for LosingRecorder {
    fn list_devices(&self) -> Result<Vec<AudioDevice>, RecorderError> {
        Ok(Vec::new())
    }

    fn start(&mut self, _options: &RecordingOptions) -> Result<(), RecorderError> {
        Ok(())
    }

    fn stop(&mut self) -> Result<AudioBuffer, RecorderError> {
        Err(RecorderError::new("lost"))
    }

    fn cancel(&mut self) -> Result<(), RecorderError> {
        Err(RecorderError::new("lost"))
    }
}

#[test]
fn errors_read_as_they_are_reported() {
    assert_eq!(
        AppError::InvalidState {
            expected: SessionState::Idle,
            actual: SessionState::PostProcessing
        }
        .describe(),
        "invalid session state: expected Idle, got PostProcessing"
    );
    assert_eq!(AppError::Cancelled.describe(), "operation cancelled");
    assert_eq!(
        AppError::from(TranscriptionError::new("x")),
        AppError::Transcription(TranscriptionError::new("x"))
    );
    assert_eq!(TranscriptionError::new("x").message(), "x");
}

#[test]
fn tokens_share_their_request() {
    let token = CancellationToken::new();
    let other = token.clone();
    assert!(!token.is_cancelled());
    other.cancel();
    assert!(token.is_cancelled());
    token.reset();
    assert!(!other.is_cancelled());
    assert!(!CancellationToken::default().is_cancelled());
}

#[test]
fn audio_without_a_rate_or_channels_has_no_length() {
    let samples = vec![Float32 { bits: 0 }; 4];
    let second = Duration::from_secs(1);
    assert_eq!(AudioBuffer::new(samples.clone(), 0, 1, second).duration, Duration::zero());
    assert_eq!(AudioBuffer::new(samples.clone(), 4, 0, second).duration, Duration::zero());
    let audio = AudioBuffer::new(samples.clone(), 4, 1, second);
    assert_eq!(audio.duration, second);
    assert_eq!(audio.samples, samples);
    assert!(audio.started_at <= std::time::SystemTime::now());
    assert_eq!(audio.clone(), audio);
}
