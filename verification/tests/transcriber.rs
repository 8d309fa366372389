use voice_input::transcriber::{
    default_thread_count, timestamp_to_duration, Inference, InferenceSettings, ModelRunner,
    RawSegment,
};
use voice_input::{
    AudioBuffer, CancellationToken, Duration, Float32, LanguageMode, Transcript,
    TranscriptSegment, TranscriptionError, TranscriptionOptions, WhisperTranscriber,
};

type Plain = WhisperTranscriber<()>;

fn audio(samples: usize, rate: u32, channels: u16) -> AudioBuffer {
    AudioBuffer::new(vec![Float32 { bits: 0 }; samples], rate, channels, Duration::from_secs(1))
}

fn segment(text: &str, start: i64, end: i64) -> Option<RawSegment> {
    Some(RawSegment {
        text: Ok(text.to_owned()),
        start,
        end,
    })
}

fn model(threads: usize) -> Plain {
    match Plain::from_loaded(Ok(()), threads) {
        Ok(transcriber) => transcriber,
        Err(error) => panic!("{}", error.message()),
    }
}

#[test]
fn default_thread_count_is_positive_and_bounded() {
    for available in [None, Some(0), Some(1), Some(2), Some(7), Some(8), Some(9), Some(256)] {
        let threads = default_thread_count(available);

        assert!((1..=8).contains(&threads));
    }
    assert_eq!(default_thread_count(None), 1);
    assert_eq!(default_thread_count(Some(6)), 6);
    assert_eq!(default_thread_count(Some(64)), 8);
}

#[test]
fn converts_whisper_centiseconds_to_duration() {
    assert_eq!(timestamp_to_duration(123), Duration::from_millis(1_230));
    assert_eq!(timestamp_to_duration(-1), Duration::zero());
}

#[test]
fn maps_supported_language_modes() {
    assert_eq!(Plain::language_option(&LanguageMode::Auto), "auto");
    assert_eq!(Plain::language_option(&LanguageMode::Japanese), "ja");
    assert_eq!(Plain::language_option(&LanguageMode::English), "en");
}

#[test]
fn a_model_needs_threads() {
    assert_eq!(Plain::check_threads(1), Ok(()));
    assert_eq!(
        Plain::check_threads(0),
        Err(TranscriptionError::new("whisper thread count must be positive"))
    );
    assert!(matches!(
        Plain::from_loaded(Err("missing".to_owned()), 2),
        Err(error) if error.message() == "failed to load whisper model: missing"
    ));
    assert!(matches!(
        Plain::from_loaded(Ok(()), 0),
        Err(error) if error.message() == "whisper thread count must be positive"
    ));
}

#[test]
fn only_nonempty_16khz_mono_is_transcribed() {
    let cancel = CancellationToken::new();
    let wrong = Err(TranscriptionError::new("whisper input must be 16kHz mono PCM"));
    assert_eq!(Plain::check_input(&audio(4, 44_100, 1), &cancel), wrong);
    assert_eq!(Plain::check_input(&audio(0, 16_000, 2), &cancel), wrong);
    assert_eq!(
        Plain::check_input(&audio(0, 16_000, 1), &cancel),
        Err(TranscriptionError::new("whisper input is empty"))
    );
    assert_eq!(Plain::check_input(&audio(4, 16_000, 1), &cancel), Ok(()));
    cancel.cancel();
    assert_eq!(
        Plain::check_input(&audio(4, 16_000, 1), &cancel),
        Err(TranscriptionError::new("transcription cancelled"))
    );
}

#[test]
fn settings_follow_the_options() {
    let options = TranscriptionOptions {
        language: LanguageMode::Japanese,
        initial_prompt: Some("voin".to_owned()),
        temperature: Float32 { bits: 0x3f00_0000 },
        translate_to_english: true,
    };
    assert_eq!(
        model(3).settings(&options),
        InferenceSettings {
            best_of: 5,
            n_threads: 3,
            language: "ja",
            translate: true,
            temperature: Float32 { bits: 0x3f00_0000 },
            no_timestamps: true,
            prints: false,
            initial_prompt: Some("voin".to_owned()),
        }
    );
    let settings = model(usize::MAX).settings(&TranscriptionOptions::default());
    assert_eq!(settings.n_threads, i32::MAX);
    assert_eq!(settings.language, "auto");
    assert_eq!(settings.initial_prompt, None);
}

#[test]
fn a_cancellation_wins_over_the_outcome_of_inference() {
    let cancel = CancellationToken::new();
    assert_eq!(Plain::inferred(Ok(()), &cancel), Ok(()));
    assert_eq!(
        Plain::inferred(Err("code 1".to_owned()), &cancel),
        Err(TranscriptionError::new("whisper transcription failed: code 1"))
    );
    cancel.cancel();
    let cancelled = Err(TranscriptionError::new("transcription cancelled"));
    assert_eq!(Plain::inferred(Ok(()), &cancel), cancelled);
    assert_eq!(Plain::inferred(Err("code 1".to_owned()), &cancel), cancelled);
}

#[test]
fn segments_make_the_transcript() {
    let segments = vec![
        segment("hello", 0, 50),
        None,
        segment(" world", 50, 125),
    ];
    let transcript =
        Plain::assemble(&segments, Some("en".to_owned()), Duration::from_secs(2)).unwrap();
    assert_eq!(
        transcript,
        Transcript {
            text: "hello world".to_owned(),
            language: Some("en".to_owned()),
            duration: Duration::from_secs(2),
            segments: vec![
                TranscriptSegment {
                    start: Duration::zero(),
                    end: Duration::from_millis(500),
                    text: "hello".to_owned(),
                },
                TranscriptSegment {
                    start: Duration::from_millis(500),
                    end: Duration::from_millis(1_250),
                    text: " world".to_owned(),
                },
            ],
        }
    );
}

#[test]
fn the_first_segment_without_a_text_is_reported() {
    let broken = |message: &str| {
        Some(RawSegment {
            text: Err(message.to_owned()),
            start: 0,
            end: 1,
        })
    };
    let segments = vec![segment("a", 0, 1), broken("one"), segment("b", 0, 1), broken("two")];
    assert_eq!(
        Plain::assemble(&segments, None, Duration::zero()),
        Err(TranscriptionError::new("invalid whisper text: one"))
    );
}

/// Runs a model that is a text, and counts how often.
struct Runner {
    runs: usize,
    cancels: bool,
    gives: fn(&str, &InferenceSettings, &AudioBuffer) -> Inference,
}

impl Runner {
    fn new(gives: fn(&str, &InferenceSettings, &AudioBuffer) -> Inference) -> Self {
        Runner {
            runs: 0,
            cancels: false,
            gives,
        }
    }
}

impl ModelRunner<&'static str> for Runner {
    fn run(
        &mut self,
        model: &&'static str,
        settings: &InferenceSettings,
        audio: &AudioBuffer,
        cancel: &CancellationToken,
    ) -> Inference {
        self.runs += 1;
        if self.cancels {
            cancel.cancel();
        }
        (self.gives)(model, settings, audio)
    }
}

fn echo(model: &str, settings: &InferenceSettings, audio: &AudioBuffer) -> Inference {
    Inference::Ran {
        outcome: Ok(()),
        segments: vec![
            segment(model, 0, 1),
            segment(settings.language, 1, audio.samples.len() as i64),
        ],
        language: None,
    }
}

fn text_model() -> WhisperTranscriber<&'static str> {
    match WhisperTranscriber::from_loaded(Ok("model"), 2) {
        Ok(transcriber) => transcriber,
        Err(error) => panic!("{}", error.message()),
    }
}

#[test]
fn a_recording_is_transcribed_with_a_model() {
    let cancel = CancellationToken::new();
    let transcriber = text_model();
    assert_eq!(*transcriber.context(), "model");
    let options = TranscriptionOptions::default();
    let mut runner = Runner::new(echo);
    let transcript = transcriber
        .transcribe(&audio(4, 16_000, 1), &options, &cancel, &mut runner)
        .unwrap();
    assert_eq!(runner.runs, 1);
    assert_eq!(transcript.text, "modelauto");
    assert_eq!(transcript.segments[1].end, Duration::from_millis(40));
    assert_eq!(transcript.duration, Duration::from_secs(1));
    assert_eq!(
        transcriber.transcribe(
            &audio(4, 16_000, 1),
            &options,
            &cancel,
            &mut Runner::new(|_, _, _| Inference::Poisoned)
        ),
        Err(TranscriptionError::new("whisper context mutex is poisoned"))
    );
    assert_eq!(
        transcriber.transcribe(
            &audio(4, 16_000, 1),
            &options,
            &cancel,
            &mut Runner::new(|_, _, _| Inference::NoState("memory".to_owned()))
        ),
        Err(TranscriptionError::new("failed to create whisper state: memory"))
    );
    let mut cancelling = Runner::new(|_, _, _| Inference::Ran {
        outcome: Err("aborted".to_owned()),
        segments: Vec::new(),
        language: None,
    });
    cancelling.cancels = true;
    assert_eq!(
        transcriber.transcribe(&audio(4, 16_000, 1), &options, &cancel, &mut cancelling),
        Err(TranscriptionError::new("transcription cancelled"))
    );
    assert_eq!(cancelling.runs, 1);
}

#[test]
fn a_model_does_not_run_on_refused_or_cancelled_input() {
    let cancel = CancellationToken::new();
    let transcriber = text_model();
    let options = TranscriptionOptions::default();
    let mut runner = Runner::new(echo);
    assert_eq!(
        transcriber.transcribe(&audio(0, 16_000, 1), &options, &cancel, &mut runner),
        Err(TranscriptionError::new("whisper input is empty"))
    );
    assert_eq!(
        transcriber.transcribe(&audio(4, 44_100, 1), &options, &cancel, &mut runner),
        Err(TranscriptionError::new("whisper input must be 16kHz mono PCM"))
    );
    cancel.cancel();
    assert_eq!(
        transcriber.transcribe(&audio(4, 16_000, 1), &options, &cancel, &mut runner),
        Err(TranscriptionError::new("transcription cancelled"))
    );
    assert_eq!(runner.runs, 0);
}

#[test]
fn an_empty_recognition_is_an_error() {
    let empty = Err(TranscriptionError::new("whisper result is empty"));
    assert_eq!(Plain::assemble(&Vec::new(), None, Duration::zero()), empty);
    assert_eq!(
        Plain::assemble(&vec![None, segment("", 0, 1)], Some("en".to_owned()), Duration::zero()),
        empty
    );
    assert_eq!(
        text_model().transcribe(
            &audio(4, 16_000, 1),
            &TranscriptionOptions::default(),
            &CancellationToken::new(),
            &mut Runner::new(|_, _, _| Inference::Ran {
                outcome: Ok(()),
                segments: Vec::new(),
                language: Some("ja".to_owned()),
            })
        ),
        empty
    );
}
