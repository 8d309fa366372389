//! What a whisper transcriber decides: which input it takes, how inference is set up and what
//! becomes of its segments.

use vstd::prelude::*;

use crate::cancellation::CancellationToken;
use crate::duration::{Duration, NANOS_PER_MILLI};
use crate::error::{with_prefix, TranscriptionError};
use crate::model::{
    AudioBuffer, Float32, LanguageMode, Transcript, TranscriptSegment, TranscriptionOptions,
};

verus! {

/// The most threads that inference uses by default.
pub const MAX_DEFAULT_THREADS: usize = 8;

/// The number of threads to use, where `available` is the parallelism of the machine, if it is known.
pub fn default_thread_count(available: Option<usize>) -> (threads: usize)
    ensures
        threads == match available {
            Some(count) => if count == 0 {
                1
            } else if count < MAX_DEFAULT_THREADS {
                count
            } else {
                MAX_DEFAULT_THREADS
            },
            None => 1,
        },
        1 <= threads <= MAX_DEFAULT_THREADS,
{
    match available {
        Some(count) => if count == 0 {
            1
        } else if count < MAX_DEFAULT_THREADS {
            count
        } else {
            MAX_DEFAULT_THREADS
        },
        None => 1,
    }
}

/// A point in a recording, in hundredths of a second; one before its start counts as its start.
pub open spec fn timestamp_nanos(timestamp_centiseconds: i64) -> nat {
    if timestamp_centiseconds <= 0 {
        0
    } else {
        timestamp_centiseconds as nat * 10 * NANOS_PER_MILLI as nat
    }
}

/// The timestamp can be held in milliseconds.
pub open spec fn is_timestamp(timestamp_centiseconds: i64) -> bool {
    timestamp_centiseconds * 10 <= u64::MAX
}

/// The time from the start of a recording to a point in it.
pub fn timestamp_to_duration(timestamp_centiseconds: i64) -> (duration: Duration)
    requires
        is_timestamp(timestamp_centiseconds),
    ensures
        duration@ == timestamp_nanos(timestamp_centiseconds),
{
    let centiseconds: u64 = if timestamp_centiseconds < 0 {
        0
    } else {
        timestamp_centiseconds as u64
    };
    Duration::from_millis(centiseconds * 10)
}

/// How inference is set up.
#[derive(Clone, Debug, PartialEq, Eq)]
pub struct InferenceSettings {
    /// The number of candidates that greedy sampling looks at.
    pub best_of: i32,
    /// The number of threads.
    pub n_threads: i32,
    /// The language to expect.
    pub language: &'static str,
    /// Whether to translate into English.
    pub translate: bool,
    /// The sampling temperature.
    pub temperature: Float32,
    /// Whether to leave out timestamps in the text.
    pub no_timestamps: bool,
    /// Whether anything is printed during inference.
    pub prints: bool,
    /// Text that primes the recognition.
    pub initial_prompt: Option<String>,
}

impl InferenceSettings {
    /// The settings are those for the given options and number of threads.
    pub open spec fn follows(&self, threads: usize, options: &TranscriptionOptions) -> bool {
        &&& self.best_of == 5
        &&& self.n_threads == if threads < i32::MAX as usize {
            threads as int
        } else {
            i32::MAX as int
        }
        &&& self.language@ == language_text(options.language)
        &&& self.translate == options.translate_to_english
        &&& self.temperature == options.temperature
        &&& self.no_timestamps
        &&& !self.prints
        &&& match options.initial_prompt {
            Some(prompt) => self.initial_prompt matches Some(initial_prompt) && initial_prompt@
                == prompt@,
            None => self.initial_prompt is None,
        }
    }
}

/// A segment as inference gives it.
#[derive(Debug, PartialEq, Eq)]
pub struct RawSegment {
    /// The text, or why it is no text.
    pub text: Result<String, String>,
    /// Where the segment starts, in hundredths of a second.
    pub start: i64,
    /// Where the segment ends, in hundredths of a second.
    pub end: i64,
}

/// What came of running a model.
#[derive(Debug, PartialEq, Eq)]
pub enum Inference {
    /// The model cannot be used any more.
    Poisoned,
    /// The model could not be set up.
    NoState(String),
    /// The model ran.
    Ran {
        /// Whether it succeeded.
        outcome: Result<(), String>,
        /// The segments that it found; some may not be there.
        segments: Vec<Option<RawSegment>>,
        /// The language that it found.
        language: Option<String>,
    },
}

/// Runs a model of the type `C`.
pub trait ModelRunner<C> {
    /// Runs the model on a recording; the token says when to stop.
    fn run(
        &mut self,
        model: &C,
        settings: &InferenceSettings,
        audio: &AudioBuffer,
        cancel: &CancellationToken,
    ) -> Inference;
}

impl Inference {
    /// The times of all segments can be held.
    pub open spec fn has_timestamps(&self) -> bool {
        self matches Inference::Ran { segments, .. } ==> have_timestamps(segments@)
    }
}

/// The times of all segments can be held.
pub open spec fn have_timestamps(segments: Seq<Option<RawSegment>>) -> bool {
    forall|i: int|
        0 <= i < segments.len() ==> (#[trigger] segments[i] matches Some(segment) ==> is_timestamp(
            segment.start,
        ) && is_timestamp(segment.end))
}

/// The word for a language.
pub open spec fn language_text(language: LanguageMode) -> Seq<char> {
    match language {
        LanguageMode::Auto => "auto"@,
        LanguageMode::Japanese => "ja"@,
        LanguageMode::English => "en"@,
    }
}

/// What is wrong with audio that is to be transcribed.
pub open spec fn input_error_text(audio: &AudioBuffer) -> Option<Seq<char>> {
    if audio.sample_rate_hz != 16_000 || audio.channels != 1 {
        Some("whisper input must be 16kHz mono PCM"@)
    } else if audio.samples@.len() == 0 {
        Some("whisper input is empty"@)
    } else {
        None
    }
}

/// The segments that are there.
pub open spec fn present(segments: Seq<Option<RawSegment>>) -> Seq<RawSegment>
    decreases segments.len(),
{
    if segments.len() == 0 {
        Seq::empty()
    } else {
        match segments.last() {
            Some(segment) => present(segments.drop_last()).push(segment),
            None => present(segments.drop_last()),
        }
    }
}

/// The first segment that has no text, if there is one, says why.
pub open spec fn first_text_error(segments: Seq<RawSegment>) -> Option<Seq<char>>
    decreases segments.len(),
{
    if segments.len() == 0 {
        None
    } else {
        match first_text_error(segments.drop_last()) {
            Some(message) => Some(message),
            None => match segments.last().text {
                Ok(_) => None,
                Err(message) => Some(message@),
            },
        }
    }
}

/// The texts of the segments, one after the other.
pub open spec fn whole_text(segments: Seq<RawSegment>) -> Seq<char>
    decreases segments.len(),
{
    if segments.len() == 0 {
        Seq::empty()
    } else {
        whole_text(segments.drop_last()) + segments.last().text->Ok_0@
    }
}

/// The segments of a transcript hold the texts and the times of the segments of inference.
pub open spec fn are_converted(
    raw: Seq<RawSegment>,
    segments: Seq<TranscriptSegment>,
) -> bool {
    &&& segments.len() == raw.len()
    &&& forall|i: int|
        0 <= i < raw.len() ==> (#[trigger] segments[i]).text@ == raw[i].text->Ok_0@
            && segments[i].start@ == timestamp_nanos(raw[i].start) && segments[i].end@
            == timestamp_nanos(raw[i].end)
}

/// The segments of inference make this transcript, or this error where one of them has no text or
/// all of them together have none.
pub open spec fn is_assembled(
    segments: Seq<RawSegment>,
    language: Option<String>,
    duration: Duration,
    result: Result<Transcript, TranscriptionError>,
) -> bool {
    match first_text_error(segments) {
        Some(message) => result matches Err(error) && error@ == "invalid whisper text: "@
            + message,
        None => if whole_text(segments).len() == 0 {
            result matches Err(error) && error@ == "whisper result is empty"@
        } else {
            result matches Ok(transcript) && {
                &&& transcript.text@ == whole_text(segments)
                &&& transcript.language == language
                &&& transcript.duration == duration
                &&& are_converted(segments, transcript.segments@)
            }
        },
    }
}

/// What comes of inference: a cancellation wins over its outcome.
pub open spec fn is_inferred(
    outcome: Result<(), String>,
    cancelled: bool,
    result: Result<(), TranscriptionError>,
) -> bool {
    if cancelled {
        result matches Err(error) && error@ == "transcription cancelled"@
    } else {
        match outcome {
            Ok(_) => result == Ok::<(), TranscriptionError>(()),
            Err(message) => result matches Err(error) && error@
                == "whisper transcription failed: "@ + message@,
        }
    }
}

/// What the caller gets of a model that was run on a recording of the given length, where the token
/// said `cancelled` when it was done.
pub open spec fn is_concluded(
    inference: Inference,
    cancelled: bool,
    duration: Duration,
    result: Result<Transcript, TranscriptionError>,
) -> bool {
    match inference {
        Inference::Poisoned => result matches Err(error) && error@
            == "whisper context mutex is poisoned"@,
        Inference::NoState(message) => result matches Err(error) && error@
            == "failed to create whisper state: "@ + message@,
        Inference::Ran { outcome, segments, language } => if cancelled || outcome is Err {
            result matches Err(error) && is_inferred(outcome, cancelled, Err(error))
        } else {
            is_assembled(present(segments@), language, duration, result)
        },
    }
}

/// A transcriber over a loaded model of the type `C`.
pub struct WhisperTranscriber<C> {
    context: C,
    threads: usize,
}

impl<C> WhisperTranscriber<C> {
    /// The model.
    pub closed spec fn model(&self) -> C {
        self.context
    }

    /// The number of threads to use.
    pub closed spec fn threads(&self) -> usize {
        self.threads
    }

    #[verifier::type_invariant]
    spec fn well_formed(self) -> bool {
        self.threads > 0
    }

    /// Checks the number of threads before a model is loaded.
    pub fn check_threads(threads: usize) -> (result: Result<(), TranscriptionError>)
        ensures
            match result {
                Ok(_) => threads > 0,
                Err(error) => threads == 0 && error@ == "whisper thread count must be positive"@,
            },
    {
        if threads == 0 {
            Err(TranscriptionError::new("whisper thread count must be positive"))
        } else {
            Ok(())
        }
    }

    /// A transcriber over the model that was loaded, or the error that loading it gave.
    pub fn from_loaded(loaded: Result<C, String>, threads: usize) -> (result: Result<
        Self,
        TranscriptionError,
    >)
        ensures
            if threads == 0 {
                result matches Err(error) && error@ == "whisper thread count must be positive"@
            } else {
                match loaded {
                    Ok(context) => result matches Ok(transcriber) && transcriber.model() == context
                        && transcriber.threads() == threads,
                    Err(message) => result matches Err(error) && error@
                        == "failed to load whisper model: "@ + message@,
                }
            },
    {
        if let Err(error) = Self::check_threads(threads) {
            return Err(error);
        }
        match loaded {
            Ok(context) => Ok(WhisperTranscriber { context, threads }),
            Err(message) => Err(
                TranscriptionError::new(
                    with_prefix("failed to load whisper model: ", message.as_str()).as_str(),
                ),
            ),
        }
    }

    /// The model.
    pub fn context(&self) -> (context: &C)
        ensures
            *context == self.model(),
    {
        &self.context
    }

    /// The word for a language.
    pub fn language_option(language: &LanguageMode) -> (word: &'static str)
        ensures
            word@ == language_text(*language),
    {
        match language {
            LanguageMode::Auto => "auto",
            LanguageMode::Japanese => "ja",
            LanguageMode::English => "en",
        }
    }

    /// Checks that the audio can be transcribed and that nobody has cancelled.
    pub fn check_input(audio: &AudioBuffer, cancel: &CancellationToken) -> (result: Result<
        (),
        TranscriptionError,
    >)
        ensures
            match input_error_text(audio) {
                Some(text) => result matches Err(error) && error@ == text,
                None => match result {
                    Ok(_) => cancel.may_load(false),
                    Err(error) => cancel.may_load(true) && error@ == "transcription cancelled"@,
                },
            },
    {
        if audio.sample_rate_hz != 16_000 || audio.channels != 1 {
            return Err(TranscriptionError::new("whisper input must be 16kHz mono PCM"));
        }
        if audio.samples.len() == 0 {
            return Err(TranscriptionError::new("whisper input is empty"));
        }
        if cancel.is_cancelled() {
            return Err(TranscriptionError::new("transcription cancelled"));
        }
        Ok(())
    }

    /// How inference is set up under the given options.
    pub fn settings(&self, options: &TranscriptionOptions) -> (settings: InferenceSettings)
        ensures
            settings.follows(self.threads(), options),
    {
        let n_threads: i32 = if self.threads < i32::MAX as usize {
            self.threads as i32
        } else {
            i32::MAX
        };
        InferenceSettings {
            best_of: 5,
            n_threads,
            language: Self::language_option(&options.language),
            translate: options.translate_to_english,
            temperature: options.temperature,
            no_timestamps: true,
            prints: false,
            initial_prompt: match &options.initial_prompt {
                Some(prompt) => Some(prompt.as_str().to_owned()),
                None => None,
            },
        }
    }

    /// What comes of inference: a cancellation that was requested until now wins over its result.
    pub fn inferred(outcome: Result<(), String>, cancel: &CancellationToken) -> (result: Result<
        (),
        TranscriptionError,
    >)
        ensures
            exists|cancelled: bool| #[trigger]
                cancel.may_load(cancelled) && is_inferred(outcome, cancelled, result),
    {
        let cancelled = cancel.is_cancelled();
        if cancelled {
            return Err(TranscriptionError::new("transcription cancelled"));
        }
        match outcome {
            Ok(_) => Ok(()),
            Err(message) => Err(
                TranscriptionError::new(
                    with_prefix("whisper transcription failed: ", message.as_str()).as_str(),
                ),
            ),
        }
    }

    /// What the caller gets of a model that was run on a recording of the given length.
    pub fn conclude(inference: Inference, duration: Duration, cancel: &CancellationToken) -> (result:
        Result<Transcript, TranscriptionError>)
        requires
            inference.has_timestamps(),
        ensures
            exists|cancelled: bool| #[trigger]
                is_concluded(inference, cancelled, duration, result) && (inference is Ran
                    ==> cancel.may_load(cancelled)),
    {
        match inference {
            Inference::Poisoned => {
                let result = Err(TranscriptionError::new("whisper context mutex is poisoned"));
                assert(is_concluded(inference, false, duration, result));
                result
            },
            Inference::NoState(message) => {
                let text = with_prefix("failed to create whisper state: ", message.as_str());
                let result = Err(TranscriptionError::new(text.as_str()));
                assert(is_concluded(inference, false, duration, result));
                result
            },
            Inference::Ran { outcome, segments, language } => {
                let inferred = Self::inferred(outcome, cancel);
                let ghost cancelled = choose|cancelled: bool| #[trigger]
                    cancel.may_load(cancelled) && is_inferred(outcome, cancelled, inferred);
                let result = match inferred {
                    Ok(_) => Self::assemble(&segments, language, duration),
                    Err(error) => Err(error),
                };
                assert(is_concluded(inference, cancelled, duration, result));
                result
            },
        }
    }

    /// Transcribes a recording. `runner` runs the model under the given settings on the recording,
    /// and asks the token whether to stop. It runs once, and only on input that can be transcribed
    /// and that nobody has cancelled; in every other case it is left alone.
    pub fn transcribe<R: ModelRunner<C>>(
        &self,
        audio: &AudioBuffer,
        options: &TranscriptionOptions,
        cancel: &CancellationToken,
        runner: &mut R,
    ) -> (result: Result<Transcript, TranscriptionError>)
        requires
            forall|runner: &mut R, settings: &InferenceSettings, inference: Inference| #[trigger]
                call_ensures(
                    R::run,
                    (runner, &self.model(), settings, audio, cancel),
                    inference,
                ) ==> inference.has_timestamps(),
        ensures
            match input_error_text(audio) {
                Some(text) => {
                    &&& result matches Err(error) && error@ == text
                    &&& *final(runner) == *old(runner)
                },
                None => {
                    ||| {
                        &&& cancel.may_load(true)
                        &&& result matches Err(error) && error@ == "transcription cancelled"@
                        &&& *final(runner) == *old(runner)
                    }
                    ||| cancel.may_load(false) && exists|
                        before: &mut R,
                        settings: &InferenceSettings,
                        inference: Inference,
                        cancelled: bool,
                    |
                        {
                            &&& *before == *old(runner)
                            &&& *final(before) == *final(runner)
                            &&& settings.follows(self.threads(), options)
                            &&& #[trigger] call_ensures(
                                R::run,
                                (before, &self.model(), settings, audio, cancel),
                                inference,
                            )
                            &&& #[trigger] is_concluded(
                                inference,
                                cancelled,
                                audio.duration,
                                result,
                            )
                            &&& inference is Ran ==> cancel.may_load(cancelled)
                        }
                },
            },
    {
        if let Err(error) = Self::check_input(audio, cancel) {
            return Err(error);
        }
        let settings = self.settings(options);
        let inference = runner.run(self.context(), &settings, audio, cancel);
        Self::conclude(inference, audio.duration, cancel)
    }

    /// Makes a transcript of the segments that inference gave. Segments that are not there are left
    /// out; one without a text is an error, and so is a transcript without any.
    pub fn assemble(
        segments: &Vec<Option<RawSegment>>,
        language: Option<String>,
        duration: Duration,
    ) -> (result: Result<Transcript, TranscriptionError>)
        requires
            have_timestamps(segments@),
        ensures
            is_assembled(present(segments@), language, duration, result),
    {
        let mut text = String::new();
        let mut converted: Vec<TranscriptSegment> = Vec::new();
        let mut i: usize = 0;
        assert(segments@.take(0) == Seq::<Option<RawSegment>>::empty());
        while i < segments.len()
            invariant
                i <= segments@.len(),
                have_timestamps(segments@),
                first_text_error(present(segments@.take(i as int))) is None,
                text@ == whole_text(present(segments@.take(i as int))),
                are_converted(present(segments@.take(i as int)), converted@),
            decreases segments@.len() - i,
        {
            let ghost before = present(segments@.take(i as int));
            let ghost after = present(segments@.take(i + 1));
            assert(segments@.take(i + 1).drop_last() == segments@.take(i as int));
            assert(segments@.take(i + 1).last() == segments@[i as int]);
            if let Some(segment) = &segments[i] {
                assert(after == before.push(*segment));
                assert(after.drop_last() == before);
                match &segment.text {
                    Ok(segment_text) => {
                        text.append(segment_text.as_str());
                        converted.push(
                            TranscriptSegment {
                                start: timestamp_to_duration(segment.start),
                                end: timestamp_to_duration(segment.end),
                                text: segment_text.as_str().to_owned(),
                            },
                        );
                    },
                    Err(message) => {
                        proof {
                            lemma_first_text_error(segments@, i as int);
                        }
                        return Err(
                            TranscriptionError::new(
                                with_prefix("invalid whisper text: ", message.as_str()).as_str(),
                            ),
                        );
                    },
                }
            }
            i += 1;
        }
        assert(segments@.take(i as int) == segments@);
        if text.as_str().is_empty() {
            return Err(TranscriptionError::new("whisper result is empty"));
        }
        Ok(Transcript { text, language, duration, segments: converted })
    }
}

/// What follows the first segment without a text does not matter.
proof fn lemma_first_text_error(segments: Seq<Option<RawSegment>>, n: int)
    requires
        0 <= n < segments.len(),
        first_text_error(present(segments.take(n + 1))) is Some,
    ensures
        first_text_error(present(segments)) == first_text_error(present(segments.take(n + 1))),
    decreases segments.len(),
{
    if n + 1 == segments.len() {
        assert(segments.take(n + 1) == segments);
    } else {
        let rest = segments.drop_last();
        assert(rest.take(n + 1) == segments.take(n + 1));
        lemma_first_text_error(rest, n);
        if segments.last() is Some {
            assert(present(segments).drop_last() == present(rest));
        }
    }
}

/// The text of a transcript is made of the texts of its segments, in order: a transcript of more
/// segments starts with the text of the first ones.
pub proof fn law_transcript_grows_by_segments(segments: Seq<RawSegment>, next: RawSegment)
    ensures
        whole_text(segments.push(next)) == whole_text(segments) + next.text->Ok_0@,
        first_text_error(segments) is Some ==> first_text_error(segments.push(next))
            == first_text_error(segments),
{
    assert(segments.push(next).drop_last() == segments);
}

/// No recognition without text is a success: a transcript has a text.
pub proof fn law_empty_results_are_errors(
    inference: Inference,
    cancelled: bool,
    duration: Duration,
    result: Result<Transcript, TranscriptionError>,
)
    requires
        is_concluded(inference, cancelled, duration, result),
        result is Ok,
    ensures
        result->Ok_0.text@.len() > 0,
        result->Ok_0.segments@.len() > 0,
{
    if let Inference::Ran { segments, .. } = inference {
        assert(whole_text(present(segments@)).len() > 0);
    }
}

/// The model is run as the caller asks: with the language, the prompt, the temperature and the
/// translation of the options, and on as many threads as the transcriber has, as far as they can be
/// counted.
pub proof fn law_settings_carry_the_options_of_the_caller<C>(
    transcriber: WhisperTranscriber<C>,
    options: &TranscriptionOptions,
    settings: InferenceSettings,
)
    requires
        call_ensures(WhisperTranscriber::<C>::settings, (&transcriber, options), settings),
    ensures
        settings.translate <==> options.translate_to_english,
        settings.temperature.bits == options.temperature.bits,
        options.language == LanguageMode::Auto ==> settings.language@ == "auto"@,
        options.language == LanguageMode::Japanese ==> settings.language@ == "ja"@,
        options.language == LanguageMode::English ==> settings.language@ == "en"@,
        settings.initial_prompt is Some <==> options.initial_prompt is Some,
        settings.initial_prompt matches Some(prompt) ==> prompt@
            == options.initial_prompt->0@,
        settings.n_threads <= transcriber.threads(),
        settings.n_threads < i32::MAX ==> settings.n_threads == transcriber.threads(),
        settings.best_of == 5,
        settings.no_timestamps,
        !settings.prints,
{
}

/// The word for each language.
pub proof fn law_languages_have_their_words<C>(language: LanguageMode, word: &'static str)
    requires
        call_ensures(WhisperTranscriber::<C>::language_option, (&language,), word),
    ensures
        language == LanguageMode::Auto ==> word@ == "auto"@,
        language == LanguageMode::Japanese ==> word@ == "ja"@,
        language == LanguageMode::English ==> word@ == "en"@,
{
}

/// By default as many threads are used as the machine runs in parallel, at least one and at most
/// eight; one, where this is not known.
pub proof fn law_threads_follow_the_machine(available: Option<usize>, threads: usize)
    requires
        call_ensures(default_thread_count, (available,), threads),
    ensures
        available is None ==> threads == 1,
        available matches Some(count) ==> {
            &&& 1 <= count <= 8 ==> threads == count
            &&& count > 8 ==> threads == 8
            &&& count == 0 ==> threads == 1
        },
{
}

/// A hundredth of a second is ten million nanoseconds, and a time before the start is the start.
pub proof fn law_timestamps_are_hundredths_of_a_second(centiseconds: i64, duration: Duration)
    requires
        call_ensures(timestamp_to_duration, (centiseconds,), duration),
    ensures
        centiseconds >= 0 ==> duration@ == centiseconds * 10_000_000,
        centiseconds < 0 ==> duration@ == 0,
{
    assert(centiseconds >= 0 ==> centiseconds as nat * 10 * 1_000_000 == centiseconds
        * 10_000_000);
}

/// A transcriber has a thread and the model that was loaded; without one it is not made.
pub proof fn law_transcribers_have_a_model_and_threads<C>(
    loaded: Result<C, String>,
    threads: usize,
    checked: Result<(), TranscriptionError>,
    result: Result<WhisperTranscriber<C>, TranscriptionError>,
)
    requires
        call_ensures(WhisperTranscriber::<C>::check_threads, (threads,), checked),
        call_ensures(WhisperTranscriber::<C>::from_loaded, (loaded, threads), result),
    ensures
        checked is Ok <==> threads > 0,
        checked matches Err(error) ==> error@ == "whisper thread count must be positive"@,
        result is Ok <==> threads > 0 && loaded is Ok,
        result matches Ok(transcriber) ==> transcriber.model() == loaded->Ok_0
            && transcriber.threads() == threads,
        threads == 0 ==> (result matches Err(error) && error@
            == "whisper thread count must be positive"@),
        threads > 0 && loaded is Err ==> (result matches Err(error) && error@
            == "failed to load whisper model: "@ + loaded->Err_0@),
{
}

/// Audio is transcribed where it has samples, 16000 of them a second in one channel, and nobody has
/// cancelled.
pub proof fn law_input_is_16khz_mono<C>(
    audio: &AudioBuffer,
    cancel: &CancellationToken,
    result: Result<(), TranscriptionError>,
)
    requires
        call_ensures(WhisperTranscriber::<C>::check_input, (audio, cancel), result),
    ensures
        audio.sample_rate_hz != 16_000 || audio.channels != 1 ==> (result matches Err(error)
            && error@ == "whisper input must be 16kHz mono PCM"@),
        audio.sample_rate_hz == 16_000 && audio.channels == 1 && audio.samples@.len() == 0 ==> (
        result matches Err(error) && error@ == "whisper input is empty"@),
        audio.sample_rate_hz == 16_000 && audio.channels == 1 && audio.samples@.len() > 0
            ==> match result {
            Ok(_) => cancel.may_load(false),
            Err(error) => cancel.may_load(true) && error@ == "transcription cancelled"@,
        },
{
}

/// The segments that are there are the present ones, in order.
proof fn lemma_present(segments: Seq<Option<RawSegment>>)
    ensures
        present(segments).len() == segments.filter(|s: Option<RawSegment>| s is Some).len(),
        forall|i: int|
            0 <= i < present(segments).len() ==> Some(#[trigger] present(segments)[i])
                == segments.filter(|s: Option<RawSegment>| s is Some)[i],
    decreases segments.len(),
{
    reveal(Seq::filter);
    if segments.len() > 0 {
        lemma_present(segments.drop_last());
    }
}

/// The whole text is the texts of the segments put together.
proof fn lemma_whole_text(segments: Seq<RawSegment>, parts: Seq<Seq<char>>)
    requires
        parts.len() == segments.len(),
        forall|i: int| 0 <= i < parts.len() ==> #[trigger] parts[i] == segments[i].text->Ok_0@,
    ensures
        whole_text(segments) == parts.flatten(),
    decreases segments.len(),
{
    if segments.len() == 0 {
        assert(parts.flatten() == Seq::<char>::empty());
    } else {
        lemma_whole_text(segments.drop_last(), parts.drop_last());
        parts.lemma_flatten_and_flatten_alt_are_equivalent();
        parts.drop_last().lemma_flatten_and_flatten_alt_are_equivalent();
    }
}

/// Where no segment lacks its text there is no error, and else it is that of the first one.
proof fn lemma_first_error(segments: Seq<RawSegment>)
    ensures
        match first_text_error(segments) {
            None => forall|i: int| 0 <= i < segments.len() ==> (#[trigger] segments[i]).text is Ok,
            Some(message) => exists|i: int|
                {
                    &&& 0 <= i < segments.len()
                    &&& (#[trigger] segments[i]).text matches Err(text) && text@ == message
                    &&& forall|j: int| 0 <= j < i ==> (#[trigger] segments[j]).text is Ok
                },
        },
    decreases segments.len(),
{
    if segments.len() > 0 {
        let rest = segments.drop_last();
        lemma_first_error(rest);
        match first_text_error(rest) {
            None => {
                assert forall|i: int| 0 <= i < rest.len() implies (
                #[trigger] segments[i]).text is Ok by {
                    assert(rest[i].text is Ok);
                }
                if segments.last().text is Err {
                    assert(segments[segments.len() - 1].text is Err);
                }
            },
            Some(message) => {
                let i = choose|i: int|
                    {
                        &&& 0 <= i < rest.len()
                        &&& (#[trigger] rest[i]).text matches Err(text) && text@ == message
                        &&& forall|j: int| 0 <= j < i ==> (#[trigger] rest[j]).text is Ok
                    };
                assert(segments[i] == rest[i]);
                assert forall|j: int| 0 <= j < i implies (#[trigger] segments[j]).text is Ok by {
                    assert(rest[j].text is Ok);
                }
            },
        }
    }
}

/// A transcript has one segment for each one that the model found, in order, with its text and its
/// times; its text is the texts of these segments put together, and is not empty. It has the
/// language and the length that were given. Where there is no transcript, the first segment without
/// a text says why, or none of them has a character.
pub proof fn law_transcripts_hold_what_the_model_found<C>(
    segments: &Vec<Option<RawSegment>>,
    language: Option<String>,
    duration: Duration,
    result: Result<Transcript, TranscriptionError>,
)
    requires
        call_ensures(WhisperTranscriber::<C>::assemble, (segments, language, duration), result),
    ensures
        result matches Ok(transcript) ==> {
            let found = segments@.filter(|s: Option<RawSegment>| s is Some);
            &&& transcript.language == language
            &&& transcript.duration == duration
            &&& transcript.text@.len() > 0
            &&& transcript.text@ == Seq::new(
                transcript.segments@.len(),
                |i: int| transcript.segments@[i].text@,
            ).flatten()
            &&& transcript.segments@.len() == found.len()
            &&& forall|i: int|
                0 <= i < found.len() ==> {
                    &&& (#[trigger] transcript.segments@[i]).text@ == found[i]->0.text->Ok_0@
                    &&& found[i]->0.text is Ok
                    &&& found[i]->0.start >= 0 ==> transcript.segments@[i].start@
                        == found[i]->0.start * 10_000_000
                    &&& found[i]->0.end >= 0 ==> transcript.segments@[i].end@ == found[i]->0.end
                        * 10_000_000
                    &&& found[i]->0.start < 0 ==> transcript.segments@[i].start@ == 0
                    &&& found[i]->0.end < 0 ==> transcript.segments@[i].end@ == 0
                }
        },
        result matches Err(error) ==> {
            let found = segments@.filter(|s: Option<RawSegment>| s is Some);
            ||| exists|i: int|
                {
                    &&& 0 <= i < found.len()
                    &&& (#[trigger] found[i])->0.text matches Err(message) && error@
                        == "invalid whisper text: "@ + message@
                    &&& forall|j: int| 0 <= j < i ==> (#[trigger] found[j])->0.text is Ok
                }
            ||| {
                &&& error@ == "whisper result is empty"@
                &&& forall|i: int|
                    0 <= i < found.len() ==> ((#[trigger] found[i])->0.text matches Ok(text)
                        && text@.len() == 0)
            }
        },
{
    let found = segments@.filter(|s: Option<RawSegment>| s is Some);
    let raw = present(segments@);
    lemma_present(segments@);
    lemma_first_error(raw);
    match result {
        Ok(transcript) => {
            let parts = Seq::new(
                transcript.segments@.len(),
                |i: int| transcript.segments@[i].text@,
            );
            assert forall|i: int| 0 <= i < parts.len() implies #[trigger] parts[i]
                == raw[i].text->Ok_0@ by {
                assert(transcript.segments@[i].text@ == raw[i].text->Ok_0@);
            }
            lemma_whole_text(raw, parts);
            assert forall|i: int| 0 <= i < found.len() implies {
                &&& (#[trigger] transcript.segments@[i]).text@ == found[i]->0.text->Ok_0@
                &&& found[i]->0.text is Ok
                &&& found[i]->0.start >= 0 ==> transcript.segments@[i].start@
                    == found[i]->0.start * 10_000_000
                &&& found[i]->0.end >= 0 ==> transcript.segments@[i].end@ == found[i]->0.end
                    * 10_000_000
                &&& found[i]->0.start < 0 ==> transcript.segments@[i].start@ == 0
                &&& found[i]->0.end < 0 ==> transcript.segments@[i].end@ == 0
            } by {
                assert(Some(raw[i]) == found[i]);
                assert(raw[i].text is Ok);
            }
        },
        Err(error) => {
            match first_text_error(raw) {
                Some(message) => {
                    let i = choose|i: int|
                        {
                            &&& 0 <= i < raw.len()
                            &&& (#[trigger] raw[i]).text matches Err(text) && text@ == message
                            &&& forall|j: int| 0 <= j < i ==> (#[trigger] raw[j]).text is Ok
                        };
                    assert(Some(raw[i]) == found[i]);
                    assert forall|j: int| 0 <= j < i implies (
                    #[trigger] found[j])->0.text is Ok by {
                        assert(Some(raw[j]) == found[j]);
                    }
                },
                None => {
                    assert forall|i: int| 0 <= i < found.len() implies ((
                    #[trigger] found[i])->0.text matches Ok(text) && text@.len() == 0) by {
                        assert(Some(raw[i]) == found[i]);
                        assert(raw[i].text is Ok);
                        lemma_empty_whole_text(raw, i);
                    }
                },
            }
        },
    }
}

/// Segments without any text between them have none each.
proof fn lemma_empty_whole_text(segments: Seq<RawSegment>, i: int)
    requires
        whole_text(segments).len() == 0,
        0 <= i < segments.len(),
    ensures
        segments[i].text->Ok_0@.len() == 0,
    decreases segments.len(),
{
    if i < segments.len() - 1 {
        lemma_empty_whole_text(segments.drop_last(), i);
    }
}

/// A cancellation wins over what came of the model, and an error of the model over its segments; what
/// is left is made a transcript of the length of the recording.
pub proof fn law_models_are_concluded_in_order<C>(
    inference: Inference,
    duration: Duration,
    cancel: &CancellationToken,
    result: Result<Transcript, TranscriptionError>,
)
    requires
        call_ensures(
            WhisperTranscriber::<C>::conclude,
            (inference, duration, cancel),
            result,
        ),
    ensures
        inference is Poisoned ==> (result matches Err(error) && error@
            == "whisper context mutex is poisoned"@),
        inference matches Inference::NoState(message) ==> (result matches Err(error) && error@
            == "failed to create whisper state: "@ + message@),
        inference matches Inference::Ran { outcome, segments, language } ==> {
            ||| cancel.may_load(true) && (result matches Err(error) && error@
                == "transcription cancelled"@)
            ||| cancel.may_load(false) && match outcome {
                Err(message) => result matches Err(error) && error@
                    == "whisper transcription failed: "@ + message@,
                Ok(_) => is_assembled(present(segments@), language, duration, result),
            }
        },
        result matches Ok(transcript) ==> transcript.duration == duration && cancel.may_load(
            false,
        ),
{
}

/// What comes of the outcome of a model: a cancellation wins, and else the outcome stands.
pub proof fn law_cancellations_win_over_outcomes<C>(
    outcome: Result<(), String>,
    cancel: &CancellationToken,
    result: Result<(), TranscriptionError>,
)
    requires
        call_ensures(WhisperTranscriber::<C>::inferred, (outcome, cancel), result),
    ensures
        result is Ok ==> outcome is Ok && cancel.may_load(false),
        result matches Err(error) ==> {
            ||| cancel.may_load(true) && error@ == "transcription cancelled"@
            ||| cancel.may_load(false) && (outcome matches Err(message) && error@
                == "whisper transcription failed: "@ + message@)
        },
{
}

/// A recording is transcribed by one run of the model of the transcriber on this recording, under
/// settings that carry the options of the caller; what the caller gets is what came of it. Audio that
/// cannot be transcribed, and a request that was cancelled before, run nothing.
pub proof fn law_models_run_under_the_options_of_the_caller<C, R: ModelRunner<C>>(
    transcriber: WhisperTranscriber<C>,
    audio: &AudioBuffer,
    options: &TranscriptionOptions,
    cancel: &CancellationToken,
    before: R,
    result: Result<Transcript, TranscriptionError>,
    after: R,
)
    requires
        exists|runner: &mut R|
            *runner == before && *final(runner) == after && #[trigger] call_ensures(
                WhisperTranscriber::<C>::transcribe::<R>,
                (&transcriber, audio, options, cancel, runner),
                result,
            ),
    ensures
        audio.sample_rate_hz != 16_000 || audio.channels != 1 ==> after == before && (
        result matches Err(error) && error@ == "whisper input must be 16kHz mono PCM"@),
        audio.sample_rate_hz == 16_000 && audio.channels == 1 && audio.samples@.len() == 0
            ==> after == before && (result matches Err(error) && error@
            == "whisper input is empty"@),
        audio.sample_rate_hz == 16_000 && audio.channels == 1 && audio.samples@.len() > 0 ==> {
            ||| after == before && cancel.may_load(true) && (result matches Err(error) && error@
                == "transcription cancelled"@)
            ||| exists|runner: &mut R, settings: &InferenceSettings, inference: Inference|
                {
                    &&& *runner == before
                    &&& *final(runner) == after
                    &&& #[trigger] call_ensures(
                        R::run,
                        (runner, &transcriber.model(), settings, audio, cancel),
                        inference,
                    )
                    &&& settings.translate == options.translate_to_english
                    &&& settings.temperature == options.temperature
                    &&& options.language == LanguageMode::Auto ==> settings.language@ == "auto"@
                    &&& options.language == LanguageMode::Japanese ==> settings.language@ == "ja"@
                    &&& options.language == LanguageMode::English ==> settings.language@ == "en"@
                    &&& settings.initial_prompt is Some <==> options.initial_prompt is Some
                    &&& settings.initial_prompt matches Some(prompt) ==> prompt@
                        == options.initial_prompt->0@
                    &&& settings.n_threads <= transcriber.threads()
                    &&& cancel.may_load(false)
                    &&& result matches Ok(transcript) ==> (inference matches Inference::Ran {
                        outcome,
                        ..
                    } && outcome is Ok) && transcript.duration == audio.duration
                    &&& inference is Poisoned ==> (result matches Err(error) && error@
                        == "whisper context mutex is poisoned"@)
                    &&& inference matches Inference::NoState(message) ==> (
                    result matches Err(error) && error@ == "failed to create whisper state: "@
                        + message@)
                    &&& inference matches Inference::Ran { outcome, segments, language } ==> {
                        ||| cancel.may_load(true) && (result matches Err(error) && error@
                            == "transcription cancelled"@)
                        ||| match outcome {
                            Err(message) => result matches Err(error) && error@
                                == "whisper transcription failed: "@ + message@,
                            Ok(_) => is_assembled(
                                present(segments@),
                                language,
                                audio.duration,
                                result,
                            ),
                        }
                    }
                }
        },
        result is Ok ==> cancel.may_load(false),
{
}

} // verus!
