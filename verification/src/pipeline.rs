//! Runs a session through its stages: record, transcribe, process, send.

use vstd::prelude::*;

use crate::cancellation::CancellationToken;
use crate::error::{
    AppError, PostProcessError, RecorderError, SinkError, TranscriptionError,
};
use crate::model::{
    AudioBuffer, OutputContext, ProcessedText, ProcessingContext, RecordingOptions, SendReceipt,
    Transcript, TranscriptionOptions,
};
use crate::post_process::{
    law_processing_keeps_visible_text, processed, visible, DeterministicPostProcessor,
};
use crate::session::{
    law_session_ids_are_distinct, session_id, Session, SessionState, SessionView,
};
use crate::text::decimal;
use crate::traits::{PostProcessor, Recorder, TextSink, Transcriber};

verus! {

/// Runs one session at a time over a recorder, a transcriber, a post-processor and a sink.
pub struct SessionCoordinator<R: Recorder, T: Transcriber, P: PostProcessor, S: TextSink> {
    recorder: R,
    transcriber: T,
    post_processor: P,
    sink: S,
    session: Session,
}

/// What the stages returned while a recording was stopped and sent, and what the token said in
/// between. A stage that was not reached says nothing.
pub struct StopTrace {
    /// What the recorder returned.
    pub stopped: Result<AudioBuffer, RecorderError>,
    /// What the transcriber returned.
    pub transcribed: Result<Transcript, TranscriptionError>,
    /// Whether cancellation had been requested when the transcriber returned.
    pub cancelled_after_transcription: bool,
    /// What the post-processor returned.
    pub processed: Result<ProcessedText, PostProcessError>,
    /// Whether cancellation had been requested right before sending.
    pub cancelled_before_sending: bool,
    /// What the sink returned.
    pub sent: Result<SendReceipt, SinkError>,
}

impl StopTrace {
    /// The recording was handed over, so that it was transcribed.
    pub open spec fn reaches_transcription(self) -> bool {
        self.stopped is Ok
    }

    /// The transcript was there and nobody had cancelled, so that it was processed.
    pub open spec fn reaches_processing(self) -> bool {
        self.reaches_transcription() && self.transcribed is Ok
            && !self.cancelled_after_transcription
    }

    /// The processed text was there and not empty, so that the token was asked once more.
    pub open spec fn reaches_last_check(self) -> bool {
        self.reaches_processing() && (self.processed matches Ok(text) && text.text@.len() > 0)
    }

    /// Nobody had cancelled, so that the text was sent.
    pub open spec fn reaches_sending(self) -> bool {
        self.reaches_last_check() && !self.cancelled_before_sending
    }

    /// What the caller gets.
    pub open spec fn result(self) -> Result<SendReceipt, AppError> {
        if self.stopped is Err {
            Err(AppError::Recorder(self.stopped->Err_0))
        } else if self.cancelled_after_transcription {
            Err(AppError::Cancelled)
        } else if self.transcribed is Err {
            Err(AppError::Transcription(self.transcribed->Err_0))
        } else if self.processed is Err {
            Err(AppError::PostProcess(self.processed->Err_0))
        } else if self.processed->Ok_0.text@.len() == 0 {
            Err(AppError::EmptyTranscript)
        } else if self.cancelled_before_sending {
            Err(AppError::Cancelled)
        } else {
            match self.sent {
                Ok(receipt) => Ok(receipt),
                Err(error) => Err(AppError::Sink(error)),
            }
        }
    }

    /// What the session becomes: it is over after a success and after a cancellation, and failed
    /// otherwise.
    pub open spec fn session_after(self, before: SessionView) -> SessionView {
        match self.result() {
            Ok(_) => before.cleared(),
            Err(AppError::Cancelled) => before.cleared(),
            Err(_) => before.in_state(SessionState::Failed),
        }
    }
}

/// What comes of starting a recording, where the recorder returned `outcome`: the next number is
/// taken, and the session records under its name or has failed.
pub open spec fn started(
    before: SessionView,
    outcome: Result<(), RecorderError>,
    result: Result<(), AppError>,
    after: SessionView,
) -> bool {
    &&& after.next_number == before.next_number + 1
    &&& match outcome {
        Ok(_) => {
            &&& result == Ok::<(), AppError>(())
            &&& after.state == SessionState::Recording
            &&& after.context matches Some(context) && context.session_id@ == session_id(
                before.next_number,
            ) && context.is_untargeted()
        },
        Err(error) => {
            &&& result == Err::<(), AppError>(AppError::Recorder(error))
            &&& after.state == SessionState::Failed
            &&& after.context == before.context
        },
    }
}

/// What comes of discarding the recording, where the recorder returned `outcome`: the session is
/// over or has failed.
pub open spec fn discarded(
    before: SessionView,
    outcome: Result<(), RecorderError>,
    result: Result<(), AppError>,
    after: SessionView,
) -> bool {
    match outcome {
        Ok(_) => {
            &&& result == Ok::<(), AppError>(())
            &&& after == before.cleared()
        },
        Err(error) => {
            &&& result == Err::<(), AppError>(AppError::Recorder(error))
            &&& after == before.in_state(SessionState::Failed)
        },
    }
}

/// What comes of asking a session to leave the failed state.
pub open spec fn was_reset(
    before: SessionView,
    result: Result<(), AppError>,
    after: SessionView,
) -> bool {
    if before.state == SessionState::Failed {
        &&& result == Ok::<(), AppError>(())
        &&& after == before.cleared()
    } else {
        &&& result == Err::<(), AppError>(
            AppError::InvalidState { expected: SessionState::Failed, actual: before.state },
        )
        &&& after == before
    }
}

impl<R: Recorder, T: Transcriber, P: PostProcessor, S: TextSink> SessionCoordinator<R, T, P, S> {
    /// The state machine.
    pub closed spec fn session(&self) -> SessionView {
        self.session@
    }

    /// The recorder.
    pub closed spec fn recorder(&self) -> R {
        self.recorder
    }

    /// The transcriber.
    pub closed spec fn transcriber(&self) -> T {
        self.transcriber
    }

    /// The post-processor.
    pub closed spec fn post_processor(&self) -> P {
        self.post_processor
    }

    /// The sink.
    pub closed spec fn sink(&self) -> S {
        self.sink
    }

    /// All stages but the recorder are as they were in `other`.
    pub open spec fn keeps_other_stages(&self, other: &Self) -> bool {
        &&& self.transcriber() == other.transcriber()
        &&& self.post_processor() == other.post_processor()
        &&& self.sink() == other.sink()
    }

    /// Nothing differs from `other`.
    pub open spec fn is_same(&self, other: &Self) -> bool {
        &&& self.session() == other.session()
        &&& self.recorder() == other.recorder()
        &&& self.keeps_other_stages(other)
    }

    /// The request was refused, because the session was not in the state `expected`.
    pub open spec fn refused<A>(
        before: &Self,
        expected: SessionState,
        result: Result<A, AppError>,
        after: &Self,
    ) -> bool {
        &&& result == Err::<A, AppError>(
            AppError::InvalidState { expected, actual: before.session().state },
        )
        &&& after.is_same(before)
    }

    /// The stages between the recorder and the sink returned what `trace` says, each called with
    /// what the stage before it returned, and `result` and the session follow from it.
    pub open spec fn stopped(
        before: &Self,
        transcription_options: &TranscriptionOptions,
        processing_context: &ProcessingContext,
        cancel: &CancellationToken,
        trace: StopTrace,
        result: Result<SendReceipt, AppError>,
        after: &Self,
    ) -> bool {
        &&& trace.reaches_transcription() ==> call_ensures(
            T::transcribe,
            (&before.transcriber(), &trace.stopped->Ok_0, transcription_options, cancel),
            trace.transcribed,
        ) && cancel.may_load(trace.cancelled_after_transcription)
        &&& trace.reaches_processing() ==> call_ensures(
            P::process,
            (&before.post_processor(), trace.transcribed->Ok_0, processing_context),
            trace.processed,
        )
        &&& trace.reaches_last_check() ==> cancel.may_load(trace.cancelled_before_sending)
        &&& result == trace.result()
        &&& after.session() == trace.session_after(before.session())
        &&& after.transcriber() == before.transcriber()
        &&& after.post_processor() == before.post_processor()
        &&& trace.reaches_sending() || after.sink() == before.sink()
    }

    /// A coordinator over the given stages, with no session running.
    pub fn new(recorder: R, transcriber: T, post_processor: P, sink: S) -> (coordinator: Self)
        ensures
            coordinator.session() == (SessionView {
                state: SessionState::Idle,
                context: None,
                next_number: 1,
            }),
            coordinator.recorder() == recorder,
            coordinator.transcriber() == transcriber,
            coordinator.post_processor() == post_processor,
            coordinator.sink() == sink,
    {
        SessionCoordinator { recorder, transcriber, post_processor, sink, session: Session::new() }
    }

    /// The state of the session.
    pub fn state(&self) -> (state: SessionState)
        ensures
            state == self.session().state,
            self.session().is_consistent(),
    {
        self.session.state()
    }

    /// The context of the running session.
    pub fn current_context(&self) -> (context: Option<&OutputContext>)
        ensures
            context == match self.session().context {
                Some(context) => Some(&context),
                None => None,
            },
    {
        self.session.current_context()
    }

    /// The number that the next session gets.
    pub fn next_session_number(&self) -> (number: u64)
        ensures
            number == self.session().next_number,
    {
        self.session.next_session_number()
    }

    /// Starts a recording, unless a session is running.
    pub fn start_recording(&mut self, options: &RecordingOptions) -> (result: Result<(), AppError>)
        requires
            old(self).session().state == SessionState::Idle ==> old(self).session().next_number
                < u64::MAX,
        ensures
            old(self).session().state != SessionState::Idle ==> Self::refused(
                old(self),
                SessionState::Idle,
                result,
                final(self),
            ),
            old(self).session().state == SessionState::Idle ==> exists|
                recorder: &mut R,
                outcome: Result<(), RecorderError>,
            |
                *recorder == old(self).recorder() && *final(recorder) == final(self).recorder()
                    && #[trigger] call_ensures(R::start, (recorder, options), outcome)
                    && started(old(self).session(), outcome, result, final(self).session()),
            final(self).keeps_other_stages(old(self)),
            old(self).session().is_at_rest() ==> final(self).session().is_at_rest(),
    {
        if let Err(error) = self.session.require_state(SessionState::Idle) {
            return Err(error);
        }
        let context = self.session.next_context();
        let outcome = self.recorder.start(options);
        self.session.recording_started(context, outcome)
    }

    /// Discards the recording.
    pub fn cancel_recording(&mut self) -> (result: Result<(), AppError>)
        ensures
            old(self).session().state != SessionState::Recording ==> Self::refused(
                old(self),
                SessionState::Recording,
                result,
                final(self),
            ),
            old(self).session().state == SessionState::Recording ==> exists|
                recorder: &mut R,
                outcome: Result<(), RecorderError>,
            |
                *recorder == old(self).recorder() && *final(recorder) == final(self).recorder()
                    && #[trigger] call_ensures(R::cancel, (recorder,), outcome) && discarded(
                    old(self).session(),
                    outcome,
                    result,
                    final(self).session(),
                ),
            final(self).keeps_other_stages(old(self)),
            old(self).session().is_at_rest() ==> final(self).session().is_at_rest(),
    {
        if let Err(error) = self.session.require_state(SessionState::Recording) {
            return Err(error);
        }
        let outcome = self.recorder.cancel();
        self.session.recording_cancelled(outcome)
    }

    /// Ends the recording, transcribes and processes it and sends its text.
    ///
    /// A cancellation that is seen before the text is sent ends the session without a text; one
    /// that comes later changes nothing. An empty text is not sent.
    pub fn stop_and_send(
        &mut self,
        transcription_options: &TranscriptionOptions,
        processing_context: &ProcessingContext,
        cancel: &CancellationToken,
    ) -> (result: Result<SendReceipt, AppError>)
        ensures
            old(self).session().state != SessionState::Recording ==> Self::refused(
                old(self),
                SessionState::Recording,
                result,
                final(self),
            ),
            old(self).session().state == SessionState::Recording ==> exists|
                recorder: &mut R,
                trace: StopTrace,
            |
                {
                    &&& *recorder == old(self).recorder()
                    &&& *final(recorder) == final(self).recorder()
                    &&& #[trigger] call_ensures(R::stop, (recorder,), trace.stopped)
                    &&& #[trigger] Self::stopped(
                        old(self),
                        transcription_options,
                        processing_context,
                        cancel,
                        trace,
                        result,
                        final(self),
                    )
                    &&& trace.reaches_sending() ==> exists|sink: &mut S|
                        *sink == old(self).sink() && *final(sink) == final(self).sink()
                            && #[trigger] call_ensures(
                            S::send,
                            (sink, &trace.processed->Ok_0, &old(self).session().context->0),
                            trace.sent,
                        )
                },
            old(self).session().is_at_rest() ==> final(self).session().is_at_rest(),
    {
        if let Err(error) = self.session.require_state(SessionState::Recording) {
            return Err(error);
        }
        let ghost mut trace: StopTrace = arbitrary();
        let outcome = self.recorder.stop();
        proof {
            trace.stopped = outcome;
        }
        let audio = match self.session.recording_stopped(outcome) {
            Ok(audio) => audio,
            Err(error) => {
                let result = Err(error);
                assert(Self::stopped(
                    old(self),
                    transcription_options,
                    processing_context,
                    cancel,
                    trace,
                    result,
                    self,
                ));
                return result;
            },
        };
        let outcome = self.transcriber.transcribe(&audio, transcription_options, cancel);
        let cancelled = cancel.is_cancelled();
        proof {
            trace.transcribed = outcome;
            trace.cancelled_after_transcription = cancelled;
        }
        let transcript = match self.session.transcribed(outcome, cancelled) {
            Ok(transcript) => transcript,
            Err(error) => {
                let result = Err(error);
                assert(Self::stopped(
                    old(self),
                    transcription_options,
                    processing_context,
                    cancel,
                    trace,
                    result,
                    self,
                ));
                return result;
            },
        };
        let outcome = self.post_processor.process(transcript, processing_context);
        proof {
            trace.processed = outcome;
        }
        let processed = match self.session.post_processed(outcome) {
            Ok(processed) => processed,
            Err(error) => {
                let result = Err(error);
                assert(Self::stopped(
                    old(self),
                    transcription_options,
                    processing_context,
                    cancel,
                    trace,
                    result,
                    self,
                ));
                return result;
            },
        };
        let cancelled = cancel.is_cancelled();
        proof {
            trace.cancelled_before_sending = cancelled;
        }
        if let Err(error) = self.session.about_to_send(cancelled) {
            let result = Err(error);
            assert(Self::stopped(
                old(self),
                transcription_options,
                processing_context,
                cancel,
                trace,
                result,
                self,
            ));
            return result;
        }
        let context = self.session.current_context().unwrap();
        let outcome = self.sink.send(&processed, context);
        proof {
            trace.sent = outcome;
        }
        let result = self.session.sent(outcome);
        assert(Self::stopped(
            old(self),
            transcription_options,
            processing_context,
            cancel,
            trace,
            result,
            self,
        ));
        result
    }

    /// Leaves the failed state.
    pub fn reset(&mut self) -> (result: Result<(), AppError>)
        ensures
            was_reset(old(self).session(), result, final(self).session()),
            final(self).recorder() == old(self).recorder(),
            final(self).keeps_other_stages(old(self)),
            old(self).session().is_at_rest() ==> final(self).session().is_at_rest(),
    {
        self.session.reset()
    }
}

/// A session that succeeds or is cancelled is over: the next one can start. Every other end leaves
/// the session failed, until it is reset.
pub proof fn law_every_end_is_final(before: SessionView, trace: StopTrace)
    ensures
        trace.result() is Ok || trace.result() == Err::<SendReceipt, AppError>(
            AppError::Cancelled,
        ) ==> trace.session_after(before).state == SessionState::Idle && trace.session_after(
            before,
        ).context is None,
        trace.result() matches Err(error) && error != AppError::Cancelled
            ==> trace.session_after(before).state == SessionState::Failed,
        trace.session_after(before).is_at_rest(),
        before.is_consistent() && before.state != SessionState::Idle ==> trace.session_after(
            before,
        ).is_consistent(),
        trace.session_after(before).next_number == before.next_number,
{
}

/// A text that the sink took stays sent: no cancellation turns the success into an error.
pub proof fn law_sent_text_stays_sent(trace: StopTrace)
    requires
        trace.reaches_sending(),
    ensures
        trace.result() == match trace.sent {
            Ok(receipt) => Ok::<SendReceipt, AppError>(receipt),
            Err(error) => Err(AppError::Sink(error)),
        },
{
}

/// A request that ends with `Cancelled` or `EmptyTranscript` has sent nothing.
pub proof fn law_nothing_is_sent_after_cancellation(trace: StopTrace)
    ensures
        trace.result() == Err::<SendReceipt, AppError>(AppError::Cancelled)
            ==> !trace.reaches_sending(),
        trace.result() == Err::<SendReceipt, AppError>(AppError::EmptyTranscript)
            ==> !trace.reaches_sending(),
        trace.reaches_sending() ==> trace.processed->Ok_0.text@.len() > 0,
{
}

/// A recording that was discarded and a failure that was reset make room for the next session: the
/// coordinator is idle, without a context, and the numbering goes on.
pub proof fn law_sessions_can_follow_each_other(
    before: SessionView,
    outcome: Result<(), RecorderError>,
    result: Result<(), AppError>,
    after: SessionView,
)
    requires
        discarded(before, outcome, result, after) || was_reset(before, result, after),
        result is Ok,
    ensures
        after.state == SessionState::Idle,
        after.context is None,
        after.next_number == before.next_number,
{
}

/// Two sessions that are started one after the other have different names.
pub proof fn law_started_sessions_have_names_of_their_own(
    first: SessionView,
    second: SessionView,
    after_first: SessionView,
    after_second: SessionView,
)
    requires
        started(first, Ok(()), Ok(()), after_first),
        started(second, Ok(()), Ok(()), after_second),
        second.next_number >= after_first.next_number,
    ensures
        after_first.context->0.session_id@ != after_second.context->0.session_id@,
{
    law_session_ids_are_distinct(first.next_number, second.next_number);
}

/// A session that is asked to stop where nothing is being recorded says so and is left alone, with
/// all its stages.
pub proof fn law_only_recordings_are_stopped<
    R: Recorder,
    T: Transcriber,
    P: PostProcessor,
    S: TextSink,
>(
    before: SessionCoordinator<R, T, P, S>,
    transcription_options: &TranscriptionOptions,
    processing_context: &ProcessingContext,
    cancel: &CancellationToken,
    result: Result<SendReceipt, AppError>,
    after: SessionCoordinator<R, T, P, S>,
)
    requires
        exists|coordinator: &mut SessionCoordinator<R, T, P, S>|
            *coordinator == before && *final(coordinator) == after && #[trigger] call_ensures(
                SessionCoordinator::<R, T, P, S>::stop_and_send,
                (coordinator, transcription_options, processing_context, cancel),
                result,
            ),
        before.session().state != SessionState::Recording,
    ensures
        result == Err::<SendReceipt, AppError>(
            AppError::InvalidState {
                expected: SessionState::Recording,
                actual: before.session().state,
            },
        ),
        after.session() == before.session(),
        after.recorder() == before.recorder(),
        after.transcriber() == before.transcriber(),
        after.post_processor() == before.post_processor(),
        after.sink() == before.sink(),
{
}

/// A text that was sent is that of the recording: the recorder handed the audio over, the
/// transcriber turned it into a transcript under the options of the caller, the post-processor made
/// the text of it under the context of the caller, and the sink got this text, which is not empty,
/// once, for the session under whose name it was recorded. The session is then over.
pub proof fn law_sent_text_is_that_of_the_recording<
    R: Recorder,
    T: Transcriber,
    P: PostProcessor,
    S: TextSink,
>(
    before: SessionCoordinator<R, T, P, S>,
    transcription_options: &TranscriptionOptions,
    processing_context: &ProcessingContext,
    cancel: &CancellationToken,
    receipt: SendReceipt,
    after: SessionCoordinator<R, T, P, S>,
)
    requires
        exists|coordinator: &mut SessionCoordinator<R, T, P, S>|
            *coordinator == before && *final(coordinator) == after && #[trigger] call_ensures(
                SessionCoordinator::<R, T, P, S>::stop_and_send,
                (coordinator, transcription_options, processing_context, cancel),
                Ok::<SendReceipt, AppError>(receipt),
            ),
    ensures
        before.session().state == SessionState::Recording,
        exists|
            recorder: &mut R,
            audio: AudioBuffer,
            transcript: Transcript,
            text: ProcessedText,
            sink: &mut S,
        |
            {
                &&& *recorder == before.recorder()
                &&& *final(recorder) == after.recorder()
                &&& #[trigger] call_ensures(
                    R::stop,
                    (recorder,),
                    Ok::<AudioBuffer, RecorderError>(audio),
                )
                &&& #[trigger] call_ensures(
                    T::transcribe,
                    (&before.transcriber(), &audio, transcription_options, cancel),
                    Ok::<Transcript, TranscriptionError>(transcript),
                )
                &&& #[trigger] call_ensures(
                    P::process,
                    (&before.post_processor(), transcript, processing_context),
                    Ok::<ProcessedText, PostProcessError>(text),
                )
                &&& text.text@.len() > 0
                &&& *sink == before.sink()
                &&& *final(sink) == after.sink()
                &&& #[trigger] call_ensures(
                    S::send,
                    (sink, &text, &before.session().context->0),
                    Ok::<SendReceipt, SinkError>(receipt),
                )
            },
        cancel.may_load(false),
        after.session().state == SessionState::Idle,
        after.session().context is None,
        after.session().next_number == before.session().next_number,
{
}

/// With deterministic post-processing, the text that the sink got is the transcript processed under
/// the context that the caller passed: it ends as this context asks, and where this context holds no
/// dictionary its words are those of the transcript.
pub proof fn law_sent_text_follows_the_context_of_the_caller<
    R: Recorder,
    T: Transcriber,
    S: TextSink,
>(
    before: SessionCoordinator<R, T, DeterministicPostProcessor, S>,
    transcription_options: &TranscriptionOptions,
    processing_context: &ProcessingContext,
    cancel: &CancellationToken,
    receipt: SendReceipt,
    after: SessionCoordinator<R, T, DeterministicPostProcessor, S>,
)
    requires
        exists|coordinator: &mut SessionCoordinator<R, T, DeterministicPostProcessor, S>|
            *coordinator == before && *final(coordinator) == after && #[trigger] call_ensures(
                SessionCoordinator::<R, T, DeterministicPostProcessor, S>::stop_and_send,
                (coordinator, transcription_options, processing_context, cancel),
                Ok::<SendReceipt, AppError>(receipt),
            ),
    ensures
        exists|audio: AudioBuffer, transcript: Transcript, text: ProcessedText, sink: &mut S|
            {
                &&& #[trigger] call_ensures(
                    T::transcribe,
                    (&before.transcriber(), &audio, transcription_options, cancel),
                    Ok::<Transcript, TranscriptionError>(transcript),
                )
                &&& text.source == transcript
                &&& text.text@ == processed(transcript.text@, processing_context)
                &&& processing_context.append_space ==> text.text@.last() == ' '
                &&& processing_context.append_newline && !processing_context.append_space
                    ==> text.text@.last() == '\n'
                &&& processing_context.append_newline && processing_context.append_space
                    ==> text.text@.len() >= 2 && text.text@[text.text@.len() - 2] == '\n'
                &&& processing_context.dictionary@.len() == 0 ==> visible(text.text@) == visible(
                    transcript.text@,
                )
                &&& *sink == before.sink()
                &&& *final(sink) == after.sink()
                &&& #[trigger] call_ensures(
                    S::send,
                    (sink, &text, &before.session().context->0),
                    Ok::<SendReceipt, SinkError>(receipt),
                )
            },
{
    law_sent_text_is_that_of_the_recording(
        before,
        transcription_options,
        processing_context,
        cancel,
        receipt,
        after,
    );
    assert forall|transcript: Transcript, text: ProcessedText| #[trigger]
        call_ensures(
            DeterministicPostProcessor::process,
            (&before.post_processor(), transcript, processing_context),
            Ok::<ProcessedText, PostProcessError>(text),
        ) && processing_context.dictionary@.len() == 0 implies visible(text.text@) == visible(
        transcript.text@,
    ) by {
        law_processing_keeps_visible_text(transcript.text@, processing_context);
    }
}

/// What a stop gives where it does not send: the error of the stage that failed, or that the session
/// was cancelled or had no text. The sink is left alone unless it is what failed. A cancelled session
/// is over, and every other one has failed and keeps its context.
pub proof fn law_failed_stops_name_their_stage<
    R: Recorder,
    T: Transcriber,
    P: PostProcessor,
    S: TextSink,
>(
    before: SessionCoordinator<R, T, P, S>,
    transcription_options: &TranscriptionOptions,
    processing_context: &ProcessingContext,
    cancel: &CancellationToken,
    error: AppError,
    after: SessionCoordinator<R, T, P, S>,
)
    requires
        exists|coordinator: &mut SessionCoordinator<R, T, P, S>|
            *coordinator == before && *final(coordinator) == after && #[trigger] call_ensures(
                SessionCoordinator::<R, T, P, S>::stop_and_send,
                (coordinator, transcription_options, processing_context, cancel),
                Err::<SendReceipt, AppError>(error),
            ),
        before.session().state == SessionState::Recording,
    ensures
        after.transcriber() == before.transcriber(),
        after.post_processor() == before.post_processor(),
        after.session().next_number == before.session().next_number,
        !(error is Sink) ==> after.sink() == before.sink(),
        error == AppError::Cancelled ==> {
            &&& cancel.may_load(true)
            &&& after.session().state == SessionState::Idle
            &&& after.session().context is None
        },
        error != AppError::Cancelled ==> {
            &&& after.session().state == SessionState::Failed
            &&& after.session().context == before.session().context
        },
        !(error is InvalidState),
        error is Transcription || error is PostProcess || error is EmptyTranscript || error is Sink
            ==> cancel.may_load(false),
        error matches AppError::Recorder(failure) ==> exists|
            recorder: &mut R,
            stopped: Result<AudioBuffer, RecorderError>,
        |
            {
                &&& *recorder == before.recorder()
                &&& *final(recorder) == after.recorder()
                &&& #[trigger] call_ensures(R::stop, (recorder,), stopped)
                &&& stopped == Err::<AudioBuffer, RecorderError>(failure)
            },
        error matches AppError::Transcription(failure) ==> exists|
            recorder: &mut R,
            audio: AudioBuffer,
            transcribed: Result<Transcript, TranscriptionError>,
        |
            {
                &&& *recorder == before.recorder()
                &&& *final(recorder) == after.recorder()
                &&& #[trigger] call_ensures(
                    R::stop,
                    (recorder,),
                    Ok::<AudioBuffer, RecorderError>(audio),
                )
                &&& #[trigger] call_ensures(
                    T::transcribe,
                    (&before.transcriber(), &audio, transcription_options, cancel),
                    transcribed,
                )
                &&& transcribed == Err::<Transcript, TranscriptionError>(failure)
            },
        error == AppError::Cancelled ==> exists|
            recorder: &mut R,
            audio: AudioBuffer,
            transcribed: Result<Transcript, TranscriptionError>,
        |
            {
                &&& *recorder == before.recorder()
                &&& *final(recorder) == after.recorder()
                &&& #[trigger] call_ensures(
                    R::stop,
                    (recorder,),
                    Ok::<AudioBuffer, RecorderError>(audio),
                )
                &&& #[trigger] call_ensures(
                    T::transcribe,
                    (&before.transcriber(), &audio, transcription_options, cancel),
                    transcribed,
                )
            },
        error matches AppError::PostProcess(failure) ==> exists|
            recorder: &mut R,
            audio: AudioBuffer,
            transcript: Transcript,
        |
            {
                &&& *recorder == before.recorder()
                &&& *final(recorder) == after.recorder()
                &&& #[trigger] call_ensures(
                    R::stop,
                    (recorder,),
                    Ok::<AudioBuffer, RecorderError>(audio),
                )
                &&& #[trigger] call_ensures(
                    T::transcribe,
                    (&before.transcriber(), &audio, transcription_options, cancel),
                    Ok::<Transcript, TranscriptionError>(transcript),
                )
                &&& call_ensures(
                    P::process,
                    (&before.post_processor(), transcript, processing_context),
                    Err::<ProcessedText, PostProcessError>(failure),
                )
            },
        error == AppError::EmptyTranscript ==> exists|
            recorder: &mut R,
            audio: AudioBuffer,
            transcript: Transcript,
            text: ProcessedText,
        |
            {
                &&& *recorder == before.recorder()
                &&& *final(recorder) == after.recorder()
                &&& #[trigger] call_ensures(
                    R::stop,
                    (recorder,),
                    Ok::<AudioBuffer, RecorderError>(audio),
                )
                &&& #[trigger] call_ensures(
                    T::transcribe,
                    (&before.transcriber(), &audio, transcription_options, cancel),
                    Ok::<Transcript, TranscriptionError>(transcript),
                )
                &&& #[trigger] call_ensures(
                    P::process,
                    (&before.post_processor(), transcript, processing_context),
                    Ok::<ProcessedText, PostProcessError>(text),
                )
                &&& text.text@.len() == 0
            },
        error matches AppError::Sink(failure) ==> exists|
            recorder: &mut R,
            audio: AudioBuffer,
            transcript: Transcript,
            text: ProcessedText,
            sink: &mut S,
            sent: Result<SendReceipt, SinkError>,
        |
            {
                &&& *recorder == before.recorder()
                &&& *final(recorder) == after.recorder()
                &&& #[trigger] call_ensures(
                    R::stop,
                    (recorder,),
                    Ok::<AudioBuffer, RecorderError>(audio),
                )
                &&& #[trigger] call_ensures(
                    T::transcribe,
                    (&before.transcriber(), &audio, transcription_options, cancel),
                    Ok::<Transcript, TranscriptionError>(transcript),
                )
                &&& #[trigger] call_ensures(
                    P::process,
                    (&before.post_processor(), transcript, processing_context),
                    Ok::<ProcessedText, PostProcessError>(text),
                )
                &&& text.text@.len() > 0
                &&& *sink == before.sink()
                &&& *final(sink) == after.sink()
                &&& #[trigger] call_ensures(
                    S::send,
                    (sink, &text, &before.session().context->0),
                    sent,
                )
                &&& sent == Err::<SendReceipt, SinkError>(failure)
            },
{
}

/// A session that nobody cancels is never reported as cancelled: a token that only loads `false` has
/// the session sent or failed.
pub proof fn law_sessions_are_cancelled_only_by_their_token<
    R: Recorder,
    T: Transcriber,
    P: PostProcessor,
    S: TextSink,
>(
    before: SessionCoordinator<R, T, P, S>,
    transcription_options: &TranscriptionOptions,
    processing_context: &ProcessingContext,
    cancel: &CancellationToken,
    result: Result<SendReceipt, AppError>,
    after: SessionCoordinator<R, T, P, S>,
)
    requires
        exists|coordinator: &mut SessionCoordinator<R, T, P, S>|
            *coordinator == before && *final(coordinator) == after && #[trigger] call_ensures(
                SessionCoordinator::<R, T, P, S>::stop_and_send,
                (coordinator, transcription_options, processing_context, cancel),
                result,
            ),
    ensures
        !cancel.may_load(true) ==> result != Err::<SendReceipt, AppError>(AppError::Cancelled),
        !cancel.may_load(false) ==> result is Err && after.sink() == before.sink(),
{
}

/// Starting a recording where no session runs asks the recorder for it under the options of the
/// caller, once, and takes the next number. The session records under a name that shows this number,
/// or has failed with the error of the recorder. Where a session runs, nothing is done.
pub proof fn law_recordings_start_from_idle<
    R: Recorder,
    T: Transcriber,
    P: PostProcessor,
    S: TextSink,
>(
    before: SessionCoordinator<R, T, P, S>,
    options: &RecordingOptions,
    result: Result<(), AppError>,
    after: SessionCoordinator<R, T, P, S>,
)
    requires
        exists|coordinator: &mut SessionCoordinator<R, T, P, S>|
            *coordinator == before && *final(coordinator) == after && #[trigger] call_ensures(
                SessionCoordinator::<R, T, P, S>::start_recording,
                (coordinator, options),
                result,
            ),
    ensures
        after.transcriber() == before.transcriber(),
        after.post_processor() == before.post_processor(),
        after.sink() == before.sink(),
        before.session().state != SessionState::Idle ==> {
            &&& result == Err::<(), AppError>(
                AppError::InvalidState {
                    expected: SessionState::Idle,
                    actual: before.session().state,
                },
            )
            &&& after.session() == before.session()
            &&& after.recorder() == before.recorder()
        },
        before.session().state == SessionState::Idle ==> {
            &&& after.session().next_number == before.session().next_number + 1
            &&& exists|recorder: &mut R, outcome: Result<(), RecorderError>|
                {
                    &&& *recorder == before.recorder()
                    &&& *final(recorder) == after.recorder()
                    &&& #[trigger] call_ensures(R::start, (recorder, options), outcome)
                    &&& match outcome {
                        Ok(_) => result is Ok && after.session().state == SessionState::Recording,
                        Err(failure) => result == Err::<(), AppError>(AppError::Recorder(failure))
                            && after.session().state == SessionState::Failed
                            && after.session().context == before.session().context,
                    }
                }
            &&& result is Ok ==> (after.session().context matches Some(context)
                && context.session_id@ == "session-"@ + decimal(before.session().next_number)
                && context.focused_app is None && context.focused_window_id is None
                && context.herdr_pane_id is None && context.tmux_target_pane is None)
        },
{
}

/// Discarding a recording asks the recorder for it, once. The session is then over, or has failed
/// with the error of the recorder; nothing is transcribed or sent. Where nothing is being recorded,
/// nothing is done.
pub proof fn law_only_recordings_are_discarded<
    R: Recorder,
    T: Transcriber,
    P: PostProcessor,
    S: TextSink,
>(
    before: SessionCoordinator<R, T, P, S>,
    result: Result<(), AppError>,
    after: SessionCoordinator<R, T, P, S>,
)
    requires
        exists|coordinator: &mut SessionCoordinator<R, T, P, S>|
            *coordinator == before && *final(coordinator) == after && #[trigger] call_ensures(
                SessionCoordinator::<R, T, P, S>::cancel_recording,
                (coordinator,),
                result,
            ),
    ensures
        after.transcriber() == before.transcriber(),
        after.post_processor() == before.post_processor(),
        after.sink() == before.sink(),
        after.session().next_number == before.session().next_number,
        before.session().state != SessionState::Recording ==> {
            &&& result == Err::<(), AppError>(
                AppError::InvalidState {
                    expected: SessionState::Recording,
                    actual: before.session().state,
                },
            )
            &&& after.session() == before.session()
            &&& after.recorder() == before.recorder()
        },
        before.session().state == SessionState::Recording ==> exists|
            recorder: &mut R,
            outcome: Result<(), RecorderError>,
        |
            {
                &&& *recorder == before.recorder()
                &&& *final(recorder) == after.recorder()
                &&& #[trigger] call_ensures(R::cancel, (recorder,), outcome)
                &&& match outcome {
                    Ok(_) => result is Ok && after.session().state == SessionState::Idle
                        && after.session().context is None,
                    Err(failure) => result == Err::<(), AppError>(AppError::Recorder(failure))
                        && after.session().state == SessionState::Failed
                        && after.session().context == before.session().context,
                }
            },
{
}

/// A reset leads from the failed state to the idle one, without a context, and does nothing in every
/// other state. No stage is asked for anything.
pub proof fn law_resets_leave_the_failed_state<
    R: Recorder,
    T: Transcriber,
    P: PostProcessor,
    S: TextSink,
>(
    before: SessionCoordinator<R, T, P, S>,
    result: Result<(), AppError>,
    after: SessionCoordinator<R, T, P, S>,
)
    requires
        exists|coordinator: &mut SessionCoordinator<R, T, P, S>|
            *coordinator == before && *final(coordinator) == after && #[trigger] call_ensures(
                SessionCoordinator::<R, T, P, S>::reset,
                (coordinator,),
                result,
            ),
    ensures
        after.recorder() == before.recorder(),
        after.transcriber() == before.transcriber(),
        after.post_processor() == before.post_processor(),
        after.sink() == before.sink(),
        after.session().next_number == before.session().next_number,
        before.session().state == SessionState::Failed ==> {
            &&& result is Ok
            &&& after.session().state == SessionState::Idle
            &&& after.session().context is None
        },
        before.session().state != SessionState::Failed ==> {
            &&& result == Err::<(), AppError>(
                AppError::InvalidState {
                    expected: SessionState::Failed,
                    actual: before.session().state,
                },
            )
            &&& after.session() == before.session()
        },
{
}

/// A coordinator starts idle, with the stages that it was given and the number one for its first
/// session, and reports its state, its context and its next number as they are.
pub proof fn law_coordinators_report_their_session<
    R: Recorder,
    T: Transcriber,
    P: PostProcessor,
    S: TextSink,
>(
    stages: (R, T, P, S),
    fresh: SessionCoordinator<R, T, P, S>,
    coordinator: SessionCoordinator<R, T, P, S>,
    state: SessionState,
    context: Option<&OutputContext>,
    number: u64,
)
    requires
        call_ensures(SessionCoordinator::<R, T, P, S>::new, stages, fresh),
        call_ensures(SessionCoordinator::<R, T, P, S>::state, (&coordinator,), state),
        call_ensures(
            SessionCoordinator::<R, T, P, S>::current_context,
            (&coordinator,),
            context,
        ),
        call_ensures(
            SessionCoordinator::<R, T, P, S>::next_session_number,
            (&coordinator,),
            number,
        ),
    ensures
        fresh.session().state == SessionState::Idle,
        fresh.session().context is None,
        fresh.session().next_number == 1,
        fresh.recorder() == stages.0,
        fresh.transcriber() == stages.1,
        fresh.post_processor() == stages.2,
        fresh.sink() == stages.3,
        state == coordinator.session().state,
        number == coordinator.session().next_number,
        context is Some <==> coordinator.session().context is Some,
        context matches Some(context) ==> coordinator.session().context == Some(*context),
{
}

} // verus!
