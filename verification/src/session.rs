//! The state of a session, from recording to sending.

use vstd::prelude::*;

use crate::error::{
    AppError, PostProcessError, RecorderError, SinkError, TranscriptionError,
};
use crate::model::{AudioBuffer, OutputContext, ProcessedText, SendReceipt, Transcript};
use crate::text::{decimal, lemma_decimal_injective, push_decimal};

verus! {

/// Where a session stands.
#[derive(Clone, Copy, Debug, PartialEq, Eq, Structural)]
pub enum SessionState {
    /// No session is running.
    Idle,
    /// Audio is being recorded.
    Recording,
    /// The recording is being transcribed.
    Transcribing,
    /// The transcript is being processed.
    PostProcessing,
    /// The processed text is being sent.
    Sending,
    /// The text was sent.
    Completed,
    /// The session failed and waits for a reset.
    Failed,
}

/// The name of a state in error messages.
pub open spec fn state_label_text(state: SessionState) -> Seq<char> {
    match state {
        SessionState::Idle => "Idle"@,
        SessionState::Recording => "Recording"@,
        SessionState::Transcribing => "Transcribing"@,
        SessionState::PostProcessing => "PostProcessing"@,
        SessionState::Sending => "Sending"@,
        SessionState::Completed => "Completed"@,
        SessionState::Failed => "Failed"@,
    }
}

/// The name of a state in error messages.
pub fn state_label(state: SessionState) -> (label: &'static str)
    ensures
        label@ == state_label_text(state),
{
    match state {
        SessionState::Idle => "Idle",
        SessionState::Recording => "Recording",
        SessionState::Transcribing => "Transcribing",
        SessionState::PostProcessing => "PostProcessing",
        SessionState::Sending => "Sending",
        SessionState::Completed => "Completed",
        SessionState::Failed => "Failed",
    }
}

/// The name of the session with the given number.
pub open spec fn session_id(number: nat) -> Seq<char> {
    "session-"@ + decimal(number)
}

/// What is known of the session: its state, the context of the running session and the number that
/// the next one gets.
pub struct SessionView {
    /// The state.
    pub state: SessionState,
    /// The context of the running session.
    pub context: Option<OutputContext>,
    /// The number of the next session.
    pub next_number: nat,
}

impl SessionView {
    /// The session after it ended: idle, with no context.
    pub open spec fn cleared(self) -> SessionView {
        SessionView { state: SessionState::Idle, context: None, ..self }
    }

    /// The session in another state.
    pub open spec fn in_state(self, state: SessionState) -> SessionView {
        SessionView { state, ..self }
    }

    /// An idle session has no context, and one that is under way has one.
    pub open spec fn is_consistent(self) -> bool {
        match self.state {
            SessionState::Idle => self.context is None,
            SessionState::Failed => true,
            _ => self.context is Some,
        }
    }

    /// The session waits for a request: it is idle, recording or failed.
    pub open spec fn is_at_rest(self) -> bool {
        self.state == SessionState::Idle || self.state == SessionState::Recording || self.state
            == SessionState::Failed
    }
}

/// The state machine of a session. Each step takes what the outside work returned and says what
/// the session becomes and what the caller gets.
pub struct Session {
    state: SessionState,
    current_context: Option<OutputContext>,
    next_session_number: u64,
}

impl View for Session {
    type V = SessionView;

    closed spec fn view(&self) -> SessionView {
        SessionView {
            state: self.state,
            context: self.current_context,
            next_number: self.next_session_number as nat,
        }
    }
}

impl Session {
    #[verifier::type_invariant]
    spec fn well_formed(self) -> bool {
        self@.is_consistent()
    }

    /// An idle session; the first recording gets the number one.
    pub fn new() -> (session: Session)
        ensures
            session@ == (SessionView { state: SessionState::Idle, context: None, next_number: 1 }),
    {
        Session { state: SessionState::Idle, current_context: None, next_session_number: 1 }
    }

    /// The state.
    pub fn state(&self) -> (state: SessionState)
        ensures
            state == self@.state,
            self@.is_consistent(),
    {
        proof {
            use_type_invariant(self);
        }
        self.state
    }

    /// The context of the running session.
    pub fn current_context(&self) -> (context: Option<&OutputContext>)
        ensures
            context == match self@.context {
                Some(context) => Some(&context),
                None => None,
            },
    {
        self.current_context.as_ref()
    }

    /// The number that the next session gets.
    pub fn next_session_number(&self) -> (number: u64)
        ensures
            number == self@.next_number,
    {
        self.next_session_number
    }

    /// Checks that the session is in the state that a request needs.
    pub fn require_state(&self, expected: SessionState) -> (result: Result<(), AppError>)
        ensures
            result == if self@.state == expected {
                Ok(())
            } else {
                Err(AppError::InvalidState { expected, actual: self@.state })
            },
            self@.is_consistent(),
    {
        proof {
            use_type_invariant(self);
        }
        if self.state == expected {
            Ok(())
        } else {
            Err(AppError::InvalidState { expected, actual: self.state })
        }
    }

    /// Makes the context of the next session and takes its number.
    pub fn next_context(&mut self) -> (context: OutputContext)
        requires
            old(self)@.next_number < u64::MAX,
        ensures
            context.session_id@ == session_id(old(self)@.next_number),
            context.is_untargeted(),
            final(self)@ == (SessionView {
                next_number: old(self)@.next_number + 1,
                ..old(self)@
            }),
    {
        proof {
            use_type_invariant(&*self);
        }
        let mut id = "session-".to_owned();
        push_decimal(&mut id, self.next_session_number as u128);
        self.next_session_number = self.next_session_number + 1;
        OutputContext::new(id.as_str())
    }

    /// The recorder was asked to start: the session records, or it failed.
    pub fn recording_started(
        &mut self,
        context: OutputContext,
        outcome: Result<(), RecorderError>,
    ) -> (result: Result<(), AppError>)
        ensures
            match outcome {
                Ok(_) => {
                    &&& result == Ok::<(), AppError>(())
                    &&& final(self)@ == (SessionView {
                        state: SessionState::Recording,
                        context: Some(context),
                        ..old(self)@
                    })
                },
                Err(error) => {
                    &&& result == Err::<(), AppError>(AppError::Recorder(error))
                    &&& final(self)@ == old(self)@.in_state(SessionState::Failed)
                },
            },
    {
        match outcome {
            Ok(_) => {
                *self = Session {
                    state: SessionState::Recording,
                    current_context: Some(context),
                    next_session_number: self.next_session_number,
                };
                Ok(())
            },
            Err(error) => {
                self.fail();
                Err(AppError::from(error))
            },
        }
    }

    /// The recorder was asked to discard the recording: the session ended, or it failed.
    pub fn recording_cancelled(&mut self, outcome: Result<(), RecorderError>) -> (result: Result<
        (),
        AppError,
    >)
        ensures
            match outcome {
                Ok(_) => {
                    &&& result == Ok::<(), AppError>(())
                    &&& final(self)@ == old(self)@.cleared()
                },
                Err(error) => {
                    &&& result == Err::<(), AppError>(AppError::Recorder(error))
                    &&& final(self)@ == old(self)@.in_state(SessionState::Failed)
                },
            },
    {
        match outcome {
            Ok(_) => {
                self.clear_session();
                Ok(())
            },
            Err(error) => {
                self.fail();
                Err(AppError::from(error))
            },
        }
    }

    /// The recorder was asked for the recording: it is ready to be transcribed, or the session
    /// failed.
    pub fn recording_stopped(&mut self, outcome: Result<AudioBuffer, RecorderError>) -> (result:
        Result<AudioBuffer, AppError>)
        requires
            old(self)@.context is Some,
        ensures
            match outcome {
                Ok(audio) => {
                    &&& result == Ok::<AudioBuffer, AppError>(audio)
                    &&& final(self)@ == old(self)@.in_state(SessionState::Transcribing)
                },
                Err(error) => {
                    &&& result == Err::<AudioBuffer, AppError>(AppError::Recorder(error))
                    &&& final(self)@ == old(self)@.in_state(SessionState::Failed)
                },
            },
    {
        match outcome {
            Ok(audio) => {
                self.state = SessionState::Transcribing;
                Ok(audio)
            },
            Err(error) => {
                self.fail();
                Err(AppError::from(error))
            },
        }
    }

    /// The transcriber is done. A cancellation that was requested until now ends the session,
    /// whatever the transcriber returned.
    pub fn transcribed(
        &mut self,
        outcome: Result<Transcript, TranscriptionError>,
        cancelled: bool,
    ) -> (result: Result<Transcript, AppError>)
        requires
            old(self)@.context is Some,
        ensures
            if cancelled {
                &&& result == Err::<Transcript, AppError>(AppError::Cancelled)
                &&& final(self)@ == old(self)@.cleared()
            } else {
                match outcome {
                    Ok(transcript) => {
                        &&& result == Ok::<Transcript, AppError>(transcript)
                        &&& final(self)@ == old(self)@.in_state(SessionState::PostProcessing)
                    },
                    Err(error) => {
                        &&& result == Err::<Transcript, AppError>(AppError::Transcription(error))
                        &&& final(self)@ == old(self)@.in_state(SessionState::Failed)
                    },
                }
            },
    {
        if cancelled {
            self.clear_session();
            return Err(AppError::Cancelled);
        }
        match outcome {
            Ok(transcript) => {
                self.state = SessionState::PostProcessing;
                Ok(transcript)
            },
            Err(error) => {
                self.fail();
                Err(AppError::from(error))
            },
        }
    }

    /// The post-processor is done. A text that is empty ends in failure.
    pub fn post_processed(&mut self, outcome: Result<ProcessedText, PostProcessError>) -> (result:
        Result<ProcessedText, AppError>)
        ensures
            match outcome {
                Ok(processed) => if processed.text@.len() == 0 {
                    &&& result == Err::<ProcessedText, AppError>(AppError::EmptyTranscript)
                    &&& final(self)@ == old(self)@.in_state(SessionState::Failed)
                } else {
                    &&& result == Ok::<ProcessedText, AppError>(processed)
                    &&& final(self)@ == old(self)@
                },
                Err(error) => {
                    &&& result == Err::<ProcessedText, AppError>(AppError::PostProcess(error))
                    &&& final(self)@ == old(self)@.in_state(SessionState::Failed)
                },
            },
    {
        match outcome {
            Ok(processed) => {
                if processed.text.as_str().is_empty() {
                    self.fail();
                    Err(AppError::EmptyTranscript)
                } else {
                    Ok(processed)
                }
            },
            Err(error) => {
                self.fail();
                Err(AppError::from(error))
            },
        }
    }

    /// The last moment at which a cancellation keeps the text from being sent.
    pub fn about_to_send(&mut self, cancelled: bool) -> (result: Result<(), AppError>)
        requires
            old(self)@.context is Some,
        ensures
            if cancelled {
                &&& result == Err::<(), AppError>(AppError::Cancelled)
                &&& final(self)@ == old(self)@.cleared()
            } else {
                &&& result == Ok::<(), AppError>(())
                &&& final(self)@ == old(self)@.in_state(SessionState::Sending)
            },
    {
        if cancelled {
            self.clear_session();
            Err(AppError::Cancelled)
        } else {
            self.state = SessionState::Sending;
            Ok(())
        }
    }

    /// The sink is done: the session is over, or it failed.
    pub fn sent(&mut self, outcome: Result<SendReceipt, SinkError>) -> (result: Result<
        SendReceipt,
        AppError,
    >)
        requires
            old(self)@.context is Some,
        ensures
            match outcome {
                Ok(receipt) => {
                    &&& result == Ok::<SendReceipt, AppError>(receipt)
                    &&& final(self)@ == old(self)@.cleared()
                },
                Err(error) => {
                    &&& result == Err::<SendReceipt, AppError>(AppError::Sink(error))
                    &&& final(self)@ == old(self)@.in_state(SessionState::Failed)
                },
            },
    {
        match outcome {
            Ok(receipt) => {
                self.state = SessionState::Completed;
                self.clear_session();
                Ok(receipt)
            },
            Err(error) => {
                self.fail();
                Err(AppError::from(error))
            },
        }
    }

    /// Brings a failed session back to idle.
    pub fn reset(&mut self) -> (result: Result<(), AppError>)
        ensures
            if old(self)@.state == SessionState::Failed {
                &&& result == Ok::<(), AppError>(())
                &&& final(self)@ == old(self)@.cleared()
            } else {
                &&& result == Err::<(), AppError>(
                    AppError::InvalidState {
                        expected: SessionState::Failed,
                        actual: old(self)@.state,
                    },
                )
                &&& final(self)@ == old(self)@
            },
    {
        if self.state != SessionState::Failed {
            return Err(
                AppError::InvalidState { expected: SessionState::Failed, actual: self.state },
            );
        }
        self.clear_session();
        Ok(())
    }

    fn fail(&mut self)
        ensures
            final(self)@ == old(self)@.in_state(SessionState::Failed),
    {
        self.state = SessionState::Failed;
    }

    fn clear_session(&mut self)
        ensures
            final(self)@ == old(self)@.cleared(),
    {
        *self = Session {
            state: SessionState::Idle,
            current_context: None,
            next_session_number: self.next_session_number,
        };
    }
}

/// Sessions with different numbers have different names.
pub proof fn law_session_ids_are_distinct(a: nat, b: nat)
    requires
        a != b,
    ensures
        session_id(a) != session_id(b),
{
    if session_id(a) == session_id(b) {
        let n = "session-"@.len() as int;
        assert(session_id(a).skip(n) == decimal(a));
        assert(session_id(b).skip(n) == decimal(b));
        lemma_decimal_injective(a, b);
    }
}

/// The name of each state in error messages.
pub proof fn law_states_have_their_labels(state: SessionState, label: &'static str)
    requires
        call_ensures(state_label, (state,), label),
    ensures
        state == SessionState::Idle ==> label@ == "Idle"@,
        state == SessionState::Recording ==> label@ == "Recording"@,
        state == SessionState::Transcribing ==> label@ == "Transcribing"@,
        state == SessionState::PostProcessing ==> label@ == "PostProcessing"@,
        state == SessionState::Sending ==> label@ == "Sending"@,
        state == SessionState::Completed ==> label@ == "Completed"@,
        state == SessionState::Failed ==> label@ == "Failed"@,
        label@ == state_label_text(state),
{
}

/// A session is asked for in the state that it must be in, and else says in which one it is.
pub proof fn law_required_states_are_checked(
    session: &Session,
    expected: SessionState,
    result: Result<(), AppError>,
    state: SessionState,
)
    requires
        call_ensures(Session::require_state, (session, expected), result),
        call_ensures(Session::state, (session,), state),
    ensures
        state == session@.state,
        result is Ok <==> state == expected,
        result matches Err(error) ==> error == (AppError::InvalidState {
            expected,
            actual: state,
        }),
{
}

/// The steps of a session that goes well lead from recording over transcribing, processing and
/// sending back to idle, and each hands on what it was given.
pub proof fn law_sessions_go_through_their_stages(
    before: Session,
    audio: AudioBuffer,
    stopped: Result<AudioBuffer, AppError>,
    transcribing: Session,
    transcript: Transcript,
    transcribed: Result<Transcript, AppError>,
    processing: Session,
    text: ProcessedText,
    processed: Result<ProcessedText, AppError>,
    ready: Session,
    checked: Result<(), AppError>,
    sending: Session,
    receipt: SendReceipt,
    sent: Result<SendReceipt, AppError>,
    after: Session,
)
    requires
        exists|session: &mut Session|
            *session == before && *final(session) == transcribing && #[trigger] call_ensures(
                Session::recording_stopped,
                (session, Ok::<AudioBuffer, RecorderError>(audio)),
                stopped,
            ),
        exists|session: &mut Session|
            *session == transcribing && *final(session) == processing && #[trigger] call_ensures(
                Session::transcribed,
                (session, Ok::<Transcript, TranscriptionError>(transcript), false),
                transcribed,
            ),
        exists|session: &mut Session|
            *session == processing && *final(session) == ready && #[trigger] call_ensures(
                Session::post_processed,
                (session, Ok::<ProcessedText, PostProcessError>(text)),
                processed,
            ),
        text.text@.len() > 0,
        exists|session: &mut Session|
            *session == ready && *final(session) == sending && #[trigger] call_ensures(
                Session::about_to_send,
                (session, false),
                checked,
            ),
        exists|session: &mut Session|
            *session == sending && *final(session) == after && #[trigger] call_ensures(
                Session::sent,
                (session, Ok::<SendReceipt, SinkError>(receipt)),
                sent,
            ),
    ensures
        stopped == Ok::<AudioBuffer, AppError>(audio),
        transcribing@.state == SessionState::Transcribing,
        transcribed == Ok::<Transcript, AppError>(transcript),
        processing@.state == SessionState::PostProcessing,
        processed == Ok::<ProcessedText, AppError>(text),
        ready@.state == SessionState::PostProcessing,
        checked is Ok,
        sending@.state == SessionState::Sending,
        sending@.context == before@.context,
        sent == Ok::<SendReceipt, AppError>(receipt),
        after@.state == SessionState::Idle,
        after@.context is None,
        after@.next_number == before@.next_number,
{
}

} // verus!
