//! The agent: a session that clients control by commands.

use vstd::prelude::*;

use crate::cancellation::CancellationToken;
use crate::error::AppError;
use crate::model::{ProcessingContext, RecordingOptions, SendReceipt, TranscriptionOptions};
use crate::pipeline::SessionCoordinator;
use crate::protocol::{render_response, response_text, AgentCommand, AgentReply};
use crate::session::SessionState;
use crate::traits::{PostProcessor, Recorder, TextSink, Transcriber};

verus! {

/// What a command asks of a session in a given state.
#[derive(Clone, Copy, Debug, PartialEq, Eq, Structural)]
pub enum Operation {
    /// Start a recording.
    Start,
    /// Stop the recording and send its text.
    StopAndSend,
    /// Leave the failed state and start a recording.
    ResetAndStart,
    /// Discard the recording.
    CancelRecording,
    /// Report the state.
    Report,
    /// Leave the failed state.
    Reset,
    /// End the agent.
    Shutdown,
    /// Nothing can be done in this state.
    Busy,
}

/// What a command asks of a session in the given state: `Toggle` starts a recording where none is
/// running and stops one that is, every other command asks the same in every state.
pub open spec fn operation(command: AgentCommand, state: SessionState) -> Operation {
    match command {
        AgentCommand::Start => Operation::Start,
        AgentCommand::Stop => Operation::StopAndSend,
        AgentCommand::Toggle => match state {
            SessionState::Idle => Operation::Start,
            SessionState::Recording => Operation::StopAndSend,
            SessionState::Failed => Operation::ResetAndStart,
            _ => Operation::Busy,
        },
        AgentCommand::Cancel => Operation::CancelRecording,
        AgentCommand::Status => Operation::Report,
        AgentCommand::Reset => Operation::Reset,
        AgentCommand::Shutdown => Operation::Shutdown,
    }
}

/// The command starts a session, or tries to: a cancellation that was meant for an earlier session is
/// then withdrawn.
pub open spec fn withdraws_cancellation(command: AgentCommand, state: SessionState) -> bool {
    match operation(command, state) {
        Operation::Start => true,
        Operation::ResetAndStart => true,
        _ => false,
    }
}

/// What is decided on a command.
#[derive(Clone, Copy, Debug, PartialEq, Eq, Structural)]
pub struct Plan {
    /// What the session is asked for.
    pub operation: Operation,
    /// Whether a cancellation is withdrawn first.
    pub withdraws_cancellation: bool,
}

/// Decides what a command asks of a session in the given state. No command sets the token, and only
/// a start withdraws what it requests.
pub fn plan(command: AgentCommand, state: SessionState) -> (plan: Plan)
    ensures
        plan.operation == operation(command, state),
        plan.withdraws_cancellation == withdraws_cancellation(command, state),
{
    let operation = match command {
        AgentCommand::Start => Operation::Start,
        AgentCommand::Stop => Operation::StopAndSend,
        AgentCommand::Toggle => match state {
            SessionState::Idle => Operation::Start,
            SessionState::Recording => Operation::StopAndSend,
            SessionState::Failed => Operation::ResetAndStart,
            _ => Operation::Busy,
        },
        AgentCommand::Cancel => Operation::CancelRecording,
        AgentCommand::Status => Operation::Report,
        AgentCommand::Reset => Operation::Reset,
        AgentCommand::Shutdown => Operation::Shutdown,
    };
    let withdraws_cancellation = match operation {
        Operation::Start | Operation::ResetAndStart => true,
        _ => false,
    };
    Plan { operation, withdraws_cancellation }
}

/// The command starts a session that is in the given state.
pub open spec fn starts_session(command: AgentCommand, state: SessionState) -> bool {
    match operation(command, state) {
        Operation::Start => state == SessionState::Idle,
        Operation::ResetAndStart => true,
        _ => false,
    }
}

/// The command can be carried out in the given state.
pub open spec fn accepts(command: AgentCommand, state: SessionState) -> bool {
    match operation(command, state) {
        Operation::Start => state == SessionState::Idle,
        Operation::StopAndSend => state == SessionState::Recording,
        Operation::ResetAndStart => true,
        Operation::CancelRecording => state == SessionState::Recording,
        Operation::Report => true,
        Operation::Reset => state == SessionState::Failed,
        Operation::Shutdown => true,
        Operation::Busy => false,
    }
}

/// The state after a command that was carried out with success.
pub open spec fn state_after(command: AgentCommand, state: SessionState) -> SessionState {
    match operation(command, state) {
        Operation::Start => SessionState::Recording,
        Operation::StopAndSend => SessionState::Idle,
        Operation::ResetAndStart => SessionState::Recording,
        Operation::CancelRecording => SessionState::Idle,
        Operation::Reset => SessionState::Idle,
        _ => state,
    }
}

/// The reply to a request that leaves the session in `state`.
pub open spec fn state_reply(
    done: Result<(), AppError>,
    state: SessionState,
) -> Result<AgentReply, AppError> {
    match done {
        Ok(_) => Ok(AgentReply::State(state)),
        Err(error) => Err(error),
    }
}

/// The reply to a request to send.
pub open spec fn completed_reply(sent: Result<SendReceipt, AppError>) -> Result<
    AgentReply,
    AppError,
> {
    match sent {
        Ok(receipt) => Ok(AgentReply::Completed(receipt)),
        Err(error) => Err(error),
    }
}

/// Carries out commands, one at a time.
pub struct AgentRuntime<R: Recorder, T: Transcriber, P: PostProcessor, S: TextSink> {
    coordinator: SessionCoordinator<R, T, P, S>,
    recording_options: RecordingOptions,
    transcription_options: TranscriptionOptions,
    processing_context: ProcessingContext,
    operation_cancel: CancellationToken,
}

impl<R: Recorder, T: Transcriber, P: PostProcessor, S: TextSink> AgentRuntime<R, T, P, S> {
    /// The coordinator of the session.
    pub closed spec fn coordinator(&self) -> SessionCoordinator<R, T, P, S> {
        self.coordinator
    }

    /// How recordings are made.
    pub closed spec fn recording_options(&self) -> RecordingOptions {
        self.recording_options
    }

    /// How recordings are transcribed.
    pub closed spec fn transcription_options(&self) -> TranscriptionOptions {
        self.transcription_options
    }

    /// How transcripts are processed.
    pub closed spec fn processing_context(&self) -> ProcessingContext {
        self.processing_context
    }

    /// The token that cancels what is being done with a recording.
    pub closed spec fn operation_cancel(&self) -> CancellationToken {
        self.operation_cancel
    }

    /// The options and the token are those of `other`.
    pub open spec fn keeps_settings(&self, other: &Self) -> bool {
        &&& self.recording_options() == other.recording_options()
        &&& self.transcription_options() == other.transcription_options()
        &&& self.processing_context() == other.processing_context()
        &&& self.operation_cancel() == other.operation_cancel()
    }

    /// A runtime over the given coordinator and options.
    pub fn new(
        coordinator: SessionCoordinator<R, T, P, S>,
        recording_options: RecordingOptions,
        transcription_options: TranscriptionOptions,
        processing_context: ProcessingContext,
        operation_cancel: CancellationToken,
    ) -> (runtime: Self)
        ensures
            runtime.coordinator() == coordinator,
            runtime.recording_options() == recording_options,
            runtime.transcription_options() == transcription_options,
            runtime.processing_context() == processing_context,
            runtime.operation_cancel() == operation_cancel,
    {
        AgentRuntime {
            coordinator,
            recording_options,
            transcription_options,
            processing_context,
            operation_cancel,
        }
    }

    /// The state of the session.
    pub fn state(&self) -> (state: SessionState)
        ensures
            state == self.coordinator().session().state,
            self.coordinator().session().is_consistent(),
    {
        self.coordinator.state()
    }

    /// Whether a session that the command starts can still get a number.
    pub fn has_number_for(&self, command: AgentCommand) -> (has_number: bool)
        ensures
            has_number == (starts_session(command, self.coordinator().session().state)
                ==> self.coordinator().session().next_number < u64::MAX),
    {
        let state = self.coordinator.state();
        let starts = match plan(command, state).operation {
            Operation::Start => state == SessionState::Idle,
            Operation::ResetAndStart => true,
            _ => false,
        };
        !starts || self.coordinator.next_session_number() < u64::MAX
    }

    /// A token that cancels what is being done with a recording.
    pub fn cancellation(&self) -> (token: CancellationToken)
        ensures
            token.flag() == self.operation_cancel().flag(),
    {
        self.operation_cancel.clone()
    }

    /// Carries out a command as planned. Starting a session withdraws a cancellation that was meant
    /// for an earlier one.
    ///
    /// Whether the token is reset is exact in the plan; that nothing else is stored to it here is
    /// visible in the code alone, since other threads may store to it too.
    pub fn handle(&mut self, command: AgentCommand) -> (result: Result<AgentReply, AppError>)
        requires
            starts_session(command, old(self).coordinator().session().state) ==> old(
                self,
            ).coordinator().session().next_number < u64::MAX,
        ensures
            match operation(command, old(self).coordinator().session().state) {
                Operation::Start => {
                    exists|
                        coordinator: &mut SessionCoordinator<R, T, P, S>,
                        done: Result<(), AppError>,
                    |
                        {
                            &&& *coordinator == old(self).coordinator()
                            &&& *final(coordinator) == final(self).coordinator()
                            &&& #[trigger] call_ensures(
                                SessionCoordinator::<R, T, P, S>::start_recording,
                                (coordinator, &old(self).recording_options()),
                                done,
                            )
                            &&& result == state_reply(
                                done,
                                final(self).coordinator().session().state,
                            )
                        }
                },
                Operation::StopAndSend => {
                    exists|
                        coordinator: &mut SessionCoordinator<R, T, P, S>,
                        sent: Result<SendReceipt, AppError>,
                    |
                        {
                            &&& *coordinator == old(self).coordinator()
                            &&& *final(coordinator) == final(self).coordinator()
                            &&& #[trigger] call_ensures(
                                SessionCoordinator::<R, T, P, S>::stop_and_send,
                                (
                                    coordinator,
                                    &old(self).transcription_options(),
                                    &old(self).processing_context(),
                                    &old(self).operation_cancel(),
                                ),
                                sent,
                            )
                            &&& result == completed_reply(sent)
                        }
                },
                Operation::ResetAndStart => {
                    exists|
                        coordinator: &mut SessionCoordinator<R, T, P, S>,
                        done: Result<(), AppError>,
                    |
                        {
                            &&& coordinator.session() == old(
                                self,
                            ).coordinator().session().cleared()
                            &&& coordinator.recorder() == old(self).coordinator().recorder()
                            &&& coordinator.keeps_other_stages(&old(self).coordinator())
                            &&& *final(coordinator) == final(self).coordinator()
                            &&& #[trigger] call_ensures(
                                SessionCoordinator::<R, T, P, S>::start_recording,
                                (coordinator, &old(self).recording_options()),
                                done,
                            )
                            &&& result == state_reply(
                                done,
                                final(self).coordinator().session().state,
                            )
                        }
                },
                Operation::CancelRecording => {
                    exists|
                        coordinator: &mut SessionCoordinator<R, T, P, S>,
                        done: Result<(), AppError>,
                    |
                        {
                            &&& *coordinator == old(self).coordinator()
                            &&& *final(coordinator) == final(self).coordinator()
                            &&& #[trigger] call_ensures(
                                SessionCoordinator::<R, T, P, S>::cancel_recording,
                                (coordinator,),
                                done,
                            )
                            &&& result == state_reply(
                                done,
                                final(self).coordinator().session().state,
                            )
                        }
                },
                Operation::Report => {
                    &&& result == Ok::<AgentReply, AppError>(
                        AgentReply::State(old(self).coordinator().session().state),
                    )
                    &&& final(self).coordinator() == old(self).coordinator()
                },
                Operation::Reset => {
                    exists|
                        coordinator: &mut SessionCoordinator<R, T, P, S>,
                        done: Result<(), AppError>,
                    |
                        {
                            &&& *coordinator == old(self).coordinator()
                            &&& *final(coordinator) == final(self).coordinator()
                            &&& #[trigger] call_ensures(
                                SessionCoordinator::<R, T, P, S>::reset,
                                (coordinator,),
                                done,
                            )
                            &&& result == state_reply(
                                done,
                                final(self).coordinator().session().state,
                            )
                        }
                },
                Operation::Shutdown => {
                    &&& result == Ok::<AgentReply, AppError>(AgentReply::Shutdown)
                    &&& final(self).coordinator() == old(self).coordinator()
                },
                Operation::Busy => {
                    &&& result == Err::<AgentReply, AppError>(
                        AppError::InvalidState {
                            expected: SessionState::Idle,
                            actual: old(self).coordinator().session().state,
                        },
                    )
                    &&& final(self).coordinator() == old(self).coordinator()
                },
            },
            withdraws_cancellation(command, old(self).coordinator().session().state) ==> old(
                self,
            ).operation_cancel().may_store(false),
            !accepts(command, old(self).coordinator().session().state) ==> (result matches Err(
                AppError::InvalidState { actual, .. },
            ) && actual == old(self).coordinator().session().state)
                && final(self).coordinator().is_same(&old(self).coordinator()),
            accepts(command, old(self).coordinator().session().state) ==> !(result matches Err(
                AppError::InvalidState { .. },
            )),
            result is Ok ==> final(self).coordinator().session().state == state_after(
                command,
                old(self).coordinator().session().state,
            ),
            final(self).keeps_settings(old(self)),
            old(self).coordinator().session().is_at_rest()
                ==> final(self).coordinator().session().is_at_rest(),
    {
        let actual = self.coordinator.state();
        let plan = plan(command, actual);
        if plan.withdraws_cancellation {
            self.operation_cancel.reset();
        }
        match plan.operation {
            Operation::Start => self.start_recording(),
            Operation::StopAndSend => self.stop_and_send(),
            Operation::ResetAndStart => {
                match self.coordinator.reset() {
                    Ok(_) => self.start_recording(),
                    Err(error) => Err(error),
                }
            },
            Operation::CancelRecording => {
                match self.coordinator.cancel_recording() {
                    Ok(_) => Ok(AgentReply::State(self.coordinator.state())),
                    Err(error) => Err(error),
                }
            },
            Operation::Report => Ok(AgentReply::State(actual)),
            Operation::Reset => {
                match self.coordinator.reset() {
                    Ok(_) => Ok(AgentReply::State(self.coordinator.state())),
                    Err(error) => Err(error),
                }
            },
            Operation::Shutdown => Ok(AgentReply::Shutdown),
            Operation::Busy => Err(
                AppError::InvalidState { expected: SessionState::Idle, actual },
            ),
        }
    }

    fn start_recording(&mut self) -> (result: Result<AgentReply, AppError>)
        requires
            old(self).coordinator().session().state == SessionState::Idle ==> old(
                self,
            ).coordinator().session().next_number < u64::MAX,
        ensures
            exists|coordinator: &mut SessionCoordinator<R, T, P, S>, done: Result<(), AppError>|
                {
                    &&& *coordinator == old(self).coordinator()
                    &&& *final(coordinator) == final(self).coordinator()
                    &&& #[trigger] call_ensures(
                        SessionCoordinator::<R, T, P, S>::start_recording,
                        (coordinator, &old(self).recording_options()),
                        done,
                    )
                    &&& result == state_reply(done, final(self).coordinator().session().state)
                },
            final(self).keeps_settings(old(self)),
            old(self).coordinator().session().is_at_rest()
                ==> final(self).coordinator().session().is_at_rest(),
    {
        match self.coordinator.start_recording(&self.recording_options) {
            Ok(_) => Ok(AgentReply::State(self.coordinator.state())),
            Err(error) => Err(error),
        }
    }

    fn stop_and_send(&mut self) -> (result: Result<AgentReply, AppError>)
        ensures
            exists|
                coordinator: &mut SessionCoordinator<R, T, P, S>,
                sent: Result<SendReceipt, AppError>,
            |
                {
                    &&& *coordinator == old(self).coordinator()
                    &&& *final(coordinator) == final(self).coordinator()
                    &&& #[trigger] call_ensures(
                        SessionCoordinator::<R, T, P, S>::stop_and_send,
                        (
                            coordinator,
                            &old(self).transcription_options(),
                            &old(self).processing_context(),
                            &old(self).operation_cancel(),
                        ),
                        sent,
                    )
                    &&& result == completed_reply(sent)
                },
            final(self).keeps_settings(old(self)),
            old(self).coordinator().session().is_at_rest()
                ==> final(self).coordinator().session().is_at_rest(),
    {
        let sent = self.coordinator.stop_and_send(
            &self.transcription_options,
            &self.processing_context,
            &self.operation_cancel,
        );
        assert(self.transcription_options == old(self).transcription_options());
        assert(self.processing_context == old(self).processing_context());
        assert(self.operation_cancel == old(self).operation_cancel());
        match sent {
            Ok(receipt) => Ok(AgentReply::Completed(receipt)),
            Err(error) => Err(error),
        }
    }

    /// Carries out a queued command for the worker of the agent and gives the line to answer with.
    /// An agent that is shutting down carries out nothing more.
    pub fn serve(&mut self, command: AgentCommand, shutting_down: bool) -> (response: String)
        requires
            !shutting_down && starts_session(command, old(self).coordinator().session().state)
                ==> old(self).coordinator().session().next_number < u64::MAX,
        ensures
            shutting_down ==> response@ == "ERR agent is shutting down"@ && *final(self) == *old(
                self,
            ),
            !shutting_down ==> exists|runtime: &mut Self, result: Result<AgentReply, AppError>|
                {
                    &&& *runtime == *old(self)
                    &&& *final(runtime) == *final(self)
                    &&& #[trigger] call_ensures(Self::handle, (runtime, command), result)
                    &&& response@ == response_text(result)
                },
    {
        if shutting_down {
            return "ERR agent is shutting down".to_owned();
        }
        render_response(self.handle(command))
    }

    /// Discards a recording that is still running when the worker of the agent ends.
    pub fn wind_down(&mut self)
        ensures
            old(self).coordinator().session().state != SessionState::Recording ==> *final(self)
                == *old(self),
            old(self).coordinator().session().state == SessionState::Recording ==> exists|
                runtime: &mut Self,
                result: Result<AgentReply, AppError>,
            |
                {
                    &&& *runtime == *old(self)
                    &&& *final(runtime) == *final(self)
                    &&& #[trigger] call_ensures(
                        Self::handle,
                        (runtime, AgentCommand::Cancel),
                        result,
                    )
                },
            old(self).coordinator().session().is_at_rest()
                ==> final(self).coordinator().session().state == SessionState::Idle
                || final(self).coordinator().session().state == SessionState::Failed,
    {
        if self.state() == SessionState::Recording {
            let _ = self.handle(AgentCommand::Cancel);
        }
    }
}

/// What a command does to the session. A start asks for a recording, a stop for its text, and a
/// toggle for the one that the state calls for; a failed session is brought back to idle before it is
/// started by a toggle. A recording is made, transcribed and processed under the options of the
/// runtime, and its token cancels it. The reply is what came of it.
pub proof fn law_commands_reach_the_session<
    R: Recorder,
    T: Transcriber,
    P: PostProcessor,
    S: TextSink,
>(
    before: AgentRuntime<R, T, P, S>,
    command: AgentCommand,
    result: Result<AgentReply, AppError>,
    after: AgentRuntime<R, T, P, S>,
)
    requires
        exists|runtime: &mut AgentRuntime<R, T, P, S>|
            *runtime == before && *final(runtime) == after && #[trigger] call_ensures(
                AgentRuntime::<R, T, P, S>::handle,
                (runtime, command),
                result,
            ),
    ensures
        after.recording_options() == before.recording_options(),
        after.transcription_options() == before.transcription_options(),
        after.processing_context() == before.processing_context(),
        after.operation_cancel() == before.operation_cancel(),
        command == AgentCommand::Start || (command == AgentCommand::Toggle
            && before.coordinator().session().state == SessionState::Idle) ==> {
            &&& before.operation_cancel().may_store(false)
            &&& exists|
                coordinator: &mut SessionCoordinator<R, T, P, S>,
                done: Result<(), AppError>,
            |
                {
                    &&& *coordinator == before.coordinator()
                    &&& *final(coordinator) == after.coordinator()
                    &&& #[trigger] call_ensures(
                        SessionCoordinator::<R, T, P, S>::start_recording,
                        (coordinator, &before.recording_options()),
                        done,
                    )
                    &&& done is Ok ==> result == Ok::<AgentReply, AppError>(
                        AgentReply::State(SessionState::Recording),
                    )
                    &&& done matches Err(error) ==> result == Err::<AgentReply, AppError>(error)
                }
        },
        command == AgentCommand::Stop || (command == AgentCommand::Toggle
            && before.coordinator().session().state == SessionState::Recording) ==> exists|
            coordinator: &mut SessionCoordinator<R, T, P, S>,
            sent: Result<SendReceipt, AppError>,
        |
            {
                &&& *coordinator == before.coordinator()
                &&& *final(coordinator) == after.coordinator()
                &&& #[trigger] call_ensures(
                    SessionCoordinator::<R, T, P, S>::stop_and_send,
                    (
                        coordinator,
                        &before.transcription_options(),
                        &before.processing_context(),
                        &before.operation_cancel(),
                    ),
                    sent,
                )
                &&& sent matches Ok(receipt) ==> result == Ok::<AgentReply, AppError>(
                    AgentReply::Completed(receipt),
                )
                &&& sent matches Err(error) ==> result == Err::<AgentReply, AppError>(error)
            },
        command == AgentCommand::Toggle && before.coordinator().session().state
            == SessionState::Failed ==> {
            &&& before.operation_cancel().may_store(false)
            &&& exists|
                coordinator: &mut SessionCoordinator<R, T, P, S>,
                done: Result<(), AppError>,
            |
                {
                    &&& coordinator.session().state == SessionState::Idle
                    &&& coordinator.session().context is None
                    &&& coordinator.session().next_number
                        == before.coordinator().session().next_number
                    &&& coordinator.recorder() == before.coordinator().recorder()
                    &&& coordinator.transcriber() == before.coordinator().transcriber()
                    &&& coordinator.post_processor() == before.coordinator().post_processor()
                    &&& coordinator.sink() == before.coordinator().sink()
                    &&& *final(coordinator) == after.coordinator()
                    &&& #[trigger] call_ensures(
                        SessionCoordinator::<R, T, P, S>::start_recording,
                        (coordinator, &before.recording_options()),
                        done,
                    )
                    &&& done is Ok ==> result == Ok::<AgentReply, AppError>(
                        AgentReply::State(SessionState::Recording),
                    )
                    &&& done matches Err(error) ==> result == Err::<AgentReply, AppError>(error)
                }
        },
        command == AgentCommand::Cancel ==> exists|
            coordinator: &mut SessionCoordinator<R, T, P, S>,
            done: Result<(), AppError>,
        |
            {
                &&& *coordinator == before.coordinator()
                &&& *final(coordinator) == after.coordinator()
                &&& #[trigger] call_ensures(
                    SessionCoordinator::<R, T, P, S>::cancel_recording,
                    (coordinator,),
                    done,
                )
                &&& done is Ok ==> result == Ok::<AgentReply, AppError>(
                    AgentReply::State(SessionState::Idle),
                )
                &&& done matches Err(error) ==> result == Err::<AgentReply, AppError>(error)
            },
        command == AgentCommand::Reset ==> exists|
            coordinator: &mut SessionCoordinator<R, T, P, S>,
            done: Result<(), AppError>,
        |
            {
                &&& *coordinator == before.coordinator()
                &&& *final(coordinator) == after.coordinator()
                &&& #[trigger] call_ensures(
                    SessionCoordinator::<R, T, P, S>::reset,
                    (coordinator,),
                    done,
                )
                &&& done is Ok ==> result == Ok::<AgentReply, AppError>(
                    AgentReply::State(SessionState::Idle),
                )
                &&& done matches Err(error) ==> result == Err::<AgentReply, AppError>(error)
            },
{
}

/// A status request reports the state, a shutdown is confirmed, and a toggle that finds the session
/// busy is refused. None of them changes anything.
pub proof fn law_reports_change_nothing<
    R: Recorder,
    T: Transcriber,
    P: PostProcessor,
    S: TextSink,
>(
    before: AgentRuntime<R, T, P, S>,
    command: AgentCommand,
    result: Result<AgentReply, AppError>,
    after: AgentRuntime<R, T, P, S>,
)
    requires
        exists|runtime: &mut AgentRuntime<R, T, P, S>|
            *runtime == before && *final(runtime) == after && #[trigger] call_ensures(
                AgentRuntime::<R, T, P, S>::handle,
                (runtime, command),
                result,
            ),
    ensures
        command == AgentCommand::Status ==> after == before && result == Ok::<
            AgentReply,
            AppError,
        >(AgentReply::State(before.coordinator().session().state)),
        command == AgentCommand::Shutdown ==> after == before && result == Ok::<
            AgentReply,
            AppError,
        >(AgentReply::Shutdown),
        command == AgentCommand::Toggle && before.coordinator().session().state
            != SessionState::Idle && before.coordinator().session().state
            != SessionState::Recording && before.coordinator().session().state
            != SessionState::Failed ==> after == before && result == Err::<AgentReply, AppError>(
            AppError::InvalidState {
                expected: SessionState::Idle,
                actual: before.coordinator().session().state,
            },
        ),
{
}

/// A toggle asks for what a start asks for where no session runs, and for what a stop asks for where
/// one is recording; every other command asks for the same in every state. A request to start, and
/// no other one, withdraws a cancellation.
pub proof fn law_plans_follow_the_command(
    command: AgentCommand,
    state: SessionState,
    other: SessionState,
    planned: Plan,
    elsewhere: Plan,
    toggled: Plan,
    started: Plan,
    stopped: Plan,
)
    requires
        call_ensures(plan, (command, state), planned),
        call_ensures(plan, (command, other), elsewhere),
        call_ensures(plan, (AgentCommand::Toggle, state), toggled),
        call_ensures(plan, (AgentCommand::Start, state), started),
        call_ensures(plan, (AgentCommand::Stop, state), stopped),
    ensures
        command != AgentCommand::Toggle ==> planned == elsewhere,
        state == SessionState::Idle ==> toggled == started,
        state == SessionState::Recording ==> toggled == stopped,
        state == SessionState::Failed ==> toggled.operation == Operation::ResetAndStart
            && toggled.withdraws_cancellation,
        state != SessionState::Idle && state != SessionState::Recording && state
            != SessionState::Failed ==> toggled.operation == Operation::Busy
            && !toggled.withdraws_cancellation,
        started.operation == Operation::Start && started.withdraws_cancellation,
        stopped.operation == Operation::StopAndSend && !stopped.withdraws_cancellation,
        command == AgentCommand::Cancel ==> planned.operation == Operation::CancelRecording,
        command == AgentCommand::Status ==> planned.operation == Operation::Report,
        command == AgentCommand::Reset ==> planned.operation == Operation::Reset,
        command == AgentCommand::Shutdown ==> planned.operation == Operation::Shutdown,
        command != AgentCommand::Start && command != AgentCommand::Toggle
            ==> !planned.withdraws_cancellation,
{
}

/// A queued command is answered with the line for what came of it, and one that finds the agent
/// shutting down is refused and not carried out.
pub proof fn law_queued_commands_are_answered<
    R: Recorder,
    T: Transcriber,
    P: PostProcessor,
    S: TextSink,
>(
    before: AgentRuntime<R, T, P, S>,
    command: AgentCommand,
    shutting_down: bool,
    response: String,
    after: AgentRuntime<R, T, P, S>,
)
    requires
        exists|runtime: &mut AgentRuntime<R, T, P, S>|
            *runtime == before && *final(runtime) == after && #[trigger] call_ensures(
                AgentRuntime::<R, T, P, S>::serve,
                (runtime, command, shutting_down),
                response,
            ),
    ensures
        shutting_down ==> after == before && response@ == "ERR agent is shutting down"@,
        !shutting_down ==> exists|
            runtime: &mut AgentRuntime<R, T, P, S>,
            result: Result<AgentReply, AppError>,
        |
            {
                &&& *runtime == before
                &&& *final(runtime) == after
                &&& #[trigger] call_ensures(
                    AgentRuntime::<R, T, P, S>::handle,
                    (runtime, command),
                    result,
                )
                &&& forall|line: String| #[trigger]
                    call_ensures(render_response, (result,), line) ==> response@ == line@
                &&& response@ == response_text(result)
            },
{
}

/// When the worker ends, a recording that still runs is discarded as a client would discard it, and
/// nothing is done in any other state.
pub proof fn law_running_recordings_are_discarded_at_the_end<
    R: Recorder,
    T: Transcriber,
    P: PostProcessor,
    S: TextSink,
>(before: AgentRuntime<R, T, P, S>, after: AgentRuntime<R, T, P, S>)
    requires
        exists|runtime: &mut AgentRuntime<R, T, P, S>|
            *runtime == before && *final(runtime) == after && #[trigger] call_ensures(
                AgentRuntime::<R, T, P, S>::wind_down,
                (runtime,),
                (),
            ),
    ensures
        before.coordinator().session().state != SessionState::Recording ==> after == before,
        before.coordinator().session().state == SessionState::Recording ==> exists|
            runtime: &mut AgentRuntime<R, T, P, S>,
            result: Result<AgentReply, AppError>,
        |
            *runtime == before && *final(runtime) == after && #[trigger] call_ensures(
                AgentRuntime::<R, T, P, S>::handle,
                (runtime, AgentCommand::Cancel),
                result,
            ),
{
}

/// A runtime has the coordinator, the options and the token that it was given, reports the state of
/// its session, hands out tokens that share the flag of its own, and has a number for every command
/// that starts no session.
pub proof fn law_runtimes_keep_what_they_are_given<
    R: Recorder,
    T: Transcriber,
    P: PostProcessor,
    S: TextSink,
>(
    coordinator: SessionCoordinator<R, T, P, S>,
    recording_options: RecordingOptions,
    transcription_options: TranscriptionOptions,
    processing_context: ProcessingContext,
    operation_cancel: CancellationToken,
    runtime: AgentRuntime<R, T, P, S>,
    state: SessionState,
    token: CancellationToken,
    command: AgentCommand,
    has_number: bool,
)
    requires
        call_ensures(
            AgentRuntime::<R, T, P, S>::new,
            (
                coordinator,
                recording_options,
                transcription_options,
                processing_context,
                operation_cancel,
            ),
            runtime,
        ),
        call_ensures(AgentRuntime::<R, T, P, S>::state, (&runtime,), state),
        call_ensures(AgentRuntime::<R, T, P, S>::cancellation, (&runtime,), token),
        call_ensures(AgentRuntime::<R, T, P, S>::has_number_for, (&runtime, command), has_number),
    ensures
        runtime.coordinator() == coordinator,
        runtime.recording_options() == recording_options,
        runtime.transcription_options() == transcription_options,
        runtime.processing_context() == processing_context,
        runtime.operation_cancel() == operation_cancel,
        state == coordinator.session().state,
        token.flag() == operation_cancel.flag(),
        !has_number <==> coordinator.session().next_number >= u64::MAX && ((command
            == AgentCommand::Start && state == SessionState::Idle) || (command
            == AgentCommand::Toggle && (state == SessionState::Idle || state
            == SessionState::Failed))),
{
}

} // verus!
