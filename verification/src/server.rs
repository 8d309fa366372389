//! What the server of the agent decides: which commands are queued, answered or refused, and how
//! the agent is invoked.

use vstd::prelude::*;

use crate::agent::{accepts, operation, state_after, AgentRuntime};
use crate::cancellation::CancellationToken;
use crate::duration::{Duration, NANOS_PER_MILLI};
use crate::error::{invalid_state_error, invalid_state_text, with_prefix};
use crate::flags::{flag_text, flag_text_or, flag_value_or, missing_flag_text, required_flag};
use crate::protocol::{
    command_name, command_text, law_command_names_parse_back, law_state_names_differ, parsed,
    render_reply, state_name, state_text, unknown_command_text, AgentCommand, AgentReply,
};
use crate::session::{state_label_text, SessionState};
use crate::text::{same_text, texts, trimmed};
use crate::traits::{PostProcessor, Recorder, TextSink, Transcriber};

verus! {

/// The address at which the agent listens unless another one is given.
pub const DEFAULT_ENDPOINT: &'static str = "127.0.0.1:38741";

/// What the connections and the worker of the agent share: the state that the session has or is
/// about to have, and the tokens.
pub struct SharedAgentState {
    /// The state that the next command finds.
    pub state: SessionState,
    /// Cancels what is being done with a recording.
    pub operation_cancel: CancellationToken,
    /// Ends the agent.
    pub shutdown: CancellationToken,
}

/// What becomes of a command.
#[derive(Debug, PartialEq, Eq)]
pub enum CommandDispatch {
    /// The worker carries it out.
    Queue(AgentCommand),
    /// It is answered at once.
    Respond(String),
}

/// The command that the worker gets, where the agent is in the given state.
pub open spec fn queued(command: AgentCommand, state: SessionState) -> Option<AgentCommand> {
    match (command, state) {
        (AgentCommand::Start, SessionState::Idle) => Some(AgentCommand::Start),
        (AgentCommand::Stop, SessionState::Recording) => Some(AgentCommand::Stop),
        (AgentCommand::Toggle, SessionState::Idle) => Some(AgentCommand::Start),
        (AgentCommand::Toggle, SessionState::Recording) => Some(AgentCommand::Stop),
        (AgentCommand::Toggle, SessionState::Failed) => Some(AgentCommand::Toggle),
        (AgentCommand::Cancel, SessionState::Recording) => Some(AgentCommand::Cancel),
        (AgentCommand::Reset, SessionState::Failed) => Some(AgentCommand::Reset),
        _ => None,
    }
}

/// The state that the next command finds once `command` is queued.
pub open spec fn reserved_state(command: AgentCommand, state: SessionState) -> SessionState {
    match queued(command, state) {
        Some(AgentCommand::Start) => SessionState::Recording,
        Some(AgentCommand::Stop) => SessionState::Transcribing,
        Some(AgentCommand::Toggle) => SessionState::Recording,
        Some(_) => SessionState::Idle,
        None => state,
    }
}

/// A recording is being transcribed, processed or sent.
pub open spec fn is_under_way(state: SessionState) -> bool {
    state == SessionState::Transcribing || state == SessionState::PostProcessing || state
        == SessionState::Sending
}

/// The answer to a command that needs no worker.
pub open spec fn immediate_response(command: AgentCommand, state: SessionState) -> Option<
    Seq<char>,
> {
    match command {
        AgentCommand::Status => Some("OK state="@ + state_text(state)),
        AgentCommand::Shutdown => Some("OK shutdown"@),
        AgentCommand::Cancel => if is_under_way(state) {
            Some("OK cancel requested"@)
        } else {
            None
        },
        _ => None,
    }
}

/// How the refusal of a toggle reads.
pub open spec fn busy_state_text(actual: SessionState) -> Seq<char> {
    "agent is busy: state="@ + state_text(actual)
}

/// How the refusal of a command reads.
pub open spec fn refusal_text(command: AgentCommand, state: SessionState) -> Seq<char> {
    match command {
        AgentCommand::Start => invalid_state_text(SessionState::Idle, state),
        AgentCommand::Toggle => busy_state_text(state),
        AgentCommand::Reset => invalid_state_text(SessionState::Failed, state),
        _ => invalid_state_text(SessionState::Recording, state),
    }
}

/// What becomes of a command in the given state: it is queued, answered or refused.
pub open spec fn is_reserved(
    command: AgentCommand,
    state: SessionState,
    result: Result<CommandDispatch, String>,
) -> bool {
    match queued(command, state) {
        Some(command) => result == Ok::<CommandDispatch, String>(CommandDispatch::Queue(command)),
        None => match immediate_response(command, state) {
            Some(text) => result matches Ok(CommandDispatch::Respond(response)) && response@
                == text,
            None => result matches Err(message) && message@ == refusal_text(command, state),
        },
    }
}

/// How the refusal of a toggle reads.
pub fn busy_state_error(actual: SessionState) -> (message: String)
    ensures
        message@ == busy_state_text(actual),
{
    with_prefix("agent is busy: state=", state_name(actual))
}

fn require_state(actual: SessionState, expected: SessionState) -> (result: Result<(), String>)
    ensures
        match result {
            Ok(_) => actual == expected,
            Err(message) => actual != expected && message@ == invalid_state_text(expected, actual),
        },
{
    if actual == expected {
        Ok(())
    } else {
        Err(invalid_state_error(expected, actual))
    }
}

/// What is decided on a command.
#[derive(Debug, PartialEq, Eq)]
pub struct Reservation {
    /// What becomes of the command, or why it is refused.
    pub dispatch: Result<CommandDispatch, String>,
    /// The state that the next command finds.
    pub state: SessionState,
    /// Whether what is being done with a recording is cancelled.
    pub cancels_operation: bool,
    /// Whether the agent ends.
    pub shuts_down: bool,
}

/// The command cancels what is being done with a recording.
pub open spec fn cancels_operation(command: AgentCommand, state: SessionState) -> bool {
    command == AgentCommand::Shutdown || (command == AgentCommand::Cancel && is_under_way(state))
}

/// Decides what becomes of a command in the given state, which state it reserves, and which tokens
/// are set.
pub fn reserve(command: AgentCommand, state: SessionState) -> (reservation: Reservation)
    ensures
        is_reserved(command, state, reservation.dispatch),
        reservation.state == reserved_state(command, state),
        reservation.cancels_operation == cancels_operation(command, state),
        reservation.shuts_down == (command == AgentCommand::Shutdown),
{
    let (dispatch, next) = match command {
        AgentCommand::Status => (
            Ok(CommandDispatch::Respond(with_prefix("OK state=", state_name(state)))),
            state,
        ),
        AgentCommand::Shutdown => (Ok(CommandDispatch::Respond("OK shutdown".to_owned())), state),
        AgentCommand::Start => match require_state(state, SessionState::Idle) {
            Ok(_) => (Ok(CommandDispatch::Queue(AgentCommand::Start)), SessionState::Recording),
            Err(message) => (Err(message), state),
        },
        AgentCommand::Stop => match require_state(state, SessionState::Recording) {
            Ok(_) => (Ok(CommandDispatch::Queue(AgentCommand::Stop)), SessionState::Transcribing),
            Err(message) => (Err(message), state),
        },
        AgentCommand::Toggle => match state {
            SessionState::Idle => (
                Ok(CommandDispatch::Queue(AgentCommand::Start)),
                SessionState::Recording,
            ),
            SessionState::Recording => (
                Ok(CommandDispatch::Queue(AgentCommand::Stop)),
                SessionState::Transcribing,
            ),
            SessionState::Failed => (
                Ok(CommandDispatch::Queue(AgentCommand::Toggle)),
                SessionState::Recording,
            ),
            actual => (Err(busy_state_error(actual)), state),
        },
        AgentCommand::Cancel => match state {
            SessionState::Recording => (
                Ok(CommandDispatch::Queue(AgentCommand::Cancel)),
                SessionState::Idle,
            ),
            SessionState::Transcribing | SessionState::PostProcessing | SessionState::Sending => (
                Ok(CommandDispatch::Respond("OK cancel requested".to_owned())),
                state,
            ),
            actual => (Err(invalid_state_error(SessionState::Recording, actual)), state),
        },
        AgentCommand::Reset => match require_state(state, SessionState::Failed) {
            Ok(_) => (Ok(CommandDispatch::Queue(AgentCommand::Reset)), SessionState::Idle),
            Err(message) => (Err(message), state),
        },
    };
    let under_way = match state {
        SessionState::Transcribing | SessionState::PostProcessing | SessionState::Sending => true,
        _ => false,
    };
    Reservation {
        dispatch,
        state: next,
        cancels_operation: command == AgentCommand::Shutdown || (command == AgentCommand::Cancel
            && under_way),
        shuts_down: command == AgentCommand::Shutdown,
    }
}

/// Decides what becomes of a command, and carries the decision out: reserves the state that the
/// worker will bring about, and sets the tokens that it names. A cancellation of what is being done
/// with a recording, and a shutdown, take effect at once.
///
/// Which tokens are set is exact in the decision; that this function sets no others is visible in
/// its code alone, since what other threads store to a token cannot be told from what it stores.
pub fn reserve_command(command: AgentCommand, shared: &mut SharedAgentState) -> (result: Result<
    CommandDispatch,
    String,
>)
    ensures
        is_reserved(command, old(shared).state, result),
        *final(shared) == (SharedAgentState {
            state: reserved_state(command, old(shared).state),
            ..*old(shared)
        }),
        cancels_operation(command, old(shared).state) ==> old(shared).operation_cancel.may_store(
            true,
        ),
        command == AgentCommand::Shutdown ==> old(shared).shutdown.may_store(true),
        exists|reservation: Reservation| #[trigger]
            call_ensures(reserve, (command, old(shared).state), reservation) && result
                == reservation.dispatch,
{
    let reservation = reserve(command, shared.state);
    if reservation.cancels_operation {
        shared.operation_cancel.cancel();
    }
    if reservation.shuts_down {
        shared.shutdown.cancel();
    }
    shared.state = reservation.state;
    reservation.dispatch
}

/// What becomes of a line that a client sent. A line that is no command and a command that is
/// refused are answered with the reason.
pub fn accept_line(line: &str, shared: &mut SharedAgentState) -> (dispatch: CommandDispatch)
    ensures
        match parsed(line@) {
            None => {
                &&& dispatch matches CommandDispatch::Respond(response) && response@ == "ERR "@
                    + unknown_command_text(trimmed(line@))
                &&& *final(shared) == *old(shared)
            },
            Some(command) => exists|
                before: &mut SharedAgentState,
                result: Result<CommandDispatch, String>,
            |
                {
                    &&& *before == *old(shared)
                    &&& *final(before) == *final(shared)
                    &&& #[trigger] call_ensures(reserve_command, (command, before), result)
                    &&& match result {
                        Ok(reserved) => dispatch == reserved,
                        Err(message) => dispatch matches CommandDispatch::Respond(response)
                            && response@ == "ERR "@ + message@,
                    }
                },
        },
{
    match AgentCommand::parse(line) {
        Err(message) => CommandDispatch::Respond(with_prefix("ERR ", message.as_str())),
        Ok(command) => match reserve_command(command, shared) {
            Ok(dispatch) => dispatch,
            Err(message) => CommandDispatch::Respond(with_prefix("ERR ", message.as_str())),
        },
    }
}

/// What came of waiting for a connection.
#[derive(Clone, Copy, Debug, PartialEq, Eq, Structural)]
pub enum AcceptEvent {
    /// A client connected.
    Connected,
    /// Nobody connected yet.
    WouldBlock,
    /// The listener failed.
    Failed,
}

/// What the server does next.
#[derive(Clone, Copy, Debug, PartialEq, Eq)]
pub enum ServerStep {
    /// Serve the client.
    Serve,
    /// Wait before looking for the next client.
    Wait(Duration),
    /// End with the error of the listener.
    Fail,
}

impl SharedAgentState {
    /// What the connections and the worker of a new agent share.
    pub fn new<R: Recorder, T: Transcriber, P: PostProcessor, S: TextSink>(
        runtime: &AgentRuntime<R, T, P, S>,
        shutdown: &CancellationToken,
    ) -> (shared: SharedAgentState)
        ensures
            shared.state == runtime.coordinator().session().state,
            shared.operation_cancel.flag() == runtime.operation_cancel().flag(),
            shared.shutdown.flag() == shutdown.flag(),
    {
        SharedAgentState {
            state: runtime.state(),
            operation_cancel: runtime.cancellation(),
            shutdown: shutdown.clone(),
        }
    }

    /// Takes over the state that the worker brought about.
    pub fn set_state(&mut self, state: SessionState)
        ensures
            *final(self) == (SharedAgentState { state, ..*old(self) }),
    {
        self.state = state;
    }

    /// Whether the server goes on. Where it does not, what is being done with a recording is
    /// cancelled.
    pub fn keeps_serving(&self) -> (goes_on: bool)
        ensures
            self.shutdown.may_load(!goes_on),
            !goes_on ==> self.operation_cancel.may_store(true),
    {
        if self.shutdown.is_cancelled() {
            self.operation_cancel.cancel();
            false
        } else {
            true
        }
    }

    /// What the server does after it waited for a connection. Where the listener failed, what is
    /// being done with a recording is cancelled.
    pub fn accepted(&self, event: AcceptEvent) -> (step: ServerStep)
        ensures
            match event {
                AcceptEvent::Connected => step == ServerStep::Serve,
                AcceptEvent::WouldBlock => step matches ServerStep::Wait(pause) && pause@ == 25
                    * NANOS_PER_MILLI,
                AcceptEvent::Failed => step == ServerStep::Fail && self.operation_cancel.may_store(
                    true,
                ),
            },
    {
        match event {
            AcceptEvent::Connected => ServerStep::Serve,
            AcceptEvent::WouldBlock => ServerStep::Wait(Duration::from_millis(25)),
            AcceptEvent::Failed => {
                self.operation_cancel.cancel();
                ServerStep::Fail
            },
        }
    }
}

/// A command is queued only where the worker can carry it out: it asks for what the client asked
/// for, and is not refused. Where it succeeds, the session gets into the state that was reserved,
/// or is done with the recording that was reserved for transcription.
pub proof fn law_queued_commands_are_accepted(command: AgentCommand, state: SessionState)
    ensures
        queued(command, state) matches Some(next) ==> {
            &&& accepts(next, state)
            &&& operation(next, state) == operation(command, state)
            &&& reserved_state(command, state) == state_after(next, state) || reserved_state(
                command,
                state,
            ) == SessionState::Transcribing && state_after(next, state) == SessionState::Idle
        },
{
}

/// A command that is refused or queued sets no token and shuts nothing down; only a shutdown ends
/// the agent, and only a shutdown or a cancellation under way cancels anything.
pub proof fn law_refused_commands_set_no_token(
    command: AgentCommand,
    state: SessionState,
    reservation: Reservation,
)
    requires
        call_ensures(reserve, (command, state), reservation),
    ensures
        reservation.dispatch is Err ==> !reservation.cancels_operation && !reservation.shuts_down
            && reservation.state == state,
        reservation.dispatch matches Ok(CommandDispatch::Queue(_))
            ==> !reservation.cancels_operation && !reservation.shuts_down,
        reservation.shuts_down ==> reservation.cancels_operation,
        command == AgentCommand::Cancel ==> !reservation.shuts_down,
        reservation.dispatch is Err <==> !accepts(command, state) && !(command
            == AgentCommand::Cancel && is_under_way(state)),
{
}

/// A command that the worker could carry out is not refused.
pub proof fn law_acceptable_commands_are_not_refused(command: AgentCommand, state: SessionState)
    requires
        accepts(command, state),
    ensures
        queued(command, state) is Some || immediate_response(command, state) is Some,
{
}

/// While a recording is being transcribed, processed or sent, nothing is queued; a client can still
/// ask for the state, cancel and shut down.
pub proof fn law_nothing_is_queued_while_under_way(command: AgentCommand, state: SessionState)
    requires
        is_under_way(state),
    ensures
        queued(command, state) is None,
        reserved_state(command, state) == state,
        immediate_response(command, state) is Some <==> command == AgentCommand::Status || command
            == AgentCommand::Cancel || command == AgentCommand::Shutdown,
{
}

/// Once a client has reserved a start or a stop, a second client cannot reserve it too.
pub proof fn law_reservations_exclude_each_other(command: AgentCommand, state: SessionState)
    requires
        command == AgentCommand::Start || command == AgentCommand::Stop,
        queued(command, state) is Some,
    ensures
        queued(command, reserved_state(command, state)) is None,
{
}

/// What the command line of the agent asks for.
#[derive(Debug, PartialEq, Eq)]
pub enum AgentInvocation {
    /// Run the agent.
    Daemon {
        /// The file with the model.
        model: String,
        /// The address to listen at.
        endpoint: String,
    },
    /// Send a command to a running agent.
    Client {
        /// The command.
        command: AgentCommand,
        /// The address of the agent.
        endpoint: String,
    },
}

/// Why a command line was not understood.
#[derive(Debug, PartialEq, Eq)]
pub struct UsageError {
    /// What is wrong.
    pub message: String,
    /// Whether the help is shown first.
    pub show_help: bool,
}

/// The action is the word for the command.
pub open spec fn is_client_action(action: Seq<char>, command: AgentCommand) -> bool {
    command_text(command) == action
}

/// What the arguments of the agent, of which the second is the action, ask for.
pub open spec fn is_invocation(
    args: Seq<Seq<char>>,
    result: Result<AgentInvocation, UsageError>,
) -> bool {
    let endpoint_text = flag_text_or(args, "--endpoint"@, DEFAULT_ENDPOINT@);
    if args.len() < 2 {
        result matches Err(error) && error.message@ == "missing agent action"@ && error.show_help
    } else if args[1] == "daemon"@ {
        match flag_text(args, "--model"@) {
            Some(text) => result matches Ok(AgentInvocation::Daemon { model, endpoint }) && model@
                == text && endpoint@ == endpoint_text,
            None => result matches Err(error) && error.message@ == missing_flag_text("--model"@)
                && !error.show_help,
        }
    } else if exists|command: AgentCommand| is_client_action(args[1], command) {
        result matches Ok(AgentInvocation::Client { command, endpoint }) && is_client_action(
            args[1],
            command,
        ) && endpoint@ == endpoint_text
    } else {
        result matches Err(error) && error.message@ == "unknown agent action"@ && error.show_help
    }
}

/// Reads the command line of the agent.
pub fn command(args: &[String]) -> (result: Result<AgentInvocation, UsageError>)
    ensures
        is_invocation(texts(args@), result),
{
    if args.len() < 2 {
        return Err(UsageError { message: "missing agent action".to_owned(), show_help: true });
    }
    let action = args[1].as_str();
    let endpoint = flag_value_or(args, "--endpoint", DEFAULT_ENDPOINT).to_owned();
    if same_text(action, "daemon") {
        return match required_flag(args, "--model") {
            Ok(model) => Ok(AgentInvocation::Daemon { model: model.to_owned(), endpoint }),
            Err(message) => Err(UsageError { message, show_help: false }),
        };
    }
    if let Ok(command) = AgentCommand::parse(action) {
        if same_text(command_name(command), action) {
            assert(is_client_action(texts(args@)[1], command));
            return Ok(AgentInvocation::Client { command, endpoint });
        }
    }
    proof {
        if exists|command: AgentCommand| is_client_action(texts(args@)[1], command) {
            let command = choose|command: AgentCommand| is_client_action(texts(args@)[1], command);
            law_command_names_parse_back(command);
        }
    }
    Err(UsageError { message: "unknown agent action".to_owned(), show_help: true })
}

/// The answer to a status request names the state that the agent is in: it is the line for that state
/// that the runtime would answer with, different states are answered differently, and nothing
/// changes.
pub proof fn law_status_names_the_state(
    state: SessionState,
    reservation: Reservation,
    name: &'static str,
    line: String,
    other: SessionState,
    other_reservation: Reservation,
)
    requires
        call_ensures(reserve, (AgentCommand::Status, state), reservation),
        call_ensures(state_name, (state,), name),
        call_ensures(render_reply, (AgentReply::State(state),), line),
        call_ensures(reserve, (AgentCommand::Status, other), other_reservation),
    ensures
        reservation.dispatch matches Ok(CommandDispatch::Respond(response)) && response@
            == "OK state="@ + name@ && response@ == line@,
        reservation.state == state,
        !reservation.cancels_operation && !reservation.shuts_down,
        state != other ==> reservation.dispatch->Ok_0->Respond_0@
            != other_reservation.dispatch->Ok_0->Respond_0@,
{
    if state != other {
        law_state_names_differ(state, other);
        let prefix = "OK state="@;
        let a = prefix + state_text(state);
        let b = prefix + state_text(other);
        if a == b {
            assert(a.skip(prefix.len() as int) == state_text(state));
            assert(b.skip(prefix.len() as int) == state_text(other));
        }
    }
}

/// A start is queued where the agent is idle and refused everywhere else.
pub proof fn law_starts_need_an_idle_agent(state: SessionState, reservation: Reservation)
    requires
        call_ensures(reserve, (AgentCommand::Start, state), reservation),
    ensures
        state == SessionState::Idle ==> reservation.dispatch == Ok::<CommandDispatch, String>(
            CommandDispatch::Queue(AgentCommand::Start),
        ) && reservation.state == SessionState::Recording,
        state != SessionState::Idle ==> (reservation.dispatch matches Err(message) && message@
            == "invalid session state: expected "@ + "Idle"@ + ", got "@ + state_label_text(state))
            && reservation.state == state,
        !reservation.cancels_operation && !reservation.shuts_down,
{
}

/// A stop is queued where the agent is recording and refused everywhere else.
pub proof fn law_stops_need_a_recording(state: SessionState, reservation: Reservation)
    requires
        call_ensures(reserve, (AgentCommand::Stop, state), reservation),
    ensures
        state == SessionState::Recording ==> reservation.dispatch == Ok::<CommandDispatch, String>(
            CommandDispatch::Queue(AgentCommand::Stop),
        ) && reservation.state == SessionState::Transcribing,
        state != SessionState::Recording ==> (reservation.dispatch matches Err(message) && message@
            == "invalid session state: expected "@ + "Recording"@ + ", got "@ + state_label_text(
            state,
        )) && reservation.state == state,
        !reservation.cancels_operation && !reservation.shuts_down,
{
}

/// A toggle is what a start is to an idle agent and what a stop is to one that is recording. A failed
/// agent queues it, to be reset and started; one that is busy refuses it and says with what.
pub proof fn law_toggles_start_or_stop(
    state: SessionState,
    reservation: Reservation,
    start: Reservation,
    stop: Reservation,
    name: &'static str,
)
    requires
        call_ensures(reserve, (AgentCommand::Toggle, state), reservation),
        call_ensures(reserve, (AgentCommand::Start, state), start),
        call_ensures(reserve, (AgentCommand::Stop, state), stop),
        call_ensures(state_name, (state,), name),
    ensures
        state == SessionState::Idle ==> reservation == start && start.dispatch is Ok,
        state == SessionState::Recording ==> reservation == stop && stop.dispatch is Ok,
        state == SessionState::Failed ==> reservation.dispatch == Ok::<CommandDispatch, String>(
            CommandDispatch::Queue(AgentCommand::Toggle),
        ) && reservation.state == SessionState::Recording,
        state != SessionState::Idle && state != SessionState::Recording && state
            != SessionState::Failed ==> (reservation.dispatch matches Err(message) && message@
            == "agent is busy: state="@ + name@) && reservation.state == state,
        !reservation.cancels_operation && !reservation.shuts_down,
{
}

/// A cancellation is queued where a recording runs, and takes effect at once where one is being
/// transcribed, processed or sent. There is nothing else to cancel.
pub proof fn law_cancellations_need_something_to_cancel(
    state: SessionState,
    reservation: Reservation,
)
    requires
        call_ensures(reserve, (AgentCommand::Cancel, state), reservation),
    ensures
        state == SessionState::Recording ==> reservation.dispatch == Ok::<CommandDispatch, String>(
            CommandDispatch::Queue(AgentCommand::Cancel),
        ) && reservation.state == SessionState::Idle,
        state == SessionState::Transcribing || state == SessionState::PostProcessing || state
            == SessionState::Sending ==> (reservation.dispatch matches Ok(
            CommandDispatch::Respond(response),
        ) && response@ == "OK cancel requested"@),
        reservation.cancels_operation <==> state == SessionState::Transcribing || state
            == SessionState::PostProcessing || state == SessionState::Sending,
        state == SessionState::Idle || state == SessionState::Completed || state
            == SessionState::Failed ==> (reservation.dispatch matches Err(message) && message@
            == "invalid session state: expected "@ + "Recording"@ + ", got "@ + state_label_text(
            state,
        )),
        state != SessionState::Recording ==> reservation.state == state,
        !reservation.shuts_down,
{
}

/// A reset is queued where the agent has failed and refused everywhere else.
pub proof fn law_resets_need_a_failed_agent(state: SessionState, reservation: Reservation)
    requires
        call_ensures(reserve, (AgentCommand::Reset, state), reservation),
    ensures
        state == SessionState::Failed ==> reservation.dispatch == Ok::<CommandDispatch, String>(
            CommandDispatch::Queue(AgentCommand::Reset),
        ) && reservation.state == SessionState::Idle,
        state != SessionState::Failed ==> (reservation.dispatch matches Err(message) && message@
            == "invalid session state: expected "@ + "Failed"@ + ", got "@ + state_label_text(
            state,
        )) && reservation.state == state,
        !reservation.cancels_operation && !reservation.shuts_down,
{
}

/// A shutdown is answered at once, in every state, ends the agent and cancels what it is doing.
pub proof fn law_shutdowns_are_never_refused(state: SessionState, reservation: Reservation)
    requires
        call_ensures(reserve, (AgentCommand::Shutdown, state), reservation),
    ensures
        reservation.dispatch matches Ok(CommandDispatch::Respond(response)) && response@
            == "OK shutdown"@,
        reservation.state == state,
        reservation.shuts_down && reservation.cancels_operation,
{
}

/// What is decided on a command is what is done: the answer is given, the state is reserved, and the
/// tokens that the decision names are set. The tokens stay those that they are.
pub proof fn law_decisions_are_carried_out(
    command: AgentCommand,
    before: SharedAgentState,
    result: Result<CommandDispatch, String>,
    after: SharedAgentState,
    reservation: Reservation,
)
    requires
        exists|shared: &mut SharedAgentState|
            *shared == before && *final(shared) == after && #[trigger] call_ensures(
                reserve_command,
                (command, shared),
                result,
            ),
        call_ensures(reserve, (command, before.state), reservation),
    ensures
        after.state == reservation.state,
        after.operation_cancel == before.operation_cancel,
        after.shutdown == before.shutdown,
        reservation.cancels_operation ==> before.operation_cancel.may_store(true),
        reservation.shuts_down ==> before.shutdown.may_store(true),
        match (result, reservation.dispatch) {
            (Ok(CommandDispatch::Queue(a)), Ok(CommandDispatch::Queue(b))) => a == b,
            (Ok(CommandDispatch::Respond(a)), Ok(CommandDispatch::Respond(b))) => a@ == b@,
            (Err(a), Err(b)) => a@ == b@,
            _ => false,
        },
{
}

/// A line is carried out as the command that it is read as; one that is no command, or one that is
/// refused, is answered with an error, and then nothing changes.
pub proof fn law_lines_are_carried_out_as_commands(
    line: &str,
    before: SharedAgentState,
    dispatch: CommandDispatch,
    after: SharedAgentState,
    parse: Result<AgentCommand, String>,
)
    requires
        exists|shared: &mut SharedAgentState|
            *shared == before && *final(shared) == after && #[trigger] call_ensures(
                accept_line,
                (line, shared),
                dispatch,
            ),
        call_ensures(AgentCommand::parse, (line,), parse),
    ensures
        parse matches Err(message) ==> after == before && (dispatch matches CommandDispatch::Respond(
            response,
        ) && response@ == "ERR "@ + message@),
        parse matches Ok(command) ==> exists|
            shared: &mut SharedAgentState,
            result: Result<CommandDispatch, String>,
        |
            {
                &&& *shared == before
                &&& *final(shared) == after
                &&& #[trigger] call_ensures(reserve_command, (command, shared), result)
                &&& match result {
                    Ok(decided) => dispatch == decided,
                    Err(message) => dispatch matches CommandDispatch::Respond(response)
                        && response@ == "ERR "@ + message@,
                }
            },
{
}

/// The agent is shared with the state and the token of its runtime and the token that ends it, and
/// takes over the states that its worker brings about.
pub proof fn law_shared_state_follows_the_runtime<
    R: Recorder,
    T: Transcriber,
    P: PostProcessor,
    S: TextSink,
>(
    runtime: &AgentRuntime<R, T, P, S>,
    shutdown: &CancellationToken,
    shared: SharedAgentState,
    before: SharedAgentState,
    state: SessionState,
    after: SharedAgentState,
)
    requires
        call_ensures(SharedAgentState::new::<R, T, P, S>, (runtime, shutdown), shared),
        exists|shared: &mut SharedAgentState|
            *shared == before && *final(shared) == after && #[trigger] call_ensures(
                SharedAgentState::set_state,
                (shared, state),
                (),
            ),
    ensures
        shared.state == runtime.coordinator().session().state,
        shared.operation_cancel.flag() == runtime.operation_cancel().flag(),
        shared.shutdown.flag() == shutdown.flag(),
        after.state == state,
        after.operation_cancel == before.operation_cancel,
        after.shutdown == before.shutdown,
{
}

/// The server goes on until it is shut down; it serves who connects, looks again after 25
/// milliseconds where nobody did, and ends where its listener failed. When it ends, what is being
/// done with a recording is cancelled.
pub proof fn law_servers_serve_until_they_are_shut_down(
    shared: &SharedAgentState,
    goes_on: bool,
    event: AcceptEvent,
    step: ServerStep,
)
    requires
        call_ensures(SharedAgentState::keeps_serving, (shared,), goes_on),
        call_ensures(SharedAgentState::accepted, (shared, event), step),
    ensures
        goes_on ==> shared.shutdown.may_load(false),
        !goes_on ==> shared.shutdown.may_load(true) && shared.operation_cancel.may_store(true),
        event == AcceptEvent::Connected <==> step == ServerStep::Serve,
        event == AcceptEvent::WouldBlock <==> step is Wait,
        step matches ServerStep::Wait(pause) ==> pause@ == 25_000_000,
        event == AcceptEvent::Failed <==> step == ServerStep::Fail,
        event == AcceptEvent::Failed ==> shared.operation_cancel.may_store(true),
{
}

/// The command line of the agent names what it asks for in its second argument, as it is spelled. The
/// agent listens and is called at the endpoint that a flag gives, and else at the default one; to run
/// it takes the file of a model.
pub proof fn law_agent_command_lines_name_their_action(
    args: &[String],
    result: Result<AgentInvocation, UsageError>,
)
    requires
        call_ensures(command, (args,), result),
    ensures
        args@.len() < 2 ==> (result matches Err(error) && error.message@ == "missing agent action"@
            && error.show_help),
        args@.len() >= 2 ==> match result {
            Ok(AgentInvocation::Daemon { model, endpoint }) => {
                &&& args@[1]@ == "daemon"@
                &&& flag_text(texts(args@), "--model"@) == Some(model@)
                &&& endpoint@ == match flag_text(texts(args@), "--endpoint"@) {
                    Some(text) => text,
                    None => "127.0.0.1:38741"@,
                }
            },
            Ok(AgentInvocation::Client { command, endpoint }) => {
                &&& args@[1]@ == match command {
                    AgentCommand::Start => "start"@,
                    AgentCommand::Stop => "stop"@,
                    AgentCommand::Toggle => "toggle"@,
                    AgentCommand::Cancel => "cancel"@,
                    AgentCommand::Status => "status"@,
                    AgentCommand::Reset => "reset"@,
                    AgentCommand::Shutdown => "shutdown"@,
                }
                &&& endpoint@ == match flag_text(texts(args@), "--endpoint"@) {
                    Some(text) => text,
                    None => "127.0.0.1:38741"@,
                }
            },
            Err(error) => if args@[1]@ == "daemon"@ {
                &&& flag_text(texts(args@), "--model"@) is None
                &&& error.message@ == "missing required flag: --model"@
                &&& !error.show_help
            } else {
                &&& error.message@ == "unknown agent action"@
                &&& error.show_help
                &&& args@[1]@ != "start"@ && args@[1]@ != "stop"@ && args@[1]@ != "toggle"@
                &&& args@[1]@ != "cancel"@ && args@[1]@ != "status"@ && args@[1]@ != "reset"@
                &&& args@[1]@ != "shutdown"@
            },
        },
{
    if args@.len() >= 2 {
        assert(texts(args@)[1] == args@[1]@);
        reveal_strlit("missing required flag: ");
        reveal_strlit("--model");
        reveal_strlit("missing required flag: --model");
        assert("missing required flag: "@ + "--model"@ == "missing required flag: --model"@);
        let action = args@[1]@;
        if action == "start"@ {
            assert(is_client_action(action, AgentCommand::Start));
        } else if action == "stop"@ {
            assert(is_client_action(action, AgentCommand::Stop));
        } else if action == "toggle"@ {
            assert(is_client_action(action, AgentCommand::Toggle));
        } else if action == "cancel"@ {
            assert(is_client_action(action, AgentCommand::Cancel));
        } else if action == "status"@ {
            assert(is_client_action(action, AgentCommand::Status));
        } else if action == "reset"@ {
            assert(is_client_action(action, AgentCommand::Reset));
        } else if action == "shutdown"@ {
            assert(is_client_action(action, AgentCommand::Shutdown));
        }
    }
}

} // verus!
