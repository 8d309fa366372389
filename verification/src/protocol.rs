//! The line protocol between the agent and its clients.

use vstd::prelude::*;
use vstd::utf8::{
    decode_utf8, encode_scalar, encode_utf8, has_width_1_encoding, is_ascii_chars, last_continuation_byte,
    leading_byte_width_1, leading_byte_width_2, leading_byte_width_3, leading_byte_width_4,
    second_last_continuation_byte, third_last_continuation_byte, valid_utf8,
};

use crate::error::{with_prefix, AppError};
use crate::model::SendReceipt;
use crate::session::SessionState;
use crate::text::{
    decimal, has_prefix, lemma_trimmed_end, lemma_trimmed_start, push_decimal, same_text,
    strip_prefix, to_chars, trim, trim_end, trimmed, trimmed_start,
    trimmed_end, white_space,
};

verus! {

/// The longest command line that is accepted, in bytes.
pub const MAX_COMMAND_BYTES: usize = 128;

/// A request to the agent.
#[derive(Clone, Copy, Debug, PartialEq, Eq, Structural)]
pub enum AgentCommand {
    /// Start a recording.
    Start,
    /// Stop the recording and send its text.
    Stop,
    /// Start a recording, or stop the one that is running.
    Toggle,
    /// Discard the recording, or cancel what is being done with it.
    Cancel,
    /// Report the state.
    Status,
    /// Leave the failed state.
    Reset,
    /// End the agent.
    Shutdown,
}

/// The word for a command.
pub open spec fn command_text(command: AgentCommand) -> Seq<char> {
    match command {
        AgentCommand::Start => "start"@,
        AgentCommand::Stop => "stop"@,
        AgentCommand::Toggle => "toggle"@,
        AgentCommand::Cancel => "cancel"@,
        AgentCommand::Status => "status"@,
        AgentCommand::Reset => "reset"@,
        AgentCommand::Shutdown => "shutdown"@,
    }
}

/// The word for a command.
pub fn command_name(command: AgentCommand) -> (name: &'static str)
    ensures
        name@ == command_text(command),
{
    match command {
        AgentCommand::Start => "start",
        AgentCommand::Stop => "stop",
        AgentCommand::Toggle => "toggle",
        AgentCommand::Cancel => "cancel",
        AgentCommand::Status => "status",
        AgentCommand::Reset => "reset",
        AgentCommand::Shutdown => "shutdown",
    }
}

/// What is said of a word that is no command.
pub open spec fn unknown_command_text(word: Seq<char>) -> Seq<char> {
    "unknown agent command '"@ + word
        + "'; expected start, stop, toggle, cancel, status, reset, or shutdown"@
}

/// The command that a line stands for: its word, with white space around it.
pub open spec fn parsed(line: Seq<char>) -> Option<AgentCommand> {
    let word = trimmed(line);
    if word == "start"@ {
        Some(AgentCommand::Start)
    } else if word == "stop"@ {
        Some(AgentCommand::Stop)
    } else if word == "toggle"@ {
        Some(AgentCommand::Toggle)
    } else if word == "cancel"@ {
        Some(AgentCommand::Cancel)
    } else if word == "status"@ {
        Some(AgentCommand::Status)
    } else if word == "reset"@ {
        Some(AgentCommand::Reset)
    } else if word == "shutdown"@ {
        Some(AgentCommand::Shutdown)
    } else {
        None
    }
}

impl AgentCommand {
    /// Reads a command; white space around it does not matter.
    pub fn parse(value: &str) -> (result: Result<AgentCommand, String>)
        ensures
            match parsed(value@) {
                Some(command) => result == Ok::<AgentCommand, String>(command),
                None => result matches Err(message) && message@ == unknown_command_text(
                    trimmed(value@),
                ),
            },
    {
        let word = trim(value);
        if same_text(word.as_str(), "start") {
            Ok(AgentCommand::Start)
        } else if same_text(word.as_str(), "stop") {
            Ok(AgentCommand::Stop)
        } else if same_text(word.as_str(), "toggle") {
            Ok(AgentCommand::Toggle)
        } else if same_text(word.as_str(), "cancel") {
            Ok(AgentCommand::Cancel)
        } else if same_text(word.as_str(), "status") {
            Ok(AgentCommand::Status)
        } else if same_text(word.as_str(), "reset") {
            Ok(AgentCommand::Reset)
        } else if same_text(word.as_str(), "shutdown") {
            Ok(AgentCommand::Shutdown)
        } else {
            let mut message = with_prefix("unknown agent command '", word.as_str());
            message.append("'; expected start, stop, toggle, cancel, status, reset, or shutdown");
            Err(message)
        }
    }
}

/// A text that neither starts nor ends with white space is not changed by trimming.
proof fn lemma_trimmed_fixed(s: Seq<char>)
    requires
        s.len() > 0,
        !white_space(s[0]),
        !white_space(s.last()),
    ensures
        trimmed(s) == s,
{
}

/// The word for every command is read back as that command.
pub proof fn law_command_names_parse_back(command: AgentCommand)
    ensures
        parsed(command_text(command)) == Some(command),
{
    reveal_command_words();
    lemma_trimmed_fixed(command_text(command));
    assert("start"@.len() == 5 && "stop"@.len() == 4 && "toggle"@.len() == 6);
    assert("start"@[2] == 'a' && "reset"@[2] == 's');
    assert("toggle"@[0] == 't' && "cancel"@[0] == 'c' && "status"@[0] == 's');
    assert("start"@[0] == 's' && "reset"@[0] == 'r');
}

/// What the words of the protocol are.
proof fn reveal_command_words()
    ensures
        "start"@ == seq!['s', 't', 'a', 'r', 't'],
        "stop"@ == seq!['s', 't', 'o', 'p'],
        "toggle"@ == seq!['t', 'o', 'g', 'g', 'l', 'e'],
        "cancel"@ == seq!['c', 'a', 'n', 'c', 'e', 'l'],
        "status"@ == seq!['s', 't', 'a', 't', 'u', 's'],
        "reset"@ == seq!['r', 'e', 's', 'e', 't'],
        "shutdown"@ == seq!['s', 'h', 'u', 't', 'd', 'o', 'w', 'n'],
{
    reveal_strlit("start");
    reveal_strlit("stop");
    reveal_strlit("toggle");
    reveal_strlit("cancel");
    reveal_strlit("status");
    reveal_strlit("reset");
    reveal_strlit("shutdown");
}

/// What the agent answers to a command that it carried out.
#[derive(Debug, PartialEq, Eq)]
pub enum AgentReply {
    /// The state after the command.
    State(SessionState),
    /// The text was sent.
    Completed(SendReceipt),
    /// The agent ends.
    Shutdown,
}

/// The name of a state in replies.
pub open spec fn state_text(state: SessionState) -> Seq<char> {
    match state {
        SessionState::Idle => "idle"@,
        SessionState::Recording => "recording"@,
        SessionState::Transcribing => "transcribing"@,
        SessionState::PostProcessing => "post_processing"@,
        SessionState::Sending => "sending"@,
        SessionState::Completed => "completed"@,
        SessionState::Failed => "failed"@,
    }
}

/// The name of a state in replies.
pub fn state_name(state: SessionState) -> (name: &'static str)
    ensures
        name@ == state_text(state),
{
    match state {
        SessionState::Idle => "idle",
        SessionState::Recording => "recording",
        SessionState::Transcribing => "transcribing",
        SessionState::PostProcessing => "post_processing",
        SessionState::Sending => "sending",
        SessionState::Completed => "completed",
        SessionState::Failed => "failed",
    }
}

/// The line for a reply.
pub open spec fn reply_text(reply: AgentReply) -> Seq<char> {
    match reply {
        AgentReply::State(state) => "OK state="@ + state_text(state),
        AgentReply::Completed(receipt) => "OK completed sink="@ + receipt.sink_name@ + " bytes="@
            + decimal(receipt.bytes_sent as nat),
        AgentReply::Shutdown => "OK shutdown"@,
    }
}

/// The line for a reply.
pub fn render_reply(reply: AgentReply) -> (line: String)
    ensures
        line@ == reply_text(reply),
{
    match reply {
        AgentReply::State(state) => with_prefix("OK state=", state_name(state)),
        AgentReply::Completed(receipt) => {
            let mut line = with_prefix("OK completed sink=", receipt.sink_name.as_str());
            line.append(" bytes=");
            push_decimal(&mut line, receipt.bytes_sent as u128);
            line
        },
        AgentReply::Shutdown => "OK shutdown".to_owned(),
    }
}

/// A message with every line break replaced by a space.
pub open spec fn sanitized(message: Seq<char>) -> Seq<char> {
    message.map_values(
        |c: char|
            if c == '\r' || c == '\n' {
                ' '
            } else {
                c
            },
    )
}

/// Puts a message on one line.
pub fn sanitize_message(message: &str) -> (line: String)
    ensures
        line@ == sanitized(message@),
{
    let chars = to_chars(message);
    let mut line = String::new();
    let mut i: usize = 0;
    while i < chars.len()
        invariant
            i <= chars@.len(),
            chars@ == message@,
            line@ == sanitized(message@).take(i as int),
        decreases chars@.len() - i,
    {
        if chars[i] == '\r' || chars[i] == '\n' {
            line.push(' ');
        } else {
            line.push(chars[i]);
        }
        i += 1;
    }
    line
}

/// The line for what came of a command.
pub open spec fn response_text(result: Result<AgentReply, AppError>) -> Seq<char> {
    match result {
        Ok(reply) => reply_text(reply),
        Err(error) => "ERR "@ + sanitized(error.text()),
    }
}

/// The line for what came of a command.
pub fn render_response(result: Result<AgentReply, AppError>) -> (line: String)
    ensures
        line@ == response_text(result),
{
    match result {
        Ok(reply) => render_reply(reply),
        Err(error) => {
            let message = error.describe();
            with_prefix("ERR ", sanitize_message(message.as_str()).as_str())
        },
    }
}

/// An error is answered with one line: no line break stands in it.
pub proof fn law_error_response_is_one_line(error: AppError)
    ensures
        forall|i: int|
            #![trigger response_text(Err(error))[i]]
            0 <= i < response_text(Err(error)).len() ==> response_text(Err(error))[i] != '\n'
                && response_text(Err(error))[i] != '\r',
{
    reveal_strlit("ERR ");
    let line = response_text(Err(error));
    assert forall|i: int| #![trigger line[i]] 0 <= i < line.len() implies line[i] != '\n' && line[i]
        != '\r' by {
        if i >= 4 {
            assert(line[i] == sanitized(error.text())[i - 4]);
        }
    }
}

/// Why a command line was not accepted.
#[derive(Clone, Copy, Debug, PartialEq, Eq, Structural)]
pub enum LineError {
    /// The line has more bytes than a command may have.
    TooLong,
    /// The bytes of the line are not UTF-8.
    NotUtf8,
}

impl LineError {
    /// How the error reads.
    pub open spec fn text(self) -> Seq<char> {
        match self {
            LineError::TooLong => "command is too long"@,
            LineError::NotUtf8 => "command is not valid UTF-8"@,
        }
    }

    /// How the error reads.
    pub fn message(self) -> (message: &'static str)
        ensures
            message@ == self.text(),
    {
        match self {
            LineError::TooLong => "command is too long",
            LineError::NotUtf8 => "command is not valid UTF-8",
        }
    }
}

/// `String::from_utf8` makes a string of the bytes exactly when they are valid UTF-8; the string
/// then consists of those bytes.
#[verifier::external_body]
fn utf8_string(bytes: Vec<u8>) -> (text: Option<String>)
    ensures
        text is Some <==> valid_utf8(bytes@),
        text matches Some(text) ==> encode_utf8(text@) == bytes@,
{
    String::from_utf8(bytes).ok()
}

/// What a read of one byte gave.
#[derive(Clone, Copy, Debug, PartialEq, Eq, Structural)]
pub enum ReadEvent {
    /// The other side sends nothing more.
    End,
    /// One byte.
    Byte(u8),
}

/// What a line reader does with what was read.
#[derive(Debug, PartialEq, Eq)]
pub enum LineStep {
    /// Read on.
    Continue,
    /// There was no line.
    Closed,
    /// The line, without its line break.
    Line(String),
    /// The line is not accepted.
    Rejected(LineError),
}

/// What the bytes of a finished line are read as.
pub open spec fn is_finished(line: Seq<u8>, step: LineStep) -> bool {
    if valid_utf8(line) {
        step matches LineStep::Line(text) && text@ == decode_utf8(line)
    } else {
        step == LineStep::Rejected(LineError::NotUtf8)
    }
}

/// Collects the bytes of a line up to the length that a command may have. Its view is the bytes so
/// far.
pub struct CommandLineReader {
    bytes: Vec<u8>,
}

impl View for CommandLineReader {
    type V = Seq<u8>;

    closed spec fn view(&self) -> Seq<u8> {
        self.bytes@
    }
}

impl CommandLineReader {
    /// A reader that has read nothing.
    pub fn new() -> (reader: CommandLineReader)
        ensures
            reader@ == Seq::<u8>::empty(),
    {
        CommandLineReader { bytes: Vec::new() }
    }

    /// Takes what was read. A line ends at a line feed or where the other side ends; nothing at all
    /// before the end is no line.
    pub fn accept(&mut self, event: ReadEvent) -> (step: LineStep)
        ensures
            match event {
                ReadEvent::End => if old(self)@.len() == 0 {
                    step == LineStep::Closed && final(self)@ == old(self)@
                } else {
                    is_finished(old(self)@, step) && final(self)@.len() == 0
                },
                ReadEvent::Byte(byte) => if byte == 10 {
                    is_finished(old(self)@, step) && final(self)@.len() == 0
                } else if old(self)@.len() >= MAX_COMMAND_BYTES {
                    step == LineStep::Rejected(LineError::TooLong) && final(self)@ == old(self)@
                } else {
                    step == LineStep::Continue && final(self)@ == old(self)@.push(byte)
                },
            },
    {
        match event {
            ReadEvent::End => {
                if self.bytes.is_empty() {
                    return LineStep::Closed;
                }
            },
            ReadEvent::Byte(byte) => {
                if byte != 10 {
                    if self.bytes.len() >= MAX_COMMAND_BYTES {
                        return LineStep::Rejected(LineError::TooLong);
                    }
                    self.bytes.push(byte);
                    return LineStep::Continue;
                }
            },
        }
        let mut line: Vec<u8> = Vec::new();
        std::mem::swap(&mut line, &mut self.bytes);
        match utf8_string(line) {
            Some(text) => {
                proof {
                    vstd::utf8::encode_utf8_decode_utf8(text@);
                }
                LineStep::Line(text)
            },
            None => LineStep::Rejected(LineError::NotUtf8),
        }
    }
}

/// The number of bytes before the first line feed, or of all bytes where there is none.
pub open spec fn line_length(input: Seq<u8>) -> nat
    decreases input.len(),
{
    if input.len() == 0 || input[0] == 10 {
        0
    } else {
        1 + line_length(input.drop_first())
    }
}

/// `result` is what the first line of `input` is read as: none where there is no input, an error
/// where the line is too long or not UTF-8, and else the line without its line feed.
pub open spec fn is_line_read(
    input: Seq<u8>,
    result: Result<Option<String>, LineError>,
) -> bool {
    let line = input.take(line_length(input) as int);
    if line.len() > MAX_COMMAND_BYTES {
        result == Err::<Option<String>, LineError>(LineError::TooLong)
    } else if input.len() == 0 {
        result == Ok::<Option<String>, LineError>(None)
    } else if !valid_utf8(line) {
        result == Err::<Option<String>, LineError>(LineError::NotUtf8)
    } else {
        result matches Ok(Some(text)) && text@ == decode_utf8(line)
    }
}

/// The first line of `input` ends at the first line feed.
proof fn lemma_line_length_is(input: Seq<u8>, n: int)
    requires
        0 <= n <= input.len(),
        forall|i: int| 0 <= i < n ==> input[i] != 10,
        n < input.len() ==> input[n] == 10,
    ensures
        line_length(input) == n,
    decreases input.len(),
{
    if n > 0 {
        lemma_line_length_is(input.drop_first(), n - 1);
    }
}

/// The first line of `input` is no shorter than a prefix without a line feed.
proof fn lemma_line_length_at_least(input: Seq<u8>, n: int)
    requires
        0 <= n <= input.len(),
        forall|i: int| 0 <= i < n ==> input[i] != 10,
    ensures
        n <= line_length(input) <= input.len(),
    decreases input.len(),
{
    if input.len() > 0 && input[0] != 10 {
        lemma_line_length_at_least(
            input.drop_first(),
            if n > 0 {
                n - 1
            } else {
                0
            },
        );
    }
}

/// Reads the first line of `input`.
pub fn read_command_line_from(input: &[u8]) -> (result: Result<Option<String>, LineError>)
    ensures
        is_line_read(input@, result),
{
    let mut reader = CommandLineReader::new();
    let mut i: usize = 0;
    loop
        invariant
            i <= input@.len(),
            i <= MAX_COMMAND_BYTES,
            reader@ == input@.take(i as int),
            forall|j: int| 0 <= j < i ==> input@[j] != 10,
        decreases input@.len() - i,
    {
        let event = if i < input.len() {
            ReadEvent::Byte(input[i])
        } else {
            ReadEvent::End
        };
        proof {
            if i == input@.len() || input@[i as int] == 10 {
                lemma_line_length_is(input@, i as int);
            } else {
                lemma_line_length_at_least(input@, i + 1);
            }
        }
        match reader.accept(event) {
            LineStep::Continue => {
                assert(input@.take(i + 1) == input@.take(i as int).push(input@[i as int]));
                i += 1;
            },
            LineStep::Closed => {
                return Ok(None);
            },
            LineStep::Line(text) => {
                return Ok(Some(text));
            },
            LineStep::Rejected(error) => {
                return Err(error);
            },
        }
    }
}

/// The text is on one line.
pub open spec fn is_one_line(text: Seq<char>) -> bool {
    forall|i: int| 0 <= i < text.len() ==> text[i] != '\n'
}

/// Only the line feed has a line feed among its bytes.
proof fn lemma_line_feed_byte(c: char)
    ensures
        encode_utf8(seq!['\n']) == seq![10u8],
        c != '\n' ==> !encode_scalar(c as u32).contains(10u8),
{
    reveal_with_fuel(encode_utf8, 2);
    assert(seq!['\n'].drop_first() == Seq::<char>::empty());
    assert(leading_byte_width_1(10) == 10u8) by (bit_vector);
    assert(encode_scalar(10) == seq![10u8]);
    let scalar = c as u32;
    if c != '\n' {
        assert(has_width_1_encoding(scalar) && scalar != 10 ==> leading_byte_width_1(scalar) != 10)
            by (bit_vector);
        assert(leading_byte_width_2(scalar) != 10) by (bit_vector);
        assert(leading_byte_width_3(scalar) != 10) by (bit_vector);
        assert(leading_byte_width_4(scalar) != 10) by (bit_vector);
        assert(last_continuation_byte(scalar) != 10) by (bit_vector);
        assert(second_last_continuation_byte(scalar) != 10) by (bit_vector);
        assert(third_last_continuation_byte(scalar) != 10) by (bit_vector);
    }
}

/// Bytes without a line feed lengthen the line that follows them.
proof fn lemma_line_length_behind(bytes: Seq<u8>, rest: Seq<u8>)
    requires
        !bytes.contains(10u8),
    ensures
        line_length(bytes + rest) == bytes.len() + line_length(rest),
    decreases bytes.len(),
{
    if bytes.len() == 0 {
        assert(bytes + rest == rest);
    } else {
        let tail = bytes.drop_first();
        assert(bytes.contains(bytes[0]));
        assert(!tail.contains(10u8)) by {
            if tail.contains(10u8) {
                let i = choose|i: int| 0 <= i < tail.len() && tail[i] == 10u8;
                assert(bytes[i + 1] == 10u8);
            }
        }
        lemma_line_length_behind(tail, rest);
        assert((bytes + rest).drop_first() == tail + rest);
    }
}

/// The bytes of a text with a line feed at its end have the line feed right behind the bytes of the
/// text, and none before it where the text is on one line.
proof fn lemma_line_bytes(text: Seq<char>)
    requires
        is_one_line(text),
    ensures
        encode_utf8(text + "\n"@) == encode_utf8(text) + seq![10u8],
        line_length(encode_utf8(text + "\n"@)) == encode_utf8(text).len(),
    decreases text.len(),
{
    reveal_strlit("\n");
    if text.len() == 0 {
        lemma_line_feed_byte('\n');
        assert(text + "\n"@ == seq!['\n']);
    } else {
        let tail = text.drop_first();
        assert(is_one_line(tail)) by {
            assert forall|i: int| 0 <= i < tail.len() implies tail[i] != '\n' by {
                assert(tail[i] == text[i + 1]);
            }
        }
        lemma_line_bytes(tail);
        lemma_line_feed_byte(text[0]);
        assert((text + "\n"@).drop_first() == tail + "\n"@);
        let first = encode_scalar(text[0] as u32);
        assert(encode_utf8(text + "\n"@) == first + encode_utf8(tail + "\n"@));
        lemma_line_length_behind(first, encode_utf8(tail + "\n"@));
    }
}

/// A line of up to 128 bytes arrives as it was sent: what is read of the bytes of a text and a line
/// feed is the text.
pub proof fn law_line_arrives(text: Seq<char>, result: Result<Option<String>, LineError>)
    requires
        is_one_line(text),
        encode_utf8(text).len() <= MAX_COMMAND_BYTES,
        is_line_read(encode_utf8(text + "\n"@), result),
    ensures
        result matches Ok(Some(line)) && line@ == text,
{
    lemma_line_bytes(text);
    let bytes = encode_utf8(text + "\n"@);
    assert(bytes.take(encode_utf8(text).len() as int) == encode_utf8(text));
    vstd::utf8::encode_utf8_valid_utf8(text);
    vstd::utf8::encode_utf8_decode_utf8(text);
}

/// The line that a client sends for a command.
pub open spec fn request_text(command: AgentCommand) -> Seq<char> {
    command_text(command) + "\n"@
}

/// The line that a client sends for a command.
pub fn render_request(command: AgentCommand) -> (line: String)
    ensures
        line@ == request_text(command),
{
    with_prefix(command_name(command), "\n")
}

/// A command that a client sends is the command that the agent gets.
pub proof fn law_request_arrives(
    command: AgentCommand,
    result: Result<Option<String>, LineError>,
)
    requires
        is_line_read(encode_utf8(request_text(command)), result),
    ensures
        result matches Ok(Some(line)) && parsed(line@) == Some(command),
{
    reveal_command_words();
    let word = command_text(command);
    assert(is_ascii_chars(word));
    vstd::utf8::is_ascii_chars_encode_utf8(word);
    law_line_arrives(word, result);
    law_command_names_parse_back(command);
}

/// What a client makes of the line that it got, if it got one.
pub open spec fn is_response_read(
    line: Option<Seq<char>>,
    result: Result<String, String>,
) -> bool {
    match line {
        None => result matches Err(message) && message@
            == "agent closed the connection without a response"@,
        Some(line) => {
            let response = trimmed_end(line);
            if has_prefix(response, "ERR "@) {
                result matches Err(message) && message@ == response.skip("ERR "@.len() as int)
            } else {
                result matches Ok(text) && text@ == response
            }
        },
    }
}

/// What a client makes of the line that it got: an error where the agent reports one.
pub fn read_response(line: Option<String>) -> (result: Result<String, String>)
    ensures
        is_response_read(
            match line {
                Some(line) => Some(line@),
                None => None,
            },
            result,
        ),
{
    match line {
        None => Err("agent closed the connection without a response".to_owned()),
        Some(line) => {
            let response = trim_end(line.as_str());
            match strip_prefix(response.as_str(), "ERR ") {
                Some(message) => Err(message),
                None => Ok(response),
            }
        },
    }
}

/// The text of an error that the agent reports reaches the client, without white space at its end.
pub proof fn law_error_reaches_client(error: AppError, result: Result<String, String>)
    requires
        is_response_read(Some(response_text(Err(error))), result),
        sanitized(error.text()).len() > 0,
        !white_space(sanitized(error.text()).last()),
    ensures
        result matches Err(message) && message@ == sanitized(error.text()),
{
    reveal_strlit("ERR ");
    let message = sanitized(error.text());
    let line = response_text(Err(error));
    assert(line == "ERR "@ + message);
    assert(line.last() == message.last());
    assert(trimmed_end(line) == line);
    assert(line.take(4) == "ERR "@);
    assert(line.skip(4) == message);
}

/// A reply of the agent reaches the client as it is.
pub proof fn law_reply_reaches_client(reply: AgentReply, result: Result<String, String>)
    requires
        is_response_read(Some(response_text(Ok(reply))), result),
    ensures
        result matches Ok(line) && line@ == reply_text(reply),
{
    reveal_strlit("ERR ");
    reveal_strlit("OK state=");
    reveal_strlit("OK completed sink=");
    reveal_strlit("OK shutdown");
    reveal_strlit("idle");
    reveal_strlit("recording");
    reveal_strlit("transcribing");
    reveal_strlit("post_processing");
    reveal_strlit("sending");
    reveal_strlit("completed");
    reveal_strlit("failed");
    let line = reply_text(reply);
    match reply {
        AgentReply::State(state) => {
            assert(line.last() == state_text(state).last());
        },
        AgentReply::Completed(receipt) => {
            lemma_decimal_ends_visibly(receipt.bytes_sent as nat);
            assert(line.last() == decimal(receipt.bytes_sent as nat).last());
        },
        AgentReply::Shutdown => {},
    }
    assert(trimmed_end(line) == line);
    assert(line.take(4)[0] == 'O');
    assert("ERR "@[0] == 'E');
}

/// A decimal number does not end with white space.
proof fn lemma_decimal_ends_visibly(n: nat)
    ensures
        decimal(n).len() > 0,
        !white_space(decimal(n).last()),
{
    reveal_strlit("0123456789");
}

/// Texts on one line make a text on one line.
proof fn lemma_one_line_add(a: Seq<char>, b: Seq<char>)
    requires
        is_one_line(a),
        is_one_line(b),
    ensures
        is_one_line(a + b),
{
    assert forall|i: int| 0 <= i < (a + b).len() implies (a + b)[i] != '\n' by {
        if i < a.len() {
            assert((a + b)[i] == a[i]);
        } else {
            assert((a + b)[i] == b[i - a.len()]);
        }
    }
}

/// A decimal number is on one line.
proof fn lemma_decimal_one_line(n: nat)
    ensures
        is_one_line(decimal(n)),
    decreases n,
{
    reveal_strlit("0123456789");
    if n >= 10 {
        lemma_decimal_one_line(n / 10);
    }
}

/// A reply is one line, unless the name of a sink breaks it.
pub proof fn law_reply_is_one_line(reply: AgentReply)
    requires
        reply matches AgentReply::Completed(receipt) ==> is_one_line(receipt.sink_name@),
    ensures
        is_one_line(reply_text(reply)),
{
    reveal_strlit("OK state=");
    reveal_strlit("OK completed sink=");
    reveal_strlit(" bytes=");
    reveal_strlit("OK shutdown");
    reveal_strlit("idle");
    reveal_strlit("recording");
    reveal_strlit("transcribing");
    reveal_strlit("post_processing");
    reveal_strlit("sending");
    reveal_strlit("completed");
    reveal_strlit("failed");
    match reply {
        AgentReply::State(state) => {
            lemma_one_line_add("OK state="@, state_text(state));
        },
        AgentReply::Completed(receipt) => {
            let count = decimal(receipt.bytes_sent as nat);
            lemma_decimal_one_line(receipt.bytes_sent as nat);
            lemma_one_line_add("OK completed sink="@, receipt.sink_name@);
            lemma_one_line_add("OK completed sink="@ + receipt.sink_name@, " bytes="@);
            lemma_one_line_add("OK completed sink="@ + receipt.sink_name@ + " bytes="@, count);
        },
        AgentReply::Shutdown => {},
    }
}

/// The name of each state in replies.
pub proof fn law_states_have_their_names(state: SessionState, name: &'static str)
    requires
        call_ensures(state_name, (state,), name),
    ensures
        state == SessionState::Idle ==> name@ == "idle"@,
        state == SessionState::Recording ==> name@ == "recording"@,
        state == SessionState::Transcribing ==> name@ == "transcribing"@,
        state == SessionState::PostProcessing ==> name@ == "post_processing"@,
        state == SessionState::Sending ==> name@ == "sending"@,
        state == SessionState::Completed ==> name@ == "completed"@,
        state == SessionState::Failed ==> name@ == "failed"@,
{
}

/// Different states have different names.
pub proof fn law_state_names_differ(a: SessionState, b: SessionState)
    requires
        a != b,
    ensures
        state_text(a) != state_text(b),
{
    reveal_strlit("idle");
    reveal_strlit("recording");
    reveal_strlit("transcribing");
    reveal_strlit("post_processing");
    reveal_strlit("sending");
    reveal_strlit("completed");
    reveal_strlit("failed");
    assert("idle"@.len() == 4 && "recording"@.len() == 9 && "transcribing"@.len() == 12);
    assert("post_processing"@.len() == 15 && "sending"@.len() == 7 && "failed"@.len() == 6);
    assert("completed"@.len() == 9 && "completed"@[0] == 'c' && "recording"@[0] == 'r');
}

/// The word for each command.
pub proof fn law_commands_have_their_words(command: AgentCommand, name: &'static str, line: String)
    requires
        call_ensures(command_name, (command,), name),
        call_ensures(render_request, (command,), line),
    ensures
        command == AgentCommand::Start ==> name@ == "start"@,
        command == AgentCommand::Stop ==> name@ == "stop"@,
        command == AgentCommand::Toggle ==> name@ == "toggle"@,
        command == AgentCommand::Cancel ==> name@ == "cancel"@,
        command == AgentCommand::Status ==> name@ == "status"@,
        command == AgentCommand::Reset ==> name@ == "reset"@,
        command == AgentCommand::Shutdown ==> name@ == "shutdown"@,
        line@ == name@ + seq!['\n'],
{
    reveal_strlit("\n");
    assert("\n"@ == seq!['\n']);
}

/// A line is read as a command where it is the word for this command with nothing but white space
/// around it; every other line is answered with what stands there and with the words that there are.
pub proof fn law_lines_are_read_by_their_word(
    value: &str,
    result: Result<AgentCommand, String>,
)
    requires
        call_ensures(AgentCommand::parse, (value,), result),
    ensures
        exists|from: int, to: int|
            {
                let word = #[trigger] value@.subrange(from, to);
                &&& 0 <= from <= to <= value@.len()
                &&& forall|i: int|
                    0 <= i < from || to <= i < value@.len() ==> white_space(value@[i])
                &&& word.len() > 0 ==> !white_space(word[0]) && !white_space(word.last())
                &&& match result {
                    Ok(AgentCommand::Start) => word == "start"@,
                    Ok(AgentCommand::Stop) => word == "stop"@,
                    Ok(AgentCommand::Toggle) => word == "toggle"@,
                    Ok(AgentCommand::Cancel) => word == "cancel"@,
                    Ok(AgentCommand::Status) => word == "status"@,
                    Ok(AgentCommand::Reset) => word == "reset"@,
                    Ok(AgentCommand::Shutdown) => word == "shutdown"@,
                    Err(message) => {
                        &&& word != "start"@ && word != "stop"@ && word != "toggle"@
                        &&& word != "cancel"@ && word != "status"@ && word != "reset"@
                        &&& word != "shutdown"@
                        &&& message@ == "unknown agent command '"@ + word
                            + "'; expected start, stop, toggle, cancel, status, reset, or shutdown"@
                    },
                }
            },
{
    let s = value@;
    let t = trimmed_start(s);
    lemma_trimmed_start(s);
    lemma_trimmed_end(t);
    let from = s.len() - t.len();
    let to = from + trimmed(s).len();
    assert(s.subrange(from, to) == trimmed(s));
    assert forall|i: int| 0 <= i < from || to <= i < s.len() implies white_space(s[i]) by {
        if to <= i {
            assert(t[i - from] == s[i]);
        }
    }
    if trimmed(s).len() > 0 {
        assert(trimmed(s)[0] == t[0]);
    }
}

/// The line for each reply: the state by its name, a text that was sent with its sink and the number
/// of its bytes, and the end.
pub proof fn law_replies_read_as_what_was_done(
    reply: AgentReply,
    line: String,
    name: &'static str,
    written: String,
)
    requires
        call_ensures(render_reply, (reply,), line),
        reply matches AgentReply::State(state) ==> call_ensures(state_name, (state,), name),
        reply matches AgentReply::Completed(receipt) ==> exists|out: &mut String|
            out@.len() == 0 && *final(out) == written && #[trigger] call_ensures(
                push_decimal,
                (out, receipt.bytes_sent as u128),
                (),
            ),
    ensures
        reply is State ==> line@ == "OK state="@ + name@,
        reply matches AgentReply::Completed(receipt) ==> line@ == "OK completed sink="@
            + receipt.sink_name@ + " bytes="@ + written@,
        reply is Shutdown ==> line@ == "OK shutdown"@,
{
    if let AgentReply::Completed(receipt) = reply {
        assert(written@ == decimal(receipt.bytes_sent as nat));
    }
}

/// Putting a message on one line turns each of its line breaks into a space and keeps every other
/// character in its place.
pub proof fn law_messages_keep_their_characters(message: &str, line: String)
    requires
        call_ensures(sanitize_message, (message,), line),
    ensures
        line@.len() == message@.len(),
        forall|i: int|
            0 <= i < line@.len() ==> #[trigger] line@[i] == if message@[i] == '\n' || message@[i]
                == '\r' {
                ' '
            } else {
                message@[i]
            },
{
}

/// What came of a command is answered with the line for its reply, or with its error on one line.
pub proof fn law_responses_tell_errors_from_replies(
    result: Result<AgentReply, AppError>,
    line: String,
    reply_line: String,
    description: String,
    text: &str,
    sanitized_text: String,
)
    requires
        call_ensures(render_response, (result,), line),
        result matches Ok(reply) ==> call_ensures(render_reply, (reply,), reply_line),
        result matches Err(error) ==> call_ensures(AppError::describe, (&error,), description),
        text@ == description@,
        call_ensures(sanitize_message, (text,), sanitized_text),
    ensures
        result is Ok ==> line@ == reply_line@,
        result is Err ==> line@ == "ERR "@ + sanitized_text@,
{
}

/// How the errors of a line read.
pub proof fn law_line_errors_read_apart(error: LineError, message: &'static str)
    requires
        call_ensures(LineError::message, (error,), message),
    ensures
        error == LineError::TooLong ==> message@ == "command is too long"@,
        error == LineError::NotUtf8 ==> message@ == "command is not valid UTF-8"@,
{
}

/// A line reader collects the bytes before a line feed, up to 128 of them, and hands them out as a
/// text where they are one. Where the other side ends without having sent a byte there is no line.
pub proof fn law_line_readers_collect_up_to_the_line_feed(
    fresh: CommandLineReader,
    before: CommandLineReader,
    event: ReadEvent,
    step: LineStep,
    after: CommandLineReader,
)
    requires
        call_ensures(CommandLineReader::new, (), fresh),
        exists|reader: &mut CommandLineReader|
            *reader == before && *final(reader) == after && #[trigger] call_ensures(
                CommandLineReader::accept,
                (reader, event),
                step,
            ),
    ensures
        fresh@.len() == 0,
        event matches ReadEvent::Byte(byte) && byte != 10 && before@.len() < 128 ==> step
            == LineStep::Continue && after@ == before@.push(event->Byte_0),
        event matches ReadEvent::Byte(byte) && byte != 10 && before@.len() >= 128 ==> step
            == LineStep::Rejected(LineError::TooLong) && after@ == before@,
        event == ReadEvent::End && before@.len() == 0 ==> step == LineStep::Closed && after@
            == before@,
        event == ReadEvent::Byte(10) || (event == ReadEvent::End && before@.len() > 0) ==> {
            &&& after@.len() == 0
            &&& valid_utf8(before@) ==> (step matches LineStep::Line(text) && text@ == decode_utf8(
                before@,
            ))
            &&& !valid_utf8(before@) ==> step == LineStep::Rejected(LineError::NotUtf8)
        },
{
}

/// The first line of the input is what stands before its first line feed, or all of it where there is
/// none. It is read where it has at most 128 bytes and is a text; without input there is none.
pub proof fn law_first_lines_are_read(
    input: &[u8],
    n: int,
    result: Result<Option<String>, LineError>,
)
    requires
        call_ensures(read_command_line_from, (input,), result),
        0 <= n <= input@.len(),
        forall|i: int| 0 <= i < n ==> input@[i] != 10,
        n < input@.len() ==> input@[n] == 10,
    ensures
        n > 128 ==> result == Err::<Option<String>, LineError>(LineError::TooLong),
        input@.len() == 0 ==> result == Ok::<Option<String>, LineError>(None),
        n <= 128 && input@.len() > 0 && !valid_utf8(input@.take(n)) ==> result == Err::<
            Option<String>,
            LineError,
        >(LineError::NotUtf8),
        n <= 128 && input@.len() > 0 && valid_utf8(input@.take(n)) ==> (result matches Ok(
            Some(text),
        ) && text@ == decode_utf8(input@.take(n))),
{
    lemma_line_length_is(input@, n);
}

/// A client takes a line that starts with `ERR` and a space for an error, and every other line for a
/// reply, in both cases without the white space at its end. A missing line is an error too.
pub proof fn law_clients_tell_errors_from_replies(
    line: Option<String>,
    result: Result<String, String>,
    text: &str,
    response: String,
)
    requires
        call_ensures(read_response, (line,), result),
        line matches Some(line) ==> text@ == line@,
        call_ensures(trim_end, (text,), response),
    ensures
        line is None ==> (result matches Err(message) && message@
            == "agent closed the connection without a response"@),
        line is Some ==> match result {
            Err(message) => response@ == seq!['E', 'R', 'R', ' '] + message@,
            Ok(reply) => reply@ == response@ && !(response@.len() >= 4 && response@.take(4) == seq![
                'E',
                'R',
                'R',
                ' ',
            ]),
        },
{
    reveal_strlit("ERR ");
    assert("ERR "@ == seq!['E', 'R', 'R', ' ']);
    if line is Some && result is Err {
        assert(response@ == response@.take(4) + response@.skip(4));
    }
}

} // verus!
