//! Where the text of a session goes: what is written and what is reported.

use vstd::prelude::*;
use vstd::utf8::encode_utf8;

use crate::duration::Duration;
use crate::error::{with_prefix, SinkError};
use crate::model::{OutputContext, OutputFormat, ProcessedText, SendReceipt};
use crate::text::{control, decimal, hex_char, hex_digit, is_control, push_decimal, to_chars};
use crate::traits::TextSink;

verus! {

/// How one character is written inside a JSON string.
pub open spec fn json_escaped(c: char) -> Seq<char> {
    if c == '"' {
        seq!['\\', '"']
    } else if c == '\\' {
        seq!['\\', '\\']
    } else if c == '\n' {
        seq!['\\', 'n']
    } else if c == '\r' {
        seq!['\\', 'r']
    } else if c == '\t' {
        seq!['\\', 't']
    } else if control(c) {
        let n = c as u32 as nat;
        seq!['\\', 'u', '0', '0', hex_digit(n / 16), hex_digit(n % 16)]
    } else {
        seq![c]
    }
}

/// The body of the JSON string for `s`.
pub open spec fn json_body(s: Seq<char>) -> Seq<char>
    decreases s.len(),
{
    if s.len() == 0 {
        Seq::empty()
    } else {
        json_escaped(s[0]) + json_body(s.drop_first())
    }
}

/// The JSON string for `s`, with its quotes.
pub open spec fn json_text(s: Seq<char>) -> Seq<char> {
    seq!['"'] + json_body(s) + seq!['"']
}

/// Writes `value` as a JSON string.
pub fn json_string(value: &str) -> (output: String)
    ensures
        output@ == json_text(value@),
{
    let chars = to_chars(value);
    let mut output = String::new();
    output.push('"');
    let mut i: usize = 0;
    assert(chars@.skip(0) == chars@);
    assert(output@ == seq!['"']);
    while i < chars.len()
        invariant
            i <= chars@.len(),
            output@ + json_body(chars@.skip(i as int)) == seq!['"'] + json_body(chars@),
        decreases chars@.len() - i,
    {
        let c = chars[i];
        let ghost before = output@;
        let ghost rest = chars@.skip(i as int);
        if c == '"' {
            output.push('\\');
            output.push('"');
        } else if c == '\\' {
            output.push('\\');
            output.push('\\');
        } else if c == '\n' {
            output.push('\\');
            output.push('n');
        } else if c == '\r' {
            output.push('\\');
            output.push('r');
        } else if c == '\t' {
            output.push('\\');
            output.push('t');
        } else if is_control(c) {
            let n: u32 = c as u32;
            output.push('\\');
            output.push('u');
            output.push('0');
            output.push('0');
            output.push(hex_char(n / 16));
            output.push(hex_char(n % 16));
        } else {
            output.push(c);
        }
        i += 1;
        proof {
            assert(output@ == before + json_escaped(c));
            assert(rest.drop_first() == chars@.skip(i as int));
            assert(output@ + json_body(rest.drop_first()) == before + json_body(rest));
        }
    }
    assert(chars@.skip(i as int).len() == 0);
    assert(output@ == seq!['"'] + json_body(chars@));
    output.push('"');
    output
}

/// `c` is a hexadecimal digit.
pub open spec fn is_hex_digit(c: char) -> bool {
    '0' as u32 <= c as u32 <= '9' as u32 || 'a' as u32 <= c as u32 <= 'f' as u32 || 'A' as u32
        <= c as u32 <= 'F' as u32
}

/// The value of the hexadecimal digit `c`.
pub open spec fn hex_value(c: char) -> nat {
    if c as u32 <= '9' as u32 {
        (c as u32 - '0' as u32) as nat
    } else if c as u32 <= 'F' as u32 {
        (c as u32 - 'A' as u32 + 10) as nat
    } else {
        (c as u32 - 'a' as u32 + 10) as nat
    }
}

/// The number that a JSON string starts with, where it starts with an escape of four hexadecimal
/// digits.
pub open spec fn escaped_unit(body: Seq<char>) -> Option<nat> {
    if body.len() >= 6 && body[0] == '\\' && body[1] == 'u' && is_hex_digit(body[2])
        && is_hex_digit(body[3]) && is_hex_digit(body[4]) && is_hex_digit(body[5]) {
        Some(
            hex_value(body[2]) * 4096 + hex_value(body[3]) * 256 + hex_value(body[4]) * 16
                + hex_value(body[5]),
        )
    } else {
        None
    }
}

/// The text that the body of a JSON string stands for, if it is one: no quote and no character
/// below the space stands in it unescaped, a backslash starts one of the escapes of JSON, and an
/// escaped surrogate has its other half behind it.
pub open spec fn json_decoded(body: Seq<char>) -> Option<Seq<char>>
    decreases body.len(),
{
    if body.len() == 0 {
        Some(Seq::empty())
    } else if body[0] == '\\' {
        if body.len() >= 2 && (body[1] == '"' || body[1] == '\\' || body[1] == '/') {
            prepended(body[1], json_decoded(body.skip(2)))
        } else if body.len() >= 2 && body[1] == 'b' {
            prepended('\u{8}', json_decoded(body.skip(2)))
        } else if body.len() >= 2 && body[1] == 'f' {
            prepended('\u{c}', json_decoded(body.skip(2)))
        } else if body.len() >= 2 && body[1] == 'n' {
            prepended('\n', json_decoded(body.skip(2)))
        } else if body.len() >= 2 && body[1] == 'r' {
            prepended('\r', json_decoded(body.skip(2)))
        } else if body.len() >= 2 && body[1] == 't' {
            prepended('\t', json_decoded(body.skip(2)))
        } else {
            match escaped_unit(body) {
                None => None,
                Some(unit) => if unit < 0xd800 || unit > 0xdfff {
                    prepended(unit as char, json_decoded(body.skip(6)))
                } else {
                    match escaped_unit(body.skip(6)) {
                        Some(low) => if unit <= 0xdbff && 0xdc00 <= low <= 0xdfff {
                            let scalar = 0x10000 + (unit - 0xd800) * 0x400 + (low - 0xdc00);
                            prepended(scalar as char, json_decoded(body.skip(12)))
                        } else {
                            None
                        },
                        None => None,
                    }
                },
            }
        }
    } else if body[0] == '"' || (body[0] as u32) < 0x20 {
        None
    } else {
        prepended(body[0], json_decoded(body.skip(1)))
    }
}

/// `c` in front of a text, where there is one.
pub open spec fn prepended(c: char, text: Option<Seq<char>>) -> Option<Seq<char>> {
    match text {
        Some(text) => Some(seq![c] + text),
        None => None,
    }
}

/// The hexadecimal digit of a value is one, and has the value that it was made from.
proof fn lemma_hex_value(d: nat)
    requires
        d < 16,
    ensures
        is_hex_digit(hex_digit(d)),
        hex_value(hex_digit(d)) == d,
{
    reveal_strlit("0123456789abcdef");
}

/// An escaped character reads back as itself, whatever follows.
proof fn lemma_json_escaped_decodes(c: char, rest: Seq<char>)
    ensures
        json_decoded(json_escaped(c) + rest) == prepended(c, json_decoded(rest)),
{
    let escaped = json_escaped(c);
    let body = escaped + rest;
    assert(body.skip(escaped.len() as int) == rest);
    if c == '"' || c == '\\' || c == '\n' || c == '\r' || c == '\t' {
    } else if control(c) {
        let n = c as u32 as nat;
        lemma_hex_value(n / 16);
        lemma_hex_value(n % 16);
        assert(hex_value('0') == 0);
        assert(body[2] == '0' && body[3] == '0');
        assert(body[4] == hex_digit(n / 16) && body[5] == hex_digit(n % 16));
        assert(escaped_unit(body) == Some(n));
        assert(n as char == c);
    }
}

/// Every text is written as a valid JSON string that reads back as the same text.
pub proof fn law_json_reads_back(s: Seq<char>)
    ensures
        json_decoded(json_body(s)) == Some(s),
    decreases s.len(),
{
    if s.len() > 0 {
        let rest = s.drop_first();
        law_json_reads_back(rest);
        lemma_json_escaped_decodes(s[0], json_body(rest));
        assert(seq![s[0]] + rest == s);
    } else {
        assert(s == Seq::<char>::empty());
    }
}

/// Different texts are written as different JSON strings.
pub proof fn law_json_is_injective(a: Seq<char>, b: Seq<char>)
    requires
        json_text(a) == json_text(b),
    ensures
        a == b,
{
    law_json_reads_back(a);
    law_json_reads_back(b);
    assert(json_text(a).subrange(1, json_text(a).len() - 1) == json_body(a));
    assert(json_text(b).subrange(1, json_text(b).len() - 1) == json_body(b));
}

/// A JSON string holds no control character, so it never breaks a line.
pub proof fn law_json_stays_on_one_line(s: Seq<char>)
    ensures
        forall|i: int| 0 <= i < json_text(s).len() ==> !control(#[trigger] json_text(s)[i]),
{
    lemma_json_body_printable(s);
    let body = json_body(s);
    assert forall|i: int| 0 <= i < json_text(s).len() implies !control(
        #[trigger] json_text(s)[i],
    ) by {
        if 0 < i < json_text(s).len() - 1 {
            assert(json_text(s)[i] == body[i - 1]);
        }
    }
}

/// The body of a JSON string holds no control character.
proof fn lemma_json_body_printable(s: Seq<char>)
    ensures
        forall|i: int| 0 <= i < json_body(s).len() ==> !control(#[trigger] json_body(s)[i]),
    decreases s.len(),
{
    if s.len() > 0 {
        lemma_json_body_printable(s.drop_first());
        let head = json_escaped(s[0]);
        let rest = json_body(s.drop_first());
        reveal_strlit("0123456789abcdef");
        assert forall|i: int| 0 <= i < json_body(s).len() implies !control(
            #[trigger] json_body(s)[i],
        ) by {
            if i < head.len() {
                assert(json_body(s)[i] == head[i]);
            } else {
                assert(json_body(s)[i] == rest[i - head.len()]);
            }
        }
    }
}

/// The JSON value for a text that may be missing.
pub open spec fn json_or_null(text: Option<Seq<char>>) -> Seq<char> {
    match text {
        Some(text) => json_text(text),
        None => "null"@,
    }
}

/// The text of an optional string.
pub open spec fn optional_text(text: Option<String>) -> Option<Seq<char>> {
    match text {
        Some(text) => Some(text@),
        None => None,
    }
}

/// The line that is written for `text`.
pub open spec fn rendered(
    format: OutputFormat,
    text: ProcessedText,
    context: OutputContext,
) -> Seq<char> {
    match format {
        OutputFormat::Plain => text.text@ + "\n"@,
        OutputFormat::Json => "{\"session_id\":"@ + json_text(context.session_id@) + ",\"text\":"@
            + json_text(text.text@) + ",\"language\":"@ + json_or_null(
            optional_text(text.source.language),
        ) + ",\"duration_ms\":"@ + decimal(text.source.duration@ / 1_000_000) + "}\n"@,
    }
}

/// No control character stands in `s`.
spec fn is_printable(s: Seq<char>) -> bool {
    forall|i: int| 0 <= i < s.len() ==> !control(#[trigger] s[i])
}

/// Printable texts make a printable text.
proof fn lemma_printable_add(a: Seq<char>, b: Seq<char>)
    requires
        is_printable(a),
        is_printable(b),
    ensures
        is_printable(a + b),
{
    assert forall|i: int| 0 <= i < (a + b).len() implies !control(#[trigger] (a + b)[i]) by {
        if i < a.len() {
            assert((a + b)[i] == a[i]);
        } else {
            assert((a + b)[i] == b[i - a.len()]);
        }
    }
}

/// A decimal number is printable.
proof fn lemma_decimal_printable(n: nat)
    ensures
        is_printable(decimal(n)),
    decreases n,
{
    reveal_strlit("0123456789");
    if n >= 10 {
        lemma_decimal_printable(n / 10);
    }
}

/// JSON output is one line per text: no control character stands before the line feed at its end.
pub proof fn law_json_output_is_one_line(text: ProcessedText, context: OutputContext)
    ensures
        rendered(OutputFormat::Json, text, context).last() == '\n',
        forall|i: int|
            0 <= i < rendered(OutputFormat::Json, text, context).len() - 1 ==> !control(
                #[trigger] rendered(OutputFormat::Json, text, context)[i],
            ),
{
    reveal_strlit("{\"session_id\":");
    reveal_strlit(",\"text\":");
    reveal_strlit(",\"language\":");
    reveal_strlit("null");
    reveal_strlit(",\"duration_ms\":");
    reveal_strlit("}\n");
    let language = optional_text(text.source.language);
    law_json_stays_on_one_line(context.session_id@);
    law_json_stays_on_one_line(text.text@);
    if let Some(language) = language {
        law_json_stays_on_one_line(language);
    }
    lemma_decimal_printable(text.source.duration@ / 1_000_000);
    let a = "{\"session_id\":"@ + json_text(context.session_id@);
    lemma_printable_add("{\"session_id\":"@, json_text(context.session_id@));
    let b = a + ",\"text\":"@;
    lemma_printable_add(a, ",\"text\":"@);
    let c = b + json_text(text.text@);
    lemma_printable_add(b, json_text(text.text@));
    let d = c + ",\"language\":"@;
    lemma_printable_add(c, ",\"language\":"@);
    let e = d + json_or_null(language);
    lemma_printable_add(d, json_or_null(language));
    let f = e + ",\"duration_ms\":"@;
    lemma_printable_add(e, ",\"duration_ms\":"@);
    let g = f + decimal(text.source.duration@ / 1_000_000);
    lemma_printable_add(f, decimal(text.source.duration@ / 1_000_000));
    let line = rendered(OutputFormat::Json, text, context);
    assert(line == g + "}\n"@);
    assert forall|i: int| 0 <= i < line.len() - 1 implies !control(#[trigger] line[i]) by {
        if i < g.len() {
            assert(line[i] == g[i]);
        }
    }
}

/// Writes each text as a line, plain or as JSON, to a writer.
pub struct StdoutSink<W> {
    writer: W,
    format: OutputFormat,
}

impl<W> StdoutSink<W> {
    /// The writer.
    pub closed spec fn writer(&self) -> W {
        self.writer
    }

    /// The format.
    pub closed spec fn format(&self) -> OutputFormat {
        self.format
    }

    /// A sink that writes to `writer` in the given format.
    pub fn with_writer(format: OutputFormat, writer: W) -> (sink: Self)
        ensures
            sink.writer() == writer,
            sink.format() == format,
    {
        StdoutSink { writer, format }
    }

    /// Gives the writer back.
    pub fn into_writer(self) -> (result: Result<W, SinkError>)
        ensures
            result == Ok::<W, SinkError>(self.writer()),
    {
        Ok(self.writer)
    }

    /// The line that is written for `text`.
    pub fn render(&self, text: &ProcessedText, context: &OutputContext) -> (output: String)
        ensures
            output@ == rendered(self.format(), *text, *context),
    {
        match self.format {
            OutputFormat::Plain => {
                let mut output = text.text.clone();
                output.append("\n");
                output
            },
            OutputFormat::Json => {
                let language = match &text.source.language {
                    Some(language) => json_string(language.as_str()),
                    None => "null".to_owned(),
                };
                let mut output = "{\"session_id\":".to_owned();
                output.append(json_string(context.session_id.as_str()).as_str());
                output.append(",\"text\":");
                output.append(json_string(text.text.as_str()).as_str());
                output.append(",\"language\":");
                output.append(language.as_str());
                output.append(",\"duration_ms\":");
                push_decimal(&mut output, text.source.duration.as_millis());
                output.append("}\n");
                output
            },
        }
    }

    /// What a failed write is reported as.
    pub fn write_error(error: &str) -> (result: SinkError)
        ensures
            result@ == "failed to write stdout: "@ + error@,
    {
        SinkError::new(with_prefix("failed to write stdout: ", error).as_str())
    }

    /// What a failed flush is reported as.
    pub fn flush_error(error: &str) -> (result: SinkError)
        ensures
            result@ == "failed to flush stdout: "@ + error@,
    {
        SinkError::new(with_prefix("failed to flush stdout: ", error).as_str())
    }

    /// What is reported of a line that was written.
    pub fn receipt(output: &str) -> (receipt: SendReceipt)
        ensures
            is_receipt(receipt, "stdout"@, output@),
    {
        receipt_of("stdout", output)
    }
}

/// The receipt is that of the sink `name` for the bytes of `text`, which were not pasted.
pub open spec fn is_receipt(receipt: SendReceipt, name: Seq<char>, text: Seq<char>) -> bool {
    &&& receipt.sink_name@ == name
    &&& receipt.bytes_sent == encode_utf8(text).len()
    &&& !receipt.pasted
}

fn receipt_of(name: &str, text: &str) -> (receipt: SendReceipt)
    ensures
        is_receipt(receipt, name@, text@),
{
    SendReceipt { sink_name: name.to_owned(), bytes_sent: text.as_bytes().len(), pasted: false }
}

impl TextSink for StdoutSink<Vec<u8>> {
    /// Appends the line to the bytes in memory; this cannot fail.
    fn send(&mut self, text: &ProcessedText, context: &OutputContext) -> (result: Result<
        SendReceipt,
        SinkError,
    >)
        ensures
            final(self).format() == old(self).format(),
            final(self).writer()@ == old(self).writer()@ + encode_utf8(
                rendered(old(self).format(), *text, *context),
            ),
            result matches Ok(receipt) && is_receipt(
                receipt,
                "stdout"@,
                rendered(old(self).format(), *text, *context),
            ),
    {
        let output = self.render(text, context);
        let bytes = output.as_str().as_bytes();
        let mut i: usize = 0;
        while i < bytes.len()
            invariant
                i <= bytes@.len(),
                self.format == old(self).format,
                self.writer@ == old(self).writer@ + bytes@.take(i as int),
            decreases bytes@.len() - i,
        {
            self.writer.push(bytes[i]);
            i += 1;
        }
        assert(bytes@.take(i as int) == bytes@);
        Ok(Self::receipt(output.as_str()))
    }
}

/// What a clipboard that cannot be opened is reported as.
pub fn clipboard_open_error(error: &str) -> (result: SinkError)
    ensures
        result@ == "failed to open clipboard: "@ + error@,
{
    SinkError::new(with_prefix("failed to open clipboard: ", error).as_str())
}

/// What is reported of a text that was handed to the clipboard.
pub fn clipboard_sent(text: &ProcessedText, outcome: Result<(), String>) -> (result: Result<
    SendReceipt,
    SinkError,
>)
    ensures
        match outcome {
            Ok(_) => result matches Ok(receipt) && is_receipt(
                receipt,
                "clipboard"@,
                text.text@,
            ),
            Err(message) => result matches Err(error) && error@ == "failed to write clipboard: "@
                + message@,
        },
{
    match outcome {
        Ok(_) => Ok(receipt_of("clipboard", text.text.as_str())),
        Err(message) => Err(
            SinkError::new(with_prefix("failed to write clipboard: ", message.as_str()).as_str()),
        ),
    }
}

/// The body of a JSON string grows by the escape of each character.
proof fn lemma_json_body_push(s: Seq<char>, c: char)
    ensures
        json_body(s.push(c)) == json_body(s) + json_escaped(c),
    decreases s.len(),
{
    if s.len() == 0 {
        assert(s.push(c).drop_first() == s);
        assert(json_body(s) == Seq::<char>::empty());
        assert(json_escaped(c) + Seq::<char>::empty() == json_escaped(c));
        assert(Seq::<char>::empty() + json_escaped(c) == json_escaped(c));
    } else {
        lemma_json_body_push(s.drop_first(), c);
        assert(s.push(c).drop_first() == s.drop_first().push(c));
        assert(json_escaped(s[0]) + (json_body(s.drop_first()) + json_escaped(c))
            == json_escaped(s[0]) + json_body(s.drop_first()) + json_escaped(c));
    }
}

/// A text is written as a JSON string between quotes that reads back as the text.
pub proof fn law_written_strings_read_back(value: &str, output: String)
    requires
        call_ensures(json_string, (value,), output),
    ensures
        output@.len() >= 2,
        output@[0] == '"',
        output@.last() == '"',
        json_decoded(output@.subrange(1, output@.len() - 1)) == Some(value@),
{
    law_json_reads_back(value@);
    assert(output@.subrange(1, output@.len() - 1) == json_body(value@));
}

/// Character by character: quotes and backslashes get a backslash, line feeds, returns and tabs their
/// letter, other control characters their number in four digits, and everything else stays as it is.
pub proof fn law_characters_are_escaped_one_by_one(
    value: &str,
    longer: &str,
    output: String,
    longer_output: String,
    high: char,
    low: char,
)
    requires
        call_ensures(json_string, (value,), output),
        call_ensures(json_string, (longer,), longer_output),
        longer@.len() > 0,
        value@ == longer@.drop_last(),
        control(longer@.last()) ==> call_ensures(
            hex_char,
            ((longer@.last() as u32 / 16) as u32,),
            high,
        ) && call_ensures(hex_char, ((longer@.last() as u32 % 16) as u32,), low),
    ensures
        value@.len() == 0 ==> output@ == seq!['"', '"'],
        ({
            let c = longer@.last();
            longer_output@ == output@.drop_last() + (if c == '"' {
                seq!['\\', '"']
            } else if c == '\\' {
                seq!['\\', '\\']
            } else if c == '\n' {
                seq!['\\', 'n']
            } else if c == '\r' {
                seq!['\\', 'r']
            } else if c == '\t' {
                seq!['\\', 't']
            } else if (c as u32) < 0x20 || 0x7f <= (c as u32) < 0xa0 {
                seq!['\\', 'u', '0', '0', high, low]
            } else {
                seq![c]
            }) + seq!['"']
        }),
{
    let c = longer@.last();
    assert(longer@ == value@.push(c));
    lemma_json_body_push(value@, c);
    assert(output@.drop_last() == seq!['"'] + json_body(value@));
    assert(seq!['"'] + (json_body(value@) + json_escaped(c)) + seq!['"'] == seq!['"'] + json_body(
        value@,
    ) + json_escaped(c) + seq!['"']);
    if value@.len() == 0 {
        assert(json_body(value@) == Seq::<char>::empty());
        assert(output@ == seq!['"', '"']);
    }
}

/// A plain line is the text and a line feed. A line of JSON names the session, the text, the language
/// where it is known, and the length of the recording in whole milliseconds.
pub proof fn law_lines_hold_the_text<W>(
    sink: StdoutSink<W>,
    text: &ProcessedText,
    context: &OutputContext,
    output: String,
    session_text: &str,
    session: String,
    body_text: &str,
    body: String,
    language_text: &str,
    language: String,
    written: String,
    millis: u128,
)
    requires
        call_ensures(StdoutSink::<W>::render, (&sink, text, context), output),
        session_text@ == context.session_id@,
        call_ensures(json_string, (session_text,), session),
        body_text@ == text.text@,
        call_ensures(json_string, (body_text,), body),
        text.source.language matches Some(name) ==> language_text@ == name@ && call_ensures(
            json_string,
            (language_text,),
            language,
        ),
        call_ensures(Duration::as_millis, (&text.source.duration,), millis),
        exists|out: &mut String|
            out@.len() == 0 && *final(out) == written && #[trigger] call_ensures(
                push_decimal,
                (out, millis),
                (),
            ),
    ensures
        sink.format() == OutputFormat::Plain ==> output@ == text.text@ + seq!['\n'],
        sink.format() == OutputFormat::Json && text.source.language is Some ==> output@
            == "{\"session_id\":"@ + session@ + ",\"text\":"@ + body@ + ",\"language\":"@
            + language@ + ",\"duration_ms\":"@ + written@ + "}\n"@,
        sink.format() == OutputFormat::Json && text.source.language is None ==> output@
            == "{\"session_id\":"@ + session@ + ",\"text\":"@ + body@ + ",\"language\":"@
            + "null"@ + ",\"duration_ms\":"@ + written@ + "}\n"@,
{
    reveal_strlit("\n");
    assert("\n"@ == seq!['\n']);
    assert(written@ == decimal(millis as nat));
}

/// Sending adds the bytes of the line to what was written before, and reports their number under the
/// name of the standard output.
pub proof fn law_sent_lines_are_added(
    before: StdoutSink<Vec<u8>>,
    text: &ProcessedText,
    context: &OutputContext,
    result: Result<SendReceipt, SinkError>,
    after: StdoutSink<Vec<u8>>,
    line: String,
)
    requires
        exists|sink: &mut StdoutSink<Vec<u8>>|
            *sink == before && *final(sink) == after && #[trigger] call_ensures(
                StdoutSink::<Vec<u8>>::send,
                (sink, text, context),
                result,
            ),
        call_ensures(StdoutSink::<Vec<u8>>::render, (&before, text, context), line),
    ensures
        after.writer()@ == before.writer()@ + encode_utf8(line@),
        after.format() == before.format(),
        result matches Ok(receipt) && receipt.sink_name@ == "stdout"@ && receipt.bytes_sent
            == encode_utf8(line@).len() && !receipt.pasted,
{
}

/// A sink writes to the writer and in the format that it was made with, and gives the writer back.
pub proof fn law_sinks_give_their_writer_back<W>(
    format: OutputFormat,
    writer: W,
    sink: StdoutSink<W>,
    result: Result<W, SinkError>,
)
    requires
        call_ensures(StdoutSink::<W>::with_writer, (format, writer), sink),
        call_ensures(StdoutSink::<W>::into_writer, (sink,), result),
    ensures
        sink.format() == format,
        result == Ok::<W, SinkError>(writer),
{
}

/// What is reported of the standard output: the bytes of a line, and what kept it from being written.
pub proof fn law_reports_of_the_standard_output<W>(
    output: &str,
    receipt: SendReceipt,
    error: &str,
    write_error: SinkError,
    flush_error: SinkError,
)
    requires
        call_ensures(StdoutSink::<W>::receipt, (output,), receipt),
        call_ensures(StdoutSink::<W>::write_error, (error,), write_error),
        call_ensures(StdoutSink::<W>::flush_error, (error,), flush_error),
    ensures
        receipt.sink_name@ == "stdout"@,
        receipt.bytes_sent == encode_utf8(output@).len(),
        !receipt.pasted,
        write_error@ == "failed to write stdout: "@ + error@,
        flush_error@ == "failed to flush stdout: "@ + error@,
{
}

/// What is reported of the clipboard: the bytes of the text as it is, and what kept it from being
/// written.
pub proof fn law_reports_of_the_clipboard(
    text: &ProcessedText,
    outcome: Result<(), String>,
    result: Result<SendReceipt, SinkError>,
    error: &str,
    open_error: SinkError,
)
    requires
        call_ensures(clipboard_sent, (text, outcome), result),
        call_ensures(clipboard_open_error, (error,), open_error),
    ensures
        outcome is Ok ==> (result matches Ok(receipt) && receipt.sink_name@ == "clipboard"@
            && receipt.bytes_sent == encode_utf8(text.text@).len() && !receipt.pasted),
        outcome matches Err(message) ==> (result matches Err(failure) && failure@
            == "failed to write clipboard: "@ + message@),
        open_error@ == "failed to open clipboard: "@ + error@,
{
}

} // verus!
