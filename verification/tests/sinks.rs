use voice_input::sinks::{clipboard_open_error, clipboard_sent, json_string};
use voice_input::{
    Duration, OutputContext, OutputFormat, ProcessedText, SendReceipt, SinkError, StdoutSink,
    TextSink, Transcript,
};

fn sample_text() -> ProcessedText {
    ProcessedText {
        text: "hello \"voin\"".to_owned(),
        source: Transcript {
            text: "hello".to_owned(),
            language: Some("en".to_owned()),
            duration: Duration::from_millis(123),
            segments: Vec::new(),
        },
    }
}

#[test]
fn writes_plain_text_with_a_trailing_newline() {
    let mut sink = StdoutSink::with_writer(OutputFormat::Plain, Vec::new());
    sink.send(&sample_text(), &OutputContext::new("session-1"))
        .expect("plain output must succeed");

    assert_eq!(
        sink.into_writer().expect("writer must be available"),
        b"hello \"voin\"\n"
    );
}

#[test]
fn escapes_json_output() {
    let mut sink = StdoutSink::with_writer(OutputFormat::Json, Vec::new());
    sink.send(&sample_text(), &OutputContext::new("session-1"))
        .expect("json output must succeed");

    let output = String::from_utf8(sink.into_writer().unwrap()).unwrap();
    assert!(output.contains("\\\"voin\\\""));
    assert!(output.contains("\"duration_ms\":123"));
}

#[test]
fn json_output_is_one_complete_line() {
    let mut sink = StdoutSink::with_writer(OutputFormat::Json, Vec::new());
    let mut text = sample_text();
    text.text = "a\nb".to_owned();
    text.source.language = None;
    let receipt = sink.send(&text, &OutputContext::new("session-7")).unwrap();

    let output = String::from_utf8(sink.into_writer().unwrap()).unwrap();
    assert_eq!(
        output,
        "{\"session_id\":\"session-7\",\"text\":\"a\\nb\",\"language\":null,\"duration_ms\":123}\n"
    );
    assert_eq!(output.matches('\n').count(), 1);
    assert_eq!(
        receipt,
        SendReceipt {
            sink_name: "stdout".to_owned(),
            bytes_sent: output.len(),
            pasted: false
        }
    );
}

#[test]
fn texts_are_appended_one_after_the_other() {
    let mut sink = StdoutSink::with_writer(OutputFormat::Plain, b"> ".to_vec());
    let context = OutputContext::new("session-1");
    let mut text = sample_text();
    text.text = "音声".to_owned();
    assert_eq!(sink.send(&text, &context).unwrap().bytes_sent, 7);
    text.text = "b".to_owned();
    assert_eq!(sink.send(&text, &context).unwrap().bytes_sent, 2);
    assert_eq!(sink.into_writer().unwrap(), "> 音声\nb\n".as_bytes());
}

#[test]
fn json_strings_escape_what_breaks_them() {
    assert_eq!(json_string(""), "\"\"");
    assert_eq!(json_string("a\"b\\c"), "\"a\\\"b\\\\c\"");
    assert_eq!(json_string("\n\r\t"), "\"\\n\\r\\t\"");
    assert_eq!(json_string("\u{1}\u{1f}\u{7f}\u{9f}"), "\"\\u0001\\u001f\\u007f\\u009f\"");
    assert_eq!(json_string("音声 é"), "\"音声 é\"");
}

#[test]
fn sink_failures_are_described() {
    assert_eq!(
        StdoutSink::<Vec<u8>>::write_error("pipe"),
        SinkError::new("failed to write stdout: pipe")
    );
    assert_eq!(
        StdoutSink::<Vec<u8>>::flush_error("pipe"),
        SinkError::new("failed to flush stdout: pipe")
    );
    assert_eq!(
        clipboard_open_error("none"),
        SinkError::new("failed to open clipboard: none")
    );
    assert_eq!(
        clipboard_sent(&sample_text(), Err("busy".to_owned())),
        Err(SinkError::new("failed to write clipboard: busy"))
    );
    assert_eq!(
        clipboard_sent(&sample_text(), Ok(())),
        Ok(SendReceipt {
            sink_name: "clipboard".to_owned(),
            bytes_sent: 12,
            pasted: false
        })
    );
}
