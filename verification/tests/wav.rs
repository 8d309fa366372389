use std::io::Cursor;

use voice_input::wav::{
    choose_encoding, finish_read, read_wav, recording_format, temporary_output_name,
    TemporaryOutput, WavEncoding, WavFormat, WavInput, WavStep, WavWriteJob,
};
use voice_input::CancellationToken;

fn wav_bytes(format: WavFormat, samples: &[i16]) -> Vec<u8> {
    let mut bytes = Cursor::new(Vec::new());
    let mut writer = hound::WavWriter::new(
        &mut bytes,
        hound::WavSpec {
            channels: format.channels,
            sample_rate: format.sample_rate,
            bits_per_sample: format.bits_per_sample,
            sample_format: if format.is_float {
                hound::SampleFormat::Float
            } else {
                hound::SampleFormat::Int
            },
        },
    )
    .unwrap();
    for sample in samples {
        writer.write_sample(*sample).unwrap();
    }
    writer.finalize().unwrap();
    bytes.into_inner()
}

#[test]
fn recordings_are_read_back() {
    let cancel = CancellationToken::new();
    let samples = vec![0, 1, -1, i16::MAX, i16::MIN];
    let bytes = wav_bytes(recording_format(16_000), &samples);
    assert_eq!(read_wav(&bytes, &cancel), Ok(WavInput::Integers(samples)));
    let empty = wav_bytes(recording_format(16_000), &[]);
    assert_eq!(read_wav(&empty, &cancel), Ok(WavInput::Integers(Vec::new())));
}

#[test]
fn other_formats_are_refused() {
    let cancel = CancellationToken::new();
    let mono = "WAV input must be 16kHz mono".to_owned();
    let fast = wav_bytes(recording_format(44_100), &[1]);
    assert_eq!(read_wav(&fast, &cancel), Err(mono.clone()));
    let stereo = WavFormat {
        channels: 2,
        ..recording_format(16_000)
    };
    assert_eq!(read_wav(&wav_bytes(stereo, &[1, 2]), &cancel), Err(mono));
    let wide = WavFormat {
        bits_per_sample: 24,
        ..recording_format(16_000)
    };
    assert_eq!(
        read_wav(&wav_bytes(wide, &[1]), &cancel),
        Err("WAV input must use 16-bit integer or 32-bit float samples".to_owned())
    );
    assert_eq!(
        choose_encoding(WavFormat {
            bits_per_sample: 32,
            is_float: true,
            ..recording_format(16_000)
        }),
        Ok(WavEncoding::Floats)
    );
}

#[test]
fn float_files_are_left_to_the_caller() {
    let mut bytes = Cursor::new(Vec::new());
    let mut writer = hound::WavWriter::new(
        &mut bytes,
        hound::WavSpec {
            channels: 1,
            sample_rate: 16_000,
            bits_per_sample: 32,
            sample_format: hound::SampleFormat::Float,
        },
    )
    .unwrap();
    writer.write_sample(0.5_f32).unwrap();
    writer.finalize().unwrap();
    assert_eq!(
        read_wav(&bytes.into_inner(), &CancellationToken::new()),
        Ok(WavInput::Floats)
    );
}

#[test]
fn broken_files_are_described() {
    let cancel = CancellationToken::new();
    assert_eq!(
        read_wav(b"", &cancel),
        Err("failed to open WAV: Failed to read enough bytes.".to_owned())
    );
    assert_eq!(
        read_wav(b"not a wave file", &cancel),
        Err("failed to open WAV: Ill-formed WAVE file: no RIFF tag found".to_owned())
    );
    let mut cut = wav_bytes(recording_format(16_000), &[1, 2, 3]);
    cut.truncate(cut.len() - 1);
    assert_eq!(
        read_wav(&cut, &cancel),
        Err("failed to read WAV sample: Failed to read enough bytes.".to_owned())
    );
}

#[test]
fn a_cancelled_read_gives_no_samples() {
    let cancel = CancellationToken::new();
    cancel.cancel();
    let bytes = wav_bytes(recording_format(16_000), &[1, 2, 3]);
    let cancelled = Err("operation cancelled".to_owned());
    assert_eq!(read_wav(&bytes, &cancel), cancelled);
    assert_eq!(
        read_wav(b"", &cancel),
        Err("failed to open WAV: Failed to read enough bytes.".to_owned())
    );
    let mut cut = bytes.clone();
    cut.truncate(cut.len() - 1);
    assert_eq!(read_wav(&cut, &cancel), cancelled);
    assert_eq!(
        finish_read(Ok(vec![0.5_f32]), &cancel),
        Err("operation cancelled".to_owned())
    );
    assert_eq!(
        finish_read::<f32>(Err("x".to_owned()), &cancel),
        Err("failed to read WAV sample: x".to_owned())
    );
    cancel.reset();
    assert_eq!(finish_read(Ok(vec![0.5_f32]), &cancel), Ok(vec![0.5]));
    assert_eq!(
        finish_read::<f32>(Err("x".to_owned()), &cancel),
        Err("failed to read WAV sample: x".to_owned())
    );
}

#[test]
fn temporary_files_have_names_of_their_own() {
    assert_eq!(temporary_output_name(Some("voice.wav"), 42), ".voice.wav.42.part");
    assert_eq!(temporary_output_name(None, 7), ".voin-output.7.part");
}

#[test]
fn temporary_files_are_removed_unless_they_got_their_place() {
    let mut output = TemporaryOutput::new("a.part");
    assert_eq!(*output.path(), "a.part");
    assert_eq!(output.leftover(), Some("a.part"));
    assert_eq!(output.leftover(), None);
    let mut output = TemporaryOutput::new("b.part");
    output.commit();
    assert_eq!(output.leftover(), None);
}

#[test]
fn a_recording_is_written_sample_by_sample_and_then_published() {
    let cancel = CancellationToken::new();
    let mut job = WavWriteJob::new(2);
    for step in [
        WavStep::Create,
        WavStep::Write(0),
        WavStep::Write(1),
        WavStep::Finalize,
        WavStep::Publish,
        WavStep::Done,
    ] {
        assert_eq!(job.step(Ok(()), &cancel), step);
    }
    let mut job = WavWriteJob::new(0);
    assert_eq!(job.step(Ok(()), &cancel), WavStep::Create);
    assert_eq!(job.step(Ok(()), &cancel), WavStep::Finalize);
}

#[test]
fn a_cancelled_write_is_given_up() {
    let abort = || WavStep::Abort("operation cancelled".to_owned());
    for steps in 0..6 {
        let cancel = CancellationToken::new();
        let mut job = WavWriteJob::new(2);
        for _ in 0..steps {
            job.step(Ok(()), &cancel);
        }
        cancel.cancel();
        let step = job.step(Ok(()), &cancel);
        match steps {
            3 => assert_eq!(step, WavStep::Finalize),
            5 => assert_eq!(step, WavStep::Done),
            _ => assert_eq!(step, abort()),
        }
    }
}

#[test]
fn a_failed_write_is_described() {
    for (steps, text) in [
        (1, "failed to create temporary WAV: disk"),
        (2, "failed to write WAV: disk"),
        (3, "failed to finalize WAV: disk"),
        (4, "failed to move WAV into place: disk"),
    ] {
        let cancel = CancellationToken::new();
        let mut job = WavWriteJob::new(1);
        for _ in 0..steps {
            job.step(Ok(()), &cancel);
        }
        assert_eq!(
            job.step(Err("disk".to_owned()), &cancel),
            WavStep::Abort(text.to_owned())
        );
    }
}
