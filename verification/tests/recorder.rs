use std::cell::RefCell;
use std::rc::Rc;
use std::time::SystemTime;

use voice_input::recorder::{
    append_interleaved, check_config, mark_default, resample_mono, select_device, stage_error,
    AudioInput, CaptureBuffer, DeviceChoice, OpenedDevice, RecorderStage, SampleMath,
};
use voice_input::{
    AudioDevice, CpalRecorder, Duration, Float32, RecorderError, RecordingOptions,
};

fn float(value: f32) -> Float32 {
    Float32 {
        bits: value.to_bits(),
    }
}

fn floats(values: &[f32]) -> Vec<Float32> {
    values.iter().map(|value| float(*value)).collect()
}

fn mean(frame: &[f32]) -> Float32 {
    float(frame.iter().sum::<f32>() / frame.len() as f32)
}

struct Linear;

impl SampleMath for Linear {
    fn sample_count(&self, duration: Duration, sample_rate_hz: u32) -> usize {
        duration.secs() as usize * sample_rate_hz as usize
    }

    fn interpolate(&self, input: &[Float32], from: u32, to: u32, index: usize) -> Float32 {
        let position = index as f64 * f64::from(from) / f64::from(to);
        let left = position.floor() as usize;
        let right = (left + 1).min(input.len() - 1);
        let fraction = (position - left as f64) as f32;
        float(
            f32::from_bits(input[left].bits) * (1.0 - fraction)
                + f32::from_bits(input[right].bits) * fraction,
        )
    }

    fn length(&self, samples: usize, sample_rate_hz: u32) -> Duration {
        Duration::from_millis(samples as u64 * 1000 / u64::from(sample_rate_hz))
    }
}

#[test]
fn mixes_interleaved_samples_into_mono() {
    let mut capture = CaptureBuffer {
        samples: Vec::new(),
        max_samples: 2,
    };

    append_interleaved(&[1.0_f32, -1.0, 0.5, 0.5], 2, &mut capture, mean);

    assert_eq!(capture.samples, floats(&[0.0, 0.5]));
}

#[test]
fn resamples_linear_ramp() {
    let result = resample_mono(&floats(&[0.0, 1.0, 2.0, 3.0]), 4, 2, &Linear);

    assert_eq!(result, floats(&[0.0, 2.0]));
}

#[test]
fn a_recording_stops_at_its_limit() {
    let mut capture = CaptureBuffer::default();
    append_interleaved(&[1.0_f32, 2.0], 1, &mut capture, mean);
    assert!(capture.samples.is_empty());
    capture.restart(3);
    append_interleaved(&[1.0_f32, 2.0], 1, &mut capture, mean);
    append_interleaved(&[3.0_f32, 4.0], 1, &mut capture, mean);
    assert_eq!(capture.samples, floats(&[1.0, 2.0, 3.0]));
    assert_eq!(capture.take(), floats(&[1.0, 2.0, 3.0]));
    assert!(capture.samples.is_empty());
    assert_eq!(capture.max_samples, 3);
}

#[test]
fn incomplete_frames_and_no_channels_are_dropped() {
    let mut capture = CaptureBuffer {
        samples: Vec::new(),
        max_samples: 10,
    };
    append_interleaved(&[1.0_f32, 3.0, 5.0], 2, &mut capture, mean);
    append_interleaved(&[1.0_f32, 3.0, 5.0], 0, &mut capture, mean);
    assert_eq!(capture.samples, floats(&[2.0]));
}

#[test]
fn resampling_keeps_the_length_in_time() {
    let input = floats(&[0.0, 1.0, 2.0]);
    assert_eq!(resample_mono(&input, 16_000, 16_000, &Linear), input);
    assert_eq!(
        resample_mono(&input, 2, 4, &Linear),
        floats(&[0.0, 0.5, 1.0, 1.5, 2.0, 2.0])
    );
    assert_eq!(resample_mono(&input, 48_000, 16_000, &Linear).len(), 1);
    assert!(resample_mono(&[], 2, 4, &Linear).is_empty());
    assert!(resample_mono(&input, 0, 4, &Linear).is_empty());
    assert!(resample_mono(&input, 4, 0, &Linear).is_empty());
}

fn names(values: &[&str]) -> Vec<String> {
    values.iter().map(|value| (*value).to_owned()).collect()
}

#[test]
fn the_default_device_is_marked() {
    assert_eq!(
        mark_default(names(&["a", "b"]), Some("b")),
        vec![
            AudioDevice {
                name: "a".to_owned(),
                is_default: false
            },
            AudioDevice {
                name: "b".to_owned(),
                is_default: true
            },
        ]
    );
    assert!(!mark_default(names(&["a"]), None)[0].is_default);
    assert!(mark_default(Vec::new(), Some("a")).is_empty());
}

#[test]
fn devices_are_selected_by_name() {
    let list = names(&["a", "b", "b"]);
    assert_eq!(select_device(None, true, &list), Ok(DeviceChoice::Default));
    assert_eq!(
        select_device(None, false, &list),
        Err(RecorderError::new("default input device is unavailable"))
    );
    assert_eq!(select_device(Some("b"), false, &list), Ok(DeviceChoice::Listed(1)));
    assert_eq!(
        select_device(Some("c"), true, &list),
        Err(RecorderError::new(
            "input device 'c' is unavailable; candidates: a, b, b"
        ))
    );
    assert_eq!(
        select_device(Some("c"), true, &Vec::new()),
        Err(RecorderError::new("input device 'c' is unavailable; candidates: "))
    );
}

#[test]
fn failures_of_the_audio_system_are_described() {
    for (stage, text) in [
        (RecorderStage::ListDevices, "failed to list input devices: x"),
        (RecorderStage::InputConfig, "failed to get input config: x"),
        (RecorderStage::SampleFormat, "unsupported input sample format: x"),
        (RecorderStage::BuildStream, "failed to build input stream: x"),
        (RecorderStage::StartStream, "failed to start input stream: x"),
        (RecorderStage::RunStream, "input stream failed: x"),
    ] {
        assert_eq!(stage_error(stage, "x"), RecorderError::new(text));
    }
}

/// An audio system that notes what it is asked for.
struct Input {
    device: Result<(u16, u32), &'static str>,
    stream: Result<(), &'static str>,
    failure: Result<Option<&'static str>, &'static str>,
    capture: Result<Vec<Float32>, &'static str>,
    names: Result<Vec<String>, &'static str>,
    asked: Rc<RefCell<Vec<String>>>,
}

impl Input {
    fn note(&self, step: &str) {
        self.asked.borrow_mut().push(step.to_owned());
    }
}

impl SampleMath for Input {
    fn sample_count(&self, duration: Duration, sample_rate_hz: u32) -> usize {
        Linear.sample_count(duration, sample_rate_hz)
    }

    fn interpolate(&self, input: &[Float32], from: u32, to: u32, index: usize) -> Float32 {
        Linear.interpolate(input, from, to, index)
    }

    fn length(&self, samples: usize, sample_rate_hz: u32) -> Duration {
        Linear.length(samples, sample_rate_hz)
    }
}

impl AudioInput for Input {
    type Device = &'static str;
    type Stream = String;

    fn default_device_name(&self) -> Option<String> {
        Some("b".to_owned())
    }

    fn device_names(&self) -> Result<Vec<String>, String> {
        self.names.clone().map_err(str::to_owned)
    }

    fn open(
        &mut self,
        options: &RecordingOptions,
    ) -> Result<OpenedDevice<&'static str>, RecorderError> {
        self.note(&format!("open at {}", options.sample_rate_hz));
        let (channels, sample_rate_hz) = self.device.map_err(RecorderError::new)?;
        Ok(OpenedDevice {
            device: "device",
            channels,
            sample_rate_hz,
        })
    }

    fn start(&mut self, device: &'static str, max_samples: usize) -> Result<String, RecorderError> {
        self.note(&format!("start {device} for {max_samples}"));
        self.stream.map_err(RecorderError::new)?;
        Ok("stream".to_owned())
    }

    fn end(&mut self, stream: String) {
        self.note(&format!("end {stream}"));
    }

    fn take_failure(&mut self) -> Result<Option<String>, RecorderError> {
        self.note("take failure");
        let failure = self.failure.map_err(RecorderError::new)?;
        Ok(failure.map(str::to_owned))
    }

    fn take_capture(&mut self) -> Result<Vec<Float32>, RecorderError> {
        self.note("take capture");
        self.capture.clone().map_err(RecorderError::new)
    }

    fn clear_capture(&mut self) {
        self.note("clear capture");
    }
}

type Asked = Rc<RefCell<Vec<String>>>;

fn input() -> (Input, Asked) {
    let asked = Rc::new(RefCell::new(Vec::new()));
    let input = Input {
        device: Ok((2, 4)),
        stream: Ok(()),
        failure: Ok(None),
        capture: Ok(floats(&[0.0, 1.0, 2.0, 3.0])),
        names: Ok(names(&["a", "b"])),
        asked: Rc::clone(&asked),
    };
    (input, asked)
}

fn steps(asked: &Asked) -> Vec<String> {
    std::mem::take(&mut *asked.borrow_mut())
}

fn not_running<T>() -> Result<T, RecorderError> {
    Err(RecorderError::new("recorder is not running"))
}

#[test]
fn streams_need_channels_a_rate_and_room() {
    assert_eq!(check_config(1, 16_000), Ok(()));
    let invalid = Err(RecorderError::new("input device returned an invalid stream config"));
    assert_eq!(check_config(0, 16_000), invalid);
    assert_eq!(check_config(1, 0), invalid);
    let options = RecordingOptions::default();
    for device in [(0, 4), (2, 0)] {
        let (mut input, asked) = input();
        input.device = Ok(device);
        let mut recorder = CpalRecorder::new(input);
        assert_eq!(recorder.start(&options), invalid);
        assert_eq!(steps(&asked), names(&["open at 16000"]));
        assert_eq!(recorder.cancel(), not_running());
    }
    let (mut unopened, asked) = input();
    unopened.device = Err("no device");
    assert_eq!(
        CpalRecorder::new(unopened).start(&options),
        Err(RecorderError::new("no device"))
    );
    assert_eq!(steps(&asked), names(&["open at 16000"]));
    let (system, asked) = input();
    let short = RecordingOptions {
        max_duration: Duration::from_millis(1),
        ..RecordingOptions::default()
    };
    assert_eq!(
        CpalRecorder::new(system).start(&short),
        Err(RecorderError::new("maximum recording duration must be positive"))
    );
    assert_eq!(steps(&asked), names(&["open at 16000"]));
    let (mut silent, asked) = input();
    silent.stream = Err("no stream");
    let mut recorder = CpalRecorder::new(silent);
    assert_eq!(recorder.start(&options), Err(RecorderError::new("no stream")));
    assert_eq!(
        steps(&asked),
        names(&["open at 16000", "start device for 480"])
    );
    assert_eq!(recorder.stop(), not_running());
    assert!(steps(&asked).is_empty());
}

#[test]
fn a_request_without_rate_or_channels_reaches_no_device() {
    let refused = Err(RecorderError::new(
        "target sample rate and channel count must be positive",
    ));
    let (system, asked) = input();
    let mut recorder = CpalRecorder::new(system);
    assert_eq!(
        recorder.start(&RecordingOptions {
            sample_rate_hz: 0,
            ..RecordingOptions::default()
        }),
        refused
    );
    assert_eq!(
        recorder.start(&RecordingOptions {
            channels: 0,
            ..RecordingOptions::default()
        }),
        refused
    );
    assert!(steps(&asked).is_empty());
}

#[test]
fn a_recorder_runs_one_stream_at_a_time() {
    let (system, asked) = input();
    let mut recorder = CpalRecorder::new(system);
    let options = RecordingOptions {
        sample_rate_hz: 2,
        ..RecordingOptions::default()
    };
    assert_eq!(recorder.stop(), not_running());
    assert!(steps(&asked).is_empty());
    let before = SystemTime::now();
    assert_eq!(recorder.start(&options), Ok(()));
    let after = SystemTime::now();
    assert_eq!(
        steps(&asked),
        names(&["open at 2", "start device for 480"])
    );
    assert_eq!(
        recorder.start(&options),
        Err(RecorderError::new("recorder is already running"))
    );
    assert!(steps(&asked).is_empty());
    let audio = recorder.stop().unwrap();
    assert_eq!(
        steps(&asked),
        names(&["end stream", "take failure", "take capture"])
    );
    assert_eq!(audio.samples, floats(&[0.0, 2.0]));
    assert_eq!(audio.sample_rate_hz, 2);
    assert_eq!(audio.channels, 1);
    assert!(before <= audio.started_at && audio.started_at <= after);
    assert_eq!(audio.duration, Duration::from_secs(1));
    assert_eq!(recorder.stop(), not_running());
    assert_eq!(recorder.cancel(), not_running());
    assert!(steps(&asked).is_empty());
    assert_eq!(recorder.start(&options), Ok(()));
}

#[test]
fn a_stream_that_failed_gives_no_recording() {
    let (mut system, asked) = input();
    system.failure = Ok(Some("unplugged"));
    let mut recorder = CpalRecorder::new(system);
    recorder.start(&RecordingOptions::default()).unwrap();
    steps(&asked);
    assert_eq!(
        recorder.stop(),
        Err(RecorderError::new("input stream failed: unplugged"))
    );
    assert_eq!(
        steps(&asked),
        names(&["end stream", "take failure", "clear capture"])
    );
    assert_eq!(recorder.stop(), not_running());
}

#[test]
fn an_unreadable_capture_ends_the_recording() {
    let (mut system, asked) = input();
    system.failure = Err("callback error mutex is poisoned");
    let mut recorder = CpalRecorder::new(system);
    recorder.start(&RecordingOptions::default()).unwrap();
    steps(&asked);
    assert_eq!(
        recorder.stop(),
        Err(RecorderError::new("callback error mutex is poisoned"))
    );
    assert_eq!(steps(&asked), names(&["end stream", "take failure"]));
    assert_eq!(recorder.cancel(), not_running());
    let (mut system, _) = input();
    system.capture = Err("capture buffer mutex is poisoned");
    let mut recorder = CpalRecorder::new(system);
    recorder.start(&RecordingOptions::default()).unwrap();
    assert_eq!(
        recorder.stop(),
        Err(RecorderError::new("capture buffer mutex is poisoned"))
    );
    assert_eq!(recorder.stop(), not_running());
}

#[test]
fn a_cancelled_recording_is_dropped() {
    let (system, asked) = input();
    let mut recorder = CpalRecorder::new(system);
    assert_eq!(recorder.cancel(), not_running());
    assert!(steps(&asked).is_empty());
    recorder.start(&RecordingOptions::default()).unwrap();
    steps(&asked);
    assert_eq!(recorder.cancel(), Ok(()));
    assert_eq!(steps(&asked), names(&["end stream", "clear capture"]));
    assert_eq!(recorder.cancel(), not_running());
    assert_eq!(recorder.stop(), not_running());
    assert!(steps(&asked).is_empty());
}

#[test]
fn a_recorder_lists_the_devices_of_its_system() {
    let (mut system, _) = input();
    let listed = CpalRecorder::new(input().0).list_devices().unwrap();
    assert_eq!(listed, mark_default(names(&["a", "b"]), Some("b")));
    system.names = Err("busy");
    assert_eq!(
        CpalRecorder::new(system).list_devices(),
        Err(RecorderError::new("failed to list input devices: busy"))
    );
}
