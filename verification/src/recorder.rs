//! A recorder over an audio system: which device it uses, what it keeps of the input and when it refuses.

use vstd::prelude::*;
use vstd::slice::{slice_subrange, slice_to_vec};

use std::time::SystemTime;

use crate::duration::Duration;
use crate::error::{with_prefix, RecorderError};
use crate::model::{AudioBuffer, AudioDevice, Float32, RecordingOptions};
use crate::text::{join, joined, same_text, texts};

verus! {

/// The samples of a running recording, one per frame, up to a limit.
#[derive(Debug, PartialEq, Eq)]
pub struct CaptureBuffer {
    /// The samples so far.
    pub samples: Vec<Float32>,
    /// The number of samples that are kept.
    pub max_samples: usize,
}

impl Default for CaptureBuffer {
    /// A buffer that keeps nothing.
    fn default() -> (capture: CaptureBuffer)
        ensures
            capture.samples@.len() == 0,
            capture.max_samples == 0,
    {
        CaptureBuffer { samples: Vec::new(), max_samples: 0 }
    }
}

impl CaptureBuffer {
    /// Forgets all samples and keeps up to `max_samples` new ones.
    pub fn restart(&mut self, max_samples: usize)
        ensures
            final(self).samples@.len() == 0,
            final(self).max_samples == max_samples,
    {
        self.samples.clear();
        self.max_samples = max_samples;
    }

    /// Takes the samples out; the limit stays.
    pub fn take(&mut self) -> (samples: Vec<Float32>)
        ensures
            samples@ == old(self).samples@,
            final(self).samples@.len() == 0,
            final(self).max_samples == old(self).max_samples,
    {
        let mut samples: Vec<Float32> = Vec::new();
        std::mem::swap(&mut samples, &mut self.samples);
        samples
    }
}

/// The frame with the given index of interleaved input.
pub open spec fn frame<T>(data: Seq<T>, channels: nat, index: int) -> Seq<T> {
    data.subrange(index * channels, (index + 1) * channels)
}

/// `sample` is what mixing the frame with the given index gave.
pub open spec fn is_mixed<T, M: Fn(&[T]) -> Float32>(
    mix: M,
    data: Seq<T>,
    channels: nat,
    index: int,
    sample: Float32,
) -> bool {
    exists|input: &[T]|
        input@ == frame(data, channels, index) && #[trigger] call_ensures(mix, (input,), sample)
}

/// The number of frames of the input that are kept: complete frames, as long as there is room.
pub open spec fn kept_frames(len: nat, channels: nat, held: nat, max_samples: nat) -> nat {
    if channels == 0 || held >= max_samples {
        0
    } else if len / channels <= max_samples - held {
        len / channels
    } else {
        (max_samples - held) as nat
    }
}

/// A complete frame lies inside the input.
proof fn lemma_frame_inside(len: nat, channels: nat, index: nat)
    by (nonlinear_arith)
    requires
        channels > 0,
        index < len / channels,
    ensures
        (index + 1) * channels <= len,
        index * channels + channels == (index + 1) * channels,
{
}

/// Appends interleaved input to the recording, each frame mixed into one sample, up to the limit of
/// the recording. What follows the last complete frame is dropped.
pub fn append_interleaved<T, M: Fn(&[T]) -> Float32>(
    data: &[T],
    channels: u16,
    capture: &mut CaptureBuffer,
    mix: M,
)
    requires
        forall|frame: &[T]| frame@.len() == channels ==> call_requires(mix, (frame,)),
    ensures
        final(capture).max_samples == old(capture).max_samples,
        ({
            let held = old(capture).samples@.len();
            let kept = kept_frames(
                data@.len(),
                channels as nat,
                held,
                old(capture).max_samples as nat,
            );
            &&& final(capture).samples@.len() == held + kept
            &&& final(capture).samples@.take(held as int) == old(capture).samples@
            &&& forall|i: int|
                held <= i < held + kept ==> is_mixed(
                    mix,
                    data@,
                    channels as nat,
                    i - held,
                    #[trigger] final(capture).samples@[i],
                )
        }),
{
    let width: usize = channels as usize;
    if width == 0 {
        return;
    }
    let len: usize = data.len();
    let frames: usize = len / width;
    let ghost held = capture.samples@.len();
    let ghost max_samples = capture.max_samples as nat;
    let ghost kept = kept_frames(data@.len(), width as nat, held, max_samples);
    let mut i: usize = 0;
    while i < frames && capture.samples.len() < capture.max_samples
        invariant
            width > 0,
            len == data@.len(),
            frames == data@.len() / width as nat,
            held == old(capture).samples@.len(),
            max_samples == old(capture).max_samples,
            capture.max_samples == old(capture).max_samples,
            kept == kept_frames(data@.len(), width as nat, held, max_samples),
            i <= kept,
            capture.samples@.len() == held + i,
            capture.samples@.take(held as int) == old(capture).samples@,
            forall|frame: &[T]| frame@.len() == width ==> call_requires(mix, (frame,)),
            forall|j: int|
                held <= j < held + i ==> is_mixed(
                    mix,
                    data@,
                    width as nat,
                    j - held,
                    #[trigger] capture.samples@[j],
                ),
        decreases frames - i,
    {
        proof {
            lemma_frame_inside(len as nat, width as nat, i as nat);
        }
        let start: usize = i * width;
        let input = slice_subrange(data, start, start + width);
        let ghost before = capture.samples@;
        let sample = mix(input);
        capture.samples.push(sample);
        proof {
            assert(input@ == frame(data@, width as nat, i as int));
            assert(capture.samples@.take(held as int) == before.take(held as int));
            assert forall|j: int| held <= j < held + i + 1 implies is_mixed(
                mix,
                data@,
                width as nat,
                j - held,
                #[trigger] capture.samples@[j],
            ) by {
                if j < held + i {
                    assert(capture.samples@[j] == before[j]);
                }
            }
        }
        i += 1;
    }
}

/// A recording never holds more samples than its limit, unless it did before.
pub proof fn law_capture_stays_within_limit(
    len: nat,
    channels: nat,
    held: nat,
    max_samples: nat,
)
    requires
        held <= max_samples,
    ensures
        held + kept_frames(len, channels, held, max_samples) <= max_samples,
{
}

/// The number of samples that a recording has at another rate.
pub open spec fn resampled_len(len: nat, from_rate: nat, to_rate: nat) -> nat {
    if len == 0 || from_rate == 0 || to_rate == 0 {
        0
    } else {
        len * to_rate / from_rate
    }
}

/// The recording has to be converted: it has samples, and the rates are positive and differ.
pub open spec fn needs_resampling(len: nat, from_rate: nat, to_rate: nat) -> bool {
    len > 0 && from_rate > 0 && to_rate > 0 && from_rate != to_rate
}

/// Where the recording has to be converted, its size at the other rate can be computed and held.
pub open spec fn can_be_resampled(len: nat, from_rate: nat, to_rate: nat) -> bool {
    needs_resampling(len, from_rate, to_rate) ==> {
        &&& len * to_rate <= u64::MAX
        &&& resampled_len(len, from_rate, to_rate) <= usize::MAX
    }
}

/// Arithmetic on samples that takes floating point.
pub trait SampleMath {
    /// The number of samples that a recording of the given length has at the given rate.
    fn sample_count(&self, duration: Duration, sample_rate_hz: u32) -> usize;

    /// The sample at a position of a recording that is brought from one rate to another.
    fn interpolate(
        &self,
        input: &[Float32],
        from_sample_rate_hz: u32,
        to_sample_rate_hz: u32,
        index: usize,
    ) -> Float32;

    /// The length in time of a recording of one channel.
    fn length(&self, samples: usize, sample_rate_hz: u32) -> Duration;
}

/// `output` is `input` at another rate: the same samples where the rate does not change, and else
/// what `math` interpolates for each position.
pub open spec fn is_resampled<M: SampleMath>(
    math: &M,
    input: &[Float32],
    from_rate: u32,
    to_rate: u32,
    output: Seq<Float32>,
) -> bool {
    if from_rate == to_rate && from_rate != 0 {
        output == input@
    } else {
        &&& output.len() == resampled_len(input@.len(), from_rate as nat, to_rate as nat)
        &&& forall|i: int|
            0 <= i < output.len() ==> call_ensures(
                M::interpolate,
                (math, input, from_rate, to_rate, i as usize),
                #[trigger] output[i],
            )
    }
}

/// Brings a recording to another rate.
pub fn resample_mono<M: SampleMath>(
    input: &[Float32],
    from_sample_rate_hz: u32,
    to_sample_rate_hz: u32,
    math: &M,
) -> (output: Vec<Float32>)
    requires
        can_be_resampled(input@.len(), from_sample_rate_hz as nat, to_sample_rate_hz as nat),
    ensures
        is_resampled(math, input, from_sample_rate_hz, to_sample_rate_hz, output@),
{
    if input.len() == 0 || from_sample_rate_hz == 0 || to_sample_rate_hz == 0 {
        let output: Vec<Float32> = Vec::new();
        assert(input@.len() == 0 ==> output@ == input@);
        return output;
    }
    if from_sample_rate_hz == to_sample_rate_hz {
        return slice_to_vec(input);
    }
    let output_len: usize = (input.len() as u64 * to_sample_rate_hz as u64
        / from_sample_rate_hz as u64) as usize;
    let mut output: Vec<Float32> = Vec::new();
    let mut i: usize = 0;
    while i < output_len
        invariant
            i <= output_len,
            output_len == resampled_len(
                input@.len(),
                from_sample_rate_hz as nat,
                to_sample_rate_hz as nat,
            ),
            output@.len() == i,
            forall|j: int|
                0 <= j < i ==> call_ensures(
                    M::interpolate,
                    (math, input, from_sample_rate_hz, to_sample_rate_hz, j as usize),
                    #[trigger] output@[j],
                ),
        decreases output_len - i,
    {
        output.push(math.interpolate(input, from_sample_rate_hz, to_sample_rate_hz, i));
        i += 1;
    }
    output
}

/// Another rate changes the length of a recording in time by less than one sample.
pub proof fn law_resampling_keeps_duration(len: nat, from_rate: nat, to_rate: nat)
    requires
        len > 0,
        from_rate > 0,
        to_rate > 0,
    ensures
        resampled_len(len, from_rate, to_rate) * from_rate <= len * to_rate,
        len * to_rate < (resampled_len(len, from_rate, to_rate) + 1) * from_rate,
        from_rate == to_rate ==> resampled_len(len, from_rate, to_rate) == len,
{
    let total = len * to_rate;
    vstd::arithmetic::div_mod::lemma_fundamental_div_mod(total as int, from_rate as int);
    vstd::arithmetic::mul::lemma_mul_is_distributive_add_other_way(
        from_rate as int,
        (total / from_rate) as int,
        1,
    );
    vstd::arithmetic::mul::lemma_mul_is_commutative(from_rate as int, (total / from_rate) as int);
    if from_rate == to_rate {
        vstd::arithmetic::div_mod::lemma_div_by_multiple(len as int, from_rate as int);
    }
}

/// The devices with the given names, of which the one with the name of the default device is marked.
pub open spec fn are_marked(
    names: Seq<Seq<char>>,
    default_name: Option<Seq<char>>,
    devices: Seq<AudioDevice>,
) -> bool {
    &&& devices.len() == names.len()
    &&& forall|i: int|
        0 <= i < names.len() ==> (#[trigger] devices[i]).name@ == names[i] && (
        devices[i].is_default <==> default_name == Some(names[i]))
}

/// Lists the devices with the given names and marks the default one.
pub fn mark_default(names: Vec<String>, default_name: Option<&str>) -> (devices: Vec<AudioDevice>)
    ensures
        are_marked(
            texts(names@),
            match default_name {
                Some(name) => Some(name@),
                None => None,
            },
            devices@,
        ),
{
    let mut devices: Vec<AudioDevice> = Vec::new();
    let mut i: usize = 0;
    while i < names.len()
        invariant
            i <= names@.len(),
            are_marked(
                texts(names@).take(i as int),
                match default_name {
                    Some(name) => Some(name@),
                    None => None,
                },
                devices@,
            ),
        decreases names@.len() - i,
    {
        let is_default = match default_name {
            Some(default_name) => same_text(default_name, names[i].as_str()),
            None => false,
        };
        devices.push(AudioDevice { name: names[i].as_str().to_owned(), is_default });
        i += 1;
    }
    assert(texts(names@).take(i as int) == texts(names@));
    devices
}

/// A device that was found.
#[derive(Clone, Copy, Debug, PartialEq, Eq, Structural)]
pub enum DeviceChoice {
    /// The default device.
    Default,
    /// The device with this index in the list.
    Listed(usize),
}

/// How it reads that no device has the requested name.
pub open spec fn unavailable_device_text(requested: Seq<char>, names: Seq<Seq<char>>) -> Seq<
    char,
> {
    "input device '"@ + requested + "' is unavailable; candidates: "@ + joined(names, ", "@)
}

/// The device that a request for the given name gets: the first one of that name, or the default
/// device where no name is given.
pub open spec fn is_selected(
    requested: Option<Seq<char>>,
    has_default: bool,
    names: Seq<Seq<char>>,
    result: Result<DeviceChoice, RecorderError>,
) -> bool {
    match requested {
        None => if has_default {
            result == Ok::<DeviceChoice, RecorderError>(DeviceChoice::Default)
        } else {
            result matches Err(error) && error@ == "default input device is unavailable"@
        },
        Some(requested) => if names.contains(requested) {
            result matches Ok(DeviceChoice::Listed(index)) && index < names.len()
                && names[index as int] == requested && forall|i: int|
                0 <= i < index ==> names[i] != requested
        } else {
            result matches Err(error) && error@ == unavailable_device_text(requested, names)
        },
    }
}

/// Selects the device to record from.
pub fn select_device(
    requested_name: Option<&str>,
    has_default: bool,
    names: &Vec<String>,
) -> (result: Result<DeviceChoice, RecorderError>)
    ensures
        is_selected(
            match requested_name {
                Some(name) => Some(name@),
                None => None,
            },
            has_default,
            texts(names@),
            result,
        ),
{
    match requested_name {
        None => if has_default {
            Ok(DeviceChoice::Default)
        } else {
            Err(RecorderError::new("default input device is unavailable"))
        },
        Some(requested) => {
            let mut i: usize = 0;
            while i < names.len()
                invariant
                    requested_name == Some(requested),
                    i <= names@.len(),
                    forall|j: int| 0 <= j < i ==> texts(names@)[j] != requested@,
                decreases names@.len() - i,
            {
                if same_text(names[i].as_str(), requested) {
                    assert(texts(names@)[i as int] == requested@);
                    return Ok(DeviceChoice::Listed(i));
                }
                i += 1;
            }
            let mut message = with_prefix("input device '", requested);
            message.append("' is unavailable; candidates: ");
            let candidates = join(names, ", ");
            message.append(candidates.as_str());
            Err(RecorderError::new(message.as_str()))
        },
    }
}

/// What a recorder asks of the audio system.
#[derive(Clone, Copy, Debug, PartialEq, Eq, Structural)]
pub enum RecorderStage {
    /// List the input devices.
    ListDevices,
    /// Get the configuration of a device.
    InputConfig,
    /// Choose how to read the samples of a device.
    SampleFormat,
    /// Make an input stream.
    BuildStream,
    /// Start the input stream.
    StartStream,
    /// Run the input stream.
    RunStream,
}

/// How a failure of the audio system reads.
pub open spec fn stage_error_text(stage: RecorderStage, message: Seq<char>) -> Seq<char> {
    match stage {
        RecorderStage::ListDevices => "failed to list input devices: "@ + message,
        RecorderStage::InputConfig => "failed to get input config: "@ + message,
        RecorderStage::SampleFormat => "unsupported input sample format: "@ + message,
        RecorderStage::BuildStream => "failed to build input stream: "@ + message,
        RecorderStage::StartStream => "failed to start input stream: "@ + message,
        RecorderStage::RunStream => "input stream failed: "@ + message,
    }
}

/// The error for a failure of the audio system.
pub fn stage_error(stage: RecorderStage, message: &str) -> (error: RecorderError)
    ensures
        error@ == stage_error_text(stage, message@),
{
    let prefix = match stage {
        RecorderStage::ListDevices => "failed to list input devices: ",
        RecorderStage::InputConfig => "failed to get input config: ",
        RecorderStage::SampleFormat => "unsupported input sample format: ",
        RecorderStage::BuildStream => "failed to build input stream: ",
        RecorderStage::StartStream => "failed to start input stream: ",
        RecorderStage::RunStream => "input stream failed: ",
    };
    RecorderError::new(with_prefix(prefix, message).as_str())
}

/// Checks the configuration that a device offers.
pub fn check_config(channels: u16, sample_rate_hz: u32) -> (result: Result<(), RecorderError>)
    ensures
        match result {
            Ok(_) => channels != 0 && sample_rate_hz != 0,
            Err(error) => (channels == 0 || sample_rate_hz == 0) && error@
                == "input device returned an invalid stream config"@,
        },
{
    if channels == 0 || sample_rate_hz == 0 {
        return Err(RecorderError::new("input device returned an invalid stream config"));
    }
    Ok(())
}

/// An input device that was opened, with the configuration that it offers.
#[derive(Debug, PartialEq, Eq)]
pub struct OpenedDevice<D> {
    /// The device.
    pub device: D,
    /// The number of channels that it delivers.
    pub channels: u16,
    /// The rate at which it delivers.
    pub sample_rate_hz: u32,
}

/// The audio system that a recorder uses.
pub trait AudioInput: SampleMath {
    /// A device that was opened.
    type Device;

    /// A stream that is running.
    type Stream;

    /// The name of the default input device.
    fn default_device_name(&self) -> Option<String>;

    /// The names of all input devices, or why they cannot be listed.
    fn device_names(&self) -> Result<Vec<String>, String>;

    /// Opens the device that the options ask for.
    fn open(&mut self, options: &RecordingOptions) -> Result<
        OpenedDevice<Self::Device>,
        RecorderError,
    >;

    /// Starts a stream of a device that keeps up to `max_samples` samples.
    fn start(&mut self, device: Self::Device, max_samples: usize) -> Result<
        Self::Stream,
        RecorderError,
    >;

    /// Ends a stream.
    fn end(&mut self, stream: Self::Stream);

    /// Takes out the error that the stream had reported.
    fn take_failure(&mut self) -> Result<Option<String>, RecorderError>;

    /// Takes out the samples that were captured, one per frame, at the rate of the device.
    fn take_capture(&mut self) -> Result<Vec<Float32>, RecorderError>;

    /// Drops the samples that were captured.
    fn clear_capture(&mut self);
}

/// What the audio system gave while a recording was started. A step that was not reached says
/// nothing.
pub struct StartTrace<D, S> {
    /// What opening the device gave.
    pub opened: Result<OpenedDevice<D>, RecorderError>,
    /// The number of samples that the longest recording has.
    pub max_samples: usize,
    /// What starting the stream gave.
    pub stream: Result<S, RecorderError>,
}

impl<D, S> StartTrace<D, S> {
    /// The device was opened with a valid configuration, so that the samples were counted.
    pub open spec fn reaches_count(self) -> bool {
        self.opened matches Ok(device) && device.channels != 0 && device.sample_rate_hz != 0
    }

    /// There is room for a sample, so that the stream was started.
    pub open spec fn reaches_stream(self) -> bool {
        self.reaches_count() && self.max_samples != 0
    }

    /// The caller gets `result`.
    pub open spec fn gives(self, result: Result<(), RecorderError>) -> bool {
        if self.opened is Err {
            result == Err::<(), RecorderError>(self.opened->Err_0)
        } else if !self.reaches_count() {
            result matches Err(error) && error@ == "input device returned an invalid stream config"@
        } else if self.max_samples == 0 {
            result matches Err(error) && error@ == "maximum recording duration must be positive"@
        } else {
            match self.stream {
                Ok(_) => result == Ok::<(), RecorderError>(()),
                Err(error) => result == Err::<(), RecorderError>(error),
            }
        }
    }
}

/// What the audio system gave while a recording was stopped. A step that was not reached says nothing.
pub struct StopTrace {
    /// The error that the stream had reported.
    pub failure: Result<Option<String>, RecorderError>,
    /// The samples that were captured.
    pub captured: Result<Vec<Float32>, RecorderError>,
}

/// A recorder over an audio system such as `cpal`: it records at the rate of the device and hands the
/// recording out in one channel at the rate that was asked for.
pub struct CpalRecorder<I: AudioInput> {
    input: I,
    stream: Option<I::Stream>,
    started_at: Option<SystemTime>,
    native_sample_rate_hz: u32,
    target_sample_rate_hz: u32,
}

impl<I: AudioInput> CpalRecorder<I> {
    /// The audio system.
    pub closed spec fn input(&self) -> I {
        self.input
    }

    /// The running stream.
    pub closed spec fn stream(&self) -> Option<I::Stream> {
        self.stream
    }

    /// When the stream was started.
    pub closed spec fn started_at(&self) -> Option<SystemTime> {
        self.started_at
    }

    /// The rate at which the device delivers.
    pub closed spec fn native_rate(&self) -> u32 {
        self.native_sample_rate_hz
    }

    /// The rate at which recordings are handed out.
    pub closed spec fn target_rate(&self) -> u32 {
        self.target_sample_rate_hz
    }

    /// Nothing but the audio system differs from `other`.
    pub open spec fn is_same(&self, other: &Self) -> bool {
        &&& self.stream() == other.stream()
        &&& self.started_at() == other.started_at()
        &&& self.native_rate() == other.native_rate()
        &&& self.target_rate() == other.target_rate()
    }

    /// What is wrong with a request to start.
    pub open spec fn start_error_text(&self, options: &RecordingOptions) -> Option<Seq<char>> {
        if self.stream() is Some {
            Some("recorder is already running"@)
        } else if options.sample_rate_hz == 0 || options.channels == 0 {
            Some("target sample rate and channel count must be positive"@)
        } else {
            None
        }
    }

    /// What comes of starting a recording where the audio system gave what `trace` says: the stream
    /// runs, or the recorder stays as it was.
    pub open spec fn started(
        before: &Self,
        options: &RecordingOptions,
        trace: StartTrace<I::Device, I::Stream>,
        result: Result<(), RecorderError>,
        after: &Self,
    ) -> bool {
        &&& trace.gives(result)
        &&& result is Err ==> after.is_same(before)
        &&& result is Ok ==> {
            &&& after.stream() == Some(trace.stream->Ok_0)
            &&& after.started_at() is Some
            &&& after.native_rate() == trace.opened->Ok_0.sample_rate_hz
            &&& after.target_rate() == options.sample_rate_hz
        }
    }

    /// What comes of stopping a recording where the audio system gave what `trace` says: the
    /// recording at the target rate, in one channel, or an error and nothing else. Nothing runs any
    /// more.
    pub open spec fn stopped(
        before: &Self,
        trace: StopTrace,
        result: Result<AudioBuffer, RecorderError>,
        after: &Self,
    ) -> bool {
        &&& after.stream() is None
        &&& after.native_rate() == before.native_rate()
        &&& after.target_rate() == before.target_rate()
        &&& match trace.failure {
            Err(error) => {
                &&& result == Err::<AudioBuffer, RecorderError>(error)
                &&& after.started_at() == before.started_at()
            },
            Ok(Some(message)) => {
                &&& result matches Err(error) && error@ == stage_error_text(
                    RecorderStage::RunStream,
                    message@,
                )
                &&& after.started_at() is None
            },
            Ok(None) => match trace.captured {
                Err(error) => {
                    &&& result == Err::<AudioBuffer, RecorderError>(error)
                    &&& after.started_at() == before.started_at()
                },
                Ok(samples) => {
                    &&& result matches Ok(audio) && before.hands_out(
                        samples@,
                        &after.input(),
                        audio,
                    )
                    &&& after.started_at() is None
                },
            },
        }
    }

    /// `audio` is the recording of what was captured: at the target rate, in one channel, with the
    /// time of its start and the length that it has.
    pub open spec fn hands_out(
        &self,
        captured: Seq<Float32>,
        math: &I,
        audio: AudioBuffer,
    ) -> bool {
        &&& audio.sample_rate_hz == self.target_rate()
        &&& audio.channels == 1
        &&& self.started_at() is Some ==> self.started_at() == Some(audio.started_at)
        &&& if self.target_rate() == 0 {
            audio.duration@ == 0
        } else {
            call_ensures(
                I::length,
                (math, audio.samples@.len() as usize, self.target_rate()),
                audio.duration,
            )
        }
        &&& exists|samples: &[Float32]|
            samples@ == captured && #[trigger] is_resampled(
                math,
                samples,
                self.native_rate(),
                self.target_rate(),
                audio.samples@,
            )
    }

    /// A request to stop or to cancel found no recording.
    pub open spec fn found_nothing<A>(
        before: &Self,
        result: Result<A, RecorderError>,
        after: &Self,
    ) -> bool {
        &&& result matches Err(error) && error@ == "recorder is not running"@
        &&& after.is_same(before)
        &&& after.input() == before.input()
    }

    /// A recorder that is not running.
    pub fn new(input: I) -> (recorder: Self)
        ensures
            recorder.input() == input,
            recorder.stream() is None,
            recorder.started_at() is None,
            recorder.native_rate() == 0,
            recorder.target_rate() == 16_000,
    {
        CpalRecorder {
            input,
            stream: None,
            started_at: None,
            native_sample_rate_hz: 0,
            target_sample_rate_hz: 16_000,
        }
    }

    /// Lists the input devices and marks the default one.
    pub fn list_devices(&self) -> (result: Result<Vec<AudioDevice>, RecorderError>)
        ensures
            exists|default_name: Option<String>, names: Result<Vec<String>, String>|
                {
                    &&& #[trigger] call_ensures(
                        I::default_device_name,
                        (&self.input(),),
                        default_name,
                    )
                    &&& #[trigger] call_ensures(I::device_names, (&self.input(),), names)
                    &&& match names {
                        Ok(names) => result matches Ok(devices) && are_marked(
                            texts(names@),
                            match default_name {
                                Some(name) => Some(name@),
                                None => None,
                            },
                            devices@,
                        ),
                        Err(message) => result matches Err(error) && error@ == stage_error_text(
                            RecorderStage::ListDevices,
                            message@,
                        ),
                    }
                },
    {
        assert(self.input == self.input());
        let default_name = self.input.default_device_name();
        match self.input.device_names() {
            Ok(names) => Ok(
                mark_default(
                    names,
                    match &default_name {
                        Some(name) => Some(name.as_str()),
                        None => None,
                    },
                ),
            ),
            Err(message) => Err(stage_error(RecorderStage::ListDevices, message.as_str())),
        }
    }

    /// Checks that a recording can be started with the given options.
    fn require_startable(&self, options: &RecordingOptions) -> (result: Result<(), RecorderError>)
        ensures
            match self.start_error_text(options) {
                Some(text) => result matches Err(error) && error@ == text,
                None => result == Ok::<(), RecorderError>(()),
            },
    {
        if self.stream.is_some() {
            return Err(RecorderError::new("recorder is already running"));
        }
        if options.sample_rate_hz == 0 || options.channels == 0 {
            return Err(
                RecorderError::new("target sample rate and channel count must be positive"),
            );
        }
        Ok(())
    }

    /// Starts a recording. The audio system is left alone where the request is refused; it opens one
    /// device, and starts one stream where the device has a valid configuration and there is room
    /// for a sample.
    pub fn start(&mut self, options: &RecordingOptions) -> (result: Result<(), RecorderError>)
        ensures
            old(self).start_error_text(options) matches Some(text) ==> {
                &&& result matches Err(error) && error@ == text
                &&& final(self).is_same(old(self))
                &&& final(self).input() == old(self).input()
            },
            old(self).start_error_text(options) is None ==> exists|
                opening: &mut I,
                trace: StartTrace<I::Device, I::Stream>,
            |
                {
                    &&& *opening == old(self).input()
                    &&& #[trigger] call_ensures(I::open, (opening, options), trace.opened)
                    &&& #[trigger] Self::started(old(self), options, trace, result, final(self))
                    &&& trace.reaches_count() ==> call_ensures(
                        I::sample_count,
                        (
                            &*final(opening),
                            options.max_duration,
                            trace.opened->Ok_0.sample_rate_hz,
                        ),
                        trace.max_samples,
                    )
                    &&& !trace.reaches_stream() ==> *final(opening) == final(self).input()
                    &&& trace.reaches_stream() ==> exists|starting: &mut I|
                        {
                            &&& *starting == *final(opening)
                            &&& *final(starting) == final(self).input()
                            &&& #[trigger] call_ensures(
                                I::start,
                                (starting, trace.opened->Ok_0.device, trace.max_samples),
                                trace.stream,
                            )
                        }
                },
    {
        if let Err(error) = self.require_startable(options) {
            return Err(error);
        }
        let ghost mut trace: StartTrace<I::Device, I::Stream> = arbitrary();
        let opened = self.input.open(options);
        proof {
            trace.opened = opened;
        }
        let device = match opened {
            Ok(device) => device,
            Err(error) => {
                let result = Err(error);
                assert(Self::started(old(self), options, trace, result, self));
                return result;
            },
        };
        if let Err(error) = check_config(device.channels, device.sample_rate_hz) {
            let result = Err(error);
            assert(Self::started(old(self), options, trace, result, self));
            return result;
        }
        let max_samples = self.input.sample_count(options.max_duration, device.sample_rate_hz);
        proof {
            trace.max_samples = max_samples;
        }
        if max_samples == 0 {
            let result = Err(RecorderError::new("maximum recording duration must be positive"));
            assert(Self::started(old(self), options, trace, result, self));
            return result;
        }
        let native_sample_rate_hz = device.sample_rate_hz;
        let stream = self.input.start(device.device, max_samples);
        proof {
            trace.stream = stream;
        }
        match stream {
            Ok(stream) => {
                self.stream = Some(stream);
                self.started_at = Some(SystemTime::now());
                self.native_sample_rate_hz = native_sample_rate_hz;
                self.target_sample_rate_hz = options.sample_rate_hz;
                let result = Ok(());
                assert(Self::started(old(self), options, trace, result, self));
                result
            },
            Err(error) => {
                let result = Err(error);
                assert(Self::started(old(self), options, trace, result, self));
                result
            },
        }
    }

    /// Ends the recording and hands it out. Where the stream had failed, the recording is dropped.
    pub fn stop(&mut self) -> (result: Result<AudioBuffer, RecorderError>)
        requires
            old(self).stream() matches Some(stream) ==> forall|
                ending: &mut I,
                asking: &mut I,
                taking: &mut I,
                samples: Vec<Float32>,
            |
                {
                    &&& *ending == old(self).input()
                    &&& #[trigger] call_ensures(I::end, (ending, stream), ())
                    &&& *asking == *final(ending)
                    &&& #[trigger] call_ensures(
                        I::take_failure,
                        (asking,),
                        Ok::<Option<String>, RecorderError>(None),
                    )
                    &&& *taking == *final(asking)
                    &&& #[trigger] call_ensures(
                        I::take_capture,
                        (taking,),
                        Ok::<Vec<Float32>, RecorderError>(samples),
                    )
                } ==> can_be_resampled(
                    samples@.len(),
                    old(self).native_rate() as nat,
                    old(self).target_rate() as nat,
                ),
        ensures
            old(self).stream() is None ==> Self::found_nothing(old(self), result, final(self)),
            old(self).stream() matches Some(stream) ==> exists|
                ending: &mut I,
                asking: &mut I,
                trace: StopTrace,
            |
                {
                    &&& *ending == old(self).input()
                    &&& #[trigger] call_ensures(I::end, (ending, stream), ())
                    &&& *asking == *final(ending)
                    &&& #[trigger] call_ensures(I::take_failure, (asking,), trace.failure)
                    &&& #[trigger] Self::stopped(old(self), trace, result, final(self))
                    &&& match trace.failure {
                        Err(_) => *final(asking) == final(self).input(),
                        Ok(Some(_)) => exists|clearing: &mut I|
                            {
                                &&& *clearing == *final(asking)
                                &&& *final(clearing) == final(self).input()
                                &&& #[trigger] call_ensures(I::clear_capture, (clearing,), ())
                            },
                        Ok(None) => exists|taking: &mut I|
                            {
                                &&& *taking == *final(asking)
                                &&& *final(taking) == final(self).input()
                                &&& #[trigger] call_ensures(
                                    I::take_capture,
                                    (taking,),
                                    trace.captured,
                                )
                            },
                    }
                },
            final(self).stream() is None,
    {
        let stream = match self.stream.take() {
            Some(stream) => stream,
            None => {
                return Err(RecorderError::new("recorder is not running"));
            },
        };
        let ghost mut trace: StopTrace = arbitrary();
        self.input.end(stream);
        let failure = self.input.take_failure();
        proof {
            trace.failure = failure;
        }
        match failure {
            Ok(None) => {},
            Ok(Some(message)) => {
                self.input.clear_capture();
                self.started_at = None;
                let result = Err(stage_error(RecorderStage::RunStream, message.as_str()));
                assert(Self::stopped(old(self), trace, result, self));
                return result;
            },
            Err(error) => {
                let result = Err(error);
                assert(Self::stopped(old(self), trace, result, self));
                return result;
            },
        }
        let captured = self.input.take_capture();
        proof {
            trace.captured = captured;
        }
        let captured = match captured {
            Ok(samples) => samples,
            Err(error) => {
                let result = Err(error);
                assert(Self::stopped(old(self), trace, result, self));
                return result;
            },
        };
        let started_at = match self.started_at.take() {
            Some(started_at) => started_at,
            None => SystemTime::now(),
        };
        let target = self.target_sample_rate_hz;
        let samples = captured.as_slice();
        let resampled = resample_mono(samples, self.native_sample_rate_hz, target, &self.input);
        let measured = self.input.length(resampled.len(), target);
        assert(is_resampled(
            &self.input,
            samples,
            self.native_sample_rate_hz,
            target,
            resampled@,
        ));
        let mut audio = AudioBuffer::new(resampled, target, 1, measured);
        audio.started_at = started_at;
        let result = Ok(audio);
        assert(Self::stopped(old(self), trace, result, self));
        result
    }

    /// Ends the recording and drops it.
    pub fn cancel(&mut self) -> (result: Result<(), RecorderError>)
        ensures
            old(self).stream() is None ==> Self::found_nothing(old(self), result, final(self)),
            old(self).stream() matches Some(stream) ==> {
                &&& result == Ok::<(), RecorderError>(())
                &&& final(self).started_at() is None
                &&& final(self).native_rate() == old(self).native_rate()
                &&& final(self).target_rate() == old(self).target_rate()
                &&& exists|ending: &mut I, clearing: &mut I|
                    {
                        &&& *ending == old(self).input()
                        &&& #[trigger] call_ensures(I::end, (ending, stream), ())
                        &&& *clearing == *final(ending)
                        &&& #[trigger] call_ensures(I::clear_capture, (clearing,), ())
                        &&& *final(clearing) == final(self).input()
                    }
            },
            final(self).stream() is None,
    {
        match self.stream.take() {
            Some(stream) => {
                self.input.end(stream);
                self.started_at = None;
                self.input.clear_capture();
                Ok(())
            },
            None => Err(RecorderError::new("recorder is not running")),
        }
    }
}

/// A recording that was started is handed out by the first stop, and only by that one: its audio
/// comes at the rate that was asked for and in one channel, with the time of its start, and after
/// that a further stop or cancellation is refused and changes nothing. A stream that had failed gives
/// its error and no recording, and is over just the same.
///
/// `idle`, `running` and `stopped` are the recorder before the start, after it and after the stop.
pub proof fn law_recordings_are_handed_out_once<I: AudioInput>(
    idle: CpalRecorder<I>,
    options: &RecordingOptions,
    running: CpalRecorder<I>,
    audio: Result<AudioBuffer, RecorderError>,
    stopped: CpalRecorder<I>,
)
    requires
        exists|recorder: &mut CpalRecorder<I>|
            *recorder == idle && *final(recorder) == running && #[trigger] call_ensures(
                CpalRecorder::<I>::start,
                (recorder, options),
                Ok::<(), RecorderError>(()),
            ),
        exists|recorder: &mut CpalRecorder<I>|
            *recorder == running && *final(recorder) == stopped && #[trigger] call_ensures(
                CpalRecorder::<I>::stop,
                (recorder,),
                audio,
            ),
    ensures
        idle.stream() is None,
        running.stream() is Some,
        stopped.stream() is None,
        exists|trace: StopTrace|
            {
                &&& #[trigger] CpalRecorder::<I>::stopped(&running, trace, audio, &stopped)
                &&& audio is Ok <==> trace.failure == Ok::<Option<String>, RecorderError>(None)
                    && trace.captured is Ok
                &&& trace.failure matches Ok(Some(message)) ==> (audio matches Err(error)
                    && error@ == "input stream failed: "@ + message@)
            },
        audio matches Ok(audio) ==> {
            &&& audio.channels == 1
            &&& audio.sample_rate_hz == options.sample_rate_hz
            &&& running.started_at() == Some(audio.started_at)
        },
        forall|recorder: &mut CpalRecorder<I>, again: Result<AudioBuffer, RecorderError>|
            *recorder == stopped && #[trigger] call_ensures(
                CpalRecorder::<I>::stop,
                (recorder,),
                again,
            ) ==> *final(recorder) == stopped && (again matches Err(error) && error@
                == "recorder is not running"@),
        forall|recorder: &mut CpalRecorder<I>, again: Result<(), RecorderError>|
            *recorder == stopped && #[trigger] call_ensures(
                CpalRecorder::<I>::cancel,
                (recorder,),
                again,
            ) ==> *final(recorder) == stopped && (again matches Err(error) && error@
                == "recorder is not running"@),
{
}

/// A recording that was cancelled is gone: nothing is left of the time of its start, and a further
/// stop or cancellation is refused and changes nothing.
pub proof fn law_discarded_recordings_are_gone<I: AudioInput>(
    running: CpalRecorder<I>,
    result: Result<(), RecorderError>,
    stopped: CpalRecorder<I>,
)
    requires
        running.stream() is Some,
        exists|recorder: &mut CpalRecorder<I>|
            *recorder == running && *final(recorder) == stopped && #[trigger] call_ensures(
                CpalRecorder::<I>::cancel,
                (recorder,),
                result,
            ),
    ensures
        result is Ok,
        stopped.stream() is None,
        stopped.started_at() is None,
        forall|recorder: &mut CpalRecorder<I>, again: Result<AudioBuffer, RecorderError>|
            *recorder == stopped && #[trigger] call_ensures(
                CpalRecorder::<I>::stop,
                (recorder,),
                again,
            ) ==> *final(recorder) == stopped && (again matches Err(error) && error@
                == "recorder is not running"@),
        forall|recorder: &mut CpalRecorder<I>, again: Result<(), RecorderError>|
            *recorder == stopped && #[trigger] call_ensures(
                CpalRecorder::<I>::cancel,
                (recorder,),
                again,
            ) ==> *final(recorder) == stopped && (again matches Err(error) && error@
                == "recorder is not running"@),
{
}

/// A recording of the length that another rate asks for lasts as long, to less than one sample.
proof fn lemma_time_is_kept(output_len: nat, len: nat, from_rate: nat, to_rate: nat)
    requires
        from_rate > 0,
        to_rate > 0,
        from_rate == to_rate ==> output_len == len,
        from_rate != to_rate ==> output_len == resampled_len(len, from_rate, to_rate),
    ensures
        output_len * from_rate <= len * to_rate < (output_len + 1) * from_rate,
{
    if len > 0 {
        law_resampling_keeps_duration(len, from_rate, to_rate);
    } else {
        assert(output_len * from_rate == 0) by (nonlinear_arith)
            requires
                output_len == 0,
        ;
        assert(len * to_rate == 0) by (nonlinear_arith)
            requires
                len == 0,
        ;
        assert((output_len + 1) * from_rate == from_rate) by (nonlinear_arith)
            requires
                output_len == 0,
        ;
    }
}

/// A recording at another rate lasts as long as before, to less than one sample. At the same rate it
/// has the same samples, and at another one each of its samples is interpolated at its own place.
pub proof fn law_resampled_recordings_keep_their_time<M: SampleMath>(
    input: &[Float32],
    from_sample_rate_hz: u32,
    to_sample_rate_hz: u32,
    math: &M,
    output: Vec<Float32>,
)
    requires
        call_ensures(
            resample_mono::<M>,
            (input, from_sample_rate_hz, to_sample_rate_hz, math),
            output,
        ),
    ensures
        from_sample_rate_hz > 0 && to_sample_rate_hz > 0 ==> output@.len() * from_sample_rate_hz
            <= input@.len() * to_sample_rate_hz < (output@.len() + 1) * from_sample_rate_hz,
        from_sample_rate_hz > 0 && from_sample_rate_hz == to_sample_rate_hz ==> output@ == input@,
        from_sample_rate_hz == 0 || to_sample_rate_hz == 0 ==> output@.len() == 0,
        from_sample_rate_hz != to_sample_rate_hz ==> forall|i: int|
            0 <= i < output@.len() ==> call_ensures(
                M::interpolate,
                (math, input, from_sample_rate_hz, to_sample_rate_hz, i as usize),
                #[trigger] output@[i],
            ),
{
    if from_sample_rate_hz > 0 && to_sample_rate_hz > 0 {
        lemma_time_is_kept(
            output@.len(),
            input@.len(),
            from_sample_rate_hz as nat,
            to_sample_rate_hz as nat,
        );
    }
}

/// The audio of a recording lasts as long as what was captured, to less than one sample, and is made
/// of it: the captured samples where the device delivers at the rate that was asked for, and else
/// their interpolation at each place. Its rate is the one that was asked for, and the rate that it
/// is brought from is that of the device.
pub proof fn law_recordings_last_as_long_as_they_were_captured<I: AudioInput>(
    idle: CpalRecorder<I>,
    options: &RecordingOptions,
    running: CpalRecorder<I>,
    audio: AudioBuffer,
    stopped: CpalRecorder<I>,
)
    requires
        exists|recorder: &mut CpalRecorder<I>|
            *recorder == idle && *final(recorder) == running && #[trigger] call_ensures(
                CpalRecorder::<I>::start,
                (recorder, options),
                Ok::<(), RecorderError>(()),
            ),
        exists|recorder: &mut CpalRecorder<I>|
            *recorder == running && *final(recorder) == stopped && #[trigger] call_ensures(
                CpalRecorder::<I>::stop,
                (recorder,),
                Ok::<AudioBuffer, RecorderError>(audio),
            ),
    ensures
        options.sample_rate_hz > 0,
        running.native_rate() > 0,
        exists|opening: &mut I, opened: Result<OpenedDevice<I::Device>, RecorderError>|
            {
                &&& *opening == idle.input()
                &&& #[trigger] call_ensures(I::open, (opening, options), opened)
                &&& opened matches Ok(device) && device.sample_rate_hz == running.native_rate()
                    && device.channels > 0
            },
        exists|taking: &mut I, captured: Result<Vec<Float32>, RecorderError>, samples: &[Float32]|
            {
                &&& *final(taking) == stopped.input()
                &&& #[trigger] call_ensures(I::take_capture, (taking,), captured)
                &&& captured matches Ok(captured) && captured@ == #[trigger] samples@
                &&& audio.samples@.len() * running.native_rate() <= samples@.len()
                    * options.sample_rate_hz < (audio.samples@.len() + 1) * running.native_rate()
                &&& running.native_rate() == options.sample_rate_hz ==> audio.samples@
                    == samples@
                &&& running.native_rate() != options.sample_rate_hz ==> forall|i: int|
                    0 <= i < audio.samples@.len() ==> call_ensures(
                        I::interpolate,
                        (
                            &stopped.input(),
                            samples,
                            running.native_rate(),
                            options.sample_rate_hz,
                            i as usize,
                        ),
                        #[trigger] audio.samples@[i],
                    )
            },
        audio.sample_rate_hz == options.sample_rate_hz,
        audio.channels == 1,
        call_ensures(
            I::length,
            (&stopped.input(), audio.samples@.len() as usize, options.sample_rate_hz),
            audio.duration,
        ),
{
    assert forall|samples: &[Float32]|
        #[trigger] is_resampled(
            &stopped.input(),
            samples,
            running.native_rate(),
            options.sample_rate_hz,
            audio.samples@,
        ) && running.native_rate() > 0 && options.sample_rate_hz > 0 implies audio.samples@.len()
        * running.native_rate() <= samples@.len() * options.sample_rate_hz < (audio.samples@.len()
        + 1) * running.native_rate() by {
        lemma_time_is_kept(
            audio.samples@.len(),
            samples@.len(),
            running.native_rate() as nat,
            options.sample_rate_hz as nat,
        );
    }
}

/// A recording starts where none is running and the request asks for a rate and channels, and in no
/// other case is the audio system asked for anything. It then opens the device that was asked for,
/// and starts the stream of that device with room for the longest recording at the rate of the
/// device.
pub proof fn law_recordings_start_on_the_device_that_was_opened<I: AudioInput>(
    idle: CpalRecorder<I>,
    options: &RecordingOptions,
    result: Result<(), RecorderError>,
    after: CpalRecorder<I>,
)
    requires
        exists|recorder: &mut CpalRecorder<I>|
            *recorder == idle && *final(recorder) == after && #[trigger] call_ensures(
                CpalRecorder::<I>::start,
                (recorder, options),
                result,
            ),
    ensures
        idle.stream() is Some ==> after == idle && (result matches Err(error) && error@
            == "recorder is already running"@),
        idle.stream() is None && (options.sample_rate_hz == 0 || options.channels == 0) ==> after
            == idle && (result matches Err(error) && error@
            == "target sample rate and channel count must be positive"@),
        result is Err ==> {
            &&& after.stream() == idle.stream()
            &&& after.started_at() == idle.started_at()
            &&& after.native_rate() == idle.native_rate()
            &&& after.target_rate() == idle.target_rate()
        },
        result is Ok ==> {
            &&& after.target_rate() == options.sample_rate_hz
            &&& after.started_at() is Some
        },
        idle.stream() is None && options.sample_rate_hz > 0 && options.channels > 0 ==> exists|
            opening: &mut I,
            trace: StartTrace<I::Device, I::Stream>,
        |
            {
                &&& *opening == idle.input()
                &&& #[trigger] call_ensures(I::open, (opening, options), trace.opened)
                &&& trace.opened matches Err(error) ==> result == Err::<(), RecorderError>(error)
                    && after.input() == *final(opening)
                &&& trace.opened matches Ok(device) ==> if device.channels == 0 || device.sample_rate_hz
                    == 0 {
                    &&& after.input() == *final(opening)
                    &&& result matches Err(error) && error@
                        == "input device returned an invalid stream config"@
                } else {
                    call_ensures(
                        I::sample_count,
                        (&*final(opening), options.max_duration, device.sample_rate_hz),
                        trace.max_samples,
                    )
                }
                &&& (trace.opened matches Ok(device) && device.channels > 0 && device.sample_rate_hz > 0
                    && trace.max_samples == 0) ==> {
                    &&& after.input() == *final(opening)
                    &&& result matches Err(error) && error@
                        == "maximum recording duration must be positive"@
                }
                &&& (trace.opened matches Ok(device) && device.channels > 0 && device.sample_rate_hz > 0
                    && trace.max_samples > 0) ==> exists|starting: &mut I|
                    {
                        &&& *starting == *final(opening)
                        &&& *final(starting) == after.input()
                        &&& #[trigger] call_ensures(
                            I::start,
                            (starting, trace.opened->Ok_0.device, trace.max_samples),
                            trace.stream,
                        )
                        &&& match trace.stream {
                            Err(error) => result == Err::<(), RecorderError>(error),
                            Ok(stream) => result is Ok && after.stream() == Some(stream)
                                && after.native_rate() == trace.opened->Ok_0.sample_rate_hz,
                        }
                    }
            },
{
}

/// Interleaved input is kept frame by frame, in order, as long as there is room: a frame is as many
/// samples as there are channels, and each complete frame adds one sample. What was there stays, and
/// the limit does too.
pub proof fn law_frames_are_kept_in_order<T, M: Fn(&[T]) -> Float32>(
    data: &[T],
    channels: u16,
    before: CaptureBuffer,
    mix: M,
    after: CaptureBuffer,
)
    requires
        channels > 0,
        exists|capture: &mut CaptureBuffer|
            *capture == before && *final(capture) == after && #[trigger] call_ensures(
                append_interleaved::<T, M>,
                (data, channels, capture, mix),
                (),
            ),
    ensures
        after.max_samples == before.max_samples,
        after.samples@.len() >= before.samples@.len(),
        forall|i: int|
            0 <= i < before.samples@.len() ==> after.samples@[i] == #[trigger] before.samples@[i],
        ({
            let kept = after.samples@.len() - before.samples@.len();
            &&& kept * channels <= data@.len()
            &&& kept > 0 ==> after.samples@.len() <= before.max_samples
            &&& after.samples@.len() < before.max_samples ==> data@.len() < (kept + 1) * channels
        }),
{
    let held = before.samples@.len();
    let c = channels as nat;
    let kept = kept_frames(data@.len(), c, held, before.max_samples as nat);
    vstd::arithmetic::div_mod::lemma_fundamental_div_mod(data@.len() as int, c as int);
    let frames = data@.len() / c;
    assert(kept <= frames);
    assert(kept * c <= frames * c) by (nonlinear_arith)
        requires
            kept <= frames,
    ;
    assert(frames * c == c * frames) by (nonlinear_arith);
    assert((frames + 1) * c == c * frames + c) by (nonlinear_arith);
    if after.samples@.len() < before.max_samples {
        assert(kept == frames);
    }
    assert forall|i: int| 0 <= i < held implies after.samples@[i] == #[trigger] before.samples@[i] by {
        assert(after.samples@.take(held as int)[i] == after.samples@[i]);
    }
}

/// Each sample that is added to a recording is what its own frame was mixed to: the frames follow
/// each other in the input, each with one sample per channel.
pub proof fn law_each_frame_is_mixed_to_its_sample<T, M: Fn(&[T]) -> Float32>(
    data: &[T],
    channels: u16,
    before: CaptureBuffer,
    mix: M,
    after: CaptureBuffer,
    index: nat,
)
    requires
        channels > 0,
        exists|capture: &mut CaptureBuffer|
            *capture == before && *final(capture) == after && #[trigger] call_ensures(
                append_interleaved::<T, M>,
                (data, channels, capture, mix),
                (),
            ),
        before.samples@.len() + index < after.samples@.len(),
    ensures
        exists|frame: &[T]|
            {
                &&& #[trigger] call_ensures(
                    mix,
                    (frame,),
                    after.samples@[(before.samples@.len() + index) as int],
                )
                &&& frame@ == data@.subrange(index * channels, index * channels + channels)
                &&& frame@.len() == channels
            },
{
    let c = channels as nat;
    let held = before.samples@.len();
    let kept = kept_frames(data@.len(), c, held, before.max_samples as nat);
    let sample = after.samples@[(held + index) as int];
    assert(is_mixed(mix, data@, c, (held + index) - held, sample));
    lemma_frame_inside(data@.len(), c, index);
    assert(frame(data@, c, index as int) == data@.subrange(
        index * channels,
        index * channels + channels,
    ));
}

/// Without channels nothing is kept.
pub proof fn law_input_without_channels_is_dropped<T, M: Fn(&[T]) -> Float32>(
    data: &[T],
    before: CaptureBuffer,
    mix: M,
    after: CaptureBuffer,
)
    requires
        exists|capture: &mut CaptureBuffer|
            *capture == before && *final(capture) == after && #[trigger] call_ensures(
                append_interleaved::<T, M>,
                (data, 0, capture, mix),
                (),
            ),
    ensures
        after.samples@ == before.samples@,
        after.max_samples == before.max_samples,
{
    assert(after.samples@.take(before.samples@.len() as int) == after.samples@);
}

/// A buffer starts empty and without room, keeps as many samples as it is restarted for, and hands
/// its samples out once.
pub proof fn law_buffers_hand_their_samples_out(
    fresh: CaptureBuffer,
    before: CaptureBuffer,
    max_samples: usize,
    restarted: CaptureBuffer,
    samples: Vec<Float32>,
    taken: CaptureBuffer,
)
    requires
        call_ensures(CaptureBuffer::default, (), fresh),
        exists|capture: &mut CaptureBuffer|
            *capture == before && *final(capture) == restarted && #[trigger] call_ensures(
                CaptureBuffer::restart,
                (capture, max_samples),
                (),
            ),
        exists|capture: &mut CaptureBuffer|
            *capture == before && *final(capture) == taken && #[trigger] call_ensures(
                CaptureBuffer::take,
                (capture,),
                samples,
            ),
    ensures
        fresh.samples@.len() == 0 && fresh.max_samples == 0,
        restarted.samples@.len() == 0 && restarted.max_samples == max_samples,
        samples@ == before.samples@,
        taken.samples@.len() == 0 && taken.max_samples == before.max_samples,
{
}

/// Every device is listed under its name, in order, and the one with the name of the default device
/// is marked.
pub proof fn law_devices_are_listed_in_order(
    names: Vec<String>,
    default_name: Option<&str>,
    devices: Vec<AudioDevice>,
)
    requires
        call_ensures(mark_default, (names, default_name), devices),
    ensures
        devices@.len() == names@.len(),
        forall|i: int|
            0 <= i < names@.len() ==> {
                &&& (#[trigger] devices@[i]).name@ == names@[i]@
                &&& devices@[i].is_default <==> (default_name matches Some(name) && name@
                    == names@[i]@)
            },
{
    assert forall|i: int| 0 <= i < names@.len() implies (#[trigger] devices@[i]).name@
        == names@[i]@ && (devices@[i].is_default <==> (default_name matches Some(name) && name@
        == names@[i]@)) by {
        assert(texts(names@)[i] == names@[i]@);
    }
}

/// A recorder lists the devices of its audio system, or says why it cannot.
pub proof fn law_recorders_list_the_devices_of_their_system<I: AudioInput>(
    recorder: CpalRecorder<I>,
    result: Result<Vec<AudioDevice>, RecorderError>,
)
    requires
        call_ensures(CpalRecorder::<I>::list_devices, (&recorder,), result),
    ensures
        exists|default_name: Option<String>, names: Result<Vec<String>, String>|
            {
                &&& #[trigger] call_ensures(
                    I::default_device_name,
                    (&recorder.input(),),
                    default_name,
                )
                &&& #[trigger] call_ensures(I::device_names, (&recorder.input(),), names)
                &&& names matches Err(message) ==> (result matches Err(error) && error@
                    == "failed to list input devices: "@ + message@)
                &&& names matches Ok(names) ==> (result matches Ok(devices) && devices@.len()
                    == names@.len() && forall|i: int|
                    0 <= i < names@.len() ==> (#[trigger] devices@[i]).name@ == names@[i]@ && (
                    devices@[i].is_default <==> (default_name matches Some(name) && name@
                        == names@[i]@)))
            },
{
    assert forall|names: Seq<String>, i: int| 0 <= i < names.len() implies #[trigger] texts(
        names,
    )[i] == names[i]@ by {
    }
}

/// A device is selected by its name, the first one of that name, and the default device without a
/// name. Where there is no such device, the error names it and those that there are.
pub proof fn law_devices_are_selected_by_name(
    requested_name: Option<&str>,
    has_default: bool,
    names: &Vec<String>,
    result: Result<DeviceChoice, RecorderError>,
    separator: &str,
    candidates: String,
)
    requires
        call_ensures(select_device, (requested_name, has_default, names), result),
        separator@ == ", "@,
        call_ensures(join, (names, separator), candidates),
    ensures
        requested_name is None && has_default ==> result == Ok::<DeviceChoice, RecorderError>(
            DeviceChoice::Default,
        ),
        requested_name is None && !has_default ==> (result matches Err(error) && error@
            == "default input device is unavailable"@),
        requested_name matches Some(requested) ==> match result {
            Ok(DeviceChoice::Default) => false,
            Ok(DeviceChoice::Listed(index)) => {
                &&& index < names@.len()
                &&& names@[index as int]@ == requested@
                &&& forall|i: int| 0 <= i < index ==> (#[trigger] names@[i])@ != requested@
            },
            Err(error) => {
                &&& forall|i: int| 0 <= i < names@.len() ==> (#[trigger] names@[i])@ != requested@
                &&& error@ == "input device '"@ + requested@ + "' is unavailable; candidates: "@
                    + candidates@
            },
        },
{
    assert forall|i: int| 0 <= i < names@.len() implies #[trigger] texts(names@)[i]
        == names@[i]@ by {
    }
    if let Some(requested) = requested_name {
        if let Ok(DeviceChoice::Listed(index)) = result {
            assert forall|i: int| 0 <= i < index implies (#[trigger] names@[i])@ != requested@ by {
                assert(texts(names@)[i] != requested@);
            }
        }
        if result is Err {
            assert forall|i: int| 0 <= i < names@.len() implies (#[trigger] names@[i])@
                != requested@ by {
                assert(texts(names@)[i] == names@[i]@);
                assert(!texts(names@).contains(requested@));
            }
        }
    }
}

/// How each failure of the audio system reads.
pub proof fn law_failures_of_the_audio_system_are_told_apart(
    stage: RecorderStage,
    message: &str,
    error: RecorderError,
)
    requires
        call_ensures(stage_error, (stage, message), error),
    ensures
        stage == RecorderStage::ListDevices ==> error@ == "failed to list input devices: "@
            + message@,
        stage == RecorderStage::InputConfig ==> error@ == "failed to get input config: "@
            + message@,
        stage == RecorderStage::SampleFormat ==> error@ == "unsupported input sample format: "@
            + message@,
        stage == RecorderStage::BuildStream ==> error@ == "failed to build input stream: "@
            + message@,
        stage == RecorderStage::StartStream ==> error@ == "failed to start input stream: "@
            + message@,
        stage == RecorderStage::RunStream ==> error@ == "input stream failed: "@ + message@,
{
}

/// A configuration needs channels and a rate.
pub proof fn law_configurations_need_channels_and_a_rate(
    channels: u16,
    sample_rate_hz: u32,
    result: Result<(), RecorderError>,
)
    requires
        call_ensures(check_config, (channels, sample_rate_hz), result),
    ensures
        result is Ok <==> channels > 0 && sample_rate_hz > 0,
        result matches Err(error) ==> error@ == "input device returned an invalid stream config"@,
{
}

/// A recorder starts without a recording, over the audio system that it was given.
pub proof fn law_recorders_start_idle<I: AudioInput>(input: I, recorder: CpalRecorder<I>)
    requires
        call_ensures(CpalRecorder::<I>::new, (input,), recorder),
    ensures
        recorder.input() == input,
        recorder.stream() is None,
        recorder.started_at() is None,
        recorder.native_rate() == 0,
        recorder.target_rate() == 16_000,
{
}

/// Stopping ends the stream and asks whether it had failed. Where it had, what was captured is dropped
/// and its error is reported; where it had not, what was captured is taken and handed out. What cannot
/// be asked for is reported as it is.
pub proof fn law_failed_streams_give_no_recording<I: AudioInput>(
    running: CpalRecorder<I>,
    stream: I::Stream,
    result: Result<AudioBuffer, RecorderError>,
    stopped: CpalRecorder<I>,
)
    requires
        running.stream() == Some(stream),
        exists|recorder: &mut CpalRecorder<I>|
            *recorder == running && *final(recorder) == stopped && #[trigger] call_ensures(
                CpalRecorder::<I>::stop,
                (recorder,),
                result,
            ),
    ensures
        stopped.stream() is None,
        stopped.native_rate() == running.native_rate(),
        stopped.target_rate() == running.target_rate(),
        result is Ok ==> stopped.started_at() is None,
        exists|ending: &mut I, asking: &mut I, failure: Result<Option<String>, RecorderError>|
            {
                &&& *ending == running.input()
                &&& #[trigger] call_ensures(I::end, (ending, stream), ())
                &&& *asking == *final(ending)
                &&& #[trigger] call_ensures(I::take_failure, (asking,), failure)
                &&& failure matches Err(error) ==> result == Err::<AudioBuffer, RecorderError>(
                    error,
                ) && stopped.input() == *final(asking) && stopped.started_at()
                    == running.started_at()
                &&& failure matches Ok(Some(message)) ==> {
                    &&& result matches Err(error) && error@ == "input stream failed: "@ + message@
                    &&& stopped.started_at() is None
                    &&& exists|clearing: &mut I|
                        *clearing == *final(asking) && *final(clearing) == stopped.input()
                            && #[trigger] call_ensures(I::clear_capture, (clearing,), ())
                }
                &&& failure matches Ok(None) ==> exists|
                    taking: &mut I,
                    captured: Result<Vec<Float32>, RecorderError>,
                |
                    {
                        &&& *taking == *final(asking)
                        &&& *final(taking) == stopped.input()
                        &&& #[trigger] call_ensures(I::take_capture, (taking,), captured)
                        &&& captured is Ok <==> result is Ok
                        &&& captured matches Err(error) ==> result == Err::<
                            AudioBuffer,
                            RecorderError,
                        >(error) && stopped.started_at() == running.started_at()
                    }
            },
{
}

/// Cancelling a recording ends its stream and drops what was captured, and nothing else.
pub proof fn law_cancelled_streams_are_dropped<I: AudioInput>(
    running: CpalRecorder<I>,
    stream: I::Stream,
    result: Result<(), RecorderError>,
    stopped: CpalRecorder<I>,
)
    requires
        running.stream() == Some(stream),
        exists|recorder: &mut CpalRecorder<I>|
            *recorder == running && *final(recorder) == stopped && #[trigger] call_ensures(
                CpalRecorder::<I>::cancel,
                (recorder,),
                result,
            ),
    ensures
        result is Ok,
        stopped.stream() is None,
        stopped.started_at() is None,
        stopped.native_rate() == running.native_rate(),
        stopped.target_rate() == running.target_rate(),
        exists|ending: &mut I, clearing: &mut I|
            {
                &&& *ending == running.input()
                &&& #[trigger] call_ensures(I::end, (ending, stream), ())
                &&& *clearing == *final(ending)
                &&& #[trigger] call_ensures(I::clear_capture, (clearing,), ())
                &&& *final(clearing) == stopped.input()
            },
{
}

} // verus!
