//! Reading recordings from WAV files and writing them.

use vstd::prelude::*;

use crate::cancellation::CancellationToken;
use crate::error::with_prefix;
use crate::text::{decimal, push_decimal};

verus! {

/// The properties of the samples in a WAV file.
#[derive(Clone, Copy, Debug, PartialEq, Eq, Structural)]
pub struct WavFormat {
    /// The number of channels.
    pub channels: u16,
    /// The number of samples per second and channel.
    pub sample_rate: u32,
    /// The number of bits of a sample.
    pub bits_per_sample: u16,
    /// Whether the samples are floating point numbers rather than integers.
    pub is_float: bool,
}

/// How the samples of a WAV file are read.
#[derive(Clone, Copy, Debug, PartialEq, Eq, Structural)]
pub enum WavEncoding {
    /// As integers of 16 bits.
    Integers,
    /// As floating point numbers of 32 bits.
    Floats,
}

/// What `hound` finds in the header of the given bytes: the format, or how the error reads.
pub uninterp spec fn wav_header(bytes: Seq<u8>) -> Result<WavFormat, Seq<char>>;

/// What `hound` finds when it reads all samples of the given bytes as integers of 16 bits: the
/// samples, or how the first error reads.
pub uninterp spec fn wav_integers(bytes: Seq<u8>) -> Result<Seq<i16>, Seq<char>>;

/// `hound::WavReader::new` reads the header of a WAV file and `hound::WavReader::spec` gives the
/// format that it found. Both depend on the bytes alone, here all bytes of the file; the result is
/// `wav_header` of them.
#[verifier::external_body]
fn decode_header(bytes: &[u8]) -> (header: Result<WavFormat, String>)
    ensures
        match header {
            Ok(format) => wav_header(bytes@) == Ok::<WavFormat, Seq<char>>(format),
            Err(message) => wav_header(bytes@) == Err::<WavFormat, Seq<char>>(message@),
        },
{
    match hound::WavReader::new(bytes) {
        Ok(reader) => Ok(WavFormat {
            channels: reader.spec().channels,
            sample_rate: reader.spec().sample_rate,
            bits_per_sample: reader.spec().bits_per_sample,
            is_float: reader.spec().sample_format == hound::SampleFormat::Float,
        }),
        Err(error) => Err(error.to_string()),
    }
}

/// `hound::WavReader::into_samples` yields the samples of a WAV file in order, each one or the error
/// that reading it gave. The samples up to the first error depend on the bytes alone; the result is
/// `wav_integers` of them.
#[verifier::external_body]
fn decode_integers(bytes: &[u8]) -> (samples: Result<Vec<i16>, String>)
    ensures
        match samples {
            Ok(samples) => wav_integers(bytes@) == Ok::<Seq<i16>, Seq<char>>(samples@),
            Err(message) => wav_integers(bytes@) == Err::<Seq<i16>, Seq<char>>(message@),
        },
{
    match hound::WavReader::new(bytes) {
        Ok(reader) => reader.into_samples::<i16>().collect::<hound::Result<Vec<i16>>>().map_err(
            |error| error.to_string(),
        ),
        Err(error) => Err(error.to_string()),
    }
}

/// How the samples of a file in the given format are read, or why they are not.
pub open spec fn wav_encoding(format: WavFormat) -> Result<WavEncoding, Seq<char>> {
    if format.channels != 1 || format.sample_rate != 16_000 {
        Err("WAV input must be 16kHz mono"@)
    } else if !format.is_float && format.bits_per_sample == 16 {
        Ok(WavEncoding::Integers)
    } else if format.is_float && format.bits_per_sample == 32 {
        Ok(WavEncoding::Floats)
    } else {
        Err("WAV input must use 16-bit integer or 32-bit float samples"@)
    }
}

/// Chooses how to read the samples of a file in the given format.
pub fn choose_encoding(format: WavFormat) -> (result: Result<WavEncoding, String>)
    ensures
        match wav_encoding(format) {
            Ok(encoding) => result == Ok::<WavEncoding, String>(encoding),
            Err(text) => result matches Err(message) && message@ == text,
        },
{
    if format.channels != 1 || format.sample_rate != 16_000 {
        Err("WAV input must be 16kHz mono".to_owned())
    } else if !format.is_float && format.bits_per_sample == 16 {
        Ok(WavEncoding::Integers)
    } else if format.is_float && format.bits_per_sample == 32 {
        Ok(WavEncoding::Floats)
    } else {
        Err("WAV input must use 16-bit integer or 32-bit float samples".to_owned())
    }
}

/// What becomes of samples that were read: an error is reported as it is, and samples are handed out
/// unless a cancellation was requested until then.
pub open spec fn is_finished_read<A>(
    samples: Result<A, Seq<char>>,
    cancelled: bool,
    result: Result<A, Seq<char>>,
) -> bool {
    result == match samples {
        Err(message) => Err("failed to read WAV sample: "@ + message),
        Ok(samples) => if cancelled {
            Err("operation cancelled"@)
        } else {
            Ok(samples)
        },
    }
}

/// The samples and the error of a result by their views.
pub open spec fn samples_view<A>(samples: Result<Vec<A>, String>) -> Result<Seq<A>, Seq<char>> {
    match samples {
        Ok(samples) => Ok(samples@),
        Err(message) => Err(message@),
    }
}

/// Ends the reading of samples. The token is asked where the samples were read.
pub fn finish_read<A>(samples: Result<Vec<A>, String>, cancel: &CancellationToken) -> (result:
    Result<Vec<A>, String>)
    ensures
        exists|cancelled: bool| #[trigger]
            is_finished_read(samples_view(samples), cancelled, samples_view(result)) && (
            samples is Ok ==> cancel.may_load(cancelled)),
{
    match samples {
        Ok(read) => {
            let cancelled = cancel.is_cancelled();
            let result = if cancelled {
                Err("operation cancelled".to_owned())
            } else {
                Ok(read)
            };
            assert(is_finished_read(samples_view(samples), cancelled, samples_view(result)));
            result
        },
        Err(message) => {
            let result = Err(with_prefix("failed to read WAV sample: ", message.as_str()));
            assert(is_finished_read(samples_view(samples), false, samples_view(result)));
            result
        },
    }
}

/// A WAV file that can be transcribed.
#[derive(Debug, PartialEq, Eq)]
pub enum WavInput {
    /// Its samples are integers, and these.
    Integers(Vec<i16>),
    /// Its samples are floating point numbers, still to be read.
    Floats,
}

/// What reading a WAV file of the given bytes gives, where the token said `before` before its samples
/// were read and `after` when they were.
pub open spec fn is_wav_read(
    bytes: Seq<u8>,
    before: bool,
    after: bool,
    result: Result<WavInput, String>,
) -> bool {
    match wav_header(bytes) {
        Err(message) => result matches Err(error) && error@ == "failed to open WAV: "@ + message,
        Ok(format) => match wav_encoding(format) {
            Err(message) => result matches Err(error) && error@ == message,
            Ok(encoding) => if before {
                result matches Err(error) && error@ == "operation cancelled"@
            } else {
                match encoding {
                    WavEncoding::Floats => result == Ok::<WavInput, String>(WavInput::Floats),
                    WavEncoding::Integers => match result {
                        Ok(WavInput::Integers(samples)) => is_finished_read(
                            wav_integers(bytes),
                            after,
                            Ok(samples@),
                        ),
                        Ok(WavInput::Floats) => false,
                        Err(error) => is_finished_read(wav_integers(bytes), after, Err(error@)),
                    },
                }
            },
        },
    }
}

/// The token is asked before the samples of a file of the given bytes are read: the file has samples
/// that can be.
pub open spec fn asks_before_reading(bytes: Seq<u8>) -> bool {
    wav_header(bytes) matches Ok(format) && wav_encoding(format) is Ok
}

/// The token is asked when the samples of a file of the given bytes were read.
pub open spec fn asks_after_reading(bytes: Seq<u8>, before: bool) -> bool {
    &&& !before
    &&& wav_header(bytes) matches Ok(format) && wav_encoding(format) == Ok::<
        WavEncoding,
        Seq<char>,
    >(WavEncoding::Integers)
    &&& wav_integers(bytes) is Ok
}

/// Reads a WAV file, of which these are all bytes. A cancellation that was requested before its
/// samples are read, or when they were, is reported in their place; an error that reading them gave
/// is reported as it is. Floating point samples are left to the caller, who ends their reading with
/// [`finish_read`].
pub fn read_wav(bytes: &[u8], cancel: &CancellationToken) -> (result: Result<WavInput, String>)
    ensures
        exists|before: bool, after: bool| #[trigger]
            is_wav_read(bytes@, before, after, result) && (asks_before_reading(bytes@)
                ==> cancel.may_load(before)) && (asks_after_reading(bytes@, before)
                ==> cancel.may_load(after)),
{
    let format = match decode_header(bytes) {
        Ok(format) => format,
        Err(message) => {
            let result = Err(with_prefix("failed to open WAV: ", message.as_str()));
            assert(is_wav_read(bytes@, false, false, result));
            return result;
        },
    };
    let encoding = match choose_encoding(format) {
        Ok(encoding) => encoding,
        Err(message) => {
            let result = Err(message);
            assert(is_wav_read(bytes@, false, false, result));
            return result;
        },
    };
    if cancel.is_cancelled() {
        let result = Err("operation cancelled".to_owned());
        assert(is_wav_read(bytes@, true, false, result));
        return result;
    }
    match encoding {
        WavEncoding::Integers => {
            let samples = decode_integers(bytes);
            let read = finish_read(samples, cancel);
            let ghost after = choose|after: bool| #[trigger]
                is_finished_read(samples_view(samples), after, samples_view(read)) && (
                samples is Ok ==> cancel.may_load(after));
            let result = match read {
                Ok(samples) => Ok(WavInput::Integers(samples)),
                Err(error) => Err(error),
            };
            assert(is_wav_read(bytes@, false, after, result));
            result
        },
        WavEncoding::Floats => {
            let result = Ok(WavInput::Floats);
            assert(is_wav_read(bytes@, false, false, result));
            result
        },
    }
}

/// The format in which recordings are written.
pub open spec fn recording_wav_format(sample_rate: u32) -> WavFormat {
    WavFormat { channels: 1, sample_rate, bits_per_sample: 16, is_float: false }
}

/// The format in which recordings are written.
pub fn recording_format(sample_rate: u32) -> (format: WavFormat)
    ensures
        format == recording_wav_format(sample_rate),
{
    WavFormat { channels: 1, sample_rate, bits_per_sample: 16, is_float: false }
}

/// A recording at the rate that transcription needs is written in a format that can be read.
pub proof fn law_recordings_can_be_read()
    ensures
        wav_encoding(recording_wav_format(16_000)) == Ok::<WavEncoding, Seq<char>>(
            WavEncoding::Integers,
        ),
{
}

/// The name of the file that a recording is written to before it gets its place.
pub open spec fn temporary_name(name: Option<Seq<char>>, process: nat) -> Seq<char> {
    "."@ + match name {
        Some(name) => name,
        None => "voin-output"@,
    } + "."@ + decimal(process) + ".part"@
}

/// The name of the file that a recording is written to before it gets its place beside `name`, which
/// may not be a text.
pub fn temporary_output_name(name: Option<&str>, process: u32) -> (temporary: String)
    ensures
        temporary@ == temporary_name(
            match name {
                Some(name) => Some(name@),
                None => None,
            },
            process as nat,
        ),
{
    let mut temporary = ".".to_owned();
    match name {
        Some(name) => temporary.append(name),
        None => temporary.append("voin-output"),
    }
    temporary.append(".");
    push_decimal(&mut temporary, process as u128);
    temporary.append(".part");
    temporary
}

/// The temporary file is not the file that it will become.
pub proof fn law_temporary_name_is_another(name: Seq<char>, process: nat)
    ensures
        temporary_name(Some(name), process) != name,
{
    reveal_strlit(".");
    assert(temporary_name(Some(name), process).len() > name.len());
}

/// A temporary file, until it gets its place. Its view is the path, where the file still has to be
/// removed.
pub struct TemporaryOutput<P> {
    path: Option<P>,
}

impl<P> View for TemporaryOutput<P> {
    type V = Option<P>;

    closed spec fn view(&self) -> Option<P> {
        self.path
    }
}

impl<P> TemporaryOutput<P> {
    /// A temporary file at the given path.
    pub fn new(path: P) -> (output: Self)
        ensures
            output@ == Some(path),
    {
        TemporaryOutput { path: Some(path) }
    }

    /// The path of the temporary file.
    pub fn path(&self) -> (path: &P)
        requires
            self@ is Some,
        ensures
            self@ == Some(*path),
    {
        self.path.as_ref().unwrap()
    }

    /// The file has its place and is not removed any more.
    pub fn commit(&mut self)
        ensures
            final(self)@ is None,
    {
        self.path = None;
    }

    /// The file that has to be removed, if it did not get its place.
    pub fn leftover(&mut self) -> (path: Option<P>)
        ensures
            path == old(self)@,
            final(self)@ is None,
    {
        self.path.take()
    }
}

/// What the writing of a recording does next.
#[derive(Debug, PartialEq, Eq)]
pub enum WavStep {
    /// Create the temporary file.
    Create,
    /// Write the sample with this index.
    Write(usize),
    /// Complete the temporary file.
    Finalize,
    /// Move the temporary file into place.
    Publish,
    /// The recording is in place.
    Done,
    /// Give up; the temporary file is removed.
    Abort(String),
}

/// How far the writing of a recording is: the last step that was asked for.
#[derive(Clone, Copy, Debug, PartialEq, Eq, Structural)]
pub enum WavPhase {
    /// Nothing was done yet.
    New,
    /// The temporary file is being created.
    Creating,
    /// The sample with this index is being written.
    Writing(usize),
    /// The temporary file is being completed.
    Finalizing,
    /// The temporary file is being moved into place.
    Publishing,
    /// The recording is in place.
    Done,
    /// The writing was given up.
    Aborted,
}

/// What an error in the given phase reads like.
pub open spec fn write_error_text(phase: WavPhase, message: Seq<char>) -> Seq<char> {
    match phase {
        WavPhase::Creating => "failed to create temporary WAV: "@ + message,
        WavPhase::Writing(_) => "failed to write WAV: "@ + message,
        WavPhase::Finalizing => "failed to finalize WAV: "@ + message,
        _ => "failed to move WAV into place: "@ + message,
    }
}

/// The phase that follows a phase that went well, for a recording of `total` samples.
pub open spec fn next_phase(phase: WavPhase, total: nat) -> WavPhase {
    match phase {
        WavPhase::New => WavPhase::Creating,
        WavPhase::Creating => if total > 0 {
            WavPhase::Writing(0)
        } else {
            WavPhase::Finalizing
        },
        WavPhase::Writing(index) => if index + 1 < total {
            WavPhase::Writing((index + 1) as usize)
        } else {
            WavPhase::Finalizing
        },
        WavPhase::Finalizing => WavPhase::Publishing,
        WavPhase::Publishing => WavPhase::Done,
        WavPhase::Done => WavPhase::Done,
        WavPhase::Aborted => WavPhase::Aborted,
    }
}

/// A cancellation keeps the writing from getting into this phase. A file that is being completed
/// or has its place is not given up.
pub open spec fn can_be_cancelled(phase: WavPhase) -> bool {
    phase == WavPhase::Creating || phase is Writing || phase == WavPhase::Publishing
}

/// The step that is asked for in a phase that the writing got into.
pub open spec fn phase_step(phase: WavPhase) -> WavStep {
    match phase {
        WavPhase::New | WavPhase::Creating => WavStep::Create,
        WavPhase::Writing(index) => WavStep::Write(index),
        WavPhase::Finalizing => WavStep::Finalize,
        WavPhase::Publishing => WavStep::Publish,
        WavPhase::Done | WavPhase::Aborted => WavStep::Done,
    }
}

/// The writing of a recording to a temporary file that then gets its place.
pub struct WavWriteJob {
    total: usize,
    phase: WavPhase,
}

impl WavWriteJob {
    /// The number of samples to write.
    pub closed spec fn total(&self) -> nat {
        self.total as nat
    }

    /// How far the writing is.
    pub closed spec fn phase(&self) -> WavPhase {
        self.phase
    }

    #[verifier::type_invariant]
    spec fn well_formed(self) -> bool {
        self.phase matches WavPhase::Writing(index) ==> index < self.total
    }

    /// The writing of a recording of `total` samples.
    pub fn new(total: usize) -> (job: WavWriteJob)
        ensures
            job.total() == total,
            job.phase() == WavPhase::New,
    {
        WavWriteJob { total, phase: WavPhase::New }
    }

    /// Takes what came of the step before and says what comes next. An error ends the writing, and
    /// so does a cancellation that was requested before the file is created, before a sample is
    /// written or before the file is moved into place.
    pub fn step(&mut self, outcome: Result<(), String>, cancel: &CancellationToken) -> (step:
        WavStep)
        requires
            old(self).phase() != WavPhase::Done,
            old(self).phase() != WavPhase::Aborted,
            old(self).phase() == WavPhase::New ==> outcome is Ok,
        ensures
            final(self).total() == old(self).total(),
            match outcome {
                Err(message) => {
                    &&& step matches WavStep::Abort(error) && error@ == write_error_text(
                        old(self).phase(),
                        message@,
                    )
                    &&& final(self).phase() == WavPhase::Aborted
                },
                Ok(_) => {
                    let next = next_phase(old(self).phase(), old(self).total());
                    if step is Abort {
                        &&& can_be_cancelled(next)
                        &&& cancel.may_load(true)
                        &&& step->Abort_0@ == "operation cancelled"@
                        &&& final(self).phase() == WavPhase::Aborted
                    } else {
                        &&& can_be_cancelled(next) ==> cancel.may_load(false)
                        &&& step == phase_step(next)
                        &&& final(self).phase() == next
                    }
                },
            },
    {
        proof {
            use_type_invariant(&*self);
        }
        if let Err(message) = outcome {
            let prefix = match self.phase {
                WavPhase::Creating => "failed to create temporary WAV: ",
                WavPhase::Writing(_) => "failed to write WAV: ",
                WavPhase::Finalizing => "failed to finalize WAV: ",
                _ => "failed to move WAV into place: ",
            };
            self.phase = WavPhase::Aborted;
            return WavStep::Abort(with_prefix(prefix, message.as_str()));
        }
        let next = match self.phase {
            WavPhase::New => WavPhase::Creating,
            WavPhase::Creating => if self.total > 0 {
                WavPhase::Writing(0)
            } else {
                WavPhase::Finalizing
            },
            WavPhase::Writing(index) => if index < self.total - 1 {
                WavPhase::Writing(index + 1)
            } else {
                WavPhase::Finalizing
            },
            WavPhase::Finalizing => WavPhase::Publishing,
            WavPhase::Publishing => WavPhase::Done,
            WavPhase::Done => WavPhase::Done,
            WavPhase::Aborted => WavPhase::Aborted,
        };
        let step = match next {
            WavPhase::New | WavPhase::Creating => WavStep::Create,
            WavPhase::Writing(index) => WavStep::Write(index),
            WavPhase::Finalizing => WavStep::Finalize,
            WavPhase::Publishing => WavStep::Publish,
            WavPhase::Done | WavPhase::Aborted => WavStep::Done,
        };
        let checked = match step {
            WavStep::Create | WavStep::Write(_) | WavStep::Publish => true,
            _ => false,
        };
        if checked {
            let cancelled = cancel.is_cancelled();
            if cancelled {
                self.phase = WavPhase::Aborted;
                return WavStep::Abort("operation cancelled".to_owned());
            }
        }
        self.phase = next;
        step
    }
}

/// The phase that the writing of `total` samples is in after `n` steps, where every one went well and
/// nobody cancelled.
pub open spec fn phase_after(total: nat, n: nat) -> WavPhase
    decreases n,
{
    if n == 0 {
        WavPhase::New
    } else {
        next_phase(phase_after(total, (n - 1) as nat), total)
    }
}

/// A recording gets its place only when all its samples were written, each once and in order, and
/// the file was completed.
pub proof fn law_published_recordings_are_complete(total: usize, n: nat)
    ensures
        n == 1 ==> phase_after(total as nat, n) == WavPhase::Creating,
        2 <= n < total + 2 ==> phase_after(total as nat, n) == WavPhase::Writing((n - 2) as usize),
        n == total + 2 ==> phase_after(total as nat, n) == WavPhase::Finalizing,
        n == total + 3 ==> phase_after(total as nat, n) == WavPhase::Publishing,
        n >= total + 4 ==> phase_after(total as nat, n) == WavPhase::Done,
    decreases n,
{
    if n > 0 {
        law_published_recordings_are_complete(total, (n - 1) as nat);
    }
}

/// A cancellation ends the writing only before the file is moved into place: a cancelled recording
/// never appears under its name.
pub proof fn law_cancelled_recordings_are_not_published(phase: WavPhase, total: nat)
    requires
        can_be_cancelled(next_phase(phase, total)),
    ensures
        phase == WavPhase::New || phase == WavPhase::Creating || phase is Writing || phase
            == WavPhase::Finalizing,
{
}

/// A file is read where it has one channel at 16 kHz and samples that are integers of 16 bits or
/// floating point numbers of 32 bits.
pub proof fn law_files_are_read_at_16khz_mono(
    format: WavFormat,
    result: Result<WavEncoding, String>,
)
    requires
        call_ensures(choose_encoding, (format,), result),
    ensures
        format.channels != 1 || format.sample_rate != 16_000 ==> (result matches Err(message)
            && message@ == "WAV input must be 16kHz mono"@),
        format.channels == 1 && format.sample_rate == 16_000 ==> match (
            format.is_float,
            format.bits_per_sample,
        ) {
            (false, 16) => result == Ok::<WavEncoding, String>(WavEncoding::Integers),
            (true, 32) => result == Ok::<WavEncoding, String>(WavEncoding::Floats),
            _ => result matches Err(message) && message@
                == "WAV input must use 16-bit integer or 32-bit float samples"@,
        },
{
}

/// Samples that were read are handed out as they are, unless a cancellation was requested; an error
/// is reported whatever was requested.
pub proof fn law_read_samples_are_handed_out<A>(
    samples: Result<Vec<A>, String>,
    cancel: &CancellationToken,
    result: Result<Vec<A>, String>,
)
    requires
        call_ensures(finish_read::<A>, (samples, cancel), result),
    ensures
        samples matches Err(message) ==> (result matches Err(error) && error@
            == "failed to read WAV sample: "@ + message@),
        samples matches Ok(read) ==> match result {
            Ok(handed_out) => handed_out@ == read@ && cancel.may_load(false),
            Err(error) => error@ == "operation cancelled"@ && cancel.may_load(true),
        },
{
}

/// What comes of a file: an error that names what is wrong with its header or its format, that a
/// cancellation was requested, or its samples as they stand in it.
pub proof fn law_files_are_read_as_they_are(
    bytes: &[u8],
    cancel: &CancellationToken,
    result: Result<WavInput, String>,
    encoding: Result<WavEncoding, String>,
)
    requires
        call_ensures(read_wav, (bytes, cancel), result),
        wav_header(bytes@) matches Ok(format) ==> call_ensures(
            choose_encoding,
            (format,),
            encoding,
        ),
    ensures
        wav_header(bytes@) matches Err(message) ==> (result matches Err(error) && error@
            == "failed to open WAV: "@ + message),
        wav_header(bytes@) is Ok && encoding is Err ==> (result matches Err(error) && error@
            == encoding->Err_0@),
        wav_header(bytes@) is Ok && encoding is Ok ==> match result {
            Ok(WavInput::Floats) => encoding == Ok::<WavEncoding, String>(WavEncoding::Floats)
                && cancel.may_load(false),
            Ok(WavInput::Integers(samples)) => {
                &&& encoding == Ok::<WavEncoding, String>(WavEncoding::Integers)
                &&& wav_integers(bytes@) == Ok::<Seq<i16>, Seq<char>>(samples@)
                &&& cancel.may_load(false)
            },
            Err(error) => {
                ||| cancel.may_load(true) && error@ == "operation cancelled"@
                ||| {
                    &&& encoding == Ok::<WavEncoding, String>(WavEncoding::Integers)
                    &&& wav_integers(bytes@) matches Err(message) && error@
                        == "failed to read WAV sample: "@ + message
                    &&& cancel.may_load(false)
                }
            },
        },
{
}

/// Recordings are written in one channel of integers of 16 bits at their rate.
pub proof fn law_recordings_are_written_as_integers(sample_rate: u32, format: WavFormat)
    requires
        call_ensures(recording_format, (sample_rate,), format),
    ensures
        format.channels == 1,
        format.sample_rate == sample_rate,
        format.bits_per_sample == 16,
        !format.is_float,
{
}

/// A recording is written beside its place, to a hidden file whose name holds the name that it gets
/// and the number of the process.
pub proof fn law_recordings_are_written_beside_their_place(
    name: Option<&str>,
    process: u32,
    temporary: String,
    written: String,
)
    requires
        call_ensures(temporary_output_name, (name, process), temporary),
        exists|out: &mut String|
            out@.len() == 0 && *final(out) == written && #[trigger] call_ensures(
                push_decimal,
                (out, process as u128),
                (),
            ),
    ensures
        name matches Some(name) ==> temporary@ == "."@ + name@ + "."@ + written@ + ".part"@,
        name is None ==> temporary@ == "."@ + "voin-output"@ + "."@ + written@ + ".part"@,
        name matches Some(name) ==> temporary@ != name@,
{
    assert(written@ == decimal(process as nat));
    if let Some(name) = name {
        law_temporary_name_is_another(name@, process as nat);
    }
}

/// A temporary file is left to be removed until it gets its place, and is handed out for it once.
pub proof fn law_temporary_files_are_removed_once<P>(
    path: P,
    fresh: TemporaryOutput<P>,
    before: TemporaryOutput<P>,
    leftover: Option<P>,
    after: TemporaryOutput<P>,
    again: Option<P>,
    committed: TemporaryOutput<P>,
    nothing: Option<P>,
)
    requires
        call_ensures(TemporaryOutput::<P>::new, (path,), fresh),
        exists|output: &mut TemporaryOutput<P>|
            *output == before && *final(output) == after && #[trigger] call_ensures(
                TemporaryOutput::<P>::leftover,
                (output,),
                leftover,
            ),
        exists|output: &mut TemporaryOutput<P>|
            *output == after && #[trigger] call_ensures(
                TemporaryOutput::<P>::leftover,
                (output,),
                again,
            ),
        exists|output: &mut TemporaryOutput<P>|
            *output == before && *final(output) == committed && #[trigger] call_ensures(
                TemporaryOutput::<P>::commit,
                (output,),
                (),
            ),
        exists|output: &mut TemporaryOutput<P>|
            *output == committed && #[trigger] call_ensures(
                TemporaryOutput::<P>::leftover,
                (output,),
                nothing,
            ),
    ensures
        fresh@ == Some(path),
        leftover == before@,
        again is None,
        nothing is None,
{
}

/// The writing of a recording goes on from a step that went well to the next: the file is created,
/// its samples are written one after the other from the first to the last, it is completed and moved
/// into place, and then it is done.
pub proof fn law_recordings_are_written_sample_by_sample(
    total: usize,
    fresh: WavWriteJob,
    before: WavWriteJob,
    cancel: &CancellationToken,
    step: WavStep,
    after: WavWriteJob,
)
    requires
        call_ensures(WavWriteJob::new, (total,), fresh),
        exists|job: &mut WavWriteJob|
            *job == before && *final(job) == after && #[trigger] call_ensures(
                WavWriteJob::step,
                (job, Ok::<(), String>(()), cancel),
                step,
            ),
        !(step is Abort),
    ensures
        fresh.total() == total,
        fresh.phase() == WavPhase::New,
        after.total() == before.total(),
        before.phase() == WavPhase::New ==> step == WavStep::Create && after.phase()
            == WavPhase::Creating,
        before.phase() == WavPhase::Creating && before.total() > 0 ==> step == WavStep::Write(0)
            && after.phase() == WavPhase::Writing(0),
        before.phase() == WavPhase::Creating && before.total() == 0 ==> step == WavStep::Finalize
            && after.phase() == WavPhase::Finalizing,
        before.phase() matches WavPhase::Writing(index) ==> {
            &&& index + 1 < before.total() ==> step == WavStep::Write((index + 1) as usize)
                && after.phase() == WavPhase::Writing((index + 1) as usize)
            &&& index + 1 >= before.total() ==> step == WavStep::Finalize && after.phase()
                == WavPhase::Finalizing
        },
        before.phase() == WavPhase::Finalizing ==> step == WavStep::Publish && after.phase()
            == WavPhase::Publishing,
        before.phase() == WavPhase::Publishing ==> step == WavStep::Done && after.phase()
            == WavPhase::Done,
        step == WavStep::Create || step is Write || step == WavStep::Publish ==> cancel.may_load(
            false,
        ),
{
}

/// The writing of a recording is given up where a step failed, with the error of that step, and where
/// a cancellation was requested before the file is created, before a sample is written or before the
/// file is moved into place.
pub proof fn law_failed_or_cancelled_writing_is_given_up(
    before: WavWriteJob,
    outcome: Result<(), String>,
    cancel: &CancellationToken,
    step: WavStep,
    after: WavWriteJob,
)
    requires
        exists|job: &mut WavWriteJob|
            *job == before && *final(job) == after && #[trigger] call_ensures(
                WavWriteJob::step,
                (job, outcome, cancel),
                step,
            ),
        outcome is Err || step is Abort,
    ensures
        after.phase() == WavPhase::Aborted,
        step is Abort,
        outcome matches Err(message) ==> {
            &&& before.phase() == WavPhase::Creating ==> step->Abort_0@
                == "failed to create temporary WAV: "@ + message@
            &&& before.phase() is Writing ==> step->Abort_0@ == "failed to write WAV: "@ + message@
            &&& before.phase() == WavPhase::Finalizing ==> step->Abort_0@
                == "failed to finalize WAV: "@ + message@
            &&& before.phase() == WavPhase::Publishing ==> step->Abort_0@
                == "failed to move WAV into place: "@ + message@
        },
        outcome is Ok ==> {
            &&& step->Abort_0@ == "operation cancelled"@
            &&& cancel.may_load(true)
            &&& before.phase() != WavPhase::Publishing
            &&& !(before.phase() == WavPhase::Creating && before.total() == 0)
            &&& before.phase() matches WavPhase::Writing(index) ==> index + 1 < before.total()
        },
{
}

} // verus!
