//! The sound devices: how they are opened, and how frames are written to them.

use crate::multiroom::samples::{decode_samples, decoded, BASELINE_CHANNELS, BASELINE_SAMPLE_RATE_HZ, FRAMES_PER_CHUNK};
use crate::number::{debug_text, decimal, quoted, to_decimal};
use crate::text::{cat, cat3, cat4};
use vstd::prelude::*;

verus! {

/// The frames that a playback device holds at most: four chunks.
pub const RENDER_BUFFER_FRAMES: usize = 3840;

/// A step in opening a sound device.
#[derive(Debug, Clone, Copy, PartialEq, Eq, Structural)]
pub enum PcmStep {
    /// Open the device for recording, without blocking.
    OpenCapture,
    /// Open the device for playback.
    OpenPlayback,
    /// Take any hardware settings.
    AnyHwParams,
    Channels(u32),
    /// The nearest rate, in hertz.
    Rate(u32),
    /// 16-bit little-endian samples.
    FormatS16Le,
    /// 16-bit samples in the machine's byte order.
    FormatS16Native,
    /// Interleaved reading and writing.
    AccessInterleaved,
    /// The nearest time of a period, in microseconds.
    PeriodTime(u32),
    /// The nearest time of the buffer, in microseconds.
    BufferTime(u32),
    /// The nearest size of a period, in frames.
    PeriodSize(usize),
    /// The size of the buffer, in frames.
    BufferSize(usize),
    CommitHwParams,
    /// Read back what the device agreed to; nothing depends on it.
    ReadBack,
    CurrentSwParams,
    /// Play as soon as so many frames are there.
    StartThreshold(usize),
    /// Wake up as soon as there is room for so many frames.
    AvailMin(usize),
    CommitSwParams,
    Prepare,
    Start,
    /// Get hold of the samples.
    Io,
}

/// The steps that open a recording device: 20 ms periods in a buffer of 80 ms.
pub open spec fn capture_steps() -> Seq<PcmStep> {
    seq![
        PcmStep::OpenCapture,
        PcmStep::AnyHwParams,
        PcmStep::Channels(BASELINE_CHANNELS as u32),
        PcmStep::Rate(BASELINE_SAMPLE_RATE_HZ),
        PcmStep::FormatS16Le,
        PcmStep::AccessInterleaved,
        PcmStep::PeriodTime(20_000),
        PcmStep::BufferTime(80_000),
        PcmStep::CommitHwParams,
        PcmStep::ReadBack,
        PcmStep::Prepare,
        PcmStep::Start,
        PcmStep::Io,
    ]
}

/// The steps that open a playback device: periods of one chunk, in a buffer of four, and
/// playback from the first chunk on.
pub open spec fn playback_steps() -> Seq<PcmStep> {
    seq![
        PcmStep::OpenPlayback,
        PcmStep::AnyHwParams,
        PcmStep::Channels(BASELINE_CHANNELS as u32),
        PcmStep::Rate(BASELINE_SAMPLE_RATE_HZ),
        PcmStep::FormatS16Native,
        PcmStep::AccessInterleaved,
        PcmStep::PeriodSize(FRAMES_PER_CHUNK),
        PcmStep::BufferSize(RENDER_BUFFER_FRAMES),
        PcmStep::CommitHwParams,
        PcmStep::CurrentSwParams,
        PcmStep::StartThreshold(FRAMES_PER_CHUNK),
        PcmStep::AvailMin(FRAMES_PER_CHUNK),
        PcmStep::CommitSwParams,
        PcmStep::Prepare,
    ]
}

/// The steps that open a recording device.
pub fn capture_setup() -> (r: Vec<PcmStep>)
    ensures
        r@ == capture_steps(),
{
    let r = vec![
        PcmStep::OpenCapture,
        PcmStep::AnyHwParams,
        PcmStep::Channels(BASELINE_CHANNELS as u32),
        PcmStep::Rate(BASELINE_SAMPLE_RATE_HZ),
        PcmStep::FormatS16Le,
        PcmStep::AccessInterleaved,
        PcmStep::PeriodTime(20_000),
        PcmStep::BufferTime(80_000),
        PcmStep::CommitHwParams,
        PcmStep::ReadBack,
        PcmStep::Prepare,
        PcmStep::Start,
        PcmStep::Io,
    ];
    proof {
        assert(r@ =~= capture_steps());
    }
    r
}

/// The steps that open a playback device.
pub fn playback_setup() -> (r: Vec<PcmStep>)
    ensures
        r@ == playback_steps(),
{
    let r = vec![
        PcmStep::OpenPlayback,
        PcmStep::AnyHwParams,
        PcmStep::Channels(BASELINE_CHANNELS as u32),
        PcmStep::Rate(BASELINE_SAMPLE_RATE_HZ),
        PcmStep::FormatS16Native,
        PcmStep::AccessInterleaved,
        PcmStep::PeriodSize(FRAMES_PER_CHUNK),
        PcmStep::BufferSize(RENDER_BUFFER_FRAMES),
        PcmStep::CommitHwParams,
        PcmStep::CurrentSwParams,
        PcmStep::StartThreshold(FRAMES_PER_CHUNK),
        PcmStep::AvailMin(FRAMES_PER_CHUNK),
        PcmStep::CommitSwParams,
        PcmStep::Prepare,
    ];
    proof {
        assert(r@ =~= playback_steps());
    }
    r
}

/// Whether opening goes on behind a step.
pub open spec fn goes_on(step: PcmStep, succeeded: bool) -> bool {
    succeeded || step == PcmStep::ReadBack
}

/// Whether opening goes on behind a step: a step that fails ends it, but for reading
/// back.
pub fn setup_goes_on(step: PcmStep, succeeded: bool) -> (r: bool)
    ensures
        r == goes_on(step, succeeded),
        r == (succeeded || step == PcmStep::ReadBack),
{
    match step {
        PcmStep::ReadBack => true,
        _ => succeeded,
    }
}

/// How the failure of a step of opening a playback device is named.
pub open spec fn step_label(step: PcmStep, name: Seq<char>) -> Seq<char> {
    match step {
        PcmStep::OpenCapture => "alsa::PCM::new("@ + debug_text(name) + ", Capture)"@,
        PcmStep::OpenPlayback => "alsa::PCM::new("@ + debug_text(name) + ", Playback)"@,
        PcmStep::AnyHwParams => "alsa::pcm::HwParams::any"@,
        PcmStep::Channels(n) => "set_channels("@ + decimal(n as nat) + ")"@,
        PcmStep::Rate(n) => "set_rate("@ + decimal(n as nat) + ", Nearest)"@,
        PcmStep::FormatS16Le => "set_format(S16LE)"@,
        PcmStep::FormatS16Native => "set_format(S16LE)"@,
        PcmStep::AccessInterleaved => "set_access(RWInterleaved)"@,
        PcmStep::PeriodTime(_) => "set_period_time_near"@,
        PcmStep::BufferTime(_) => "set_buffer_time_near"@,
        PcmStep::PeriodSize(n) => "set_period_size("@ + decimal(n as nat) + ", Nearest)"@,
        PcmStep::BufferSize(_) => "set_buffer_size"@,
        PcmStep::CommitHwParams => "hw_params commit"@,
        PcmStep::ReadBack => "hw_params_current"@,
        PcmStep::CurrentSwParams => "sw_params_current"@,
        PcmStep::StartThreshold(n) => "set_start_threshold("@ + decimal(n as nat) + ")"@,
        PcmStep::AvailMin(n) => "set_avail_min("@ + decimal(n as nat) + ")"@,
        PcmStep::CommitSwParams => "sw_params commit"@,
        PcmStep::Prepare => "pcm.prepare()"@,
        PcmStep::Start => "pcm.start()"@,
        PcmStep::Io => "pcm.io_i16()"@,
    }
}

/// Says which step of opening a device failed, and how.
pub fn setup_error(step: PcmStep, name: &str, error: &str) -> (r: String)
    ensures
        r@ == step_label(step, name@) + ": "@ + error@,
{
    let label = match step {
        PcmStep::OpenCapture => cat3("alsa::PCM::new(", quoted(name).as_str(), ", Capture)"),
        PcmStep::OpenPlayback => cat3("alsa::PCM::new(", quoted(name).as_str(), ", Playback)"),
        PcmStep::AnyHwParams => "alsa::pcm::HwParams::any".to_owned(),
        PcmStep::Channels(n) => cat3("set_channels(", to_decimal(n as u64).as_str(), ")"),
        PcmStep::Rate(n) => cat3("set_rate(", to_decimal(n as u64).as_str(), ", Nearest)"),
        PcmStep::FormatS16Le => "set_format(S16LE)".to_owned(),
        PcmStep::FormatS16Native => "set_format(S16LE)".to_owned(),
        PcmStep::AccessInterleaved => "set_access(RWInterleaved)".to_owned(),
        PcmStep::PeriodTime(_) => "set_period_time_near".to_owned(),
        PcmStep::BufferTime(_) => "set_buffer_time_near".to_owned(),
        PcmStep::PeriodSize(n) => cat3("set_period_size(", to_decimal(n as u64).as_str(), ", Nearest)"),
        PcmStep::BufferSize(_) => "set_buffer_size".to_owned(),
        PcmStep::CommitHwParams => "hw_params commit".to_owned(),
        PcmStep::ReadBack => "hw_params_current".to_owned(),
        PcmStep::CurrentSwParams => "sw_params_current".to_owned(),
        PcmStep::StartThreshold(n) => cat3("set_start_threshold(", to_decimal(n as u64).as_str(), ")"),
        PcmStep::AvailMin(n) => cat3("set_avail_min(", to_decimal(n as u64).as_str(), ")"),
        PcmStep::CommitSwParams => "sw_params commit".to_owned(),
        PcmStep::Prepare => "pcm.prepare()".to_owned(),
        PcmStep::Start => "pcm.start()".to_owned(),
        PcmStep::Io => "pcm.io_i16()".to_owned(),
    };
    cat3(label.as_str(), ": ", error)
}

/// What came of writing samples.
#[derive(Debug, Clone)]
pub enum WriteOutcome {
    /// So many frames were written.
    Frames(usize),
    /// It failed.
    Failed(String),
}

/// The first writing of samples, and the second where the device had to be prepared
/// again.
#[derive(Debug, Clone)]
pub enum WriteStep {
    Done,
    /// Prepare the device and write once more.
    Retry,
    Failed(String),
}

/// [`WriteStep`] over mathematical values.
#[verifier::ext_equal]
pub enum WriteStepView {
    Done,
    Retry,
    Failed(Seq<char>),
}

impl View for WriteStep {
    type V = WriteStepView;

    open spec fn view(&self) -> WriteStepView {
        match self {
            WriteStep::Done => WriteStepView::Done,
            WriteStep::Retry => WriteStepView::Retry,
            WriteStep::Failed(s) => WriteStepView::Failed(s@),
        }
    }
}

/// Why a payload cannot be written: it does not end at the end of a frame.
pub open spec fn misaligned(len: nat) -> Seq<char> {
    "payload length "@ + decimal(len) + " not aligned to s16le stereo frame (4 bytes)"@
}

/// The view of what there is to write.
pub open spec fn payload_result(r: Result<Vec<i16>, String>) -> Result<Seq<i16>, Seq<char>> {
    match r {
        Ok(v) => Ok(v@),
        Err(e) => Err(e@),
    }
}

/// The samples of a payload that is to be written, where it is made of whole frames.
pub open spec fn samples_to_write(payload: Seq<u8>) -> Result<Seq<i16>, Seq<char>> {
    if payload.len() % 4 == 0 {
        Ok(decoded(payload))
    } else {
        Err(misaligned(payload.len()))
    }
}

/// The samples of a payload that is to be written.
pub fn payload_samples(payload: &Vec<u8>) -> (r: Result<Vec<i16>, String>)
    ensures
        payload_result(r) == samples_to_write(payload@),
        payload_result(r) == if payload@.len() % 4 == 0 {
            Ok::<Seq<i16>, Seq<char>>(decoded(payload@))
        } else {
            Err::<Seq<i16>, Seq<char>>(misaligned(payload@.len()))
        },
{
    if payload.len() % 4 != 0 {
        return Err(
            cat3(
                "payload length ",
                to_decimal(payload.len() as u64).as_str(),
                " not aligned to s16le stereo frame (4 bytes)",
            ),
        );
    }
    Ok(decode_samples(payload))
}

/// Why writing stopped short.
pub open spec fn short_write(wanted: nat, written: nat) -> Seq<char> {
    "short write: requested "@ + decimal(wanted) + " frames, wrote "@ + decimal(written)
}

/// What the first writing comes to.
pub open spec fn first_write(wanted: usize, outcome: WriteOutcome) -> WriteStepView {
    match outcome {
        WriteOutcome::Frames(n) => if n == wanted {
            WriteStepView::Done
        } else {
            WriteStepView::Failed(short_write(wanted as nat, n as nat))
        },
        WriteOutcome::Failed(_) => WriteStepView::Retry,
    }
}

/// What the second writing comes to.
pub open spec fn second_write(wanted: usize, outcome: WriteOutcome) -> WriteStepView {
    match outcome {
        WriteOutcome::Frames(n) => if n == wanted {
            WriteStepView::Done
        } else {
            WriteStepView::Failed("post-recover "@ + short_write(wanted as nat, n as nat))
        },
        WriteOutcome::Failed(e) => WriteStepView::Failed("post-recover write error: "@ + e@),
    }
}

fn short_text(wanted: usize, written: usize) -> (r: String)
    ensures
        r@ == short_write(wanted as nat, written as nat),
{
    cat4(
        "short write: requested ",
        to_decimal(wanted as u64).as_str(),
        " frames, wrote ",
        to_decimal(written as u64).as_str(),
    )
}

/// Judges the first writing.
pub fn after_write(wanted: usize, outcome: &WriteOutcome) -> (r: WriteStep)
    ensures
        r@ == first_write(wanted, *outcome),
{
    match outcome {
        WriteOutcome::Frames(n) => {
            if *n == wanted {
                WriteStep::Done
            } else {
                WriteStep::Failed(short_text(wanted, *n))
            }
        },
        WriteOutcome::Failed(_) => WriteStep::Retry,
    }
}

/// Judges the second writing.
pub fn after_retry(wanted: usize, outcome: &WriteOutcome) -> (r: WriteStep)
    ensures
        r@ == second_write(wanted, *outcome),
{
    match outcome {
        WriteOutcome::Frames(n) => {
            if *n == wanted {
                WriteStep::Done
            } else {
                WriteStep::Failed(cat("post-recover ", short_text(wanted, *n).as_str()))
            }
        },
        WriteOutcome::Failed(e) => WriteStep::Failed(cat("post-recover write error: ", e.as_str())),
    }
}

/// Writing is tried twice at most.
pub proof fn writing_is_tried_twice_at_most(wanted: usize, outcome: WriteOutcome)
    ensures
        second_write(wanted, outcome) !is Retry,
{
}

/// A payload is played as the samples that it holds, where it ends at the end of a frame of
/// four bytes; and a write that took all frames is done, one that took fewer has failed,
/// and one that failed is tried once more.
pub proof fn writes_take_all_frames(wanted: usize, outcome: WriteOutcome)
    ensures
        outcome matches WriteOutcome::Frames(n) ==> {
            &&& first_write(wanted, outcome) is Done <==> n == wanted
            &&& first_write(wanted, outcome) is Failed <==> n != wanted
            &&& second_write(wanted, outcome) is Done <==> n == wanted
            &&& second_write(wanted, outcome) is Failed <==> n != wanted
        },
        outcome is Failed ==> first_write(wanted, outcome) is Retry && second_write(wanted, outcome) is Failed,
{
}

/// A device is opened in stereo at 48 kHz with 16-bit samples, interleaved; recording in
/// periods of 20 ms in a buffer of 80, playback in periods of 960 frames in a buffer of
/// four, starting with the first. Its settings are committed before it is made ready, and
/// only recording is started by hand.
pub proof fn devices_are_opened_as_agreed(i: int)
    ensures
        capture_steps().len() == 13,
        capture_steps()[0] == PcmStep::OpenCapture,
        capture_steps()[1] == PcmStep::AnyHwParams,
        capture_steps()[2] == PcmStep::Channels(2),
        capture_steps()[3] == PcmStep::Rate(48_000),
        capture_steps()[4] == PcmStep::FormatS16Le,
        capture_steps()[5] == PcmStep::AccessInterleaved,
        capture_steps()[6] == PcmStep::PeriodTime(20_000),
        capture_steps()[7] == PcmStep::BufferTime(80_000),
        capture_steps()[8] == PcmStep::CommitHwParams,
        capture_steps()[9] == PcmStep::ReadBack,
        capture_steps()[10] == PcmStep::Prepare,
        capture_steps()[11] == PcmStep::Start,
        capture_steps()[12] == PcmStep::Io,
        playback_steps().len() == 14,
        playback_steps()[0] == PcmStep::OpenPlayback,
        playback_steps()[1] == PcmStep::AnyHwParams,
        playback_steps()[2] == PcmStep::Channels(2),
        playback_steps()[3] == PcmStep::Rate(48_000),
        playback_steps()[4] == PcmStep::FormatS16Native,
        playback_steps()[5] == PcmStep::AccessInterleaved,
        playback_steps()[6] == PcmStep::PeriodSize(960),
        playback_steps()[7] == PcmStep::BufferSize(3840),
        playback_steps()[8] == PcmStep::CommitHwParams,
        playback_steps()[9] == PcmStep::CurrentSwParams,
        playback_steps()[10] == PcmStep::StartThreshold(960),
        playback_steps()[11] == PcmStep::AvailMin(960),
        playback_steps()[12] == PcmStep::CommitSwParams,
        playback_steps()[13] == PcmStep::Prepare,
        0 <= i < 14 ==> !(playback_steps()[i] is Start),
{
}

/// A write that fell short says how much was wanted and how much was written, and whether
/// it was the second try.
pub proof fn short_writes_are_told(wanted: usize, n: usize, e: String)
    requires
        n != wanted,
    ensures
        first_write(wanted, WriteOutcome::Frames(n)) == WriteStepView::Failed(
            "short write: requested "@ + decimal(wanted as nat) + " frames, wrote "@ + decimal(n as nat),
        ),
        second_write(wanted, WriteOutcome::Frames(n)) == WriteStepView::Failed(
            "post-recover "@ + ("short write: requested "@ + decimal(wanted as nat) + " frames, wrote "@ + decimal(n as nat)),
        ),
        second_write(wanted, WriteOutcome::Failed(e)) == WriteStepView::Failed("post-recover write error: "@ + e@),
        first_write(wanted, WriteOutcome::Failed(e)) is Retry,
        first_write(wanted, WriteOutcome::Frames(wanted)) is Done,
        second_write(wanted, WriteOutcome::Frames(wanted)) is Done,
{
}

/// A payload is written where it is made of whole frames of four bytes, sample by sample
/// as it came; any other is refused with its length.
pub proof fn whole_frames_are_written(payload: Seq<u8>)
    ensures
        payload.len() % 4 == 0 ==> samples_to_write(payload) == Ok::<Seq<i16>, Seq<char>>(decoded(payload)),
        payload.len() % 4 != 0 ==> samples_to_write(payload) == Err::<Seq<i16>, Seq<char>>(
            "payload length "@ + decimal(payload.len()) + " not aligned to s16le stereo frame (4 bytes)"@,
        ),
{
}

/// A step that fails ends the opening of a device, but for reading back what it agreed to.
pub proof fn failed_steps_end_the_opening(step: PcmStep)
    ensures
        goes_on(step, true),
        goes_on(step, false) <==> step is ReadBack,
{
}

} // verus!
