//! How frames are pumped from one sound device to another.

use crate::composition::byte_flow::{
    exit_view, AudioFormat, ByteFlowError, CompositionEndpoints, FlowErrorView, PcmCodec,
};
use crate::number::{decimal, to_decimal};
use crate::text::{cat, cat3, cat4, cat5};
use vstd::prelude::*;

verus! {

/// How long is waited for frames before it is looked whether to end, in milliseconds.
pub const PCM_WAIT_TIMEOUT_MS: u32 = 50;

/// The most frames that are pumped at once.
pub const FRAMES_PER_PUMP: usize = 1024;

/// How a device writes a sample down.
#[derive(Debug, Clone, Copy, PartialEq, Eq, Structural)]
pub enum SampleFormat {
    S16,
    S24,
    S32,
    Float,
}

impl SampleFormat {
    /// The name of a format.
    pub open spec fn name(self) -> Seq<char> {
        match self {
            SampleFormat::S16 => "S16LE"@,
            SampleFormat::S24 => "S24LE"@,
            SampleFormat::S32 => "S32LE"@,
            SampleFormat::Float => "FloatLE"@,
        }
    }

    /// The name of a format.
    pub fn as_text(&self) -> (r: &'static str)
        ensures
            r@ == self.name(),
    {
        match self {
            SampleFormat::S16 => "S16LE",
            SampleFormat::S24 => "S24LE",
            SampleFormat::S32 => "S32LE",
            SampleFormat::Float => "FloatLE",
        }
    }
}

/// The format of a codec.
pub open spec fn format_of(codec: PcmCodec) -> SampleFormat {
    match codec {
        PcmCodec::PcmS16Le => SampleFormat::S16,
        PcmCodec::PcmS24Le => SampleFormat::S24,
        PcmCodec::PcmS32Le => SampleFormat::S32,
        PcmCodec::PcmF32 => SampleFormat::Float,
    }
}

/// The format of a codec.
pub fn alsa_format_for_codec(codec: PcmCodec) -> (r: SampleFormat)
    ensures
        r == format_of(codec),
{
    match codec {
        PcmCodec::PcmS16Le => SampleFormat::S16,
        PcmCodec::PcmS24Le => SampleFormat::S24,
        PcmCodec::PcmS32Le => SampleFormat::S32,
        PcmCodec::PcmF32 => SampleFormat::Float,
    }
}

/// The bytes of a sample; one of 24 bits takes as many as one of 32.
pub open spec fn sample_width(format: SampleFormat) -> nat {
    match format {
        SampleFormat::S16 => 2,
        _ => 4,
    }
}

/// The bytes of a frame: one sample for each channel.
pub fn bytes_per_frame(format: SampleFormat, channels: u8) -> (r: usize)
    ensures
        r == sample_width(format) * channels,
{
    match format {
        SampleFormat::S16 => 2 * channels as usize,
        _ => 4 * channels as usize,
    }
}

/// What both devices are set to.
#[derive(Debug, Clone, Copy, PartialEq, Eq, Structural)]
pub struct PcmSettings {
    pub format: SampleFormat,
    pub rate_hz: u32,
    pub channels: u8,
}

/// What both devices are set to: the format at the input, where it is that of samples.
pub open spec fn settings_for(format: AudioFormat) -> Result<PcmSettings, FlowErrorView> {
    match format {
        AudioFormat::Pcm { codec, rate_hz, channels } => Ok(
            PcmSettings { format: format_of(codec), rate_hz, channels },
        ),
        AudioFormat::Dsd => Err(
            FlowErrorView::OpenFailed(
                "AlsaPcm substrate received an AudioFormat::Dsd; the framework's reconciliation engine should have selected a DSD-capable substrate, not AlsaPcm"@,
            ),
        ),
        AudioFormat::EncodedPassthrough { codec } => Err(
            FlowErrorView::OpenFailed(
                "AlsaPcm substrate received an EncodedPassthrough format with codec "@ + codec@
                    + "; encoded-bitstream chains should not route through the PCM substrate"@,
            ),
        ),
    }
}

/// The view of settings or an error.
pub open spec fn settings_result(r: Result<PcmSettings, ByteFlowError>) -> Result<PcmSettings, FlowErrorView> {
    match r {
        Ok(s) => Ok(s),
        Err(e) => Err(e@),
    }
}

/// Chooses what both devices are set to.
pub fn pcm_settings(endpoints: &CompositionEndpoints) -> (r: Result<PcmSettings, ByteFlowError>)
    ensures
        settings_result(r) == settings_for(endpoints.input.format),
{
    match &endpoints.input.format {
        AudioFormat::Pcm { codec, rate_hz, channels } => Ok(
            PcmSettings { format: alsa_format_for_codec(*codec), rate_hz: *rate_hz, channels: *channels },
        ),
        AudioFormat::Dsd => Err(
            ByteFlowError::OpenFailed(
                "AlsaPcm substrate received an AudioFormat::Dsd; the framework's reconciliation engine should have selected a DSD-capable substrate, not AlsaPcm".to_owned(),
            ),
        ),
        AudioFormat::EncodedPassthrough { codec } => Err(
            ByteFlowError::OpenFailed(
                cat3(
                    "AlsaPcm substrate received an EncodedPassthrough format with codec ",
                    codec.as_str(),
                    "; encoded-bitstream chains should not route through the PCM substrate",
                ),
            ),
        ),
    }
}

/// One of the two devices.
#[derive(Debug, Clone, Copy, PartialEq, Eq, Structural)]
pub enum PcmSide {
    Capture,
    Playback,
}

impl PcmSide {
    /// The name of a side.
    pub open spec fn name(self) -> Seq<char> {
        match self {
            PcmSide::Capture => "capture"@,
            PcmSide::Playback => "playback"@,
        }
    }

    /// The name of the end that a side stands at.
    pub open spec fn end(self) -> Seq<char> {
        match self {
            PcmSide::Capture => "input"@,
            PcmSide::Playback => "output"@,
        }
    }

    fn name_text(&self) -> (r: &'static str)
        ensures
            r@ == self.name(),
    {
        match self {
            PcmSide::Capture => "capture",
            PcmSide::Playback => "playback",
        }
    }

    fn end_text(&self) -> (r: &'static str)
        ensures
            r@ == self.end(),
    {
        match self {
            PcmSide::Capture => "input",
            PcmSide::Playback => "output",
        }
    }
}

/// A step in opening the two devices.
#[derive(Debug, Clone, Copy, PartialEq, Eq, Structural)]
pub enum OpenStep {
    /// Open a device without blocking.
    Open(PcmSide),
    /// Take any hardware settings.
    InitParams(PcmSide),
    /// Interleaved reading and writing.
    Access(PcmSide),
    Format(PcmSide),
    Channels(PcmSide),
    /// The nearest rate.
    Rate(PcmSide),
    ApplyParams(PcmSide),
    Start(PcmSide),
}

/// The steps that set a device.
pub open spec fn setting_steps(side: PcmSide) -> Seq<OpenStep> {
    seq![
        OpenStep::InitParams(side),
        OpenStep::Access(side),
        OpenStep::Format(side),
        OpenStep::Channels(side),
        OpenStep::Rate(side),
        OpenStep::ApplyParams(side),
    ]
}

/// The steps that open both devices.
pub open spec fn opening_steps() -> Seq<OpenStep> {
    seq![OpenStep::Open(PcmSide::Capture), OpenStep::Open(PcmSide::Playback)] + setting_steps(PcmSide::Capture)
        + setting_steps(PcmSide::Playback) + seq![OpenStep::Start(PcmSide::Capture), OpenStep::Start(PcmSide::Playback)]
}

/// The steps that open both devices. The first that fails ends it.
pub fn opening_plan() -> (r: Vec<OpenStep>)
    ensures
        r@ == opening_steps(),
{
    let r = vec![
        OpenStep::Open(PcmSide::Capture),
        OpenStep::Open(PcmSide::Playback),
        OpenStep::InitParams(PcmSide::Capture),
        OpenStep::Access(PcmSide::Capture),
        OpenStep::Format(PcmSide::Capture),
        OpenStep::Channels(PcmSide::Capture),
        OpenStep::Rate(PcmSide::Capture),
        OpenStep::ApplyParams(PcmSide::Capture),
        OpenStep::InitParams(PcmSide::Playback),
        OpenStep::Access(PcmSide::Playback),
        OpenStep::Format(PcmSide::Playback),
        OpenStep::Channels(PcmSide::Playback),
        OpenStep::Rate(PcmSide::Playback),
        OpenStep::ApplyParams(PcmSide::Playback),
        OpenStep::Start(PcmSide::Capture),
        OpenStep::Start(PcmSide::Playback),
    ];
    proof {
        assert(r@ =~= opening_steps());
    }
    r
}

/// How a step that failed is named, with the path of its device.
pub open spec fn open_label(step: OpenStep, settings: PcmSettings, path: Seq<char>) -> Seq<char> {
    match step {
        OpenStep::Open(side) => "alsa "@ + side.name() + " open ("@ + path + ")"@,
        OpenStep::InitParams(side) => "hwparams init ("@ + side.name() + ")"@,
        OpenStep::Access(side) => "hwparams set_access RWInterleaved ("@ + side.name() + ")"@,
        OpenStep::Format(side) => "hwparams set_format "@ + settings.format.name() + " ("@ + side.name() + ")"@,
        OpenStep::Channels(side) => "hwparams set_channels "@ + decimal(settings.channels as nat) + " ("@
            + side.name() + ")"@,
        OpenStep::Rate(side) => "hwparams set_rate "@ + decimal(settings.rate_hz as nat) + "Hz ("@ + side.name()
            + ")"@,
        OpenStep::ApplyParams(side) => "hw_params apply ("@ + side.name() + ")"@,
        OpenStep::Start(side) => "alsa "@ + side.end() + " start"@,
    }
}

/// Says which step failed, and how.
pub fn open_error(step: OpenStep, settings: &PcmSettings, path: &str, error: &str) -> (r: ByteFlowError)
    ensures
        r@ == FlowErrorView::OpenFailed(open_label(step, *settings, path@) + ": "@ + error@),
{
    let label = match step {
        OpenStep::Open(side) => cat5("alsa ", side.name_text(), " open (", path, ")"),
        OpenStep::InitParams(side) => cat3("hwparams init (", side.name_text(), ")"),
        OpenStep::Access(side) => cat3("hwparams set_access RWInterleaved (", side.name_text(), ")"),
        OpenStep::Format(side) => cat5(
            "hwparams set_format ",
            settings.format.as_text(),
            " (",
            side.name_text(),
            ")",
        ),
        OpenStep::Channels(side) => cat5(
            "hwparams set_channels ",
            to_decimal(settings.channels as u64).as_str(),
            " (",
            side.name_text(),
            ")",
        ),
        OpenStep::Rate(side) => cat5(
            "hwparams set_rate ",
            to_decimal(settings.rate_hz as u64).as_str(),
            "Hz (",
            side.name_text(),
            ")",
        ),
        OpenStep::ApplyParams(side) => cat3("hw_params apply (", side.name_text(), ")"),
        OpenStep::Start(side) => cat3("alsa ", side.end_text(), " start"),
    };
    ByteFlowError::OpenFailed(cat3(label.as_str(), ": ", error))
}

// Pumping.

/// What happened to the devices.
#[derive(Debug, Clone)]
pub enum PumpEvent {
    /// A round starts; whether it shall end.
    Round { cancelled: bool },
    /// Waiting for the input: whether frames came.
    InputReady(bool),
    InputWaitFailed(String),
    /// So many frames were read.
    Read(usize),
    /// There was nothing to read after all.
    ReadAgain,
    ReadFailed(String),
    /// So many frames were written.
    Wrote(usize),
    /// There was no room to write; whether it shall end.
    WriteAgain { cancelled: bool },
    WriteFailed(String),
    /// There may be room to write now.
    OutputReady,
    OutputWaitFailed(String),
}

/// What is done next.
#[derive(Debug)]
pub enum PumpAction {
    /// Start a round.
    NextRound,
    /// Wait for the input.
    WaitInput,
    /// Read frames.
    Read,
    /// Write the bytes of the buffer from an index to another.
    Write { from: usize, to: usize },
    /// Wait for the output.
    WaitOutput,
    Exit(Result<(), ByteFlowError>),
}

/// [`PumpAction`] over mathematical values.
#[verifier::ext_equal]
pub enum PumpActionView {
    NextRound,
    WaitInput,
    Read,
    Write { from: int, to: int },
    WaitOutput,
    Exit(Option<FlowErrorView>),
}

impl View for PumpAction {
    type V = PumpActionView;

    open spec fn view(&self) -> PumpActionView {
        match self {
            PumpAction::NextRound => PumpActionView::NextRound,
            PumpAction::WaitInput => PumpActionView::WaitInput,
            PumpAction::Read => PumpActionView::Read,
            PumpAction::Write { from, to } => PumpActionView::Write { from: *from as int, to: *to as int },
            PumpAction::WaitOutput => PumpActionView::WaitOutput,
            PumpAction::Exit(r) => PumpActionView::Exit(exit_view(*r)),
        }
    }
}

/// A pump between two devices.
#[derive(Debug, Clone, Copy, PartialEq, Eq, Structural)]
pub struct PcmPump {
    /// The bytes of a frame.
    pub frame_bytes: usize,
    /// The frames in the buffer.
    pub read: usize,
    /// The frames of them that were written.
    pub written: usize,
}

impl PcmPump {
    /// No more is written than was read, and no more was read than there is room for.
    pub open spec fn wf(self) -> bool {
        self.written <= self.read <= FRAMES_PER_PUMP && self.frame_bytes <= 1020
    }

    /// The bytes that are still to be written.
    pub open spec fn rest(self) -> PumpActionView {
        PumpActionView::Write { from: self.written * self.frame_bytes, to: self.read * self.frame_bytes }
    }

    /// Whether an event can happen: no more frames are read than there is room for, and
    /// no more written than there are.
    pub open spec fn fits(self, event: PumpEvent) -> bool {
        match event {
            PumpEvent::Read(n) => n <= FRAMES_PER_PUMP,
            PumpEvent::Wrote(n) => self.written + n <= self.read,
            _ => true,
        }
    }

    /// The pump after an event, and what is done next.
    pub open spec fn pumped(self, event: PumpEvent) -> (PcmPump, PumpActionView) {
        match event {
            PumpEvent::Round { cancelled } => (
                self,
                if cancelled {
                    PumpActionView::Exit(None)
                } else {
                    PumpActionView::WaitInput
                },
            ),
            PumpEvent::InputReady(ready) => (
                self,
                if ready {
                    PumpActionView::Read
                } else {
                    PumpActionView::NextRound
                },
            ),
            PumpEvent::InputWaitFailed(e) => (
                self,
                PumpActionView::Exit(Some(FlowErrorView::ReadFailed("alsa input wait: "@ + e@))),
            ),
            PumpEvent::Read(n) => {
                let filled = PcmPump { read: n, written: 0, ..self };
                (
                    filled,
                    if n == 0 {
                        PumpActionView::NextRound
                    } else {
                        filled.rest()
                    },
                )
            },
            PumpEvent::ReadAgain => (self, PumpActionView::NextRound),
            PumpEvent::ReadFailed(e) => (
                self,
                PumpActionView::Exit(Some(FlowErrorView::ReadFailed("alsa input readi: "@ + e@))),
            ),
            PumpEvent::Wrote(n) => {
                let further = PcmPump { written: (self.written + n) as usize, ..self };
                (
                    further,
                    if further.written < further.read {
                        further.rest()
                    } else {
                        PumpActionView::NextRound
                    },
                )
            },
            PumpEvent::WriteAgain { cancelled } => (
                self,
                if cancelled {
                    PumpActionView::Exit(None)
                } else {
                    PumpActionView::WaitOutput
                },
            ),
            PumpEvent::WriteFailed(e) => (
                self,
                PumpActionView::Exit(
                    Some(
                        FlowErrorView::WriteFailed(
                            "alsa output writei (frames="@ + decimal((self.read - self.written) as nat) + "): "@ + e@,
                        ),
                    ),
                ),
            ),
            PumpEvent::OutputReady => (self, self.rest()),
            PumpEvent::OutputWaitFailed(e) => (
                self,
                PumpActionView::Exit(Some(FlowErrorView::WriteFailed("alsa output wait: "@ + e@))),
            ),
        }
    }

    /// A pump with nothing in its buffer.
    pub fn new(settings: &PcmSettings) -> (r: PcmPump)
        ensures
            r.wf(),
            r.frame_bytes == sample_width(settings.format) * settings.channels,
            r.read == 0,
            r.written == 0,
    {
        PcmPump { frame_bytes: bytes_per_frame(settings.format, settings.channels), read: 0, written: 0 }
    }

    fn write_rest(&self) -> (r: PumpAction)
        requires
            self.wf(),
        ensures
            r@ == self.rest(),
    {
        proof {
            assert(self.written * self.frame_bytes <= 1024 * 1020) by (nonlinear_arith)
                requires
                    self.written <= 1024,
                    self.frame_bytes <= 1020,
            ;
            assert(self.read * self.frame_bytes <= 1024 * 1020) by (nonlinear_arith)
                requires
                    self.read <= 1024,
                    self.frame_bytes <= 1020,
            ;
        }
        PumpAction::Write { from: self.written * self.frame_bytes, to: self.read * self.frame_bytes }
    }

    /// Takes an event, and says what is done next.
    pub fn step(&mut self, event: PumpEvent) -> (r: PumpAction)
        requires
            old(self).wf(),
            old(self).fits(event),
        ensures
            final(self).wf(),
            (*final(self), r@) == old(self).pumped(event),
    {
        match event {
            PumpEvent::Round { cancelled } => {
                if cancelled {
                    PumpAction::Exit(Ok(()))
                } else {
                    PumpAction::WaitInput
                }
            },
            PumpEvent::InputReady(ready) => {
                if ready {
                    PumpAction::Read
                } else {
                    PumpAction::NextRound
                }
            },
            PumpEvent::InputWaitFailed(e) => PumpAction::Exit(
                Err(ByteFlowError::ReadFailed(cat("alsa input wait: ", e.as_str()))),
            ),
            PumpEvent::Read(n) => {
                self.read = n;
                self.written = 0;
                if n == 0 {
                    PumpAction::NextRound
                } else {
                    self.write_rest()
                }
            },
            PumpEvent::ReadAgain => PumpAction::NextRound,
            PumpEvent::ReadFailed(e) => PumpAction::Exit(
                Err(ByteFlowError::ReadFailed(cat("alsa input readi: ", e.as_str()))),
            ),
            PumpEvent::Wrote(n) => {
                self.written = self.written + n;
                if self.written < self.read {
                    self.write_rest()
                } else {
                    PumpAction::NextRound
                }
            },
            PumpEvent::WriteAgain { cancelled } => {
                if cancelled {
                    PumpAction::Exit(Ok(()))
                } else {
                    PumpAction::WaitOutput
                }
            },
            PumpEvent::WriteFailed(e) => {
                let left: usize = self.read - self.written;
                PumpAction::Exit(
                    Err(
                        ByteFlowError::WriteFailed(
                            cat4("alsa output writei (frames=", to_decimal(left as u64).as_str(), "): ", e.as_str()),
                        ),
                    ),
                )
            },
            PumpEvent::OutputReady => self.write_rest(),
            PumpEvent::OutputWaitFailed(e) => PumpAction::Exit(
                Err(ByteFlowError::WriteFailed(cat("alsa output wait: ", e.as_str()))),
            ),
        }
    }
}

/// The bytes that go out where a write of the rest is taken in pieces: each of `taken` is
/// the number of frames that one write took.
pub open spec fn gone_out(pump: PcmPump, buffer: Seq<u8>, taken: Seq<usize>) -> Seq<u8>
    decreases taken.len(),
{
    if taken.len() == 0 {
        seq![]
    } else {
        let from = pump.written * pump.frame_bytes;
        let next = pump.pumped(PumpEvent::Wrote(taken[0])).0;
        buffer.subrange(from, next.written * pump.frame_bytes) + gone_out(next, buffer, taken.drop_first())
    }
}

/// The frames that writes took together.
pub open spec fn frames_taken(taken: Seq<usize>) -> nat
    decreases taken.len(),
{
    if taken.len() == 0 {
        0
    } else {
        taken[0] as nat + frames_taken(taken.drop_first())
    }
}

proof fn lemma_gone_out(pump: PcmPump, buffer: Seq<u8>, taken: Seq<usize>)
    requires
        pump.wf(),
        pump.written + frames_taken(taken) <= pump.read,
        pump.read * pump.frame_bytes <= buffer.len(),
    ensures
        gone_out(pump, buffer, taken) == buffer.subrange(
            pump.written * pump.frame_bytes,
            (pump.written + frames_taken(taken)) * pump.frame_bytes,
        ),
    decreases taken.len(),
{
    let f = pump.frame_bytes as int;
    if taken.len() == 0 {
        assert(0 <= pump.written * f <= pump.read * f) by (nonlinear_arith)
            requires
                0 <= f,
                0 <= pump.written <= pump.read,
        ;
        assert(gone_out(pump, buffer, taken) =~= buffer.subrange(pump.written * f, pump.written * f));
    } else {
        let next = pump.pumped(PumpEvent::Wrote(taken[0])).0;
        let rest = taken.drop_first();
        assert(next.written == pump.written + taken[0]);
        lemma_gone_out(next, buffer, rest);
        let end = pump.written + frames_taken(taken);
        assert(end == next.written + frames_taken(rest));
        assert(0 <= pump.written * f <= next.written * f <= end * f <= pump.read * f) by (nonlinear_arith)
            requires
                0 <= f,
                0 <= pump.written <= next.written <= end <= pump.read,
        ;
        assert(buffer.subrange(pump.written * f, next.written * f) + buffer.subrange(next.written * f, end * f)
            =~= buffer.subrange(pump.written * f, end * f));
    }
}

/// However a write is taken in pieces, what goes out is what came in: once every frame
/// was taken, the bytes that went out are those that were read, in their order and
/// unchanged.
pub proof fn frames_pass_unchanged(pump: PcmPump, buffer: Seq<u8>, frames: usize, taken: Seq<usize>)
    requires
        pump.wf(),
        0 < frames <= FRAMES_PER_PUMP,
        frames * pump.frame_bytes <= buffer.len(),
        frames_taken(taken) == frames,
    ensures
        gone_out(pump.pumped(PumpEvent::Read(frames)).0, buffer, taken) == buffer.take(frames * pump.frame_bytes),
{
    let filled = pump.pumped(PumpEvent::Read(frames)).0;
    lemma_gone_out(filled, buffer, taken);
    assert(filled.written * filled.frame_bytes == 0) by (nonlinear_arith)
        requires
            filled.written == 0,
    ;
    assert(filled.written + frames_taken(taken) == frames);
    assert(buffer.subrange(0, frames * pump.frame_bytes) =~= buffer.take(frames * pump.frame_bytes));
}

/// Both devices are set to the samples that come in: their width, their rate and their
/// channels; nothing but samples can go through.
pub proof fn devices_are_set_to_the_input(codec: PcmCodec, rate_hz: u32, channels: u8, name: String)
    ensures
        settings_for(AudioFormat::Pcm { codec, rate_hz, channels }) matches Ok(s) && s.rate_hz == rate_hz && s.channels
            == channels && (s.format == SampleFormat::S16 <==> codec == PcmCodec::PcmS16Le) && (s.format == SampleFormat::S24
            <==> codec == PcmCodec::PcmS24Le) && (s.format == SampleFormat::S32 <==> codec == PcmCodec::PcmS32Le) && (s.format
            == SampleFormat::Float <==> codec == PcmCodec::PcmF32),
        settings_for(AudioFormat::Dsd) is Err,
        settings_for(AudioFormat::EncodedPassthrough { codec: name }) is Err,
        sample_width(SampleFormat::S16) == 2,
        sample_width(SampleFormat::S24) == 4,
        sample_width(SampleFormat::S32) == 4,
        sample_width(SampleFormat::Float) == 4,
{
}

/// Both devices are opened before either is set up, both are set up before either starts,
/// and the one that records comes first.
pub proof fn devices_are_opened_in_order(i: int, j: int)
    ensures
        opening_steps().len() == 16,
        opening_steps()[0] == OpenStep::Open(PcmSide::Capture),
        opening_steps()[1] == OpenStep::Open(PcmSide::Playback),
        opening_steps()[7] == OpenStep::ApplyParams(PcmSide::Capture),
        opening_steps()[13] == OpenStep::ApplyParams(PcmSide::Playback),
        opening_steps()[14] == OpenStep::Start(PcmSide::Capture),
        opening_steps()[15] == OpenStep::Start(PcmSide::Playback),
        0 <= i < 16 && opening_steps()[i] is Start ==> i >= 14,
        0 <= j < 16 && opening_steps()[j] is Open ==> j <= 1,
{
}

/// What was read is written from its start, all of it; what a write left over is written
/// next, from where it stopped, and the next is read only when nothing is left over.
pub proof fn what_was_read_is_written(pump: PcmPump, n: usize)
    requires
        pump.wf(),
    ensures
        0 < n <= FRAMES_PER_PUMP ==> pump.pumped(PumpEvent::Read(n)).1 == (PumpActionView::Write {
            from: 0,
            to: n * pump.frame_bytes,
        }),
        pump.pumped(PumpEvent::Read(0)).1 is NextRound,
        pump.written + n <= pump.read ==> pump.pumped(PumpEvent::Wrote(n)).0.written == pump.written + n,
        n > 0 && pump.written + n < pump.read ==> pump.pumped(PumpEvent::Wrote(n)).1 == (PumpActionView::Write {
            from: (pump.written + n) * pump.frame_bytes,
            to: pump.read * pump.frame_bytes,
        }),
        pump.written + n == pump.read ==> pump.pumped(PumpEvent::Wrote(n)).1 is NextRound,
        pump.pumped(PumpEvent::Round { cancelled: true }).1 == PumpActionView::Exit(None),
        pump.pumped(PumpEvent::Round { cancelled: false }).1 is WaitInput,
        pump.pumped(PumpEvent::InputReady(true)).1 is Read,
        pump.pumped(PumpEvent::InputReady(false)).1 is NextRound,
{
    let filled = pump.pumped(PumpEvent::Read(n)).0;
    assert(filled.written * filled.frame_bytes == 0) by (nonlinear_arith)
        requires
            filled.written == 0,
    ;
}

/// A device without room is waited for and then written to from where it stopped; one
/// that fails ends the flow at its own end, with what it was doing; cancelling ends it
/// without an error. A device that has nothing yet is waited for anew.
pub proof fn pumps_wait_and_fail_at_their_end(pump: PcmPump, e: String)
    requires
        pump.wf(),
    ensures
        pump.pumped(PumpEvent::WriteAgain { cancelled: false }) == (pump, PumpActionView::WaitOutput),
        pump.pumped(PumpEvent::WriteAgain { cancelled: true }) == (pump, PumpActionView::Exit(None)),
        pump.pumped(PumpEvent::OutputReady) == (
            pump,
            PumpActionView::Write { from: pump.written * pump.frame_bytes, to: pump.read * pump.frame_bytes },
        ),
        pump.pumped(PumpEvent::ReadAgain) == (pump, PumpActionView::NextRound),
        pump.pumped(PumpEvent::InputWaitFailed(e)).1 == PumpActionView::Exit(
            Some(FlowErrorView::ReadFailed("alsa input wait: "@ + e@)),
        ),
        pump.pumped(PumpEvent::ReadFailed(e)).1 == PumpActionView::Exit(
            Some(FlowErrorView::ReadFailed("alsa input readi: "@ + e@)),
        ),
        pump.pumped(PumpEvent::WriteFailed(e)).1 == PumpActionView::Exit(
            Some(
                FlowErrorView::WriteFailed(
                    "alsa output writei (frames="@ + decimal((pump.read - pump.written) as nat) + "): "@ + e@,
                ),
            ),
        ),
        pump.pumped(PumpEvent::OutputWaitFailed(e)).1 == PumpActionView::Exit(
            Some(FlowErrorView::WriteFailed("alsa output wait: "@ + e@)),
        ),
{
}

/// Each device is set in the same order: its settings are taken up, then access, format,
/// channels and rate are set, and then they are applied.
pub proof fn devices_are_set_in_order()
    ensures
        opening_steps()[2] == OpenStep::InitParams(PcmSide::Capture),
        opening_steps()[3] == OpenStep::Access(PcmSide::Capture),
        opening_steps()[4] == OpenStep::Format(PcmSide::Capture),
        opening_steps()[5] == OpenStep::Channels(PcmSide::Capture),
        opening_steps()[6] == OpenStep::Rate(PcmSide::Capture),
        opening_steps()[8] == OpenStep::InitParams(PcmSide::Playback),
        opening_steps()[9] == OpenStep::Access(PcmSide::Playback),
        opening_steps()[10] == OpenStep::Format(PcmSide::Playback),
        opening_steps()[11] == OpenStep::Channels(PcmSide::Playback),
        opening_steps()[12] == OpenStep::Rate(PcmSide::Playback),
{
}

} // verus!
