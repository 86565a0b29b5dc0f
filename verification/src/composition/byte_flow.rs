//! Which way bytes take between two ends, and how they are pumped through a pipe.

use crate::text::{cat, cat4};
use vstd::prelude::*;

verus! {

/// What an end is.
#[derive(Debug, Clone, Copy, PartialEq, Eq, Structural)]
pub enum EndpointKind {
    AlsaPcm,
    NamedPipe,
    SharedMemory,
    JackPort,
}

impl EndpointKind {
    /// The name of a kind.
    pub open spec fn name(self) -> Seq<char> {
        match self {
            EndpointKind::AlsaPcm => "AlsaPcm"@,
            EndpointKind::NamedPipe => "NamedPipe"@,
            EndpointKind::SharedMemory => "SharedMemory"@,
            EndpointKind::JackPort => "JackPort"@,
        }
    }

    /// The name of a kind.
    pub fn as_text(&self) -> (r: &'static str)
        ensures
            r@ == self.name(),
    {
        match self {
            EndpointKind::AlsaPcm => "AlsaPcm",
            EndpointKind::NamedPipe => "NamedPipe",
            EndpointKind::SharedMemory => "SharedMemory",
            EndpointKind::JackPort => "JackPort",
        }
    }
}

/// How a sample is written down.
#[derive(Debug, Clone, Copy, PartialEq, Eq, Structural)]
pub enum PcmCodec {
    PcmS16Le,
    PcmS24Le,
    PcmS32Le,
    PcmF32,
}

/// The format of the audio at an end.
#[derive(Debug, Clone)]
pub enum AudioFormat {
    Pcm { codec: PcmCodec, rate_hz: u32, channels: u8 },
    Dsd,
    /// Encoded, with the codec as it is shown.
    EncodedPassthrough { codec: String },
}

/// One end.
#[derive(Debug, Clone)]
pub struct Endpoint {
    pub kind: EndpointKind,
    pub path: String,
    pub format: AudioFormat,
    pub buffer_frames: u32,
}

/// The end where bytes come in, and the end where they go out.
#[derive(Debug, Clone)]
pub struct CompositionEndpoints {
    pub input: Endpoint,
    pub output: Endpoint,
}

/// Why bytes do not flow.
#[derive(Debug, Clone, PartialEq, Eq)]
pub enum ByteFlowError {
    /// There is no way for ends of this kind.
    UnsupportedKind(EndpointKind),
    /// The two ends are of different kinds.
    MixedSubstrate { input: EndpointKind, output: EndpointKind },
    OpenFailed(String),
    ReadFailed(String),
    WriteFailed(String),
}

/// [`ByteFlowError`] over mathematical values.
#[verifier::ext_equal]
pub enum FlowErrorView {
    UnsupportedKind(EndpointKind),
    MixedSubstrate { input: EndpointKind, output: EndpointKind },
    OpenFailed(Seq<char>),
    ReadFailed(Seq<char>),
    WriteFailed(Seq<char>),
}

impl View for ByteFlowError {
    type V = FlowErrorView;

    open spec fn view(&self) -> FlowErrorView {
        match self {
            ByteFlowError::UnsupportedKind(k) => FlowErrorView::UnsupportedKind(*k),
            ByteFlowError::MixedSubstrate { input, output } => FlowErrorView::MixedSubstrate {
                input: *input,
                output: *output,
            },
            ByteFlowError::OpenFailed(s) => FlowErrorView::OpenFailed(s@),
            ByteFlowError::ReadFailed(s) => FlowErrorView::ReadFailed(s@),
            ByteFlowError::WriteFailed(s) => FlowErrorView::WriteFailed(s@),
        }
    }
}

impl FlowErrorView {
    /// How an error reads.
    pub open spec fn text(self) -> Seq<char> {
        match self {
            FlowErrorView::UnsupportedKind(k) => "substrate kind not implemented in this build: "@ + k.name(),
            FlowErrorView::MixedSubstrate { input, output } =>
                "input/output substrate kinds differ for passthrough mode: input="@ + input.name() + " output="@
                + output.name(),
            FlowErrorView::OpenFailed(s) => "substrate open failed: "@ + s,
            FlowErrorView::ReadFailed(s) => "substrate read failed: "@ + s,
            FlowErrorView::WriteFailed(s) => "substrate write failed: "@ + s,
        }
    }
}

impl ByteFlowError {
    /// Writes an error.
    pub fn to_text(&self) -> (r: String)
        ensures
            r@ == self@.text(),
    {
        match self {
            ByteFlowError::UnsupportedKind(k) => cat("substrate kind not implemented in this build: ", k.as_text()),
            ByteFlowError::MixedSubstrate { input, output } => cat4(
                "input/output substrate kinds differ for passthrough mode: input=",
                input.as_text(),
                " output=",
                output.as_text(),
            ),
            ByteFlowError::OpenFailed(s) => cat("substrate open failed: ", s.as_str()),
            ByteFlowError::ReadFailed(s) => cat("substrate read failed: ", s.as_str()),
            ByteFlowError::WriteFailed(s) => cat("substrate write failed: ", s.as_str()),
        }
    }
}

/// A way for bytes.
#[derive(Debug, Clone, Copy, PartialEq, Eq, Structural)]
pub enum Substrate {
    NamedPipe,
    AlsaPcm,
}

/// The way between two ends: both must be of one kind, and of one that there is a way
/// for.
pub open spec fn way_between(input: EndpointKind, output: EndpointKind, has_alsa: bool) -> Result<
    Substrate,
    FlowErrorView,
> {
    if input != output {
        Err(FlowErrorView::MixedSubstrate { input, output })
    } else {
        match input {
            EndpointKind::NamedPipe => Ok(Substrate::NamedPipe),
            EndpointKind::AlsaPcm => if has_alsa {
                Ok(Substrate::AlsaPcm)
            } else {
                Err(FlowErrorView::UnsupportedKind(input))
            },
            _ => Err(FlowErrorView::UnsupportedKind(input)),
        }
    }
}

/// The view of a way or an error.
pub open spec fn way_result(r: Result<Substrate, ByteFlowError>) -> Result<Substrate, FlowErrorView> {
    match r {
        Ok(s) => Ok(s),
        Err(e) => Err(e@),
    }
}

/// Chooses the way between two ends.
pub fn run_substrate(endpoints: &CompositionEndpoints, has_alsa: bool) -> (r: Result<Substrate, ByteFlowError>)
    ensures
        way_result(r) == way_between(endpoints.input.kind, endpoints.output.kind, has_alsa),
{
    let input = endpoints.input.kind;
    let output = endpoints.output.kind;
    if input != output {
        return Err(ByteFlowError::MixedSubstrate { input, output });
    }
    match input {
        EndpointKind::NamedPipe => Ok(Substrate::NamedPipe),
        EndpointKind::AlsaPcm => {
            if has_alsa {
                Ok(Substrate::AlsaPcm)
            } else {
                Err(ByteFlowError::UnsupportedKind(input))
            }
        },
        EndpointKind::SharedMemory => Err(ByteFlowError::UnsupportedKind(input)),
        EndpointKind::JackPort => Err(ByteFlowError::UnsupportedKind(input)),
    }
}

// Pipes.

/// The most bytes that are pumped at once.
pub const PUMP_BUFFER_BYTES: usize = 4096;

/// What happened to a pipe.
#[derive(Debug, Clone)]
pub enum PipeEvent {
    /// It shall end.
    Cancelled,
    /// One end could not be opened.
    OpenFailed { input: bool, error: String },
    /// So many bytes came in; none at the end of the input.
    Came(usize),
    ReadFailed(String),
    /// They went out.
    Went,
    WriteFailed(String),
}

/// What is done with a pipe next.
#[derive(Debug)]
pub enum PipeAction {
    Read,
    /// Write the first bytes of what came in.
    Write(usize),
    Exit(Result<(), ByteFlowError>),
}

/// [`PipeAction`] over mathematical values.
#[verifier::ext_equal]
pub enum PipeActionView {
    Read,
    Write(usize),
    Exit(Option<FlowErrorView>),
}

/// The view of how a flow ends.
pub open spec fn exit_view(r: Result<(), ByteFlowError>) -> Option<FlowErrorView> {
    match r {
        Ok(_) => None,
        Err(e) => Some(e@),
    }
}

impl View for PipeAction {
    type V = PipeActionView;

    open spec fn view(&self) -> PipeActionView {
        match self {
            PipeAction::Read => PipeActionView::Read,
            PipeAction::Write(n) => PipeActionView::Write(*n),
            PipeAction::Exit(r) => PipeActionView::Exit(exit_view(*r)),
        }
    }
}

/// What is done with a pipe after an event: all that came in goes out, to the end of the
/// input, or until it is cancelled or fails.
pub open spec fn pipe_next(endpoints: CompositionEndpoints, event: PipeEvent) -> PipeActionView {
    match event {
        PipeEvent::Cancelled => PipeActionView::Exit(None),
        PipeEvent::OpenFailed { input, error } => PipeActionView::Exit(
            Some(
                FlowErrorView::OpenFailed(
                    if input {
                        "input fifo "@ + endpoints.input.path@ + ": "@ + error@
                    } else {
                        "output fifo "@ + endpoints.output.path@ + ": "@ + error@
                    },
                ),
            ),
        ),
        PipeEvent::Came(n) => if n == 0 {
            PipeActionView::Exit(None)
        } else {
            PipeActionView::Write(n)
        },
        PipeEvent::ReadFailed(e) => PipeActionView::Exit(Some(FlowErrorView::ReadFailed(e@))),
        PipeEvent::Went => PipeActionView::Read,
        PipeEvent::WriteFailed(e) => PipeActionView::Exit(Some(FlowErrorView::WriteFailed(e@))),
    }
}

/// Decides what is done with a pipe.
pub fn pipe_step(endpoints: &CompositionEndpoints, event: PipeEvent) -> (r: PipeAction)
    ensures
        r@ == pipe_next(*endpoints, event),
{
    match event {
        PipeEvent::Cancelled => PipeAction::Exit(Ok(())),
        PipeEvent::OpenFailed { input, error } => {
            let message = if input {
                cat4("input fifo ", endpoints.input.path.as_str(), ": ", error.as_str())
            } else {
                cat4("output fifo ", endpoints.output.path.as_str(), ": ", error.as_str())
            };
            PipeAction::Exit(Err(ByteFlowError::OpenFailed(message)))
        },
        PipeEvent::Came(n) => {
            if n == 0 {
                PipeAction::Exit(Ok(()))
            } else {
                PipeAction::Write(n)
            }
        },
        PipeEvent::ReadFailed(e) => PipeAction::Exit(Err(ByteFlowError::ReadFailed(e))),
        PipeEvent::Went => PipeAction::Read,
        PipeEvent::WriteFailed(e) => PipeAction::Exit(Err(ByteFlowError::WriteFailed(e))),
    }
}

/// Ends of different kinds are never connected, and ends of one kind are only where
/// there is a way for it.
pub proof fn only_like_ends_are_connected(input: EndpointKind, output: EndpointKind, has_alsa: bool)
    ensures
        way_between(input, output, has_alsa) is Ok <==> input == output && (input == EndpointKind::NamedPipe || (input
            == EndpointKind::AlsaPcm && has_alsa)),
{
}

/// Bytes go through a pipe as they came: what came in is written, all of it and nothing
/// else, before more is read; the end of the input ends the flow without an error, and so
/// does cancelling it.
pub proof fn pipes_pass_everything_on(endpoints: CompositionEndpoints, event: PipeEvent)
    ensures
        event matches PipeEvent::Came(n) ==> n > 0 ==> pipe_next(endpoints, event) == PipeActionView::Write(n),
        event matches PipeEvent::Came(n) ==> n == 0 ==> pipe_next(endpoints, event) == PipeActionView::Exit(None),
        event is Went ==> pipe_next(endpoints, event) is Read,
        event is Cancelled ==> pipe_next(endpoints, event) == PipeActionView::Exit(None),
        pipe_next(endpoints, event) matches PipeActionView::Exit(None) ==> event is Cancelled || event == PipeEvent::Came(0),
{
}

/// A flow that fails says at which end: where it could not be opened, read or written.
pub proof fn failed_pipes_say_where(endpoints: CompositionEndpoints, error: String)
    ensures
        pipe_next(endpoints, PipeEvent::OpenFailed { input: true, error }) == PipeActionView::Exit(
            Some(FlowErrorView::OpenFailed("input fifo "@ + endpoints.input.path@ + ": "@ + error@)),
        ),
        pipe_next(endpoints, PipeEvent::OpenFailed { input: false, error }) == PipeActionView::Exit(
            Some(FlowErrorView::OpenFailed("output fifo "@ + endpoints.output.path@ + ": "@ + error@)),
        ),
        pipe_next(endpoints, PipeEvent::ReadFailed(error)) == PipeActionView::Exit(
            Some(FlowErrorView::ReadFailed(error@)),
        ),
        pipe_next(endpoints, PipeEvent::WriteFailed(error)) == PipeActionView::Exit(
            Some(FlowErrorView::WriteFailed(error@)),
        ),
{
}

/// Each kind of ends gets its own way, and ends that cannot be connected are told apart.
pub proof fn kinds_get_their_way(input: EndpointKind, output: EndpointKind, has_alsa: bool)
    ensures
        input == EndpointKind::NamedPipe && output == input ==> way_between(input, output, has_alsa) == Ok::<
            Substrate,
            FlowErrorView,
        >(Substrate::NamedPipe),
        input == EndpointKind::AlsaPcm && output == input && has_alsa ==> way_between(input, output, has_alsa) == Ok::<
            Substrate,
            FlowErrorView,
        >(Substrate::AlsaPcm),
        input != output ==> way_between(input, output, has_alsa) == Err::<Substrate, FlowErrorView>(
            FlowErrorView::MixedSubstrate { input, output },
        ),
        input == output && way_between(input, output, has_alsa) is Err ==> way_between(input, output, has_alsa) == Err::<
            Substrate,
            FlowErrorView,
        >(FlowErrorView::UnsupportedKind(input)),
{
}

} // verus!
