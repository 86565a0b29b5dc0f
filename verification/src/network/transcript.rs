//! How the network logic and the world take turns.
//!
//! The logic is a function of what the world has replied so far. It reads the replies
//! in order; where it needs one that is not there yet, it stops and names the action
//! that would bring it. Whoever runs it performs the action, appends the reply and
//! runs it again.

use crate::error::{ErrorView, PluginError};
use crate::network::captive_state::{CaptiveSessionState, CaptiveView, PortalForm};
use crate::network::intent::{IntentView, NetworkIntent};
use crate::network::secrets::{EnvelopeView, SecretEnvelope};
use crate::text::{push_text, texts};
use vstd::prelude::*;

verus! {

/// What a finished program left behind.
#[derive(Debug, Clone)]
pub struct CommandOutput {
    pub success: bool,
    /// The exit code, where the program was not ended by a signal.
    pub code: Option<i32>,
    pub stdout: String,
    pub stderr: String,
}

/// [`CommandOutput`] over character sequences.
#[verifier::ext_equal]
pub struct OutputView {
    pub success: bool,
    pub code: Option<i32>,
    pub stdout: Seq<char>,
    pub stderr: Seq<char>,
}

impl View for CommandOutput {
    type V = OutputView;

    open spec fn view(&self) -> OutputView {
        OutputView { success: self.success, code: self.code, stdout: self.stdout@, stderr: self.stderr@ }
    }
}

/// The kinds of request payload.
#[derive(Debug, Clone, Copy, PartialEq, Eq, Structural)]
pub enum PayloadKind {
    Scan,
    IntentSet,
    IntentApply,
    CaptiveStatus,
    CaptiveStart,
    CaptiveSubmit,
    CaptiveComplete,
}

/// The payload of a scan request.
#[derive(Debug, Clone)]
pub struct ScanRequest {
    pub ifname: Option<String>,
    pub refresh: bool,
}

/// The payload of a request that stores an intent.
#[derive(Debug, Clone)]
pub struct IntentSetRequest {
    pub intent: NetworkIntent,
    pub sta_psk: Option<String>,
    pub ap_psk: Option<String>,
    pub apply: bool,
}

/// The payload of a request that applies an intent.
#[derive(Debug, Clone)]
pub struct IntentApplyRequest {
    pub intent: Option<NetworkIntent>,
}

/// The payload of a request for the captive-portal status.
#[derive(Debug, Clone)]
pub struct CaptiveStatusRequest {
    pub probe: bool,
    pub url: Option<String>,
}

/// The payload of a request that starts a captive-portal session.
#[derive(Debug, Clone)]
pub struct CaptiveStartRequest {
    pub url: Option<String>,
}

/// The payload of a request that submits credentials to a portal.
#[derive(Debug, Clone)]
pub struct CaptiveSubmitRequest {
    pub url: Option<String>,
    pub method: Option<String>,
    pub form: PortalForm,
    pub confirm_replay: bool,
}

/// The payload of a request that ends a captive-portal session.
#[derive(Debug, Clone)]
pub struct CaptiveCompleteRequest {
    pub success: Option<bool>,
}

/// A decoded payload.
#[derive(Debug, Clone)]
pub enum Payload {
    Scan(ScanRequest),
    IntentSet(IntentSetRequest),
    IntentApply(IntentApplyRequest),
    CaptiveStatus(CaptiveStatusRequest),
    CaptiveStart(CaptiveStartRequest),
    CaptiveSubmit(CaptiveSubmitRequest),
    CaptiveComplete(CaptiveCompleteRequest),
}

/// How the writing of a secret file went: done, or which of its steps failed and why.
#[derive(Debug, Clone)]
pub enum SecretWrite {
    Done,
    ParentFailed(String),
    OpenFailed(String),
    WriteFailed(String),
    FlushFailed(String),
    SyncFailed(String),
    RenameFailed(String),
}

/// What the world replies to an action.
#[derive(Debug)]
pub enum Reply {
    /// The program ran to its end.
    Ran(CommandOutput),
    /// The program could not be started.
    SpawnFailed(String),
    /// The program did not end in time.
    TimedOut,
    /// What `iw` printed of a link, where it could be started.
    Link(Option<String>),
    /// The pause is over.
    Slept,
    /// The text of a file or of an environment variable, where there is one.
    Text(Option<String>),
    /// Whether the path exists.
    Present(bool),
    /// A reading of a clock.
    Now(u64),
    /// How the writing or removing of a file went.
    Wrote(Result<(), String>),
    /// How the writing of a secret file went.
    SecretWrote(SecretWrite),
    /// A nonce, or why none could be drawn.
    Nonce(Result<[u8; 24], PluginError>),
    /// A serialized value.
    Encoded(Result<String, String>),
    /// An intent document, read with its envelope and without.
    IntentDoc { envelope: Result<(u32, NetworkIntent), String>, bare: Result<NetworkIntent, String> },
    /// A session document, read with its envelope and without.
    CaptiveDoc { envelope: Result<(u32, CaptiveSessionState), String>, bare: Result<CaptiveSessionState, String> },
    /// A secret's envelope, where the document is one.
    SecretDoc(Option<SecretEnvelope>),
    /// The payload of the request.
    Decoded(Result<Payload, String>),
}

/// Something that only the world can do.
#[derive(Debug, Clone)]
pub enum Action {
    /// Run a program and wait for its end, for at most `timeout_ms` where it is given.
    Run { program: String, args: Vec<String>, timeout_ms: Option<u64> },
    /// Run `iw dev <ifname> link`.
    Link { ifname: String },
    /// Pause.
    Sleep { ms: u64 },
    /// Read a text file.
    ReadText { path: String },
    /// See whether a path exists.
    Probe { path: String },
    /// Remove a file.
    Remove { path: String },
    /// Read an environment variable.
    ReadVar { name: String },
    /// Read the wall clock, in seconds since the epoch.
    EpochSeconds,
    /// Read a clock that only moves forward, in milliseconds.
    MonotonicMs,
    /// Write a text file by way of `tmp`, making the directories above it.
    WriteText { path: String, tmp: String, data: String },
    /// Write a secret file by way of `tmp`, readable by its owner alone.
    WriteSecret { path: String, tmp: String, data: String, mode: u32 },
    /// Draw a nonce.
    DrawNonce,
    /// Serialize an intent with its schema version, as TOML.
    EncodeIntent { schema_version: u32, intent: NetworkIntent },
    /// Serialize a session with its schema version, as JSON.
    EncodeCaptive { schema_version: u32, state: CaptiveSessionState },
    /// Serialize a secret's envelope, as JSON.
    EncodeSecret { envelope: SecretEnvelope },
    /// Read an intent out of TOML.
    DecodeIntent { raw: String },
    /// Read a session out of JSON.
    DecodeCaptive { raw: String },
    /// Read a secret's envelope out of JSON.
    DecodeSecret { raw: String },
    /// Read the request's payload out of JSON.
    DecodePayload { kind: PayloadKind },
}

/// [`Action`] over character sequences.
#[verifier::ext_equal]
pub enum Ask {
    Run { program: Seq<char>, args: Seq<Seq<char>>, timeout_ms: Option<u64> },
    Link { ifname: Seq<char> },
    Sleep { ms: u64 },
    ReadText { path: Seq<char> },
    Probe { path: Seq<char> },
    Remove { path: Seq<char> },
    ReadVar { name: Seq<char> },
    EpochSeconds,
    MonotonicMs,
    WriteText { path: Seq<char>, tmp: Seq<char>, data: Seq<char> },
    WriteSecret { path: Seq<char>, tmp: Seq<char>, data: Seq<char>, mode: u32 },
    DrawNonce,
    EncodeIntent { schema_version: u32, intent: IntentView },
    EncodeCaptive { schema_version: u32, state: CaptiveView },
    EncodeSecret { envelope: EnvelopeView },
    DecodeIntent { raw: Seq<char> },
    DecodeCaptive { raw: Seq<char> },
    DecodeSecret { raw: Seq<char> },
    DecodePayload { kind: PayloadKind },
}

impl View for Action {
    type V = Ask;

    open spec fn view(&self) -> Ask {
        match self {
            Action::Run { program, args, timeout_ms } => Ask::Run {
                program: program@,
                args: texts(args@),
                timeout_ms: *timeout_ms,
            },
            Action::Link { ifname } => Ask::Link { ifname: ifname@ },
            Action::Sleep { ms } => Ask::Sleep { ms: *ms },
            Action::ReadText { path } => Ask::ReadText { path: path@ },
            Action::Probe { path } => Ask::Probe { path: path@ },
            Action::Remove { path } => Ask::Remove { path: path@ },
            Action::ReadVar { name } => Ask::ReadVar { name: name@ },
            Action::EpochSeconds => Ask::EpochSeconds,
            Action::MonotonicMs => Ask::MonotonicMs,
            Action::WriteText { path, tmp, data } => Ask::WriteText { path: path@, tmp: tmp@, data: data@ },
            Action::WriteSecret { path, tmp, data, mode } => Ask::WriteSecret {
                path: path@,
                tmp: tmp@,
                data: data@,
                mode: *mode,
            },
            Action::DrawNonce => Ask::DrawNonce,
            Action::EncodeIntent { schema_version, intent } => Ask::EncodeIntent {
                schema_version: *schema_version,
                intent: intent@,
            },
            Action::EncodeCaptive { schema_version, state } => Ask::EncodeCaptive {
                schema_version: *schema_version,
                state: state@,
            },
            Action::EncodeSecret { envelope } => Ask::EncodeSecret { envelope: envelope@ },
            Action::DecodeIntent { raw } => Ask::DecodeIntent { raw: raw@ },
            Action::DecodeCaptive { raw } => Ask::DecodeCaptive { raw: raw@ },
            Action::DecodeSecret { raw } => Ask::DecodeSecret { raw: raw@ },
            Action::DecodePayload { kind } => Ask::DecodePayload { kind: *kind },
        }
    }
}

/// Why the logic stopped before its end.
#[derive(Debug, Clone)]
pub enum Halt {
    /// The action whose reply comes next.
    Need(Action),
    /// The logic failed.
    Fail(PluginError),
}

/// How far the logic has come: the replies that it has read, and the lines that it
/// has reported.
#[verifier::ext_equal]
pub struct Mark {
    pub pos: int,
    pub log: Seq<Seq<char>>,
}

impl Mark {
    /// One reply further on.
    pub open spec fn read(self) -> Mark {
        Mark { pos: self.pos + 1, log: self.log }
    }

    /// One reported line further on.
    pub open spec fn said(self, line: Seq<char>) -> Mark {
        Mark { pos: self.pos, log: self.log.push(line) }
    }
}

/// Where a piece of the logic ends on given replies: with a value, further on; at an
/// action; or in an error.
pub enum Progress<V> {
    Go(Mark, V),
    Need(Ask),
    Fail(ErrorView),
}

impl Halt {
    /// The same as a progress.
    pub open spec fn stop<V>(self) -> Progress<V> {
        match self {
            Halt::Need(a) => Progress::Need(a@),
            Halt::Fail(e) => Progress::Fail(e@),
        }
    }
}

/// The logic's place in the replies, and what it has reported so far.
pub struct Run<'a> {
    pub replies: &'a Vec<Reply>,
    pub pos: usize,
    pub log: Vec<String>,
}

impl<'a> View for Run<'a> {
    type V = Mark;

    open spec fn view(&self) -> Mark {
        Mark { pos: self.pos as int, log: texts(self.log@) }
    }
}

/// The reply at a place, where there is one.
pub open spec fn reply_at(h: Seq<Reply>, pos: int) -> Option<Reply> {
    if 0 <= pos < h.len() {
        Some(h[pos])
    } else {
        None
    }
}

/// What became of a program: its output, or why there is none.
#[verifier::ext_equal]
pub enum RunView {
    Output(OutputView),
    SpawnFailed(Seq<char>),
    TimedOut,
}

/// A program's outcome as it stands in the replies.
pub enum Finished<'a> {
    Output(&'a CommandOutput),
    SpawnFailed(&'a String),
    TimedOut,
}

impl<'a> View for Finished<'a> {
    type V = RunView;

    open spec fn view(&self) -> RunView {
        match self {
            Finished::Output(o) => RunView::Output(o@),
            Finished::SpawnFailed(e) => RunView::SpawnFailed(e@),
            Finished::TimedOut => RunView::TimedOut,
        }
    }
}

/// The outcome of the program that was run at this point.
pub open spec fn ran(h: Seq<Reply>, m: Mark, program: Seq<char>, args: Seq<Seq<char>>, timeout_ms: Option<u64>) -> Progress<RunView> {
    match reply_at(h, m.pos) {
        Some(Reply::Ran(o)) => Progress::Go(m.read(), RunView::Output(o@)),
        Some(Reply::SpawnFailed(e)) => Progress::Go(m.read(), RunView::SpawnFailed(e@)),
        Some(Reply::TimedOut) => Progress::Go(m.read(), RunView::TimedOut),
        _ => Progress::Need(Ask::Run { program, args, timeout_ms }),
    }
}

/// The pause at this point.
pub open spec fn slept(h: Seq<Reply>, m: Mark, ms: u64) -> Progress<()> {
    match reply_at(h, m.pos) {
        Some(Reply::Slept) => Progress::Go(m.read(), ()),
        _ => Progress::Need(Ask::Sleep { ms }),
    }
}

/// What `iw` printed of a link at this point.
pub open spec fn linked(h: Seq<Reply>, m: Mark, ifname: Seq<char>) -> Progress<Option<Seq<char>>> {
    match reply_at(h, m.pos) {
        Some(Reply::Link(t)) => Progress::Go(m.read(), crate::text::opt_text(t)),
        _ => Progress::Need(Ask::Link { ifname }),
    }
}

/// The text that is read at this point.
pub open spec fn read_text(h: Seq<Reply>, m: Mark, ask: Ask) -> Progress<Option<Seq<char>>> {
    match reply_at(h, m.pos) {
        Some(Reply::Text(t)) => Progress::Go(m.read(), crate::text::opt_text(t)),
        _ => Progress::Need(ask),
    }
}

/// Whether the path exists at this point.
pub open spec fn probed(h: Seq<Reply>, m: Mark, path: Seq<char>) -> Progress<bool> {
    match reply_at(h, m.pos) {
        Some(Reply::Present(b)) => Progress::Go(m.read(), b),
        _ => Progress::Need(Ask::Probe { path }),
    }
}

/// The clock at this point.
pub open spec fn clock(h: Seq<Reply>, m: Mark, ask: Ask) -> Progress<u64> {
    match reply_at(h, m.pos) {
        Some(Reply::Now(t)) => Progress::Go(m.read(), t),
        _ => Progress::Need(ask),
    }
}

/// The view of a result without a value.
pub open spec fn done_result(r: Result<(), String>) -> Result<(), Seq<char>> {
    match r {
        Ok(_) => Ok(()),
        Err(e) => Err(e@),
    }
}

/// How the writing or removing went at this point.
pub open spec fn wrote(h: Seq<Reply>, m: Mark, ask: Ask) -> Progress<Result<(), Seq<char>>> {
    match reply_at(h, m.pos) {
        Some(Reply::Wrote(r)) => Progress::Go(m.read(), done_result(r)),
        _ => Progress::Need(ask),
    }
}

/// The view of a result that is a text.
pub open spec fn encoded_result(r: Result<String, String>) -> Result<Seq<char>, Seq<char>> {
    match r {
        Ok(s) => Ok(s@),
        Err(e) => Err(e@),
    }
}

/// The value serialized at this point.
pub open spec fn encoded(h: Seq<Reply>, m: Mark, ask: Ask) -> Progress<Result<Seq<char>, Seq<char>>> {
    match reply_at(h, m.pos) {
        Some(Reply::Encoded(r)) => Progress::Go(m.read(), encoded_result(r)),
        _ => Progress::Need(ask),
    }
}

impl<'a> Run<'a> {
    /// The place lies within the replies.
    pub open spec fn wf(&self) -> bool {
        self.pos <= self.replies@.len()
    }

    /// Whether `self` goes on from `before`, on the same replies.
    pub open spec fn follows(&self, before: &Run<'a>) -> bool {
        self.wf() && self.replies == before.replies
    }

    /// The start of a run.
    pub fn new(replies: &'a Vec<Reply>) -> (r: Run<'a>)
        ensures
            r.wf(),
            r.replies == replies,
            r@ == (Mark { pos: 0, log: Seq::<Seq<char>>::empty() }),
    {
        let r = Run { replies, pos: 0, log: Vec::new() };
        proof {
            assert(r@.log =~= Seq::<Seq<char>>::empty());
        }
        r
    }

    /// Reports a line.
    pub fn say(&mut self, line: &str)
        requires
            old(self).wf(),
        ensures
            final(self).follows(old(self)),
            final(self)@ == old(self)@.said(line@),
    {
        push_text(&mut self.log, line);
    }

    fn peek(&self) -> (r: Option<&'a Reply>)
        requires
            self.wf(),
        ensures
            match r {
                Some(v) => self.pos < self.replies@.len() <= usize::MAX && reply_at(self.replies@, self.pos as int) == Some(*v),
                None => reply_at(self.replies@, self.pos as int) is None,
            },
    {
        if self.pos < self.replies.len() {
            Some(&self.replies[self.pos])
        } else {
            None
        }
    }

    /// Runs a program.
    pub fn run(&mut self, program: &str, args: Vec<String>, timeout_ms: Option<u64>) -> (r: Result<Finished<'a>, Halt>)
        requires
            old(self).wf(),
        ensures
            final(self).follows(old(self)),
            match r {
                Ok(v) => ran(old(self).replies@, old(self)@, program@, texts(args@), timeout_ms) == Progress::Go(final(self)@, v@),
                Err(h) => ran(old(self).replies@, old(self)@, program@, texts(args@), timeout_ms) == h.stop::<RunView>(),
            },
    {
        match self.peek() {
            Some(Reply::Ran(o)) => {
                self.pos += 1;
                Ok(Finished::Output(o))
            },
            Some(Reply::SpawnFailed(e)) => {
                self.pos += 1;
                Ok(Finished::SpawnFailed(e))
            },
            Some(Reply::TimedOut) => {
                self.pos += 1;
                Ok(Finished::TimedOut)
            },
            _ => Err(Halt::Need(Action::Run { program: program.to_owned(), args, timeout_ms })),
        }
    }

    /// Pauses.
    pub fn sleep(&mut self, ms: u64) -> (r: Result<(), Halt>)
        requires
            old(self).wf(),
        ensures
            final(self).follows(old(self)),
            match r {
                Ok(v) => slept(old(self).replies@, old(self)@, ms) == Progress::Go(final(self)@, v),
                Err(h) => slept(old(self).replies@, old(self)@, ms) == h.stop::<()>(),
            },
    {
        match self.peek() {
            Some(Reply::Slept) => {
                self.pos += 1;
                Ok(())
            },
            _ => Err(Halt::Need(Action::Sleep { ms })),
        }
    }

    /// Asks for a link.
    pub fn link(&mut self, ifname: &str) -> (r: Result<&'a Option<String>, Halt>)
        requires
            old(self).wf(),
        ensures
            final(self).follows(old(self)),
            match r {
                Ok(v) => {
                    &&& linked(old(self).replies@, old(self)@, ifname@) == Progress::Go(final(self)@, crate::text::opt_text(*v))
                    &&& reply_at(old(self).replies@, old(self)@.pos) == Some(Reply::Link(*v))
                },
                Err(h) => linked(old(self).replies@, old(self)@, ifname@) == h.stop::<Option<Seq<char>>>(),
            },
    {
        match self.peek() {
            Some(Reply::Link(t)) => {
                self.pos += 1;
                Ok(t)
            },
            _ => Err(Halt::Need(Action::Link { ifname: ifname.to_owned() })),
        }
    }

    fn text(&mut self, action: Action) -> (r: Result<&'a Option<String>, Halt>)
        requires
            old(self).wf(),
        ensures
            final(self).follows(old(self)),
            match r {
                Ok(v) => read_text(old(self).replies@, old(self)@, action@) == Progress::Go(final(self)@, crate::text::opt_text(*v)),
                Err(h) => read_text(old(self).replies@, old(self)@, action@) == h.stop::<Option<Seq<char>>>(),
            },
    {
        match self.peek() {
            Some(Reply::Text(t)) => {
                self.pos += 1;
                Ok(t)
            },
            _ => Err(Halt::Need(action)),
        }
    }

    /// Reads a text file.
    pub fn read_file(&mut self, path: &str) -> (r: Result<&'a Option<String>, Halt>)
        requires
            old(self).wf(),
        ensures
            final(self).follows(old(self)),
            match r {
                Ok(v) => read_text(old(self).replies@, old(self)@, Ask::ReadText { path: path@ }) == Progress::Go(final(self)@, crate::text::opt_text(*v)),
                Err(h) => read_text(old(self).replies@, old(self)@, Ask::ReadText { path: path@ }) == h.stop::<Option<Seq<char>>>(),
            },
    {
        self.text(Action::ReadText { path: path.to_owned() })
    }

    /// Reads an environment variable.
    pub fn read_var(&mut self, name: &str) -> (r: Result<&'a Option<String>, Halt>)
        requires
            old(self).wf(),
        ensures
            final(self).follows(old(self)),
            match r {
                Ok(v) => read_text(old(self).replies@, old(self)@, Ask::ReadVar { name: name@ }) == Progress::Go(final(self)@, crate::text::opt_text(*v)),
                Err(h) => read_text(old(self).replies@, old(self)@, Ask::ReadVar { name: name@ }) == h.stop::<Option<Seq<char>>>(),
            },
    {
        self.text(Action::ReadVar { name: name.to_owned() })
    }

    /// Sees whether a path exists.
    pub fn probe(&mut self, path: &str) -> (r: Result<bool, Halt>)
        requires
            old(self).wf(),
        ensures
            final(self).follows(old(self)),
            match r {
                Ok(v) => probed(old(self).replies@, old(self)@, path@) == Progress::Go(final(self)@, v),
                Err(h) => probed(old(self).replies@, old(self)@, path@) == h.stop::<bool>(),
            },
    {
        match self.peek() {
            Some(Reply::Present(b)) => {
                self.pos += 1;
                Ok(*b)
            },
            _ => Err(Halt::Need(Action::Probe { path: path.to_owned() })),
        }
    }

    /// Reads a clock.
    pub fn now(&mut self, action: Action) -> (r: Result<u64, Halt>)
        requires
            old(self).wf(),
        ensures
            final(self).follows(old(self)),
            match r {
                Ok(v) => clock(old(self).replies@, old(self)@, action@) == Progress::Go(final(self)@, v),
                Err(h) => clock(old(self).replies@, old(self)@, action@) == h.stop::<u64>(),
            },
    {
        match self.peek() {
            Some(Reply::Now(t)) => {
                self.pos += 1;
                Ok(*t)
            },
            _ => Err(Halt::Need(action)),
        }
    }

    /// Writes or removes a file.
    pub fn write(&mut self, action: Action) -> (r: Result<&'a Result<(), String>, Halt>)
        requires
            old(self).wf(),
        ensures
            final(self).follows(old(self)),
            match r {
                Ok(v) => wrote(old(self).replies@, old(self)@, action@) == Progress::Go(final(self)@, done_result(*v)),
                Err(h) => wrote(old(self).replies@, old(self)@, action@) == h.stop::<Result<(), Seq<char>>>(),
            },
    {
        match self.peek() {
            Some(Reply::Wrote(r)) => {
                self.pos += 1;
                Ok(r)
            },
            _ => Err(Halt::Need(action)),
        }
    }

    /// Serializes a value.
    pub fn encode(&mut self, action: Action) -> (r: Result<&'a Result<String, String>, Halt>)
        requires
            old(self).wf(),
        ensures
            final(self).follows(old(self)),
            match r {
                Ok(v) => encoded(old(self).replies@, old(self)@, action@) == Progress::Go(final(self)@, encoded_result(*v)),
                Err(h) => encoded(old(self).replies@, old(self)@, action@) == h.stop::<Result<Seq<char>, Seq<char>>>(),
            },
    {
        match self.peek() {
            Some(Reply::Encoded(r)) => {
                self.pos += 1;
                Ok(r)
            },
            _ => Err(Halt::Need(action)),
        }
    }

    /// Gives the reply of another shape that comes next, where it is there.
    pub fn next(&mut self) -> (r: Option<&'a Reply>)
        requires
            old(self).wf(),
        ensures
            final(self).follows(old(self)),
            match r {
                Some(v) => reply_at(old(self).replies@, old(self)@.pos) == Some(*v) && final(self)@ == old(self)@.read(),
                None => reply_at(old(self).replies@, old(self)@.pos) is None && final(self)@ == old(self)@,
            },
    {
        match self.peek() {
            Some(v) => {
                self.pos += 1;
                Some(v)
            },
            None => None,
        }
    }
}

/// What is asked is what the action says, word for word.
pub proof fn actions_ask_for_what_they_say(a: Action)
    ensures
        a matches Action::Run { program, args, timeout_ms: t } ==> a@ == (Ask::Run {
            program: program@,
            args: texts(args@),
            timeout_ms: t,
        }),
        a matches Action::Sleep { ms: t } ==> a@ == (Ask::Sleep { ms: t }),
        a matches Action::ReadText { path: p } ==> a@ == (Ask::ReadText { path: p@ }),
        a matches Action::Probe { path: p } ==> a@ == (Ask::Probe { path: p@ }),
        a matches Action::Remove { path: p } ==> a@ == (Ask::Remove { path: p@ }),
        a matches Action::ReadVar { name: n } ==> a@ == (Ask::ReadVar { name: n@ }),
        a matches Action::WriteText { path: p, tmp: t, data: d } ==> a@ == (Ask::WriteText { path: p@, tmp: t@, data: d@ }),
        a matches Action::WriteSecret { path: p, tmp: t, data: d, mode: m } ==> a@ == (Ask::WriteSecret {
            path: p@,
            tmp: t@,
            data: d@,
            mode: m,
        }),
        a is EpochSeconds <==> a@ is EpochSeconds,
        a is MonotonicMs <==> a@ is MonotonicMs,
        a is DrawNonce <==> a@ is DrawNonce,
{
}

/// The replies are read one after the other from the first on; reading moves on by one and
/// reports nothing, and reporting adds a line behind the others and reads nothing.
pub proof fn replies_are_read_in_order(h: Seq<Reply>, m: Mark, i: int, line: Seq<char>)
    ensures
        0 <= i < h.len() ==> reply_at(h, i) == Some(h[i]),
        i < 0 || i >= h.len() ==> reply_at(h, i) is None,
        m.read().pos == m.pos + 1,
        m.read().log == m.log,
        m.said(line).pos == m.pos,
        m.said(line).log == m.log.push(line),
{
}

/// Each field is seen under its own name, as it is.
pub proof fn fields_are_seen_under_their_names(command_output: CommandOutput)
    ensures
        command_output@.success == command_output.success,
        command_output@.code == command_output.code,
        command_output@.stdout == command_output.stdout@,
        command_output@.stderr == command_output.stderr@,
{
}

} // verus!
