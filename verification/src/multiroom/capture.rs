//! The source: recording chunks, sending them as frames, and tracing their way.

use crate::encoding::{base64_encoded, decodes_to, encode_base64};
use crate::multiroom::samples::{
    samples_are_little_endian, samples_read_back,
    encode_samples, encoded, AudioFrameSeed, SeedView, BASELINE_CHANNELS, BASELINE_SAMPLE_RATE_HZ, CODEC,
    SAMPLES_PER_CHUNK,
};
use crate::multiroom::trace::{
    lemma_source_index,
    completed, enter_recipient, lemma_found_at, lemma_recipient_index, note_source, nothing_known, opt_trace, recipient_entered, recipient_index, recipient_room,
    recipient_views, record_of, source_index, source_placed, source_room, try_complete_record, RecipientEntry, RecipientTracePartial,
    RecipientView, RecordView, SourceEntry, SourceTracePartial, TraceState, TraceView, TRACE_PENDING_MAX,
};
use vstd::prelude::*;

verus! {

// Recording.

/// What came of waiting for samples and reading them.
#[derive(Debug, Clone, Copy, PartialEq, Eq, Structural)]
pub enum CaptureEvent {
    /// Nobody takes the chunks any more.
    Closed,
    /// No samples came in time.
    TimedOut,
    /// Waiting failed.
    WaitFailed,
    /// Reading gave a number of frames.
    Read(usize),
    /// Reading failed, with an error number.
    ReadFailed(i32),
}

/// What to do next.
#[derive(Debug, Clone)]
pub enum CaptureAction {
    /// Stop recording.
    Stop,
    /// Wait for samples.
    Wait,
    /// Hand a chunk on, and wait for samples.
    Queue(Vec<u8>),
    /// Prepare and start the device again, and wait for samples.
    Recover,
}

/// [`CaptureAction`] over mathematical values.
#[verifier::ext_equal]
pub enum CaptureActionView {
    Stop,
    Wait,
    Queue(Seq<u8>),
    Recover,
}

impl View for CaptureAction {
    type V = CaptureActionView;

    open spec fn view(&self) -> CaptureActionView {
        match self {
            CaptureAction::Stop => CaptureActionView::Stop,
            CaptureAction::Wait => CaptureActionView::Wait,
            CaptureAction::Queue(b) => CaptureActionView::Queue(b@),
            CaptureAction::Recover => CaptureActionView::Recover,
        }
    }
}

/// The error number that says only that there is nothing to read yet.
pub const EAGAIN: i32 = 11;

/// What to do after an event: frames that were read are handed on as bytes, nothing to
/// read is no error, and every other error is recovered from.
pub open spec fn capture_next(event: CaptureEvent, buf: Seq<i16>) -> CaptureActionView {
    match event {
        CaptureEvent::Closed => CaptureActionView::Stop,
        CaptureEvent::TimedOut => CaptureActionView::Wait,
        CaptureEvent::WaitFailed => CaptureActionView::Recover,
        CaptureEvent::Read(frames) => if frames > 0 {
            CaptureActionView::Queue(encoded(buf.take(frames * 2)))
        } else {
            CaptureActionView::Wait
        },
        CaptureEvent::ReadFailed(errno) => if errno == EAGAIN {
            CaptureActionView::Wait
        } else {
            CaptureActionView::Recover
        },
    }
}

/// Decides what to do after an event. The frames that were read stand in the buffer.
pub fn capture_step(event: CaptureEvent, buf: &[i16]) -> (r: CaptureAction)
    requires
        event matches CaptureEvent::Read(frames) ==> frames * 2 <= buf@.len() <= SAMPLES_PER_CHUNK,
    ensures
        r@ == capture_next(event, buf@),
{
    match event {
        CaptureEvent::Closed => CaptureAction::Stop,
        CaptureEvent::TimedOut => CaptureAction::Wait,
        CaptureEvent::WaitFailed => CaptureAction::Recover,
        CaptureEvent::Read(frames) => {
            if frames > 0 {
                CaptureAction::Queue(encode_samples(buf, frames * 2))
            } else {
                CaptureAction::Wait
            }
        },
        CaptureEvent::ReadFailed(errno) => {
            if errno == EAGAIN {
                CaptureAction::Wait
            } else {
                CaptureAction::Recover
            }
        },
    }
}

/// The most chunks that wait to be sent: half a second and more.
pub const CAPTURE_QUEUE_CHUNKS: usize = 32;

/// A chunk that was recorded.
#[derive(Debug, Clone)]
pub struct CaptureChunk {
    /// When its samples were read.
    pub capture_readi_return_ns: u64,
    /// When it was queued.
    pub mpsc_send_ns: u64,
    pub pcm: Vec<u8>,
}

/// [`CaptureChunk`] over mathematical values.
#[verifier::ext_equal]
pub struct ChunkView {
    pub capture_readi_return_ns: u64,
    pub mpsc_send_ns: u64,
    pub pcm: Seq<u8>,
}

impl View for CaptureChunk {
    type V = ChunkView;

    open spec fn view(&self) -> ChunkView {
        ChunkView {
            capture_readi_return_ns: self.capture_readi_return_ns,
            mpsc_send_ns: self.mpsc_send_ns,
            pcm: self.pcm@,
        }
    }
}

/// The chunks that wait to be sent, the oldest first. Recording never waits: where there
/// are too many, the oldest is dropped.
#[derive(Debug)]
pub struct CaptureQueue {
    pub chunks: Vec<CaptureChunk>,
}

impl View for CaptureQueue {
    type V = Seq<ChunkView>;

    open spec fn view(&self) -> Seq<ChunkView> {
        self.chunks@.map_values(|c: CaptureChunk| c@)
    }
}

/// The chunks that wait after one more was recorded.
pub open spec fn queued(q: Seq<ChunkView>, chunk: ChunkView) -> Seq<ChunkView> {
    if q.len() >= CAPTURE_QUEUE_CHUNKS {
        q.drop_first().push(chunk)
    } else {
        q.push(chunk)
    }
}

/// The chunks that wait after several were recorded.
pub open spec fn queued_all(q: Seq<ChunkView>, chunks: Seq<ChunkView>) -> Seq<ChunkView>
    decreases chunks.len(),
{
    if chunks.len() == 0 {
        q
    } else {
        queued(queued_all(q, chunks.drop_last()), chunks.last())
    }
}

impl CaptureQueue {
    /// No chunk waits.
    pub fn new() -> (r: CaptureQueue)
        ensures
            r@ == Seq::<ChunkView>::empty(),
    {
        let r = CaptureQueue { chunks: Vec::new() };
        proof {
            assert(r@ =~= Seq::<ChunkView>::empty());
        }
        r
    }

    /// Queues a chunk.
    pub fn push(&mut self, chunk: CaptureChunk)
        ensures
            final(self)@ == queued(old(self)@, chunk@),
    {
        let ghost before = self.chunks@;
        if self.chunks.len() >= CAPTURE_QUEUE_CHUNKS {
            self.chunks.remove(0);
        }
        self.chunks.push(chunk);
        proof {
            assert(self@ =~= queued(before.map_values(|c: CaptureChunk| c@), chunk@));
        }
    }

    /// Takes the oldest chunk.
    pub fn pop(&mut self) -> (r: Option<CaptureChunk>)
        ensures
            match r {
                Some(c) => old(self)@.len() > 0 && c@ == old(self)@[0] && final(self)@ == old(self)@.drop_first(),
                None => old(self)@.len() == 0 && final(self)@ == old(self)@,
            },
    {
        if self.chunks.len() == 0 {
            return None;
        }
        let ghost before = self@;
        let c = self.chunks.remove(0);
        proof {
            assert(self@ =~= before.drop_first());
        }
        Some(c)
    }
}

/// However many chunks are recorded, the latest wait, in the order in which they were
/// recorded, as many as there is room for.
pub proof fn recording_keeps_the_latest(chunks: Seq<ChunkView>)
    ensures
        queued_all(seq![], chunks) == if chunks.len() <= CAPTURE_QUEUE_CHUNKS {
            chunks
        } else {
            chunks.skip(chunks.len() - CAPTURE_QUEUE_CHUNKS)
        },
    decreases chunks.len(),
{
    if chunks.len() == 0 {
        assert(chunks =~= seq![]);
    } else {
        let rest = chunks.drop_last();
        recording_keeps_the_latest(rest);
        let q = queued_all(seq![], rest);
        if rest.len() < CAPTURE_QUEUE_CHUNKS {
            assert(q.push(chunks.last()) =~= chunks);
        } else {
            if rest.len() == CAPTURE_QUEUE_CHUNKS {
                assert(rest =~= rest.skip(0));
            }
            assert(q.drop_first().push(chunks.last()) =~= chunks.skip(chunks.len() - CAPTURE_QUEUE_CHUNKS));
        }
    }
}

// Sending.

/// The frame that a chunk makes.
pub open spec fn seed_of(sequence: u64, presentation_time_ms: u64, pcm: Seq<u8>) -> SeedView {
    SeedView {
        sequence,
        presentation_time_ms,
        codec: CODEC@,
        rate_hz: BASELINE_SAMPLE_RATE_HZ,
        channels: BASELINE_CHANNELS,
        payload_b64: base64_encoded(pcm),
    }
}

/// Makes the frame of a chunk. The chunk's bytes come back out of its payload.
pub fn frame_seed(sequence: u64, presentation_time_ms: u64, pcm: &Vec<u8>) -> (r: AudioFrameSeed)
    requires
        (pcm@.len() + 2) / 3 * 4 <= isize::MAX,
    ensures
        r@ == seed_of(sequence, presentation_time_ms, pcm@),
        decodes_to(r.payload_b64@, pcm@),
{
    AudioFrameSeed {
        sequence,
        presentation_time_ms,
        codec: CODEC.to_owned(),
        rate_hz: BASELINE_SAMPLE_RATE_HZ,
        channels: BASELINE_CHANNELS,
        payload_b64: encode_base64(pcm.as_slice()),
    }
}

/// The number behind a sequence number; the last one has none.
pub open spec fn next_sequence(sequence: u64) -> u64 {
    if sequence == u64::MAX {
        sequence
    } else {
        (sequence + 1) as u64
    }
}

/// A counter after one more; it starts over behind its last value.
pub open spec fn counted(n: u64) -> u64 {
    if n == u64::MAX {
        0
    } else {
        (n + 1) as u64
    }
}

/// Counts one more.
pub fn count_up(n: u64) -> (r: u64)
    ensures
        r == counted(n),
{
    if n == u64::MAX {
        0
    } else {
        n + 1
    }
}

/// The state of a source.
#[derive(Debug)]
pub struct SourceCapture {
    /// The sequence number of the next frame.
    pub sequence: u64,
    /// What was seen of frames that were sent.
    pub sources: Vec<SourceEntry>,
    /// What is known of frames on their way to receivers.
    pub recipients: Vec<RecipientEntry>,
}

/// [`SourceCapture`] over mathematical values.
#[verifier::ext_equal]
pub struct CaptureView {
    pub sequence: u64,
    pub sources: Seq<SourceEntry>,
    pub recipients: Seq<RecipientView>,
}

impl View for SourceCapture {
    type V = CaptureView;

    open spec fn view(&self) -> CaptureView {
        CaptureView {
            sequence: self.sequence,
            sources: self.sources@,
            recipients: recipient_views(self.recipients@),
        }
    }
}

/// A source that has sent nothing.
pub open spec fn fresh_capture() -> CaptureView {
    CaptureView { sequence: 0, sources: seq![], recipients: seq![] }
}

impl CaptureView {
    /// After a frame was handed to the network.
    pub open spec fn fanned_out(self, partial: SourceTracePartial, traced: bool) -> CaptureView {
        CaptureView {
            sequence: next_sequence(self.sequence),
            sources: if traced {
                source_placed(source_room(self.sources), SourceEntry { sequence: self.sequence, partial })
            } else {
                self.sources
            },
            recipients: self.recipients,
        }
    }

    /// After more is known of a frame on its way to a receiver: the source, and the
    /// window of records.
    pub open spec fn told(
        self,
        sequence: u64,
        receiver: Seq<char>,
        learn: spec_fn(RecipientTracePartial) -> RecipientTracePartial,
        trace: Option<TraceView>,
    ) -> (CaptureView, Option<TraceView>) {
        let entered = recipient_entered(recipient_room(self.recipients), sequence, receiver);
        let i = recipient_index(entered, sequence, receiver);
        let known = entered.update(i, RecipientView { partial: learn(entered[i].partial), ..entered[i] });
        let (rest, after) = completed(sequence, receiver, self.sources, known, trace);
        (CaptureView { sequence: self.sequence, sources: self.sources, recipients: rest }, after)
    }
}

/// With the time at which a frame was sent.
pub open spec fn sent_at(p: RecipientTracePartial, wire_send_ns: u64) -> RecipientTracePartial {
    RecipientTracePartial { wire_send_ns: Some(wire_send_ns), ..p }
}

/// With the stages that a receiver reports.
pub open spec fn reported(p: RecipientTracePartial, wire_recv_ns: u64, dequeue_ns: u64, return_ns: u64) -> RecipientTracePartial {
    RecipientTracePartial {
        wire_recv_ns: Some(wire_recv_ns),
        scheduler_dequeue_ns: Some(dequeue_ns),
        writei_return_ns: Some(return_ns),
        ..p
    }
}

impl SourceCapture {
    /// No more waits than there is room for.
    pub open spec fn wf(&self) -> bool {
        self.sources@.len() <= TRACE_PENDING_MAX && self.recipients@.len() <= TRACE_PENDING_MAX
    }

    /// A source that has sent nothing.
    pub fn new() -> (r: SourceCapture)
        ensures
            r.wf(),
            r@ == fresh_capture(),
    {
        let r = SourceCapture { sequence: 0, sources: Vec::new(), recipients: Vec::new() };
        proof {
            assert(r@ =~= fresh_capture());
        }
        r
    }

    /// The frame that a chunk makes now.
    pub fn next_frame(&self, presentation_time_ms: u64, pcm: &Vec<u8>) -> (r: AudioFrameSeed)
        requires
            (pcm@.len() + 2) / 3 * 4 <= isize::MAX,
        ensures
            r@ == seed_of(self@.sequence, presentation_time_ms, pcm@),
            decodes_to(r.payload_b64@, pcm@),
    {
        frame_seed(self.sequence, presentation_time_ms, pcm)
    }

    /// Notes that the frame was handed to the network. What was seen of it is kept where
    /// its way is traced.
    pub fn note_fan_out(&mut self, partial: SourceTracePartial, traced: bool)
        requires
            old(self).wf(),
        ensures
            final(self).wf(),
            final(self)@ == old(self)@.fanned_out(partial, traced),
    {
        if traced {
            note_source(&mut self.sources, SourceEntry { sequence: self.sequence, partial });
        }
        if self.sequence < u64::MAX {
            self.sequence += 1;
        }
    }

    /// Notes when a frame was sent to a receiver.
    pub fn note_frame_send(
        &mut self,
        sequence: u64,
        receiver: &str,
        wire_send_ns: u64,
        trace: &mut Option<TraceState>,
    )
        requires
            old(self).wf(),
        ensures
            final(self).wf(),
            (final(self)@, opt_trace(*final(trace))) == old(self)@.told(
                sequence,
                receiver@,
                |p: RecipientTracePartial| sent_at(p, wire_send_ns),
                opt_trace(*old(trace)),
            ),
    {
        let i = enter_recipient(&mut self.recipients, sequence, receiver);
        let ghost entered = self.recipients@;
        let e = RecipientEntry {
            sequence: self.recipients[i].sequence,
            receiver: self.recipients[i].receiver.clone(),
            partial: RecipientTracePartial { wire_send_ns: Some(wire_send_ns), ..self.recipients[i].partial },
        };
        let ghost view = e@;
        self.recipients.set(i, e);
        proof {
            assert(recipient_views(self.recipients@) =~= recipient_views(entered).update(i as int, view));
            assert(recipient_views(entered)[i as int] == entered[i as int]@);
            assert(view =~= (RecipientView {
                partial: sent_at(recipient_views(entered)[i as int].partial, wire_send_ns),
                ..recipient_views(entered)[i as int]
            }));
        }
        try_complete_record(sequence, receiver, &self.sources, &mut self.recipients, trace);
    }

    /// Notes the stages of a frame that a receiver reports.
    pub fn note_trace_report(
        &mut self,
        sequence: u64,
        receiver: &str,
        wire_recv_ns: u64,
        scheduler_dequeue_ns: u64,
        writei_return_ns: u64,
        trace: &mut Option<TraceState>,
    )
        requires
            old(self).wf(),
        ensures
            final(self).wf(),
            (final(self)@, opt_trace(*final(trace))) == old(self)@.told(
                sequence,
                receiver@,
                |p: RecipientTracePartial| reported(p, wire_recv_ns, scheduler_dequeue_ns, writei_return_ns),
                opt_trace(*old(trace)),
            ),
    {
        let i = enter_recipient(&mut self.recipients, sequence, receiver);
        let ghost entered = self.recipients@;
        let e = RecipientEntry {
            sequence: self.recipients[i].sequence,
            receiver: self.recipients[i].receiver.clone(),
            partial: RecipientTracePartial {
                wire_recv_ns: Some(wire_recv_ns),
                scheduler_dequeue_ns: Some(scheduler_dequeue_ns),
                writei_return_ns: Some(writei_return_ns),
                ..self.recipients[i].partial
            },
        };
        let ghost view = e@;
        self.recipients.set(i, e);
        proof {
            assert(recipient_views(self.recipients@) =~= recipient_views(entered).update(i as int, view));
            assert(recipient_views(entered)[i as int] == entered[i as int]@);
            assert(view =~= (RecipientView {
                partial: reported(
                    recipient_views(entered)[i as int].partial,
                    wire_recv_ns,
                    scheduler_dequeue_ns,
                    writei_return_ns,
                ),
                ..recipient_views(entered)[i as int]
            }));
        }
        try_complete_record(sequence, receiver, &self.sources, &mut self.recipients, trace);
    }
}

/// The record of a frame whose every stage is known.
pub open spec fn whole_record(
    c: CaptureView,
    sequence: u64,
    receiver: Seq<char>,
    wire_send_ns: u64,
    wire_recv_ns: u64,
    dequeue_ns: u64,
    return_ns: u64,
) -> RecordView {
    RecordView {
        sequence,
        receiver_device_id: receiver,
        source: c.sources[source_index(c.sources, sequence)].partial,
        source_wire_send_ns: wire_send_ns,
        receiver_wire_recv_ns: wire_recv_ns,
        receiver_scheduler_dequeue_ns: dequeue_ns,
        receiver_writei_return_ns: return_ns,
        clock_offset_ns: 0,
    }
}

/// A frame that the source saw, and of whose way to a receiver nothing is known yet,
/// makes one record once its sending and the receiver's report are known, whichever of
/// them comes first; and then it waits no more.
pub proof fn sending_and_report_make_one_record(
    c: CaptureView,
    trace: TraceView,
    sequence: u64,
    receiver: Seq<char>,
    wire_send_ns: u64,
    wire_recv_ns: u64,
    dequeue_ns: u64,
    return_ns: u64,
)
    requires
        c.recipients.len() + 1 < TRACE_PENDING_MAX,
        recipient_index(c.recipients, sequence, receiver) == c.recipients.len(),
        source_index(c.sources, sequence) < c.sources.len(),
    ensures
        ({
            let learn_send = |p: RecipientTracePartial| sent_at(p, wire_send_ns);
            let learn_report = |p: RecipientTracePartial| reported(p, wire_recv_ns, dequeue_ns, return_ns);
            let rec = whole_record(c, sequence, receiver, wire_send_ns, wire_recv_ns, dequeue_ns, return_ns);
            let sent = c.told(sequence, receiver, learn_send, Some(trace));
            let heard = c.told(sequence, receiver, learn_report, Some(trace));
            &&& sent.0.told(sequence, receiver, learn_report, sent.1) == (c, Some(trace.pushed(rec)))
            &&& heard.0.told(sequence, receiver, learn_send, heard.1) == (c, Some(trace.pushed(rec)))
        }),
{
    let learn_send = |p: RecipientTracePartial| sent_at(p, wire_send_ns);
    let learn_report = |p: RecipientTracePartial| reported(p, wire_recv_ns, dequeue_ns, return_ns);
    let n = c.recipients.len() as int;
    lemma_recipient_index(c.recipients, sequence, receiver);
    let first = RecipientView { sequence, receiver, partial: nothing_known() };
    let entered = c.recipients.push(first);
    assert forall|e: RecipientView|
        e.sequence == sequence && e.receiver == receiver implies #[trigger] recipient_index(
        c.recipients.push(e),
        sequence,
        receiver,
    ) == n by {
        let s = c.recipients.push(e);
        assert forall|j: int| 0 <= j < n implies !((#[trigger] s[j]).sequence == sequence && s[j].receiver == receiver) by {
            assert(s[j] == c.recipients[j]);
        }
        lemma_found_at(s, sequence, receiver, n);
    }
    let half_sent = RecipientView { partial: sent_at(nothing_known(), wire_send_ns), ..first };
    let half_heard = RecipientView { partial: reported(nothing_known(), wire_recv_ns, dequeue_ns, return_ns), ..first };
    let whole = RecipientView { partial: reported(half_sent.partial, wire_recv_ns, dequeue_ns, return_ns), ..first };
    let sent = c.told(sequence, receiver, learn_send, Some(trace));
    let heard = c.told(sequence, receiver, learn_report, Some(trace));
    assert(recipient_index(entered, sequence, receiver) == n);
    assert(entered.update(n, half_sent) =~= c.recipients.push(half_sent));
    assert(entered.update(n, half_heard) =~= c.recipients.push(half_heard));
    assert(recipient_index(c.recipients.push(half_sent), sequence, receiver) == n);
    assert(recipient_index(c.recipients.push(half_heard), sequence, receiver) == n);
    assert(sent.0.recipients =~= c.recipients.push(half_sent));
    assert(heard.0.recipients =~= c.recipients.push(half_heard));
    assert(c.recipients.push(half_sent).update(n, whole) =~= c.recipients.push(whole));
    assert(c.recipients.push(half_heard).update(n, whole) =~= c.recipients.push(whole));
    assert(recipient_index(c.recipients.push(whole), sequence, receiver) == n);
    assert(c.recipients.push(whole).remove(n) =~= c.recipients);
    assert(record_of(whole, c.sources) == Some(
        whole_record(c, sequence, receiver, wire_send_ns, wire_recv_ns, dequeue_ns, return_ns),
    ));
}

/// What was recorded is handed on whole: so many frames of two samples make four bytes
/// each, and the samples come back out of them. A closed channel stops the recording,
/// nothing to read is waited out, and every other error is recovered from.
pub proof fn recordings_are_handed_on(event: CaptureEvent, buf: Seq<i16>)
    requires
        event matches CaptureEvent::Read(frames) ==> frames * 2 <= buf.len(),
    ensures
        event matches CaptureEvent::Read(frames) ==> frames > 0 ==> (capture_next(event, buf) matches CaptureActionView::Queue(
            bytes,
        ) && bytes.len() == 4 * frames && crate::multiroom::samples::decoded(bytes) == buf.take(frames * 2)),
        event matches CaptureEvent::Read(frames) ==> frames == 0 ==> capture_next(event, buf) is Wait,
        capture_next(event, buf) is Stop <==> event is Closed,
        event is TimedOut ==> capture_next(event, buf) is Wait,
        event is WaitFailed ==> capture_next(event, buf) is Recover,
        event matches CaptureEvent::ReadFailed(errno) ==> (capture_next(event, buf) is Wait <==> errno == 11) && (
        capture_next(event, buf) is Recover <==> errno != 11),
{
    if let CaptureEvent::Read(frames) = event {
        samples_read_back(buf.take(frames * 2));
        samples_are_little_endian(buf.take(frames * 2), seq![], 0);
    }
}

/// A queue of chunks has room for 32: one more is put at its end, and only where it is full
/// the oldest makes room.
pub proof fn oldest_chunks_make_room(q: Seq<ChunkView>, chunk: ChunkView)
    ensures
        queued(q, chunk).last() == chunk,
        q.len() < 32 ==> queued(q, chunk) == q.push(chunk),
        q.len() == 32 ==> queued(q, chunk).len() == 32 && forall|i: int| 0 <= i < 31 ==> queued(q, chunk)[i] == q[i + 1],
{
}

/// A frame says what it is: its number, its time, uncompressed 16-bit samples at 48 kHz in
/// two channels, and its bytes in base64.
pub proof fn frames_say_what_they_are(sequence: u64, presentation_time_ms: u64, pcm: Seq<u8>)
    ensures
        ({
            let f = seed_of(sequence, presentation_time_ms, pcm);
            &&& f.sequence == sequence
            &&& f.presentation_time_ms == presentation_time_ms
            &&& f.codec == "pcm_s16_le"@
            &&& f.rate_hz == 48_000
            &&& f.channels == 2
            &&& f.payload_b64 == base64_encoded(pcm)
        }),
{
}

/// Frames are numbered one after the other, and what the source saw of a frame is kept
/// under that frame's number, where it is kept at all.
pub proof fn frames_are_numbered(c: CaptureView, partial: SourceTracePartial, traced: bool)
    requires
        c.sequence < u64::MAX,
    ensures
        ({
            let after = c.fanned_out(partial, traced);
            &&& after.sequence == c.sequence + 1
            &&& after.recipients == c.recipients
            &&& !traced ==> after.sources == c.sources
            &&& traced && c.sources.len() < 256 ==> exists|i: int|
                0 <= i < after.sources.len() && (#[trigger] after.sources[i]).sequence == c.sequence && after.sources[i].partial
                    == partial
        }),
{
    let room = source_room(c.sources);
    let i = source_index(room, c.sequence);
    let after = c.fanned_out(partial, traced);
    lemma_source_index(room, c.sequence);
    if traced && c.sources.len() < 256 {
        if i < room.len() {
            assert(after.sources[i].sequence == c.sequence);
        } else {
            assert(after.sources[room.len() as int].sequence == c.sequence);
        }
    }
}

/// What is learnt of a frame is kept beside what was known: its sending sets that time
/// alone, its report the three times of the receiver.
pub proof fn reports_add_to_what_is_known(p: RecipientTracePartial, a: u64, b: u64, c: u64)
    ensures
        sent_at(p, a).wire_send_ns == Some(a),
        sent_at(p, a).wire_recv_ns == p.wire_recv_ns,
        sent_at(p, a).scheduler_dequeue_ns == p.scheduler_dequeue_ns,
        sent_at(p, a).writei_return_ns == p.writei_return_ns,
        reported(p, a, b, c).wire_recv_ns == Some(a),
        reported(p, a, b, c).scheduler_dequeue_ns == Some(b),
        reported(p, a, b, c).writei_return_ns == Some(c),
        reported(p, a, b, c).wire_send_ns == p.wire_send_ns,
{
}

/// Each field is seen under its own name, as it is.
pub proof fn fields_are_seen_under_their_names(capture_chunk: CaptureChunk, source_capture: SourceCapture)
    ensures
        capture_chunk@.capture_readi_return_ns == capture_chunk.capture_readi_return_ns,
        capture_chunk@.mpsc_send_ns == capture_chunk.mpsc_send_ns,
        capture_chunk@.pcm == capture_chunk.pcm@,
        source_capture@.sequence == source_capture.sequence,
        source_capture@.sources == source_capture.sources@,
        source_capture@.recipients == recipient_views(source_capture.recipients@),
{
}

} // verus!
