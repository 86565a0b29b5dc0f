//! The way of each frame from the source's recording to each receiver's output.
//!
//! What the source saw of a frame waits until every stage at a receiver is known too;
//! then both make a record, of which the latest are kept.

use crate::text::text_eq;
use vstd::prelude::*;

verus! {

/// How many frames wait for the rest of their stages at most.
pub const TRACE_PENDING_MAX: usize = 256;

/// How many records a source keeps.
pub const TRACE_WINDOW: usize = 100;

/// What the source saw of a frame.
#[derive(Debug, Clone, Copy, PartialEq, Eq, Structural)]
pub struct SourceTracePartial {
    pub presentation_time_ms: u64,
    pub capture_readi_return_ns: u64,
    pub mpsc_send_ns: u64,
    pub mpsc_recv_ns: u64,
    pub fanout_enter_ns: u64,
}

/// What the source saw of the frame with a sequence number.
#[derive(Debug, Clone, Copy, PartialEq, Eq, Structural)]
pub struct SourceEntry {
    pub sequence: u64,
    pub partial: SourceTracePartial,
}

/// What is known of a frame on its way to one receiver.
#[derive(Debug, Clone, Copy, PartialEq, Eq, Structural)]
pub struct RecipientTracePartial {
    pub wire_send_ns: Option<u64>,
    pub wire_recv_ns: Option<u64>,
    pub scheduler_dequeue_ns: Option<u64>,
    pub writei_return_ns: Option<u64>,
}

/// Nothing is known yet.
pub open spec fn nothing_known() -> RecipientTracePartial {
    RecipientTracePartial {
        wire_send_ns: None,
        wire_recv_ns: None,
        scheduler_dequeue_ns: None,
        writei_return_ns: None,
    }
}

impl Default for RecipientTracePartial {
    fn default() -> (r: Self)
        ensures
            r == nothing_known(),
    {
        RecipientTracePartial {
            wire_send_ns: None,
            wire_recv_ns: None,
            scheduler_dequeue_ns: None,
            writei_return_ns: None,
        }
    }
}

/// What is known of a frame on its way to a receiver.
#[derive(Debug, Clone)]
pub struct RecipientEntry {
    pub sequence: u64,
    pub receiver: String,
    pub partial: RecipientTracePartial,
}

/// [`RecipientEntry`] over mathematical values.
#[verifier::ext_equal]
pub struct RecipientView {
    pub sequence: u64,
    pub receiver: Seq<char>,
    pub partial: RecipientTracePartial,
}

impl View for RecipientEntry {
    type V = RecipientView;

    open spec fn view(&self) -> RecipientView {
        RecipientView { sequence: self.sequence, receiver: self.receiver@, partial: self.partial }
    }
}

/// The views of entries.
pub open spec fn recipient_views(v: Seq<RecipientEntry>) -> Seq<RecipientView> {
    v.map_values(|e: RecipientEntry| e@)
}

/// The whole way of a frame to one receiver.
#[derive(Debug, Clone)]
pub struct FrameTraceRecord {
    pub sequence: u64,
    pub receiver_device_id: String,
    pub presentation_time_ms: u64,
    pub source_capture_readi_return_ns: u64,
    pub source_mpsc_send_ns: u64,
    pub source_mpsc_recv_ns: u64,
    pub source_fanout_enter_ns: u64,
    pub source_wire_send_ns: u64,
    pub receiver_wire_recv_ns: u64,
    pub receiver_scheduler_dequeue_ns: u64,
    pub receiver_writei_return_ns: u64,
    pub clock_offset_ns: i64,
}

/// [`FrameTraceRecord`] over mathematical values.
#[verifier::ext_equal]
pub struct RecordView {
    pub sequence: u64,
    pub receiver_device_id: Seq<char>,
    pub source: SourceTracePartial,
    pub source_wire_send_ns: u64,
    pub receiver_wire_recv_ns: u64,
    pub receiver_scheduler_dequeue_ns: u64,
    pub receiver_writei_return_ns: u64,
    pub clock_offset_ns: i64,
}

impl View for FrameTraceRecord {
    type V = RecordView;

    open spec fn view(&self) -> RecordView {
        RecordView {
            sequence: self.sequence,
            receiver_device_id: self.receiver_device_id@,
            source: SourceTracePartial {
                presentation_time_ms: self.presentation_time_ms,
                capture_readi_return_ns: self.source_capture_readi_return_ns,
                mpsc_send_ns: self.source_mpsc_send_ns,
                mpsc_recv_ns: self.source_mpsc_recv_ns,
                fanout_enter_ns: self.source_fanout_enter_ns,
            },
            source_wire_send_ns: self.source_wire_send_ns,
            receiver_wire_recv_ns: self.receiver_wire_recv_ns,
            receiver_scheduler_dequeue_ns: self.receiver_scheduler_dequeue_ns,
            receiver_writei_return_ns: self.receiver_writei_return_ns,
            clock_offset_ns: self.clock_offset_ns,
        }
    }
}

/// The views of records.
pub open spec fn record_views(v: Seq<FrameTraceRecord>) -> Seq<RecordView> {
    v.map_values(|r: FrameTraceRecord| r@)
}

impl FrameTraceRecord {
    /// A second copy.
    pub fn duplicate(&self) -> (r: FrameTraceRecord)
        ensures
            r@ == self@,
    {
        FrameTraceRecord {
            sequence: self.sequence,
            receiver_device_id: self.receiver_device_id.clone(),
            presentation_time_ms: self.presentation_time_ms,
            source_capture_readi_return_ns: self.source_capture_readi_return_ns,
            source_mpsc_send_ns: self.source_mpsc_send_ns,
            source_mpsc_recv_ns: self.source_mpsc_recv_ns,
            source_fanout_enter_ns: self.source_fanout_enter_ns,
            source_wire_send_ns: self.source_wire_send_ns,
            receiver_wire_recv_ns: self.receiver_wire_recv_ns,
            receiver_scheduler_dequeue_ns: self.receiver_scheduler_dequeue_ns,
            receiver_writei_return_ns: self.receiver_writei_return_ns,
            clock_offset_ns: self.clock_offset_ns,
        }
    }
}

// The window of records.

/// The latest records.
#[derive(Debug)]
pub struct TraceState {
    pub window: Vec<FrameTraceRecord>,
    /// How many are kept.
    pub window_size: usize,
}

/// [`TraceState`] over mathematical values.
#[verifier::ext_equal]
pub struct TraceView {
    pub window: Seq<RecordView>,
    pub window_size: usize,
}

impl View for TraceState {
    type V = TraceView;

    open spec fn view(&self) -> TraceView {
        TraceView { window: record_views(self.window@), window_size: self.window_size }
    }
}

impl TraceView {
    /// With one more record; the oldest makes room where the window is full.
    pub open spec fn pushed(self, rec: RecordView) -> TraceView {
        let room = if self.window.len() >= self.window_size && self.window.len() > 0 {
            self.window.drop_first()
        } else {
            self.window
        };
        TraceView { window: room.push(rec), window_size: self.window_size }
    }

    /// With records, one after the other.
    pub open spec fn pushed_all(self, recs: Seq<RecordView>) -> TraceView
        decreases recs.len(),
    {
        if recs.len() == 0 {
            self
        } else {
            self.pushed_all(recs.drop_last()).pushed(recs.last())
        }
    }
}

/// An empty window.
pub open spec fn empty_trace(size: usize) -> TraceView {
    TraceView { window: seq![], window_size: size }
}

impl TraceState {
    /// An empty window.
    pub fn new(window_size: usize) -> (r: TraceState)
        ensures
            r@ == empty_trace(window_size),
    {
        let r = TraceState { window: Vec::new(), window_size };
        proof {
            assert(r@ =~= empty_trace(window_size));
        }
        r
    }

    /// Adds a record.
    pub fn push(&mut self, rec: FrameTraceRecord)
        ensures
            final(self)@ == old(self)@.pushed(rec@),
    {
        let ghost before = self.window@;
        if self.window.len() >= self.window_size && self.window.len() > 0 {
            self.window.remove(0);
            proof {
                assert(record_views(self.window@) =~= record_views(before).drop_first());
            }
        }
        let ghost mid = self.window@;
        self.window.push(rec);
        proof {
            assert(record_views(self.window@) =~= record_views(mid).push(rec@));
        }
    }

    /// The records, the oldest first.
    pub fn snapshot(&self) -> (r: Vec<FrameTraceRecord>)
        ensures
            record_views(r@) == self@.window,
    {
        let mut out: Vec<FrameTraceRecord> = Vec::new();
        let mut i: usize = 0;
        while i < self.window.len()
            invariant
                i <= self.window.len(),
                out@.len() == i,
                forall|j: int| 0 <= j < i ==> (#[trigger] out@[j])@ == self.window@[j]@,
            decreases self.window.len() - i,
        {
            out.push(self.window[i].duplicate());
            i += 1;
        }
        proof {
            assert(record_views(out@) =~= self@.window);
        }
        out
    }
}

/// A window holds the latest records in the order in which they came, as many as it has
/// room for and one at least.
pub proof fn window_keeps_the_latest(size: usize, recs: Seq<RecordView>)
    ensures
        ({
            let room: int = if size == 0 {
                1
            } else {
                size as int
            };
            let kept = if recs.len() <= room {
                recs
            } else {
                recs.skip(recs.len() - room)
            };
            empty_trace(size).pushed_all(recs) == (TraceView { window: kept, window_size: size })
        }),
    decreases recs.len(),
{
    let room: int = if size == 0 {
        1
    } else {
        size as int
    };
    if recs.len() == 0 {
        assert(recs =~= seq![]);
    } else {
        let rest = recs.drop_last();
        window_keeps_the_latest(size, rest);
        let before = empty_trace(size).pushed_all(rest);
        let after = before.pushed(recs.last());
        if rest.len() < room {
            assert(after.window =~= recs);
        } else {
            if rest.len() == room {
                assert(before.window =~= rest.skip(0));
            }
            assert(before.window =~= rest.skip(rest.len() - room));
            assert(after.window =~= recs.skip(recs.len() - room));
        }
    }
}

// What waits.

/// The index of the least of some numbers, the first of them where several are equal.
pub open spec fn least_of(keys: Seq<u64>) -> int
    decreases keys.len(),
{
    if keys.len() <= 1 {
        0
    } else {
        let k = least_of(keys.drop_last());
        if keys.last() < keys[k] {
            keys.len() - 1
        } else {
            k
        }
    }
}

proof fn lemma_least_of(keys: Seq<u64>)
    requires
        keys.len() > 0,
    ensures
        0 <= least_of(keys) < keys.len(),
        forall|j: int| 0 <= j < keys.len() ==> keys[least_of(keys)] <= #[trigger] keys[j],
    decreases keys.len(),
{
    if keys.len() > 1 {
        let rest = keys.drop_last();
        lemma_least_of(rest);
        assert forall|j: int| 0 <= j < keys.len() implies keys[least_of(keys)] <= #[trigger] keys[j] by {
            if j < rest.len() {
                assert(rest[j] == keys[j]);
            }
        }
    }
}

/// The sequence numbers of what the source saw.
pub open spec fn source_keys(s: Seq<SourceEntry>) -> Seq<u64> {
    s.map_values(|e: SourceEntry| e.sequence)
}

/// The sequence numbers on the way to receivers.
pub open spec fn recipient_keys(s: Seq<RecipientView>) -> Seq<u64> {
    s.map_values(|e: RecipientView| e.sequence)
}

/// What the source saw, without the oldest frame where there are too many.
pub open spec fn source_room(s: Seq<SourceEntry>) -> Seq<SourceEntry> {
    if s.len() >= TRACE_PENDING_MAX {
        s.remove(least_of(source_keys(s)))
    } else {
        s
    }
}

/// What is on the way to receivers, without an oldest frame where there are too many.
pub open spec fn recipient_room(s: Seq<RecipientView>) -> Seq<RecipientView> {
    if s.len() >= TRACE_PENDING_MAX {
        s.remove(least_of(recipient_keys(s)))
    } else {
        s
    }
}

/// The index of the frame with a sequence number, or the number of frames.
pub open spec fn source_index(s: Seq<SourceEntry>, sequence: u64) -> int
    decreases s.len(),
{
    if s.len() == 0 || s[0].sequence == sequence {
        0
    } else {
        1 + source_index(s.drop_first(), sequence)
    }
}

/// The index of the frame with a sequence number on its way to a receiver, or the
/// number of entries.
pub open spec fn recipient_index(s: Seq<RecipientView>, sequence: u64, receiver: Seq<char>) -> int
    decreases s.len(),
{
    if s.len() == 0 || (s[0].sequence == sequence && s[0].receiver == receiver) {
        0
    } else {
        1 + recipient_index(s.drop_first(), sequence, receiver)
    }
}

/// With an entry in place of the one of the same frame, or at the end.
pub open spec fn source_placed(s: Seq<SourceEntry>, e: SourceEntry) -> Seq<SourceEntry> {
    let i = source_index(s, e.sequence);
    if i < s.len() {
        s.update(i, e)
    } else {
        s.push(e)
    }
}

/// The entries with one for the frame and receiver, made where there is none.
pub open spec fn recipient_entered(s: Seq<RecipientView>, sequence: u64, receiver: Seq<char>) -> Seq<RecipientView> {
    if recipient_index(s, sequence, receiver) < s.len() {
        s
    } else {
        s.push(RecipientView { sequence, receiver, partial: nothing_known() })
    }
}

pub(crate) proof fn lemma_source_index(s: Seq<SourceEntry>, sequence: u64)
    ensures
        0 <= source_index(s, sequence) <= s.len(),
    decreases s.len(),
{
    if s.len() > 0 {
        lemma_source_index(s.drop_first(), sequence);
    }
}

pub(crate) proof fn lemma_recipient_index(s: Seq<RecipientView>, sequence: u64, receiver: Seq<char>)
    ensures
        0 <= recipient_index(s, sequence, receiver) <= s.len(),
        recipient_index(s, sequence, receiver) < s.len() ==> s[recipient_index(s, sequence, receiver)].sequence == sequence
            && s[recipient_index(s, sequence, receiver)].receiver == receiver,
        forall|j: int|
            0 <= j < recipient_index(s, sequence, receiver) ==> !((#[trigger] s[j]).sequence == sequence && s[j].receiver
                == receiver),
    decreases s.len(),
{
    if s.len() > 0 && !(s[0].sequence == sequence && s[0].receiver == receiver) {
        let rest = s.drop_first();
        lemma_recipient_index(rest, sequence, receiver);
        let k = recipient_index(rest, sequence, receiver);
        if k < rest.len() {
            assert(rest[k] == s[k + 1]);
        }
        assert forall|j: int| 0 <= j < recipient_index(s, sequence, receiver) implies !((#[trigger] s[j]).sequence
            == sequence && s[j].receiver == receiver) by {
            if j > 0 {
                assert(rest[j - 1] == s[j]);
            }
        }
    }
}

/// The first entry of a frame and receiver is the one that is found.
pub(crate) proof fn lemma_found_at(s: Seq<RecipientView>, sequence: u64, receiver: Seq<char>, k: int)
    requires
        0 <= k < s.len(),
        s[k].sequence == sequence && s[k].receiver == receiver,
        forall|j: int| 0 <= j < k ==> !((#[trigger] s[j]).sequence == sequence && s[j].receiver == receiver),
    ensures
        recipient_index(s, sequence, receiver) == k,
{
    lemma_recipient_index(s, sequence, receiver);
    let i = recipient_index(s, sequence, receiver);
    if i < k {
        assert(s[i].sequence == sequence && s[i].receiver == receiver);
    }
}

/// Once an entry is made, it is the one of its frame and receiver.
proof fn lemma_entered(s: Seq<RecipientView>, sequence: u64, receiver: Seq<char>)
    ensures
        recipient_index(recipient_entered(s, sequence, receiver), sequence, receiver) < recipient_entered(
            s,
            sequence,
            receiver,
        ).len(),
        recipient_index(s, sequence, receiver) == s.len() ==> recipient_index(
            recipient_entered(s, sequence, receiver),
            sequence,
            receiver,
        ) == s.len(),
{
    lemma_recipient_index(s, sequence, receiver);
    let t = recipient_entered(s, sequence, receiver);
    lemma_recipient_index(t, sequence, receiver);
    if recipient_index(s, sequence, receiver) == s.len() {
        let k = recipient_index(t, sequence, receiver);
        assert(t[s.len() as int].sequence == sequence && t[s.len() as int].receiver == receiver);
        if k < s.len() {
            assert(t[k] == s[k]);
        }
    }
}

/// The record that an entry and what the source saw make, where every stage is known.
pub open spec fn record_of(e: RecipientView, sources: Seq<SourceEntry>) -> Option<RecordView> {
    let i = source_index(sources, e.sequence);
    match (e.partial.wire_send_ns, e.partial.wire_recv_ns, e.partial.scheduler_dequeue_ns, e.partial.writei_return_ns) {
        (Some(wire_send), Some(wire_recv), Some(dequeue), Some(written)) => if i < sources.len() {
            Some(
                RecordView {
                    sequence: e.sequence,
                    receiver_device_id: e.receiver,
                    source: sources[i].partial,
                    source_wire_send_ns: wire_send,
                    receiver_wire_recv_ns: wire_recv,
                    receiver_scheduler_dequeue_ns: dequeue,
                    receiver_writei_return_ns: written,
                    clock_offset_ns: 0,
                },
            )
        } else {
            None
        },
        _ => None,
    }
}

/// The view of an optional window.
pub open spec fn opt_trace(t: Option<TraceState>) -> Option<TraceView> {
    match t {
        Some(t) => Some(t@),
        None => None,
    }
}

/// What is on the way and the window, after an attempt to complete a record.
pub open spec fn completed(
    sequence: u64,
    receiver: Seq<char>,
    sources: Seq<SourceEntry>,
    recipients: Seq<RecipientView>,
    trace: Option<TraceView>,
) -> (Seq<RecipientView>, Option<TraceView>) {
    let i = recipient_index(recipients, sequence, receiver);
    match trace {
        Some(t) => if i < recipients.len() {
            match record_of(recipients[i], sources) {
                Some(rec) => (recipients.remove(i), Some(t.pushed(rec))),
                None => (recipients, trace),
            }
        } else {
            (recipients, trace)
        },
        None => (recipients, trace),
    }
}

fn find_source(s: &Vec<SourceEntry>, sequence: u64) -> (r: usize)
    ensures
        r == source_index(s@, sequence),
        r <= s@.len(),
{
    let mut i: usize = 0;
    proof {
        assert(s@.skip(0) =~= s@);
        lemma_source_index(s@, sequence);
    }
    while i < s.len() && s[i].sequence != sequence
        invariant
            i <= s.len(),
            source_index(s@, sequence) == i + source_index(s@.skip(i as int), sequence),
        decreases s.len() - i,
    {
        proof {
            assert(s@.skip(i as int).drop_first() =~= s@.skip(i as int + 1));
        }
        i += 1;
    }
    i
}

fn find_recipient(s: &Vec<RecipientEntry>, sequence: u64, receiver: &str) -> (r: usize)
    ensures
        r == recipient_index(recipient_views(s@), sequence, receiver@),
        r <= s@.len(),
{
    let ghost views = recipient_views(s@);
    let mut i: usize = 0;
    proof {
        assert(views.skip(0) =~= views);
        lemma_recipient_index(views, sequence, receiver@);
    }
    while i < s.len() && !(s[i].sequence == sequence && text_eq(s[i].receiver.as_str(), receiver))
        invariant
            i <= s.len(),
            views == recipient_views(s@),
            recipient_index(views, sequence, receiver@) == i + recipient_index(
                views.skip(i as int),
                sequence,
                receiver@,
            ),
        decreases s.len() - i,
    {
        proof {
            assert(views.skip(i as int)[0] == s@[i as int]@);
            assert(views.skip(i as int).drop_first() =~= views.skip(i as int + 1));
        }
        i += 1;
    }
    proof {
        if i < s.len() {
            assert(views.skip(i as int)[0] == s@[i as int]@);
        }
    }
    i
}

fn make_source_room(s: &mut Vec<SourceEntry>)
    ensures
        final(s)@ == source_room(old(s)@),
{
    if s.len() < TRACE_PENDING_MAX {
        return;
    }
    let mut best: usize = 0;
    let mut i: usize = 1;
    let ghost keys = source_keys(s@);
    proof {
        assert(keys.take(1).len() == 1);
    }
    while i < s.len()
        invariant
            1 <= i <= s.len(),
            s@ == old(s)@,
            keys == source_keys(s@),
            best == least_of(keys.take(i as int)),
            best < i,
        decreases s.len() - i,
    {
        proof {
            let t = keys.take(i as int + 1);
            assert(t.drop_last() =~= keys.take(i as int));
            assert(t.last() == s@[i as int].sequence);
            assert(t[best as int] == s@[best as int].sequence);
        }
        if s[i].sequence < s[best].sequence {
            best = i;
        }
        i += 1;
    }
    proof {
        assert(keys.take(i as int) =~= keys);
    }
    s.remove(best);
}

fn make_recipient_room(s: &mut Vec<RecipientEntry>)
    ensures
        recipient_views(final(s)@) == recipient_room(recipient_views(old(s)@)),
{
    if s.len() < TRACE_PENDING_MAX {
        return;
    }
    let mut best: usize = 0;
    let mut i: usize = 1;
    let ghost keys = recipient_keys(recipient_views(s@));
    proof {
        assert(keys.take(1).len() == 1);
    }
    while i < s.len()
        invariant
            1 <= i <= s.len(),
            s@ == old(s)@,
            keys == recipient_keys(recipient_views(s@)),
            best == least_of(keys.take(i as int)),
            best < i,
        decreases s.len() - i,
    {
        proof {
            let t = keys.take(i as int + 1);
            assert(t.drop_last() =~= keys.take(i as int));
            assert(t.last() == s@[i as int].sequence);
            assert(t[best as int] == s@[best as int].sequence);
        }
        if s[i].sequence < s[best].sequence {
            best = i;
        }
        i += 1;
    }
    proof {
        assert(keys.take(i as int) =~= keys);
    }
    s.remove(best);
    proof {
        assert(recipient_views(s@) =~= recipient_views(old(s)@).remove(best as int));
    }
}

/// Notes what the source saw of a frame.
pub fn note_source(sources: &mut Vec<SourceEntry>, entry: SourceEntry)
    requires
        old(sources)@.len() <= TRACE_PENDING_MAX,
    ensures
        final(sources)@ == source_placed(source_room(old(sources)@), entry),
        final(sources)@.len() <= TRACE_PENDING_MAX,
{
    proof {
        if sources@.len() > 0 {
            lemma_least_of(source_keys(sources@));
        }
    }
    make_source_room(sources);
    let i = find_source(sources, entry.sequence);
    if i < sources.len() {
        sources.set(i, entry);
    } else {
        sources.push(entry);
    }
}

/// Makes room for, finds or makes the entry of a frame on its way to a receiver.
pub fn enter_recipient(recipients: &mut Vec<RecipientEntry>, sequence: u64, receiver: &str) -> (r: usize)
    requires
        old(recipients)@.len() <= TRACE_PENDING_MAX,
    ensures
        recipient_views(final(recipients)@) == recipient_entered(
            recipient_room(recipient_views(old(recipients)@)),
            sequence,
            receiver@,
        ),
        r == recipient_index(recipient_views(final(recipients)@), sequence, receiver@),
        r < final(recipients)@.len(),
        final(recipients)@.len() <= TRACE_PENDING_MAX,
{
    proof {
        if recipients@.len() > 0 {
            lemma_least_of(recipient_keys(recipient_views(recipients@)));
        }
    }
    make_recipient_room(recipients);
    let ghost room = recipients@;
    let i = find_recipient(recipients, sequence, receiver);
    proof {
        lemma_entered(recipient_views(room), sequence, receiver@);
    }
    if i == recipients.len() {
        recipients.push(
            RecipientEntry { sequence, receiver: receiver.to_owned(), partial: RecipientTracePartial::default() },
        );
        proof {
            assert(recipient_views(recipients@) =~= recipient_views(room).push(recipients@.last()@));
        }
    }
    i
}

/// Completes the record of a frame and receiver where every stage is known: the record
/// goes into the window, and the frame waits no more.
pub fn try_complete_record(
    sequence: u64,
    receiver: &str,
    sources: &Vec<SourceEntry>,
    recipients: &mut Vec<RecipientEntry>,
    trace: &mut Option<TraceState>,
)
    ensures
        (recipient_views(final(recipients)@), opt_trace(*final(trace))) == completed(
            sequence,
            receiver@,
            sources@,
            recipient_views(old(recipients)@),
            opt_trace(*old(trace)),
        ),
        final(recipients)@.len() <= old(recipients)@.len(),
{
    let ghost before = recipients@;
    let i = find_recipient(recipients, sequence, receiver);
    if i >= recipients.len() {
        return;
    }
    proof {
        lemma_recipient_index(recipient_views(before), sequence, receiver@);
        assert(recipient_views(before)[i as int] == before[i as int]@);
    }
    let p: RecipientTracePartial = recipients[i].partial;
    let k = find_source(sources, sequence);
    if k >= sources.len() {
        return;
    }
    let src: SourceTracePartial = sources[k].partial;
    match (p.wire_send_ns, p.wire_recv_ns, p.scheduler_dequeue_ns, p.writei_return_ns) {
        (Some(wire_send), Some(wire_recv), Some(dequeue), Some(written)) => {
            if let Some(state) = trace {
                let record = FrameTraceRecord {
                    sequence,
                    receiver_device_id: receiver.to_owned(),
                    presentation_time_ms: src.presentation_time_ms,
                    source_capture_readi_return_ns: src.capture_readi_return_ns,
                    source_mpsc_send_ns: src.mpsc_send_ns,
                    source_mpsc_recv_ns: src.mpsc_recv_ns,
                    source_fanout_enter_ns: src.fanout_enter_ns,
                    source_wire_send_ns: wire_send,
                    receiver_wire_recv_ns: wire_recv,
                    receiver_scheduler_dequeue_ns: dequeue,
                    receiver_writei_return_ns: written,
                    clock_offset_ns: 0,
                };
                state.push(record);
                recipients.remove(i);
                proof {
                    assert(recipient_views(recipients@) =~= recipient_views(before).remove(i as int));
                }
            }
        },
        _ => {},
    }
}

/// Where there is room for 256 frames and all of it is taken, a frame with the least number
/// makes room, and no other does.
pub proof fn oldest_frames_make_room(sources: Seq<SourceEntry>, recipients: Seq<RecipientView>)
    ensures
        sources.len() < 256 ==> source_room(sources) == sources,
        recipients.len() < 256 ==> recipient_room(recipients) == recipients,
        sources.len() >= 256 ==> exists|k: int|
            0 <= k < sources.len() && source_room(sources) == #[trigger] sources.remove(k) && forall|j: int|
                0 <= j < sources.len() ==> sources[k].sequence <= (#[trigger] sources[j]).sequence,
        recipients.len() >= 256 ==> exists|k: int|
            0 <= k < recipients.len() && recipient_room(recipients) == #[trigger] recipients.remove(k) && forall|j: int|
                0 <= j < recipients.len() ==> recipients[k].sequence <= (#[trigger] recipients[j]).sequence,
{
    if sources.len() >= 256 {
        let keys = source_keys(sources);
        lemma_least_of(keys);
        let k = least_of(keys);
        assert forall|j: int| 0 <= j < sources.len() implies sources[k].sequence <= (#[trigger] sources[j]).sequence by {
            assert(keys[k] <= keys[j]);
        }
        assert(source_room(sources) == sources.remove(k));
    }
    if recipients.len() >= 256 {
        let keys = recipient_keys(recipients);
        lemma_least_of(keys);
        let k = least_of(keys);
        assert forall|j: int| 0 <= j < recipients.len() implies recipients[k].sequence <= (
        #[trigger] recipients[j]).sequence by {
            assert(keys[k] <= keys[j]);
        }
        assert(recipient_room(recipients) == recipients.remove(k));
    }
}

/// A record holds, each in its place, what the source saw of the frame and the four times
/// at which it was sent, received, taken up and played; there is none before all are known.
pub proof fn records_hold_every_stage(e: RecipientView, sources: Seq<SourceEntry>)
    ensures
        record_of(e, sources) matches Some(r) ==> {
            &&& r.sequence == e.sequence
            &&& r.receiver_device_id == e.receiver
            &&& e.partial.wire_send_ns == Some(r.source_wire_send_ns)
            &&& e.partial.wire_recv_ns == Some(r.receiver_wire_recv_ns)
            &&& e.partial.scheduler_dequeue_ns == Some(r.receiver_scheduler_dequeue_ns)
            &&& e.partial.writei_return_ns == Some(r.receiver_writei_return_ns)
            &&& exists|i: int|
                0 <= i < sources.len() && (#[trigger] sources[i]).sequence == e.sequence && sources[i].partial == r.source
        },
        e.partial.wire_send_ns is None || e.partial.wire_recv_ns is None || e.partial.scheduler_dequeue_ns is None
            || e.partial.writei_return_ns is None ==> record_of(e, sources) is None,
{
    lemma_source_found(sources, e.sequence);
}

proof fn lemma_source_found(s: Seq<SourceEntry>, sequence: u64)
    ensures
        0 <= source_index(s, sequence) <= s.len(),
        source_index(s, sequence) < s.len() ==> s[source_index(s, sequence)].sequence == sequence,
    decreases s.len(),
{
    if s.len() > 0 && s[0].sequence != sequence {
        lemma_source_found(s.drop_first(), sequence);
    }
}

/// Each field is seen under its own name, as it is.
pub proof fn fields_are_seen_under_their_names(
    recipient_entry: RecipientEntry,
    frame_trace_record: FrameTraceRecord,
    trace_state: TraceState,
)
    ensures
        recipient_entry@.sequence == recipient_entry.sequence,
        recipient_entry@.receiver == recipient_entry.receiver@,
        recipient_entry@.partial == recipient_entry.partial,
        frame_trace_record@.sequence == frame_trace_record.sequence,
        frame_trace_record@.receiver_device_id == frame_trace_record.receiver_device_id@,
        frame_trace_record@.source.presentation_time_ms == frame_trace_record.presentation_time_ms,
        frame_trace_record@.source.capture_readi_return_ns == frame_trace_record.source_capture_readi_return_ns,
        frame_trace_record@.source.mpsc_send_ns == frame_trace_record.source_mpsc_send_ns,
        frame_trace_record@.source.mpsc_recv_ns == frame_trace_record.source_mpsc_recv_ns,
        frame_trace_record@.source.fanout_enter_ns == frame_trace_record.source_fanout_enter_ns,
        frame_trace_record@.source_wire_send_ns == frame_trace_record.source_wire_send_ns,
        frame_trace_record@.receiver_wire_recv_ns == frame_trace_record.receiver_wire_recv_ns,
        frame_trace_record@.receiver_scheduler_dequeue_ns == frame_trace_record.receiver_scheduler_dequeue_ns,
        frame_trace_record@.receiver_writei_return_ns == frame_trace_record.receiver_writei_return_ns,
        frame_trace_record@.clock_offset_ns == frame_trace_record.clock_offset_ns,
        trace_state@.window == record_views(trace_state.window@),
        trace_state@.window_size == trace_state.window_size,
{
}

} // verus!
