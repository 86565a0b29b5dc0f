//! The receiver: frames wait for their time and are played in the order in which they
//! came, every one of them.
//!
//! The first frame fixes the anchor: the local time at which it came, and its own
//! presentation time. A frame is due when as much time has passed since the anchor as
//! lies between the two presentation times, and the leader on top.

use crate::multiroom::capture::{count_up, counted};
use crate::multiroom::samples::FRAMES_PER_CHUNK;
use vstd::prelude::*;

verus! {

/// How often the receiver looks for frames that are due, in milliseconds.
pub const SCHEDULER_TICK_MS: u64 = 5;

/// The nanoseconds of a millisecond.
pub const NS_PER_MS: u64 = 1_000_000;

/// A frame as it reached the receiver.
#[derive(Debug, Clone)]
pub struct AudioFrame {
    pub from_device_id: String,
    pub group_id: String,
    pub sequence: u64,
    pub presentation_time_ms: u64,
    /// When it came in.
    pub wire_recv_ns: u64,
    pub payload: Vec<u8>,
}

/// [`AudioFrame`] over mathematical values.
#[verifier::ext_equal]
pub struct FrameView {
    pub from_device_id: Seq<char>,
    pub group_id: Seq<char>,
    pub sequence: u64,
    pub presentation_time_ms: u64,
    pub wire_recv_ns: u64,
    pub payload: Seq<u8>,
}

impl View for AudioFrame {
    type V = FrameView;

    open spec fn view(&self) -> FrameView {
        FrameView {
            from_device_id: self.from_device_id@,
            group_id: self.group_id@,
            sequence: self.sequence,
            presentation_time_ms: self.presentation_time_ms,
            wire_recv_ns: self.wire_recv_ns,
            payload: self.payload@,
        }
    }
}

/// The views of frames.
pub open spec fn frame_views(v: Seq<AudioFrame>) -> Seq<FrameView> {
    v.map_values(|f: AudioFrame| f@)
}

/// Where the two clocks were at the first frame.
#[derive(Debug, Clone, Copy, PartialEq, Eq, Structural)]
pub struct Anchor {
    pub local_ns: u64,
    pub pts_ms: u64,
}

/// How far a presentation time lies behind that of the anchor.
pub open spec fn offset_ms(anchor: Anchor, pts_ms: u64) -> int {
    if pts_ms > anchor.pts_ms {
        pts_ms - anchor.pts_ms
    } else {
        0
    }
}

/// The local time at which a frame is due, in nanoseconds.
pub open spec fn render_at(anchor: Anchor, pts_ms: u64, leader_ms: u64) -> int {
    anchor.local_ns + (offset_ms(anchor, pts_ms) + leader_ms) * NS_PER_MS
}

/// Decides whether a frame is due.
pub fn is_due(anchor: Anchor, pts_ms: u64, leader_ms: u64, now_ns: u64) -> (r: bool)
    ensures
        r == (render_at(anchor, pts_ms, leader_ms) <= now_ns),
        pts_ms >= anchor.pts_ms ==> r == (now_ns - anchor.local_ns >= (pts_ms - anchor.pts_ms + leader_ms) * 1_000_000),
        pts_ms <= anchor.pts_ms ==> r == (now_ns - anchor.local_ns >= leader_ms * 1_000_000),
{
    let offset: u64 = if pts_ms > anchor.pts_ms {
        pts_ms - anchor.pts_ms
    } else {
        0
    };
    let at: u128 = anchor.local_ns as u128 + (offset as u128 + leader_ms as u128) * 1_000_000;
    at <= now_ns as u128
}

/// The number of frames at the head of a queue that are due.
pub open spec fn due_count(anchor: Anchor, queue: Seq<FrameView>, leader_ms: u64, now_ns: u64) -> nat
    decreases queue.len(),
{
    if queue.len() == 0 || render_at(anchor, queue[0].presentation_time_ms, leader_ms) > now_ns {
        0
    } else {
        1 + due_count(anchor, queue.drop_first(), leader_ms, now_ns)
    }
}

proof fn lemma_due_count(anchor: Anchor, queue: Seq<FrameView>, leader_ms: u64, now_ns: u64)
    ensures
        due_count(anchor, queue, leader_ms, now_ns) <= queue.len(),
        forall|i: int|
            0 <= i < due_count(anchor, queue, leader_ms, now_ns) ==> render_at(
                anchor,
                (#[trigger] queue[i]).presentation_time_ms,
                leader_ms,
            ) <= now_ns,
        due_count(anchor, queue, leader_ms, now_ns) < queue.len() ==> render_at(
            anchor,
            queue[due_count(anchor, queue, leader_ms, now_ns) as int].presentation_time_ms,
            leader_ms,
        ) > now_ns,
    decreases queue.len(),
{
    if queue.len() > 0 && render_at(anchor, queue[0].presentation_time_ms, leader_ms) <= now_ns {
        let rest = queue.drop_first();
        lemma_due_count(anchor, rest, leader_ms, now_ns);
        assert forall|i: int| 0 <= i < due_count(anchor, queue, leader_ms, now_ns) implies render_at(
            anchor,
            (#[trigger] queue[i]).presentation_time_ms,
            leader_ms,
        ) <= now_ns by {
            if i > 0 {
                assert(rest[i - 1] == queue[i]);
            }
        }
    }
}

/// What a receiver has counted.
#[derive(Debug, Clone, Copy, PartialEq, Eq, Structural)]
pub struct ReceiverCounters {
    pub frames_received: u64,
    /// The chunks of silence that filled a gap.
    pub underruns: u64,
    /// The frames that waited when it was last looked.
    pub queue_depth: u64,
}

/// A receiver.
#[derive(Debug)]
pub struct Receiver {
    pub anchor: Option<Anchor>,
    pub queue: Vec<AudioFrame>,
}

/// [`Receiver`] over mathematical values.
#[verifier::ext_equal]
pub struct ReceiverView {
    pub anchor: Option<Anchor>,
    pub queue: Seq<FrameView>,
}

impl View for Receiver {
    type V = ReceiverView;

    open spec fn view(&self) -> ReceiverView {
        ReceiverView { anchor: self.anchor, queue: frame_views(self.queue@) }
    }
}

/// A receiver that has received nothing.
pub open spec fn silent_receiver() -> ReceiverView {
    ReceiverView { anchor: None, queue: seq![] }
}

/// What happens to a receiver.
#[derive(Debug)]
pub enum ReceiverEvent {
    /// It shall stop.
    Shutdown,
    /// A frame came.
    Frame(AudioFrame),
    /// Frames were lost before they came.
    Lagged,
    /// No more frames will come.
    Closed,
    /// It is time to look for frames that are due.
    Tick,
}

/// [`ReceiverEvent`] over mathematical values.
#[verifier::ext_equal]
pub enum EventView {
    Shutdown,
    Frame(FrameView),
    Lagged,
    Closed,
    Tick,
}

impl View for ReceiverEvent {
    type V = EventView;

    open spec fn view(&self) -> EventView {
        match self {
            ReceiverEvent::Shutdown => EventView::Shutdown,
            ReceiverEvent::Frame(f) => EventView::Frame(f@),
            ReceiverEvent::Lagged => EventView::Lagged,
            ReceiverEvent::Closed => EventView::Closed,
            ReceiverEvent::Tick => EventView::Tick,
        }
    }
}

/// What a receiver does next.
#[derive(Debug)]
pub enum ReceiverAction {
    Exit,
    Continue,
    /// Play frames, one after the other.
    Render(Vec<AudioFrame>),
}

/// [`ReceiverAction`] over mathematical values.
#[verifier::ext_equal]
pub enum ReceiverActionView {
    Exit,
    Continue,
    Render(Seq<FrameView>),
}

impl View for ReceiverAction {
    type V = ReceiverActionView;

    open spec fn view(&self) -> ReceiverActionView {
        match self {
            ReceiverAction::Exit => ReceiverActionView::Exit,
            ReceiverAction::Continue => ReceiverActionView::Continue,
            ReceiverAction::Render(v) => ReceiverActionView::Render(frame_views(v@)),
        }
    }
}

impl ReceiverView {
    /// The number of frames that are due.
    pub open spec fn due(self, leader_ms: u64, now_ns: u64) -> nat {
        match self.anchor {
            Some(a) => due_count(a, self.queue, leader_ms, now_ns),
            None => 0,
        }
    }

    /// After a frame came.
    pub open spec fn received(self, frame: FrameView, now_ns: u64) -> ReceiverView {
        ReceiverView {
            anchor: match self.anchor {
                Some(a) => Some(a),
                None => Some(Anchor { local_ns: now_ns, pts_ms: frame.presentation_time_ms }),
            },
            queue: self.queue.push(frame),
        }
    }

    /// After an event, and what is done next.
    pub open spec fn stepped(self, event: EventView, leader_ms: u64, now_ns: u64) -> (ReceiverView, ReceiverActionView) {
        match event {
            EventView::Shutdown => (self, ReceiverActionView::Exit),
            EventView::Closed => (self, ReceiverActionView::Exit),
            EventView::Lagged => (self, ReceiverActionView::Continue),
            EventView::Frame(f) => (self.received(f, now_ns), ReceiverActionView::Continue),
            EventView::Tick => {
                let k = self.due(leader_ms, now_ns) as int;
                (
                    ReceiverView { anchor: self.anchor, queue: self.queue.skip(k) },
                    ReceiverActionView::Render(self.queue.take(k)),
                )
            },
        }
    }
}

/// What was counted after an event.
pub open spec fn counters_after(
    c: ReceiverCounters,
    before: ReceiverView,
    event: EventView,
    leader_ms: u64,
    now_ns: u64,
) -> ReceiverCounters {
    match event {
        EventView::Frame(_) => ReceiverCounters {
            frames_received: counted(c.frames_received),
            queue_depth: (before.queue.len() + 1) as u64,
            ..c
        },
        EventView::Tick => {
            let k = before.due(leader_ms, now_ns);
            if k > 0 {
                ReceiverCounters { queue_depth: (before.queue.len() - k) as u64, ..c }
            } else {
                c
            }
        },
        _ => c,
    }
}

/// Whether a chunk of silence is needed: nothing was played at this tick, something was
/// received before, and less than a chunk waits in the device.
pub open spec fn needs_silence(rendered: nat, anchored: bool, queued_frames: int) -> bool {
    rendered == 0 && anchored && queued_frames < FRAMES_PER_CHUNK
}

/// What a receiver reports of a frame that it played.
#[derive(Debug, Clone)]
pub struct ReceiverFrameTraceReport {
    pub source_device_id: String,
    pub group_id: String,
    pub sequence: u64,
    pub wire_recv_ns: u64,
    pub scheduler_dequeue_ns: u64,
    pub writei_return_ns: u64,
}

impl Receiver {
    /// A receiver that has received nothing.
    pub fn new() -> (r: Receiver)
        ensures
            r@ == silent_receiver(),
    {
        let r = Receiver { anchor: None, queue: Vec::new() };
        proof {
            assert(r@ =~= silent_receiver());
        }
        r
    }

    fn receive(&mut self, frame: AudioFrame, now_ns: u64, counters: &mut ReceiverCounters)
        ensures
            final(self)@ == old(self)@.received(frame@, now_ns),
            *final(counters) == counters_after(*old(counters), old(self)@, EventView::Frame(frame@), 0, now_ns),
    {
        let ghost before = self.queue@;
        counters.frames_received = count_up(counters.frames_received);
        if self.anchor.is_none() {
            self.anchor = Some(Anchor { local_ns: now_ns, pts_ms: frame.presentation_time_ms });
        }
        self.queue.push(frame);
        counters.queue_depth = self.queue.len() as u64;
        proof {
            assert(frame_views(self.queue@) =~= frame_views(before).push(frame@));
        }
    }

    fn take_due(&mut self, leader_ms: u64, now_ns: u64, counters: &mut ReceiverCounters) -> (r: Vec<AudioFrame>)
        ensures
            (final(self)@, ReceiverActionView::Render(frame_views(r@))) == old(self)@.stepped(
                EventView::Tick,
                leader_ms,
                now_ns,
            ),
            *final(counters) == counters_after(*old(counters), old(self)@, EventView::Tick, leader_ms, now_ns),
    {
        let ghost before = self.queue@;
        let ghost views = frame_views(before);
        let anchor = match self.anchor {
            Some(a) => a,
            None => {
                let none: Vec<AudioFrame> = Vec::new();
                proof {
                    assert(frame_views(none@) =~= views.take(0));
                    assert(views.skip(0) =~= views);
                }
                return none;
            },
        };
        let mut k: usize = 0;
        proof {
            assert(views.skip(0) =~= views);
        }
        while k < self.queue.len() && is_due(anchor, self.queue[k].presentation_time_ms, leader_ms, now_ns)
            invariant
                k <= self.queue.len(),
                self.queue@ == before,
                self.anchor == Some(anchor),
                self.anchor == old(self).anchor,
                views == frame_views(before),
                due_count(anchor, views, leader_ms, now_ns) == k + due_count(
                    anchor,
                    views.skip(k as int),
                    leader_ms,
                    now_ns,
                ),
            decreases self.queue.len() - k,
        {
            proof {
                assert(views.skip(k as int)[0] == before[k as int]@);
                assert(views.skip(k as int).drop_first() =~= views.skip(k as int + 1));
            }
            k += 1;
        }
        proof {
            if k < before.len() {
                assert(views.skip(k as int)[0] == before[k as int]@);
            }
            assert(due_count(anchor, views, leader_ms, now_ns) == k);
        }
        let mut rest = self.queue.split_off(k);
        std::mem::swap(&mut self.queue, &mut rest);
        if k > 0 {
            counters.queue_depth = self.queue.len() as u64;
        }
        proof {
            assert(frame_views(self.queue@) =~= views.skip(k as int));
            assert(frame_views(rest@) =~= views.take(k as int));
        }
        rest
    }

    /// Takes an event, and says what to do next. At a tick the frames at the head of the
    /// queue come out, up to the first that is not due.
    pub fn step(
        &mut self,
        event: ReceiverEvent,
        leader_ms: u64,
        now_ns: u64,
        counters: &mut ReceiverCounters,
    ) -> (r: ReceiverAction)
        ensures
            (final(self)@, r@) == old(self)@.stepped(event@, leader_ms, now_ns),
            *final(counters) == counters_after(*old(counters), old(self)@, event@, leader_ms, now_ns),
    {
        match event {
            ReceiverEvent::Shutdown => ReceiverAction::Exit,
            ReceiverEvent::Closed => ReceiverAction::Exit,
            ReceiverEvent::Lagged => ReceiverAction::Continue,
            ReceiverEvent::Frame(f) => {
                self.receive(f, now_ns, counters);
                ReceiverAction::Continue
            },
            ReceiverEvent::Tick => ReceiverAction::Render(self.take_due(leader_ms, now_ns, counters)),
        }
    }

    /// Decides whether a chunk of silence is needed.
    pub fn wants_silence(&self, rendered: usize, queued_frames: i64) -> (r: bool)
        ensures
            r == needs_silence(rendered as nat, self@.anchor is Some, queued_frames as int),
    {
        rendered == 0 && self.anchor.is_some() && queued_frames < FRAMES_PER_CHUNK as i64
    }
}

/// Counts a chunk of silence, where it was written.
pub fn note_silence(counters: &mut ReceiverCounters, written: bool)
    ensures
        *final(counters) == (ReceiverCounters {
            underruns: if written {
                counted(old(counters).underruns)
            } else {
                old(counters).underruns
            },
            ..*old(counters)
        }),
{
    if written {
        counters.underruns = count_up(counters.underruns);
    }
}

/// What is reported of a frame that was played.
pub fn frame_report(frame: &AudioFrame, scheduler_dequeue_ns: u64, writei_return_ns: u64) -> (r: ReceiverFrameTraceReport)
    ensures
        r.source_device_id@ == frame@.from_device_id,
        r.group_id@ == frame@.group_id,
        r.sequence == frame@.sequence,
        r.wire_recv_ns == frame@.wire_recv_ns,
        r.scheduler_dequeue_ns == scheduler_dequeue_ns,
        r.writei_return_ns == writei_return_ns,
{
    ReceiverFrameTraceReport {
        source_device_id: frame.from_device_id.clone(),
        group_id: frame.group_id.clone(),
        sequence: frame.sequence,
        wire_recv_ns: frame.wire_recv_ns,
        scheduler_dequeue_ns,
        writei_return_ns,
    }
}

// What holds over a receiver's life.

/// An event with the time and the leader at which it happens.
pub struct Happening {
    pub event: EventView,
    pub leader_ms: u64,
    pub now_ns: u64,
}

/// A receiver after happenings.
pub open spec fn receiver_after(log: Seq<Happening>) -> ReceiverView
    decreases log.len(),
{
    if log.len() == 0 {
        silent_receiver()
    } else {
        let e = log.last();
        receiver_after(log.drop_last()).stepped(e.event, e.leader_ms, e.now_ns).0
    }
}

/// The frames that were played, in order.
pub open spec fn played(log: Seq<Happening>) -> Seq<FrameView>
    decreases log.len(),
{
    if log.len() == 0 {
        seq![]
    } else {
        let e = log.last();
        match receiver_after(log.drop_last()).stepped(e.event, e.leader_ms, e.now_ns).1 {
            ReceiverActionView::Render(frames) => played(log.drop_last()) + frames,
            _ => played(log.drop_last()),
        }
    }
}

/// The frames that came, in order.
pub open spec fn came(log: Seq<Happening>) -> Seq<FrameView>
    decreases log.len(),
{
    if log.len() == 0 {
        seq![]
    } else {
        match log.last().event {
            EventView::Frame(f) => came(log.drop_last()).push(f),
            _ => came(log.drop_last()),
        }
    }
}

/// Whatever happens, the frames that were played and those that wait are all the frames
/// that came, each once and in the order in which they came: none is dropped, repeated,
/// moved or changed.
pub proof fn every_frame_is_played_in_order(log: Seq<Happening>)
    ensures
        played(log) + receiver_after(log).queue == came(log),
    decreases log.len(),
{
    if log.len() == 0 {
        assert(played(log) + receiver_after(log).queue =~= came(log));
    } else {
        let rest = log.drop_last();
        every_frame_is_played_in_order(rest);
        let before = receiver_after(rest);
        let e = log.last();
        match e.event {
            EventView::Frame(f) => {
                assert(played(log) + receiver_after(log).queue =~= (played(rest) + before.queue).push(f));
            },
            EventView::Tick => {
                let k = before.due(e.leader_ms, e.now_ns) as int;
                if before.anchor is Some {
                    lemma_due_count(before.anchor->0, before.queue, e.leader_ms, e.now_ns);
                }
                assert(before.queue.take(k) + before.queue.skip(k) =~= before.queue);
                assert(played(log) + receiver_after(log).queue =~= played(rest) + before.queue);
            },
            _ => {},
        }
    }
}

/// No frame is played before its time: since the anchor, the time between the two
/// presentation times and the leader have passed.
pub proof fn no_frame_is_played_early(v: ReceiverView, leader_ms: u64, now_ns: u64, i: int)
    requires
        v.anchor is Some,
        0 <= i < v.due(leader_ms, now_ns),
    ensures
        render_at(v.anchor->0, v.queue[i].presentation_time_ms, leader_ms) <= now_ns,
{
    lemma_due_count(v.anchor->0, v.queue, leader_ms, now_ns);
}

/// Time passes for a receiver as it passed for the source: of two frames that were made
/// after the anchor, the one made later is due later by exactly the time between them,
/// whatever the leader; and a longer leader puts every frame off by what it is longer.
pub proof fn due_times_keep_their_distance(anchor: Anchor, earlier_ms: u64, later_ms: u64, leader_ms: u64, longer_ms: u64)
    requires
        anchor.pts_ms <= earlier_ms <= later_ms,
        leader_ms <= longer_ms,
    ensures
        render_at(anchor, later_ms, leader_ms) - render_at(anchor, earlier_ms, leader_ms) == (later_ms - earlier_ms)
            * 1_000_000,
        render_at(anchor, later_ms, longer_ms) - render_at(anchor, later_ms, leader_ms) == (longer_ms - leader_ms)
            * 1_000_000,
{
}

/// When a frame is played, in nanoseconds and milliseconds: at a tick the frames at the
/// head of the queue come out up to the first for which, since the first frame came, less
/// time has passed than lies between the presentation times of the two and the leader.
/// Those that come out were at their time, the next is not, and nothing else changes.
pub proof fn frames_wait_for_their_time(v: ReceiverView, leader_ms: u64, now_ns: u64)
    requires
        v.anchor is Some,
    ensures
        ({
            let a = v.anchor->0;
            let passed = now_ns - a.local_ns;
            let (after, action) = v.stepped(EventView::Tick, leader_ms, now_ns);
            &&& action matches ReceiverActionView::Render(out)
            &&& v.queue == out + after.queue
            &&& after.anchor == v.anchor
            &&& forall|i: int|
                0 <= i < out.len() ==> {
                    &&& passed >= leader_ms * 1_000_000
                    &&& passed >= ((#[trigger] out[i]).presentation_time_ms - a.pts_ms + leader_ms) * 1_000_000
                }
            &&& after.queue.len() > 0 ==> {
                ||| passed < leader_ms * 1_000_000
                ||| passed < (after.queue[0].presentation_time_ms - a.pts_ms + leader_ms) * 1_000_000
            }
        }),
{
    let a = v.anchor->0;
    lemma_due_count(a, v.queue, leader_ms, now_ns);
    let k = v.due(leader_ms, now_ns) as int;
    assert(v.queue.take(k) + v.queue.skip(k) =~= v.queue);
}

/// The first frame that comes sets the anchor, where it stays: at the local time at which
/// it came, and at its own presentation time. A receiver that has none plays nothing.
pub proof fn first_frame_sets_the_anchor(v: ReceiverView, frame: FrameView, leader_ms: u64, now_ns: u64)
    ensures
        ({
            let (after, action) = v.stepped(EventView::Frame(frame), leader_ms, now_ns);
            &&& action is Continue
            &&& after.queue == v.queue.push(frame)
            &&& v.anchor is Some ==> after.anchor == v.anchor
            &&& v.anchor is None ==> after.anchor is Some && after.anchor->0.local_ns == now_ns
                && after.anchor->0.pts_ms == frame.presentation_time_ms
        }),
        v.anchor is None ==> v.stepped(EventView::Tick, leader_ms, now_ns).0 == v && v.stepped(
            EventView::Tick,
            leader_ms,
            now_ns,
        ).1 == ReceiverActionView::Render(seq![]),
{
    if v.anchor is None {
        assert(v.queue.skip(0) =~= v.queue);
        assert(v.queue.take(0) =~= seq![]);
    }
}

/// A receiver goes on until it is told to stop or no frame can come any more; frames that
/// were lost on the way change nothing.
pub proof fn receivers_stop_when_told(v: ReceiverView, event: EventView, leader_ms: u64, now_ns: u64)
    ensures
        v.stepped(event, leader_ms, now_ns).1 is Exit <==> event is Shutdown || event is Closed,
        event is Lagged ==> v.stepped(event, leader_ms, now_ns) == (v, ReceiverActionView::Continue),
{
}

/// The counters say what was received and what waits: a frame that comes counts one, and
/// the depth is the length of the queue as it then is.
pub proof fn counters_tell_what_waits(c: ReceiverCounters, v: ReceiverView, event: EventView, leader_ms: u64, now_ns: u64)
    requires
        c.queue_depth == v.queue.len(),
        c.frames_received < u64::MAX,
        v.queue.len() < u64::MAX,
    ensures
        ({
            let after = counters_after(c, v, event, leader_ms, now_ns);
            &&& after.queue_depth == v.stepped(event, leader_ms, now_ns).0.queue.len()
            &&& after.frames_received == c.frames_received + (if event is Frame {
                1int
            } else {
                0
            })
            &&& after.underruns == c.underruns
        }),
{
    if v.anchor is Some {
        lemma_due_count(v.anchor->0, v.queue, leader_ms, now_ns);
    }
}

/// Silence is played just where nothing else was, after the first frame came, and less
/// than 960 frames are left in the device.
pub proof fn silence_fills_gaps_only(rendered: nat, anchored: bool, queued_frames: int)
    ensures
        needs_silence(rendered, anchored, queued_frames) <==> rendered == 0 && anchored && queued_frames < 960,
{
}

/// A frame that is late is played nonetheless: what is due at some time is due at every
/// later time, and under every shorter leader.
pub proof fn late_frames_stay_due(v: ReceiverView, leader_ms: u64, now_ns: u64, sooner_ms: u64, later_ns: u64)
    requires
        now_ns <= later_ns,
        sooner_ms <= leader_ms,
    ensures
        v.due(leader_ms, now_ns) <= v.due(sooner_ms, later_ns),
    decreases v.queue.len(),
{
    if v.anchor is Some && v.queue.len() > 0 {
        let a = v.anchor->0;
        let pts = v.queue[0].presentation_time_ms;
        assert(render_at(a, pts, sooner_ms) <= render_at(a, pts, leader_ms)) by (nonlinear_arith)
            requires
                sooner_ms <= leader_ms,
        ;
        late_frames_stay_due(
            ReceiverView { anchor: v.anchor, queue: v.queue.drop_first() },
            leader_ms,
            now_ns,
            sooner_ms,
            later_ns,
        );
    }
}

/// Each field is seen under its own name, as it is.
pub proof fn fields_are_seen_under_their_names(audio_frame: AudioFrame, receiver: Receiver)
    ensures
        audio_frame@.from_device_id == audio_frame.from_device_id@,
        audio_frame@.group_id == audio_frame.group_id@,
        audio_frame@.sequence == audio_frame.sequence,
        audio_frame@.presentation_time_ms == audio_frame.presentation_time_ms,
        audio_frame@.wire_recv_ns == audio_frame.wire_recv_ns,
        audio_frame@.payload == audio_frame.payload@,
        receiver@.anchor == receiver.anchor,
        receiver@.queue == frame_views(receiver.queue@),
{
}

} // verus!
