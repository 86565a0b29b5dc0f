//! Taking up a role: which tasks end, which start, and whom the source calls.

use crate::multiroom::config::{ConfigView, PluginConfig, Role};
use crate::multiroom::trace::{empty_trace, opt_trace, TraceState, TraceView, TRACE_WINDOW};
use crate::text::{cat, copy_texts, opt_eq, opt_text, text_eq, texts};
use vstd::prelude::*;

verus! {

/// A step in taking up a role. Steps are taken in order; one that fails is passed over.
#[derive(Debug, Clone)]
pub enum Step {
    /// Tell the running tasks to end.
    ReleaseTasks,
    /// Wait until the source has ended.
    JoinSource,
    /// Wait until the receiver has ended.
    JoinReceiver,
    /// Make the group known.
    UpsertGroup { group_id: String, name: String, members: Vec<String> },
    /// Connect to a receiver.
    DialPeer { address: String },
    /// Start a source that plays a test tone to a group.
    StartTone { group_id: String },
    /// Start a source that sends what a device records to a group.
    StartCapture { group_id: String, pcm: String },
    /// Start a receiver that plays to a device.
    StartReceiver { pcm: String, role: Role },
}

/// [`Step`] over mathematical values.
#[verifier::ext_equal]
pub enum StepView {
    ReleaseTasks,
    JoinSource,
    JoinReceiver,
    UpsertGroup { group_id: Seq<char>, name: Seq<char>, members: Seq<Seq<char>> },
    DialPeer { address: Seq<char> },
    StartTone { group_id: Seq<char> },
    StartCapture { group_id: Seq<char>, pcm: Seq<char> },
    StartReceiver { pcm: Seq<char>, role: Role },
}

impl View for Step {
    type V = StepView;

    open spec fn view(&self) -> StepView {
        match self {
            Step::ReleaseTasks => StepView::ReleaseTasks,
            Step::JoinSource => StepView::JoinSource,
            Step::JoinReceiver => StepView::JoinReceiver,
            Step::UpsertGroup { group_id, name, members } => StepView::UpsertGroup {
                group_id: group_id@,
                name: name@,
                members: texts(members@),
            },
            Step::DialPeer { address } => StepView::DialPeer { address: address@ },
            Step::StartTone { group_id } => StepView::StartTone { group_id: group_id@ },
            Step::StartCapture { group_id, pcm } => StepView::StartCapture { group_id: group_id@, pcm: pcm@ },
            Step::StartReceiver { pcm, role } => StepView::StartReceiver { pcm: pcm@, role: *role },
        }
    }
}

/// The views of steps.
pub open spec fn step_views(v: Seq<Step>) -> Seq<StepView> {
    v.map_values(|s: Step| s@)
}

fn push_step(v: &mut Vec<Step>, step: Step)
    ensures
        step_views(final(v)@) == step_views(old(v)@).push(step@),
{
    let ghost before = v@;
    v.push(step);
    proof {
        assert(step_views(v@) =~= step_views(before).push(step@));
    }
}

/// What taking up a role depends on, and no role changes.
#[derive(Debug, Clone)]
pub struct RoleSetup {
    /// The device that sound goes to.
    pub alsa_pcm: String,
    /// The device that the source records; empty for a test tone.
    pub source_pcm: String,
    /// Whether there are sound devices at all.
    pub has_alsa: bool,
}

/// [`RoleSetup`] over mathematical values.
#[verifier::ext_equal]
pub struct SetupView {
    pub alsa_pcm: Seq<char>,
    pub source_pcm: Seq<char>,
    pub has_alsa: bool,
}

impl View for RoleSetup {
    type V = SetupView;

    open spec fn view(&self) -> SetupView {
        SetupView { alsa_pcm: self.alsa_pcm@, source_pcm: self.source_pcm@, has_alsa: self.has_alsa }
    }
}

/// The role that was taken up, and what runs for it.
#[derive(Debug)]
pub struct RoleEngagement {
    pub role: Role,
    pub group_id: Option<String>,
    pub source_running: bool,
    pub receiver_running: bool,
    /// The records of frames, while a recording source runs.
    pub trace: Option<TraceState>,
}

/// [`RoleEngagement`] over mathematical values.
#[verifier::ext_equal]
pub struct EngagementView {
    pub role: Role,
    pub group_id: Option<Seq<char>>,
    pub source_running: bool,
    pub receiver_running: bool,
    pub trace: Option<TraceView>,
}

impl View for RoleEngagement {
    type V = EngagementView;

    open spec fn view(&self) -> EngagementView {
        EngagementView {
            role: self.role,
            group_id: opt_text(self.group_id),
            source_running: self.source_running,
            receiver_running: self.receiver_running,
            trace: opt_trace(self.trace),
        }
    }
}

/// No role: nothing runs.
pub open spec fn idle_engagement() -> EngagementView {
    EngagementView {
        role: Role::Auto,
        group_id: None,
        source_running: false,
        receiver_running: false,
        trace: None,
    }
}

/// A role that a device shall take up, with the group that it is in.
#[derive(Debug, Clone)]
pub struct RoleTarget {
    pub role: Role,
    pub group_id: Option<String>,
    pub members: Vec<String>,
    pub member_addresses: Vec<String>,
}

/// [`RoleTarget`] over mathematical values.
#[verifier::ext_equal]
pub struct TargetView {
    pub role: Role,
    pub group_id: Option<Seq<char>>,
    pub members: Seq<Seq<char>>,
    pub member_addresses: Seq<Seq<char>>,
}

impl View for RoleTarget {
    type V = TargetView;

    open spec fn view(&self) -> TargetView {
        TargetView {
            role: self.role,
            group_id: opt_text(self.group_id),
            members: texts(self.members@),
            member_addresses: texts(self.member_addresses@),
        }
    }
}

/// The steps that end what runs.
pub open spec fn ending(e: EngagementView) -> Seq<StepView> {
    let released = seq![StepView::ReleaseTasks];
    let first = if e.source_running {
        released.push(StepView::JoinSource)
    } else {
        released
    };
    if e.receiver_running {
        first.push(StepView::JoinReceiver)
    } else {
        first
    }
}

/// The steps that connect to receivers.
pub open spec fn dialling(addresses: Seq<Seq<char>>) -> Seq<StepView> {
    addresses.map_values(|a: Seq<char>| StepView::DialPeer { address: a })
}

/// Whether the source records.
pub open spec fn records(setup: SetupView) -> bool {
    setup.source_pcm.len() > 0 && setup.has_alsa
}

/// The steps that start a source in a group: the group is made known, every receiver is
/// called, then the source starts, and a receiver for the source's own device.
pub open spec fn starting_source(setup: SetupView, gid: Seq<char>, t: TargetView) -> Seq<StepView> {
    let met = seq![StepView::UpsertGroup { group_id: gid, name: "multiroom:"@ + gid, members: t.members }] + dialling(
        t.member_addresses,
    );
    let started = met.push(
        if records(setup) {
            StepView::StartCapture { group_id: gid, pcm: setup.source_pcm }
        } else {
            StepView::StartTone { group_id: gid }
        },
    );
    if setup.has_alsa && setup.alsa_pcm.len() > 0 {
        started.push(StepView::StartReceiver { pcm: setup.alsa_pcm, role: Role::Source })
    } else {
        started
    }
}

/// The steps that start a role.
pub open spec fn starting(setup: SetupView, t: TargetView) -> Seq<StepView> {
    match t.role {
        Role::Source => match t.group_id {
            Some(gid) => starting_source(setup, gid, t),
            None => seq![],
        },
        Role::Receiver => if setup.has_alsa {
            seq![StepView::StartReceiver { pcm: setup.alsa_pcm, role: Role::Receiver }]
        } else {
            seq![]
        },
        Role::Auto => seq![],
    }
}

/// What runs once a role is taken up.
pub open spec fn engaged_in(setup: SetupView, t: TargetView) -> EngagementView {
    let leads = t.role == Role::Source && t.group_id is Some;
    EngagementView {
        role: t.role,
        group_id: t.group_id,
        source_running: leads,
        receiver_running: setup.has_alsa && (t.role == Role::Receiver || (leads && setup.alsa_pcm.len() > 0)),
        trace: if leads && records(setup) {
            Some(empty_trace(TRACE_WINDOW))
        } else {
            None
        },
    }
}

/// Whether a role in a group is the one that was taken up.
pub open spec fn already(e: EngagementView, t: TargetView) -> bool {
    e.role == t.role && e.group_id == t.group_id
}

/// What runs after taking up a role, and the steps to it: none where it was taken up
/// already, and else what runs ends before anything starts.
pub open spec fn engaged(e: EngagementView, setup: SetupView, t: TargetView) -> (EngagementView, Seq<StepView>) {
    if already(e, t) {
        (e, seq![])
    } else {
        (engaged_in(setup, t), ending(e) + starting(setup, t))
    }
}

/// Writes the steps that end what runs.
fn end_tasks(e: &RoleEngagement) -> (r: Vec<Step>)
    ensures
        step_views(r@) == ending(e@),
{
    let mut steps: Vec<Step> = Vec::new();
    proof {
        assert(step_views(steps@) =~= seq![]);
    }
    push_step(&mut steps, Step::ReleaseTasks);
    proof {
        assert(step_views(steps@) =~= seq![StepView::ReleaseTasks]);
    }
    if e.source_running {
        push_step(&mut steps, Step::JoinSource);
    }
    if e.receiver_running {
        push_step(&mut steps, Step::JoinReceiver);
    }
    steps
}

fn start_source(steps: &mut Vec<Step>, setup: &RoleSetup, gid: &String, target: &RoleTarget)
    ensures
        step_views(final(steps)@) == step_views(old(steps)@) + starting_source(setup@, gid@, target@),
{
    let ghost before = step_views(steps@);
    let group = Step::UpsertGroup {
        group_id: gid.clone(),
        name: cat("multiroom:", gid.as_str()),
        members: copy_texts(&target.members),
    };
    let ghost first = group@;
    push_step(steps, group);
    let ghost addresses = texts(target.member_addresses@);
    let mut i: usize = 0;
    proof {
        assert(dialling(addresses.take(0)) =~= seq![]);
        assert(step_views(steps@) =~= before.push(first) + dialling(addresses.take(0)));
    }
    while i < target.member_addresses.len()
        invariant
            i <= target.member_addresses.len(),
            addresses == texts(target.member_addresses@),
            step_views(steps@) == before.push(first) + dialling(addresses.take(i as int)),
        decreases target.member_addresses.len() - i,
    {
        push_step(steps, Step::DialPeer { address: target.member_addresses[i].clone() });
        proof {
            assert(addresses[i as int] == target.member_addresses@[i as int]@);
            assert(dialling(addresses.take(i as int + 1)) =~= dialling(addresses.take(i as int)).push(
                StepView::DialPeer { address: addresses[i as int] },
            ));
            assert(step_views(steps@) =~= before.push(first) + dialling(addresses.take(i as int + 1)));
        }
        i += 1;
    }
    proof {
        assert(addresses.take(i as int) =~= addresses);
    }
    if !setup.source_pcm.as_str().is_empty() && setup.has_alsa {
        push_step(steps, Step::StartCapture { group_id: gid.clone(), pcm: setup.source_pcm.clone() });
    } else {
        push_step(steps, Step::StartTone { group_id: gid.clone() });
    }
    if setup.has_alsa && !setup.alsa_pcm.as_str().is_empty() {
        push_step(steps, Step::StartReceiver { pcm: setup.alsa_pcm.clone(), role: Role::Source });
    }
    proof {
        assert(step_views(steps@) =~= before + starting_source(setup@, gid@, target@));
    }
}

impl RoleEngagement {
    /// No role.
    pub fn idle() -> (r: RoleEngagement)
        ensures
            r@ == idle_engagement(),
    {
        RoleEngagement {
            role: Role::Auto,
            group_id: None,
            source_running: false,
            receiver_running: false,
            trace: None,
        }
    }

    /// Ends what runs and gives the role up. The records of frames stay.
    pub fn disengage(&mut self) -> (r: Vec<Step>)
        ensures
            step_views(r@) == ending(old(self)@),
            final(self)@ == (EngagementView { trace: old(self)@.trace, ..idle_engagement() }),
    {
        let steps = end_tasks(self);
        self.role = Role::Auto;
        self.group_id = None;
        self.source_running = false;
        self.receiver_running = false;
        steps
    }
}

/// Takes up a role.
pub fn engage_role(state: &mut RoleEngagement, setup: &RoleSetup, target: &RoleTarget) -> (r: Vec<Step>)
    ensures
        (final(state)@, step_views(r@)) == engaged(old(state)@, setup@, target@),
{
    if state.role == target.role && opt_eq(&state.group_id, &target.group_id) {
        let none: Vec<Step> = Vec::new();
        proof {
            assert(step_views(none@) =~= seq![]);
        }
        return none;
    }
    let mut steps = end_tasks(state);
    let ghost ended = step_views(steps@);
    state.trace = None;
    state.source_running = false;
    state.receiver_running = false;
    state.role = target.role;
    state.group_id = target.group_id.clone();
    match target.role {
        Role::Source => {
            if let Some(gid) = &target.group_id {
                start_source(&mut steps, setup, gid, target);
                state.source_running = true;
                if !setup.source_pcm.as_str().is_empty() && setup.has_alsa {
                    state.trace = Some(TraceState::new(TRACE_WINDOW));
                }
                if setup.has_alsa && !setup.alsa_pcm.as_str().is_empty() {
                    state.receiver_running = true;
                }
            }
        },
        Role::Receiver => {
            if setup.has_alsa {
                push_step(&mut steps, Step::StartReceiver { pcm: setup.alsa_pcm.clone(), role: Role::Receiver });
                state.receiver_running = true;
            }
        },
        Role::Auto => {},
    }
    proof {
        assert(step_views(steps@) =~= ended + starting(setup@, target@));
    }
    steps
}

// What the framework knows of roles and groups.

/// A group.
#[derive(Debug, Clone)]
pub struct Group {
    pub group_id: String,
    pub members: Vec<String>,
}

/// A change of a device's role.
#[derive(Debug, Clone)]
pub enum RoleChange {
    Assigned { device_id: String, new_role: Role },
    Cleared { device_id: String },
}

/// A change of a group.
#[derive(Debug, Clone)]
pub enum GroupChange {
    Created(Group),
    Updated(Group),
    Deleted(String),
}

/// The role that a change gives to a device, where it is about that device.
pub open spec fn role_given(evt: RoleChange, device: Seq<char>) -> Option<Role> {
    match evt {
        RoleChange::Assigned { device_id, new_role } => if device_id@ == device {
            Some(new_role)
        } else {
            None
        },
        RoleChange::Cleared { device_id } => if device_id@ == device {
            Some(Role::Auto)
        } else {
            None
        },
    }
}

/// The role that a change gives to a device.
pub fn role_for_device(evt: &RoleChange, device: &str) -> (r: Option<Role>)
    ensures
        r == role_given(*evt, device@),
{
    match evt {
        RoleChange::Assigned { device_id, new_role } => {
            if text_eq(device_id.as_str(), device) {
                Some(*new_role)
            } else {
                None
            }
        },
        RoleChange::Cleared { device_id } => {
            if text_eq(device_id.as_str(), device) {
                Some(Role::Auto)
            } else {
                None
            }
        },
    }
}

/// Whether a change of a group matters to a device: the device is in it, or the group
/// is gone.
pub open spec fn group_matters(evt: GroupChange, device: Seq<char>) -> bool {
    match evt {
        GroupChange::Created(g) => texts(g.members@).contains(device),
        GroupChange::Updated(g) => texts(g.members@).contains(device),
        GroupChange::Deleted(_) => true,
    }
}

fn has_member(g: &Group, device: &str) -> (r: bool)
    ensures
        r == texts(g.members@).contains(device@),
{
    let mut i: usize = 0;
    while i < g.members.len()
        invariant
            i <= g.members.len(),
            forall|j: int| 0 <= j < i ==> (#[trigger] texts(g.members@)[j]) != device@,
        decreases g.members.len() - i,
    {
        proof {
            assert(texts(g.members@)[i as int] == g.members@[i as int]@);
        }
        if text_eq(g.members[i].as_str(), device) {
            return true;
        }
        i += 1;
    }
    false
}

/// Decides [`group_matters`].
pub fn group_affects_device(evt: &GroupChange, device: &str) -> (r: bool)
    ensures
        r == group_matters(*evt, device@),
{
    match evt {
        GroupChange::Created(g) => has_member(g, device),
        GroupChange::Updated(g) => has_member(g, device),
        GroupChange::Deleted(_) => true,
    }
}

/// What the framework knows of a device: its role, and the groups that it is in, each
/// where it could be read.
#[derive(Debug, Clone)]
pub struct SubstrateReading {
    pub role: Option<Role>,
    pub groups: Option<Vec<Group>>,
}

/// The group of a device: the first one that it is in.
pub open spec fn local_group(groups: Option<Vec<Group>>) -> Option<Group> {
    match groups {
        Some(v) => if v@.len() > 0 {
            Some(v@[0])
        } else {
            None
        },
        None => None,
    }
}

/// A role in the group of a device. Where receivers are, the framework does not say.
pub open spec fn target_in(role: Role, groups: Option<Vec<Group>>) -> TargetView {
    match local_group(groups) {
        Some(g) => TargetView {
            role,
            group_id: Some(g.group_id@),
            members: texts(g.members@),
            member_addresses: seq![],
        },
        None => TargetView { role, group_id: None, members: seq![], member_addresses: seq![] },
    }
}

/// A role in the group of a device.
pub fn resolve_local_group_state(role: Role, groups: &Option<Vec<Group>>) -> (r: RoleTarget)
    ensures
        r@ == target_in(role, *groups),
{
    let none: Vec<String> = Vec::new();
    proof {
        assert(texts(none@) =~= seq![]);
    }
    if let Some(v) = groups {
        if v.len() > 0 {
            return RoleTarget {
                role,
                group_id: Some(v[0].group_id.clone()),
                members: copy_texts(&v[0].members),
                member_addresses: none,
            };
        }
    }
    let nobody: Vec<String> = Vec::new();
    proof {
        assert(texts(nobody@) =~= seq![]);
    }
    RoleTarget { role, group_id: None, members: nobody, member_addresses: none }
}

/// The role and group that the settings name.
pub open spec fn configured_target(config: ConfigView) -> TargetView {
    TargetView {
        role: config.role,
        group_id: config.group_id,
        members: config.group_members,
        member_addresses: config.group_member_addresses,
    }
}

/// The role and group at the start: the framework's where it knows them, else those of
/// the settings.
pub open spec fn initial_target(substrate: Option<SubstrateReading>, config: ConfigView) -> TargetView {
    match substrate {
        Some(s) => {
            let role = match s.role {
                Some(r) => r,
                None => config.role,
            };
            match local_group(s.groups) {
                Some(_) => target_in(role, s.groups),
                None => TargetView { role, ..configured_target(config) },
            }
        },
        None => configured_target(config),
    }
}

fn target_of(role: Role, config: &PluginConfig) -> (r: RoleTarget)
    ensures
        r@ == (TargetView { role, ..configured_target(config@) }),
{
    RoleTarget {
        role,
        group_id: config.group_id.clone(),
        members: copy_texts(&config.group_members),
        member_addresses: copy_texts(&config.group_member_addresses),
    }
}

/// The role and group at the start.
pub fn resolve_initial_engagement(substrate: &Option<SubstrateReading>, config: &PluginConfig) -> (r: RoleTarget)
    ensures
        r@ == initial_target(*substrate, config@),
{
    match substrate {
        Some(s) => {
            let role = match s.role {
                Some(r) => r,
                None => config.role,
            };
            let in_group = match &s.groups {
                Some(v) => v.len() > 0,
                None => false,
            };
            if in_group {
                resolve_local_group_state(role, &s.groups)
            } else {
                target_of(role, config)
            }
        },
        None => target_of(config.role, config),
    }
}

/// What runs after a change of a role, and the steps to it.
pub open spec fn after_role_event(
    e: EngagementView,
    setup: SetupView,
    device: Seq<char>,
    evt: RoleChange,
    groups: Option<Vec<Group>>,
) -> (EngagementView, Seq<StepView>) {
    match role_given(evt, device) {
        Some(role) => engaged(e, setup, target_in(role, groups)),
        None => (e, seq![]),
    }
}

/// What runs after a change of a group, and the steps to it.
pub open spec fn after_group_event(
    e: EngagementView,
    setup: SetupView,
    device: Seq<char>,
    evt: GroupChange,
    reading: SubstrateReading,
) -> (EngagementView, Seq<StepView>) {
    if group_matters(evt, device) {
        engaged(e, setup, target_in(role_or_auto(reading.role), reading.groups))
    } else {
        (e, seq![])
    }
}

/// Takes up the role that a change gives to this device, in the group that it is in. A
/// change of another device is none of its concern.
pub fn handle_role_event(
    state: &mut RoleEngagement,
    setup: &RoleSetup,
    device: &str,
    evt: &RoleChange,
    groups: &Option<Vec<Group>>,
) -> (r: Vec<Step>)
    ensures
        (final(state)@, step_views(r@)) == after_role_event(old(state)@, setup@, device@, *evt, *groups),
        (final(state)@, step_views(r@)) == match role_given(*evt, device@) {
            Some(role) => engaged(old(state)@, setup@, target_in(role, *groups)),
            None => (old(state)@, seq![]),
        },
{
    match role_for_device(evt, device) {
        Some(role) => {
            let target = resolve_local_group_state(role, groups);
            engage_role(state, setup, &target)
        },
        None => {
            let none: Vec<Step> = Vec::new();
            proof {
                assert(step_views(none@) =~= seq![]);
            }
            none
        },
    }
}

/// The role that the framework knows, or none.
pub open spec fn role_or_auto(role: Option<Role>) -> Role {
    match role {
        Some(r) => r,
        None => Role::Auto,
    }
}

/// Takes up the role that the framework knows, where a change of a group matters to
/// this device.
pub fn handle_group_event(
    state: &mut RoleEngagement,
    setup: &RoleSetup,
    device: &str,
    evt: &GroupChange,
    reading: &SubstrateReading,
) -> (r: Vec<Step>)
    ensures
        (final(state)@, step_views(r@)) == after_group_event(old(state)@, setup@, device@, *evt, *reading),
        (final(state)@, step_views(r@)) == if group_matters(*evt, device@) {
            engaged(old(state)@, setup@, target_in(role_or_auto(reading.role), reading.groups))
        } else {
            (old(state)@, seq![])
        },
{
    if !group_affects_device(evt, device) {
        let none: Vec<Step> = Vec::new();
        proof {
            assert(step_views(none@) =~= seq![]);
        }
        return none;
    }
    recover_from_substrate(state, setup, reading)
}

/// Takes up the role that the framework knows, after changes were missed.
pub fn recover_from_substrate(state: &mut RoleEngagement, setup: &RoleSetup, reading: &SubstrateReading) -> (r: Vec<Step>)
    ensures
        (final(state)@, step_views(r@)) == engaged(
            old(state)@,
            setup@,
            target_in(role_or_auto(reading.role), reading.groups),
        ),
{
    let role = match reading.role {
        Some(r) => r,
        None => Role::Auto,
    };
    let target = resolve_local_group_state(role, &reading.groups);
    engage_role(state, setup, &target)
}

// What holds of every engagement.

/// Whether what runs fits the role: a source runs for a source in a group alone, a
/// receiver for a source or a receiver alone, and records are kept for a running source
/// alone.
pub open spec fn consistent(e: EngagementView) -> bool {
    &&& e.source_running ==> e.role == Role::Source && e.group_id is Some
    &&& e.receiver_running ==> e.role != Role::Auto
    &&& e.trace is Some ==> e.source_running
}

/// Whatever is taken up, what runs fits the role.
pub proof fn engagements_stay_consistent(e: EngagementView, setup: SetupView, t: TargetView)
    requires
        consistent(e),
    ensures
        consistent(idle_engagement()),
        consistent(engaged(e, setup, t).0),
        already(engaged(e, setup, t).0, t),
{
}

/// Taking up a role that was just taken up does nothing.
pub proof fn engaging_again_does_nothing(e: EngagementView, setup: SetupView, t: TargetView)
    ensures
        engaged(engaged(e, setup, t).0, setup, t) == (engaged(e, setup, t).0, Seq::<StepView>::empty()),
{
}

/// Without a role the sound device is free: nothing runs, and nothing was started.
pub proof fn without_a_role_nothing_runs(e: EngagementView, setup: SetupView, t: TargetView)
    requires
        consistent(e),
        t.role == Role::Auto,
    ensures
        !engaged(e, setup, t).0.source_running,
        !engaged(e, setup, t).0.receiver_running,
        !already(e, t) ==> engaged(e, setup, t).1 == ending(e),
{
    assert(ending(e) + starting(setup, t) =~= ending(e));
}

/// Whether a step ends a task.
pub open spec fn ends_task(s: StepView) -> bool {
    s == StepView::ReleaseTasks || s == StepView::JoinSource || s == StepView::JoinReceiver
}

/// Where another role is taken up, every task that ran is awaited, and all of that
/// happens before anything else does.
pub proof fn tasks_end_before_others_start(e: EngagementView, setup: SetupView, t: TargetView)
    requires
        !already(e, t),
    ensures
        e.source_running ==> engaged(e, setup, t).1.contains(StepView::JoinSource),
        e.receiver_running ==> engaged(e, setup, t).1.contains(StepView::JoinReceiver),
        engaged(e, setup, t).1[0] == StepView::ReleaseTasks,
        forall|i: int, j: int|
            #![trigger engaged(e, setup, t).1[i], engaged(e, setup, t).1[j]]
            0 <= i < engaged(e, setup, t).1.len() && 0 <= j < engaged(e, setup, t).1.len() && ends_task(
                engaged(e, setup, t).1[i],
            ) && !ends_task(engaged(e, setup, t).1[j]) ==> i < j,
{
    let steps = engaged(e, setup, t).1;
    let k = ending(e).len() as int;
    if e.source_running {
        assert(ending(e)[1] == StepView::JoinSource);
        assert(steps[1] == StepView::JoinSource);
    }
    if e.receiver_running {
        assert(ending(e)[k - 1] == StepView::JoinReceiver);
        assert(steps[k - 1] == StepView::JoinReceiver);
    }
    assert forall|i: int| 0 <= i < k implies ends_task(#[trigger] steps[i]) by {
        assert(steps[i] == ending(e)[i]);
    }
    assert forall|i: int| k <= i < steps.len() implies !ends_task(#[trigger] steps[i]) by {
        assert(steps[i] == starting(setup, t)[i - k]);
        if t.role == Role::Source && t.group_id is Some {
            let gid = t.group_id->0;
            let d = dialling(t.member_addresses);
            if 1 <= i - k < 1 + d.len() {
                assert(starting_source(setup, gid, t)[i - k] == d[i - k - 1]);
            }
        }
    }
}

/// The framework's word counts before that of the settings.
pub proof fn framework_is_heard_first(reading: SubstrateReading, config: ConfigView)
    ensures
        reading.role matches Some(r) ==> initial_target(Some(reading), config).role == r,
        local_group(reading.groups) matches Some(g) ==> initial_target(Some(reading), config).group_id == Some(
            g.group_id@,
        ),
        reading.role is None && local_group(reading.groups) is None ==> initial_target(Some(reading), config)
            == configured_target(config),
{
}

/// A source that leads a group makes the group known with all its members, calls every
/// receiver in turn, and only then starts: recording where there is a device to record
/// from, and with the test tone else. Its own device plays too, where it has one. It is
/// running then, and a source without a group is not.
pub proof fn sources_meet_their_group_first(e: EngagementView, setup: SetupView, t: TargetView, i: int)
    requires
        !already(e, t),
        t.role == Role::Source,
    ensures
        t.group_id matches Some(gid) ==> {
            let (after, steps) = engaged(e, setup, t);
            let k = ending(e).len() as int;
            let n = t.member_addresses.len() as int;
            let plays = setup.has_alsa && setup.alsa_pcm.len() > 0;
            &&& after.source_running
            &&& after.receiver_running == plays
            &&& steps[k] == StepView::UpsertGroup { group_id: gid, name: "multiroom:"@ + gid, members: t.members }
            &&& 0 <= i < n ==> steps[k + 1 + i] == StepView::DialPeer { address: t.member_addresses[i] }
            &&& setup.has_alsa && setup.source_pcm.len() > 0 ==> steps[k + 1 + n] == StepView::StartCapture {
                group_id: gid,
                pcm: setup.source_pcm,
            } && after.trace is Some
            &&& !setup.has_alsa || setup.source_pcm.len() == 0 ==> steps[k + 1 + n] == StepView::StartTone {
                group_id: gid,
            } && after.trace is None
            &&& plays ==> steps.len() == k + n + 3 && steps[k + n + 2] == StepView::StartReceiver {
                pcm: setup.alsa_pcm,
                role: Role::Source,
            }
            &&& !plays ==> steps.len() == k + n + 2
        },
        t.group_id is None ==> !engaged(e, setup, t).0.source_running && !engaged(e, setup, t).0.receiver_running
            && engaged(e, setup, t).1 == ending(e),
{
    if t.group_id is None {
        assert(ending(e) + starting(setup, t) =~= ending(e));
    } else {
        let d = dialling(t.member_addresses);
        if 0 <= i < t.member_addresses.len() {
            assert(d[i] == StepView::DialPeer { address: t.member_addresses[i] });
        }
    }
}

/// A receiver plays on its own device, where there are devices at all, and does nothing
/// else.
pub proof fn receivers_play_on_their_device(e: EngagementView, setup: SetupView, t: TargetView)
    requires
        !already(e, t),
        t.role == Role::Receiver,
    ensures
        ({
            let (after, steps) = engaged(e, setup, t);
            &&& !after.source_running
            &&& after.trace is None
            &&& after.receiver_running == setup.has_alsa
            &&& setup.has_alsa ==> steps == ending(e).push(
                StepView::StartReceiver { pcm: setup.alsa_pcm, role: Role::Receiver },
            )
            &&& !setup.has_alsa ==> steps == ending(e)
        }),
{
    if setup.has_alsa {
        assert(ending(e) + starting(setup, t) =~= ending(e).push(
            StepView::StartReceiver { pcm: setup.alsa_pcm, role: Role::Receiver },
        ));
    } else {
        assert(ending(e) + starting(setup, t) =~= ending(e));
    }
}

/// A change of roles concerns the device that it names and no other: it takes the role that
/// it is given, and none where it is taken away.
pub proof fn roles_concern_their_device(device: String, other: Seq<char>, role: Role)
    requires
        other != device@,
    ensures
        role_given(RoleChange::Assigned { device_id: device, new_role: role }, device@) == Some(role),
        role_given(RoleChange::Cleared { device_id: device }, device@) == Some(Role::Auto),
        role_given(RoleChange::Assigned { device_id: device, new_role: role }, other) is None,
        role_given(RoleChange::Cleared { device_id: device }, other) is None,
{
}

/// A change of a group concerns its members; that a group is gone concerns every device,
/// for it does not say who was in it. The first group of a device is the one that counts.
pub proof fn groups_concern_their_members(g: Group, device: Seq<char>, role: Role, groups: Vec<Group>)
    ensures
        group_matters(GroupChange::Created(g), device) <==> texts(g.members@).contains(device),
        group_matters(GroupChange::Updated(g), device) <==> texts(g.members@).contains(device),
        groups@.len() > 0 ==> target_in(role, Some(groups)).group_id == Some(groups@[0].group_id@) && target_in(
            role,
            Some(groups),
        ).members == texts(groups@[0].members@),
        groups@.len() == 0 ==> target_in(role, Some(groups)).group_id is None,
        target_in(role, None).group_id is None,
        target_in(role, Some(groups)).role == role,
{
}

/// The settings count where the framework says nothing.
pub proof fn settings_stand_in(config: ConfigView)
    ensures
        ({
            let t = initial_target(None, config);
            &&& t.role == config.role
            &&& t.group_id == config.group_id
            &&& t.members == config.group_members
            &&& t.member_addresses == config.group_member_addresses
        }),
{
}

/// What runs once a role is taken up is what its steps started: a source leads where it
/// has a group, a receiver plays where there is a sound system, and a source plays on its
/// own device too where one is named. Records are kept where a source records.
pub proof fn what_runs_was_started(e: EngagementView, setup: SetupView, t: TargetView)
    requires
        !already(e, t),
    ensures
        ({
            let after = engaged(e, setup, t).0;
            &&& after.role == t.role
            &&& after.group_id == t.group_id
            &&& after.source_running <==> t.role == Role::Source && t.group_id is Some
            &&& t.role == Role::Receiver ==> (after.receiver_running <==> setup.has_alsa)
            &&& t.role == Role::Source && t.group_id is Some ==> (after.receiver_running <==> setup.has_alsa
                && setup.alsa_pcm.len() > 0)
            &&& t.role == Role::Source && t.group_id is None ==> !after.receiver_running
            &&& t.role == Role::Auto ==> !after.receiver_running && !after.source_running
            &&& after.trace is Some <==> t.role == Role::Source && t.group_id is Some && setup.has_alsa
                && setup.source_pcm.len() > 0
        }),
{
}

/// What ran is released first, and then waited for: the source before the receiver.
pub proof fn what_ran_is_waited_for(e: EngagementView)
    ensures
        ending(e)[0] == StepView::ReleaseTasks,
        ending(e).len() == 1 + (if e.source_running {
            1int
        } else {
            0
        }) + (if e.receiver_running {
            1int
        } else {
            0
        }),
        e.source_running ==> ending(e)[1] == StepView::JoinSource,
        e.receiver_running ==> ending(e).last() == StepView::JoinReceiver,
{
}

/// Each field is seen under its own name, as it is.
pub proof fn fields_are_seen_under_their_names(
    role_setup: RoleSetup,
    role_engagement: RoleEngagement,
    role_target: RoleTarget,
)
    ensures
        role_setup@.alsa_pcm == role_setup.alsa_pcm@,
        role_setup@.source_pcm == role_setup.source_pcm@,
        role_setup@.has_alsa == role_setup.has_alsa,
        role_engagement@.role == role_engagement.role,
        role_engagement@.group_id == opt_text(role_engagement.group_id),
        role_engagement@.source_running == role_engagement.source_running,
        role_engagement@.receiver_running == role_engagement.receiver_running,
        role_engagement@.trace == opt_trace(role_engagement.trace),
        role_target@.role == role_target.role,
        role_target@.group_id == opt_text(role_target.group_id),
        role_target@.members == texts(role_target.members@),
        role_target@.member_addresses == texts(role_target.member_addresses@),
{
}

/// A change of this device's role is taken up in the group that the device is in, and a
/// change of another's is passed over; a change of a group that matters to the device has
/// it take up the role that the framework knows, and any other is passed over.
pub proof fn changes_that_matter_are_taken_up(
    e: EngagementView,
    setup: SetupView,
    device: Seq<char>,
    evt: RoleChange,
    groups: Option<Vec<Group>>,
    change: GroupChange,
    reading: SubstrateReading,
    role: Role,
)
    ensures
        role_given(evt, device) == Some(role) ==> after_role_event(e, setup, device, evt, groups) == engaged(
            e,
            setup,
            target_in(role, groups),
        ),
        role_given(evt, device) is None ==> after_role_event(e, setup, device, evt, groups) == (e, Seq::<StepView>::empty()),
        !group_matters(change, device) ==> after_group_event(e, setup, device, change, reading) == (
            e,
            Seq::<StepView>::empty(),
        ),
        group_matters(change, device) && reading.role == Some(role) ==> after_group_event(e, setup, device, change, reading)
            == engaged(e, setup, target_in(role, reading.groups)),
        group_matters(change, device) && reading.role is None ==> after_group_event(e, setup, device, change, reading)
            == engaged(e, setup, target_in(Role::Auto, reading.groups)),
{
}

} // verus!
