//! What is remembered of a captive-portal session, and the form that is sent to the
//! portal.

use crate::number::{decimal, to_decimal};
use crate::text_order::{comes_before, lemma_text_before_total, lemma_text_before_transitive, text_before};
use crate::text::{cat, copy_opt, copy_texts, opt_text, text_eq, texts};
use vstd::prelude::*;

verus! {

/// Whether credentials may be sent to a portal again without asking.
#[derive(Debug, Clone, Copy, PartialEq, Eq, Structural)]
pub enum CaptiveCredentialPolicy {
    ReplayAllowed,
    SingleUseTicket,
    ManualAfterFailure,
}

/// How far a captive-portal session has come.
#[derive(Debug, Clone, Copy, PartialEq, Eq, Structural)]
pub enum CaptivePhase {
    Idle,
    ProbeDetected,
    AwaitingCredentials,
    Submitting,
    Authenticated,
    Failed,
}

/// What is remembered of a captive-portal session.
#[derive(Debug, Clone)]
pub struct CaptiveSessionState {
    pub phase: CaptivePhase,
    pub last_probe_url: Option<String>,
    pub portal_url: Option<String>,
    pub last_http_code: Option<u16>,
    pub last_error: Option<String>,
    pub last_submission_fields: Vec<String>,
    pub last_submit_fingerprint: Option<String>,
    pub last_submit_at_epoch: Option<u64>,
    pub submit_attempts: u32,
    pub requires_user_confirmation: bool,
}

/// [`CaptiveSessionState`] over character sequences.
#[verifier::ext_equal]
pub struct CaptiveView {
    pub phase: CaptivePhase,
    pub last_probe_url: Option<Seq<char>>,
    pub portal_url: Option<Seq<char>>,
    pub last_http_code: Option<u16>,
    pub last_error: Option<Seq<char>>,
    pub last_submission_fields: Seq<Seq<char>>,
    pub last_submit_fingerprint: Option<Seq<char>>,
    pub last_submit_at_epoch: Option<u64>,
    pub submit_attempts: u32,
    pub requires_user_confirmation: bool,
}

impl View for CaptiveSessionState {
    type V = CaptiveView;

    open spec fn view(&self) -> CaptiveView {
        CaptiveView {
            phase: self.phase,
            last_probe_url: opt_text(self.last_probe_url),
            portal_url: opt_text(self.portal_url),
            last_http_code: self.last_http_code,
            last_error: opt_text(self.last_error),
            last_submission_fields: texts(self.last_submission_fields@),
            last_submit_fingerprint: opt_text(self.last_submit_fingerprint),
            last_submit_at_epoch: self.last_submit_at_epoch,
            submit_attempts: self.submit_attempts,
            requires_user_confirmation: self.requires_user_confirmation,
        }
    }
}

/// A session that nothing is known of.
pub open spec fn captive_default() -> CaptiveView {
    CaptiveView {
        phase: CaptivePhase::Idle,
        last_probe_url: None,
        portal_url: None,
        last_http_code: None,
        last_error: None,
        last_submission_fields: Seq::<Seq<char>>::empty(),
        last_submit_fingerprint: None,
        last_submit_at_epoch: None,
        submit_attempts: 0,
        requires_user_confirmation: false,
    }
}

impl Default for CaptiveSessionState {
    fn default() -> (r: Self)
        ensures
            r@ == captive_default(),
    {
        let r = CaptiveSessionState {
            phase: CaptivePhase::Idle,
            last_probe_url: None,
            portal_url: None,
            last_http_code: None,
            last_error: None,
            last_submission_fields: Vec::new(),
            last_submit_fingerprint: None,
            last_submit_at_epoch: None,
            submit_attempts: 0,
            requires_user_confirmation: false,
        };
        proof {
            assert(r@.last_submission_fields =~= Seq::<Seq<char>>::empty());
        }
        r
    }
}

impl CaptiveSessionState {
    /// A copy.
    pub fn duplicate(&self) -> (r: CaptiveSessionState)
        ensures
            r@ == self@,
    {
        CaptiveSessionState {
            phase: self.phase,
            last_probe_url: copy_opt(&self.last_probe_url),
            portal_url: copy_opt(&self.portal_url),
            last_http_code: self.last_http_code,
            last_error: copy_opt(&self.last_error),
            last_submission_fields: copy_texts(&self.last_submission_fields),
            last_submit_fingerprint: copy_opt(&self.last_submit_fingerprint),
            last_submit_at_epoch: self.last_submit_at_epoch,
            submit_attempts: self.submit_attempts,
            requires_user_confirmation: self.requires_user_confirmation,
        }
    }
}

/// The schema version of a session file that says none.
pub fn default_captive_state_schema_version() -> (r: u32)
    ensures
        r == 1,
{
    1
}

/// What becomes of a session read from a file of the given schema: schemas 0 and 1
/// are taken over, others refused.
pub open spec fn migrated_captive(schema_version: u32, state: CaptiveView) -> Result<CaptiveView, Seq<char>> {
    if schema_version <= 1 {
        Ok(state)
    } else {
        Err("unsupported captive state schema_version "@ + decimal(schema_version as nat))
    }
}

/// The views of a result whose error is a text.
pub open spec fn captive_result(r: Result<CaptiveSessionState, String>) -> Result<CaptiveView, Seq<char>> {
    match r {
        Ok(s) => Ok(s@),
        Err(e) => Err(e@),
    }
}

/// Takes a session over from a file of the given schema.
pub fn migrate_captive_state(schema_version: u32, state: CaptiveSessionState) -> (r: Result<
    CaptiveSessionState,
    String,
>)
    ensures
        captive_result(r) == migrated_captive(schema_version, state@),
{
    if schema_version <= 1 {
        Ok(state)
    } else {
        Err(cat("unsupported captive state schema_version ", to_decimal(schema_version as u64).as_str()))
    }
}

/// One field of a portal form.
#[derive(Debug, Clone)]
pub struct FormField {
    pub name: String,
    pub value: String,
}

/// The view of a field: its name and its value.
pub open spec fn field_view(f: FormField) -> (Seq<char>, Seq<char>) {
    (f.name@, f.value@)
}

/// A portal form: its fields in the order of their names, each name once.
#[derive(Debug, Clone)]
pub struct PortalForm {
    pub fields: Vec<FormField>,
}

impl View for PortalForm {
    type V = Seq<(Seq<char>, Seq<char>)>;

    open spec fn view(&self) -> Seq<(Seq<char>, Seq<char>)> {
        self.fields@.map_values(|f: FormField| field_view(f))
    }
}

/// Whether the names ascend.
pub open spec fn names_ascend(s: Seq<(Seq<char>, Seq<char>)>) -> bool {
    forall|i: int, j: int| 0 <= i < j < s.len() ==> text_before((#[trigger] s[i]).0, (#[trigger] s[j]).0)
}

/// The fields as a map from name to value.
pub open spec fn form_map(s: Seq<(Seq<char>, Seq<char>)>) -> Map<Seq<char>, Seq<char>>
    decreases s.len(),
{
    if s.len() == 0 {
        Map::empty()
    } else {
        form_map(s.drop_last()).insert(s.last().0, s.last().1)
    }
}

proof fn lemma_form_map(s: Seq<(Seq<char>, Seq<char>)>)
    requires
        names_ascend(s),
    ensures
        forall|i: int| 0 <= i < s.len() ==> form_map(s).contains_pair((#[trigger] s[i]).0, s[i].1),
        forall|k: Seq<char>|
            #[trigger] form_map(s).contains_key(k) ==> exists|i: int| 0 <= i < s.len() && (#[trigger] s[i]).0 == k,
    decreases s.len(),
{
    if s.len() > 0 {
        let init = s.drop_last();
        assert forall|i: int, j: int| 0 <= i < j < init.len() implies text_before(
            (#[trigger] init[i]).0,
            (#[trigger] init[j]).0,
        ) by {
            assert(init[i] == s[i] && init[j] == s[j]);
        }
        lemma_form_map(init);
        assert forall|i: int| 0 <= i < s.len() implies form_map(s).contains_pair((#[trigger] s[i]).0, s[i].1) by {
            if i < s.len() - 1 {
                assert(init[i] == s[i]);
                assert(text_before(s[i].0, s.last().0));
                lemma_text_before_total(s[i].0, s.last().0);
            }
        }
        assert forall|k: Seq<char>| #[trigger] form_map(s).contains_key(k) implies exists|i: int|
            0 <= i < s.len() && (#[trigger] s[i]).0 == k by {
            if k == s.last().0 {
                assert(s[s.len() - 1].0 == k);
            } else {
                assert(form_map(init).contains_key(k));
                let i = choose|i: int| 0 <= i < init.len() && (#[trigger] init[i]).0 == k;
                assert(s[i].0 == k);
            }
        }
    }
}

impl PortalForm {
    /// The names ascend, so each stands once.
    pub open spec fn wf(&self) -> bool {
        names_ascend(self@)
    }

    /// A form without fields.
    pub fn new() -> (r: PortalForm)
        ensures
            r.wf(),
            r@ == Seq::<(Seq<char>, Seq<char>)>::empty(),
    {
        let r = PortalForm { fields: Vec::new() };
        proof {
            assert(r@ =~= Seq::<(Seq<char>, Seq<char>)>::empty());
        }
        r
    }

    /// Sets the field `name` to `value`, in its place by the order of names.
    pub fn insert(&mut self, name: String, value: String)
        requires
            old(self).wf(),
        ensures
            final(self).wf(),
            form_map(final(self)@) == form_map(old(self)@).insert(name@, value@),
    {
        let ghost before = self@;
        let ghost n = name@;
        let ghost v = value@;
        let mut i: usize = 0;
        while i < self.fields.len() && comes_before(self.fields[i].name.as_str(), name.as_str())
            invariant
                i <= self.fields.len(),
                self@ == before,
                n == name@,
                forall|j: int| 0 <= j < i ==> text_before((#[trigger] before[j]).0, n),
            decreases self.fields.len() - i,
        {
            proof {
                assert(before[i as int].0 == self.fields@[i as int].name@);
            }
            i += 1;
        }
        proof {
            if i < self.fields.len() {
                assert(before[i as int].0 == self.fields@[i as int].name@);
            }
        }
        if i < self.fields.len() && text_eq(self.fields[i].name.as_str(), name.as_str()) {
            self.fields.set(i, FormField { name, value });
            proof {
                assert(self@ =~= before.update(i as int, (n, v)));
                let after = self@;
                assert forall|a: int, b: int| 0 <= a < b < after.len() implies text_before(
                    (#[trigger] after[a]).0,
                    (#[trigger] after[b]).0,
                ) by {
                    assert(after[a].0 == before[a].0 && after[b].0 == before[b].0);
                }
                lemma_set_field(before, after, i as int, n, v);
            }
        } else {
            self.fields.insert(i, FormField { name, value });
            proof {
                assert(self@ =~= before.insert(i as int, (n, v)));
                let after = self@;
                assert forall|a: int, b: int| 0 <= a < b < after.len() implies text_before(
                    (#[trigger] after[a]).0,
                    (#[trigger] after[b]).0,
                ) by {
                    let pa = if a < i {
                        a
                    } else {
                        a - 1
                    };
                    let pb = if b < i {
                        b
                    } else {
                        b - 1
                    };
                    if a != i {
                        assert(after[a] == before[pa]);
                    }
                    if b != i {
                        assert(after[b] == before[pb]);
                    }
                    if a == i {
                        // The element that stood at `i` does not come before `n`, nor is it `n`.
                        lemma_text_before_total(before[i as int].0, n);
                        if pb > i {
                            assert(text_before(before[i as int].0, before[pb].0));
                            lemma_text_before_transitive(n, before[i as int].0, before[pb].0);
                        }
                    }
                }
                lemma_insert_field(before, after, i as int, n, v);
            }
        }
    }
}

proof fn lemma_maps_agree(
    before: Seq<(Seq<char>, Seq<char>)>,
    after: Seq<(Seq<char>, Seq<char>)>,
    i: int,
    n: Seq<char>,
    v: Seq<char>,
)
    requires
        names_ascend(before),
        names_ascend(after),
        0 <= i < after.len(),
        after[i] == (n, v),
        forall|a: int| 0 <= a < after.len() && a != i ==> before.contains(#[trigger] after[a]),
        forall|b: int|
            0 <= b < before.len() && (#[trigger] before[b]).0 != n ==> after.contains(before[b]),
    ensures
        form_map(after) == form_map(before).insert(n, v),
{
    lemma_form_map(before);
    lemma_form_map(after);
    let left = form_map(after);
    let right = form_map(before).insert(n, v);
    assert forall|k: Seq<char>| left.contains_key(k) <==> right.contains_key(k) by {
        if left.contains_key(k) && k != n {
            let a = choose|a: int| 0 <= a < after.len() && (#[trigger] after[a]).0 == k;
            assert(before.contains(after[a]));
            let b = choose|b: int| 0 <= b < before.len() && before[b] == after[a];
            assert(form_map(before).contains_pair(before[b].0, before[b].1));
        }
        if right.contains_key(k) {
            if k == n {
                assert(left.contains_pair(after[i].0, after[i].1));
            } else {
                let b = choose|b: int| 0 <= b < before.len() && (#[trigger] before[b]).0 == k;
                assert(after.contains(before[b]));
                let a = choose|a: int| 0 <= a < after.len() && after[a] == before[b];
                assert(left.contains_pair(after[a].0, after[a].1));
            }
        }
    }
    assert forall|k: Seq<char>| left.contains_key(k) implies left[k] == right[k] by {
        let a = choose|a: int| 0 <= a < after.len() && (#[trigger] after[a]).0 == k;
        assert(left.contains_pair(after[a].0, after[a].1));
        if a == i {
        } else {
            assert(after[a].0 != n) by {
                if a < i {
                    assert(text_before(after[a].0, after[i].0));
                } else {
                    assert(text_before(after[i].0, after[a].0));
                }
                lemma_text_before_total(after[a].0, n);
            }
            assert(before.contains(after[a]));
            let b = choose|b: int| 0 <= b < before.len() && before[b] == after[a];
            assert(form_map(before).contains_pair(before[b].0, before[b].1));
        }
    }
    assert(left =~= right);
}

proof fn lemma_set_field(
    before: Seq<(Seq<char>, Seq<char>)>,
    after: Seq<(Seq<char>, Seq<char>)>,
    i: int,
    n: Seq<char>,
    v: Seq<char>,
)
    requires
        names_ascend(before),
        names_ascend(after),
        0 <= i < before.len(),
        before[i].0 == n,
        after == before.update(i, (n, v)),
    ensures
        form_map(after) == form_map(before).insert(n, v),
{
    assert forall|a: int| 0 <= a < after.len() && a != i implies before.contains(#[trigger] after[a]) by {
        assert(before[a] == after[a]);
    }
    assert forall|b: int| 0 <= b < before.len() && (#[trigger] before[b]).0 != n implies after.contains(
        before[b],
    ) by {
        assert(after[b] == before[b]);
    }
    lemma_maps_agree(before, after, i, n, v);
}

proof fn lemma_insert_field(
    before: Seq<(Seq<char>, Seq<char>)>,
    after: Seq<(Seq<char>, Seq<char>)>,
    i: int,
    n: Seq<char>,
    v: Seq<char>,
)
    requires
        names_ascend(before),
        names_ascend(after),
        0 <= i <= before.len(),
        after == before.insert(i, (n, v)),
    ensures
        form_map(after) == form_map(before).insert(n, v),
{
    assert forall|a: int| 0 <= a < after.len() && a != i implies before.contains(#[trigger] after[a]) by {
        if a < i {
            assert(before[a] == after[a]);
        } else {
            assert(before[a - 1] == after[a]);
        }
    }
    assert forall|b: int| 0 <= b < before.len() && (#[trigger] before[b]).0 != n implies after.contains(
        before[b],
    ) by {
        if b < i {
            assert(after[b] == before[b]);
        } else {
            assert(after[b + 1] == before[b]);
        }
    }
    lemma_maps_agree(before, after, i, n, v);
}

/// A stored session of a known schema is taken over as it is; one of a later schema is
/// refused, and the complaint names it.
pub proof fn stored_sessions_are_taken_over(schema_version: u32, state: CaptiveView)
    ensures
        schema_version <= 1 ==> migrated_captive(schema_version, state) == Ok::<CaptiveView, Seq<char>>(state),
        schema_version > 1 ==> migrated_captive(schema_version, state) == Err::<CaptiveView, Seq<char>>(
            "unsupported captive state schema_version "@ + decimal(schema_version as nat),
        ),
{
}

/// Without a stored session nothing was met, tried or complained of.
pub proof fn fresh_sessions_are_idle()
    ensures
        captive_default().phase == CaptivePhase::Idle,
        captive_default().portal_url is None,
        captive_default().last_error is None,
        captive_default().last_submit_fingerprint is None,
        captive_default().submit_attempts == 0,
        !captive_default().requires_user_confirmation,
{
}

/// Each field is seen under its own name, as it is.
pub proof fn fields_are_seen_under_their_names(captive_session_state: CaptiveSessionState)
    ensures
        captive_session_state@.phase == captive_session_state.phase,
        captive_session_state@.last_probe_url == opt_text(captive_session_state.last_probe_url),
        captive_session_state@.portal_url == opt_text(captive_session_state.portal_url),
        captive_session_state@.last_http_code == captive_session_state.last_http_code,
        captive_session_state@.last_error == opt_text(captive_session_state.last_error),
        captive_session_state@.last_submission_fields == texts(captive_session_state.last_submission_fields@),
        captive_session_state@.last_submit_fingerprint == opt_text(captive_session_state.last_submit_fingerprint),
        captive_session_state@.last_submit_at_epoch == captive_session_state.last_submit_at_epoch,
        captive_session_state@.submit_attempts == captive_session_state.submit_attempts,
        captive_session_state@.requires_user_confirmation == captive_session_state.requires_user_confirmation,
{
}

} // verus!
