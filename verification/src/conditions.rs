//! Status conditions and the upsert rule that maintains them.
//!
//! A condition records one observed aspect of an object's status under a
//! unique type name. A collection of conditions is kept in first-seen order,
//! and `Conditions::update_condition_on` applies the upsert rule: the
//! transition timestamp moves only when the decoded state actually changes,
//! while the probe timestamp and the diagnostic fields are refreshed on every
//! call.

use vstd::prelude::*;

use crate::utils::str_eq;

verus! {

/// The state of a status condition.
#[derive(Clone, Copy, Debug, Eq, PartialEq, Structural)]
pub enum State {
    True,
    False,
    Unknown,
}

/// The exact text a state is stored as.
pub open spec fn status_text(s: State) -> Seq<char> {
    match s {
        State::True => "True"@,
        State::False => "False"@,
        State::Unknown => "Unknown"@,
    }
}

/// Decoding is lenient: any text other than the two definite states reads as
/// `Unknown`.
pub open spec fn parse_status(t: Seq<char>) -> State {
    if t == "True"@ {
        State::True
    } else if t == "False"@ {
        State::False
    } else {
        State::Unknown
    }
}

impl State {
    /// Encode the state as its stored text.
    pub fn text(&self) -> (t: String)
        ensures
            t@ == status_text(*self),
    {
        match self {
            State::True => String::from_str("True"),
            State::False => String::from_str("False"),
            State::Unknown => String::from_str("Unknown"),
        }
    }
}

/// Encoding is strict and decoding is lenient, so the two compose to the
/// identity on states.
pub proof fn lemma_status_text_roundtrip(s: State)
    ensures
        parse_status(status_text(s)) == s,
{
    reveal_strlit("True");
    reveal_strlit("False");
    reveal_strlit("Unknown");
    assert("False"@.len() == 5 && "True"@.len() == 4 && "Unknown"@.len() == 7);
}

/// Details of the condition state desired by an upsert.
#[derive(Clone, Debug, PartialEq, Eq)]
pub struct StateDetails {
    pub state: State,
    pub reason: Option<String>,
    pub message: Option<String>,
    pub observed_generation: Option<i64>,
}

/// The mathematical content of a `StateDetails`.
pub struct StateDetailsView {
    pub state: State,
    pub reason: Option<Seq<char>>,
    pub message: Option<Seq<char>>,
    pub observed_generation: Option<i64>,
}

impl View for StateDetails {
    type V = StateDetailsView;

    open spec fn view(&self) -> StateDetailsView {
        StateDetailsView {
            state: self.state,
            reason: self.reason.deep_view(),
            message: self.message.deep_view(),
            observed_generation: self.observed_generation,
        }
    }
}

impl From<State> for StateDetails {
    fn from(state: State) -> (d: StateDetails) {
        StateDetails { state, reason: None, message: None, observed_generation: None }
    }
}

impl vstd::std_specs::convert::FromSpecImpl<State> for StateDetails {
    open spec fn obeys_from_spec() -> bool {
        true
    }

    open spec fn from_spec(state: State) -> StateDetails {
        StateDetails { state, reason: None, message: None, observed_generation: None }
    }
}

/// Helpers for building condition state details.
pub trait StateBuilder: Sized {
    /// The details this builder stands for so far.
    spec fn details(self) -> StateDetailsView;

    fn with_reason(self, reason: String) -> (d: StateDetails)
        ensures
            d@ == (StateDetailsView { reason: Some(reason@), ..self.details() }),
    ;

    fn with_message(self, message: String) -> (d: StateDetails)
        ensures
            d@ == (StateDetailsView { message: Some(message@), ..self.details() }),
    ;

    fn with_reason_opt(self, reason: Option<String>) -> (d: StateDetails)
        ensures
            d@ == (StateDetailsView { reason: reason.deep_view(), ..self.details() }),
    ;

    fn with_message_opt(self, message: Option<String>) -> (d: StateDetails)
        ensures
            d@ == (StateDetailsView { message: message.deep_view(), ..self.details() }),
    ;

    fn with_observed(self, observed: Option<i64>) -> (d: StateDetails)
        ensures
            d@ == (StateDetailsView { observed_generation: observed, ..self.details() }),
    ;
}

impl StateBuilder for State {
    open spec fn details(self) -> StateDetailsView {
        StateDetailsView {
            state: self,
            reason: None,
            message: None,
            observed_generation: None,
        }
    }

    fn with_reason(self, reason: String) -> StateDetails {
        StateDetails {
            state: self,
            reason: Some(reason),
            message: None,
            observed_generation: None,
        }
    }

    fn with_message(self, message: String) -> StateDetails {
        StateDetails {
            state: self,
            reason: None,
            message: Some(message),
            observed_generation: None,
        }
    }

    fn with_reason_opt(self, reason: Option<String>) -> StateDetails {
        StateDetails { state: self, reason, message: None, observed_generation: None }
    }

    fn with_message_opt(self, message: Option<String>) -> StateDetails {
        StateDetails { state: self, reason: None, message, observed_generation: None }
    }

    fn with_observed(self, observed: Option<i64>) -> StateDetails {
        StateDetails {
            state: self,
            reason: None,
            message: None,
            observed_generation: observed,
        }
    }
}

impl StateBuilder for StateDetails {
    open spec fn details(self) -> StateDetailsView {
        self@
    }

    fn with_reason(self, reason: String) -> StateDetails {
        StateDetails { reason: Some(reason), ..self }
    }

    fn with_message(self, message: String) -> StateDetails {
        StateDetails { message: Some(message), ..self }
    }

    fn with_reason_opt(self, reason: Option<String>) -> StateDetails {
        StateDetails { reason, ..self }
    }

    fn with_message_opt(self, message: Option<String>) -> StateDetails {
        StateDetails { message, ..self }
    }

    fn with_observed(self, observed: Option<i64>) -> StateDetails {
        StateDetails { observed_generation: observed, ..self }
    }
}

/// The mathematical content of one stored condition, shared by every
/// condition shape.
pub struct CondView {
    pub cond_type: Seq<char>,
    pub status: Seq<char>,
    pub reason: Option<Seq<char>>,
    pub message: Option<Seq<char>>,
    pub last_transition_time: Option<i64>,
    pub last_probe_time: Option<i64>,
    pub observed_generation: Option<i64>,
}

/// Which optional capabilities a condition shape supports.
pub struct CondCaps {
    /// The shape records a probe timestamp.
    pub probe: bool,
    /// The shape records an observed generation.
    pub observed: bool,
    /// The shape stores reason and message as required text, so an absent
    /// value is stored as the empty string.
    pub strict_text: bool,
}

/// How a desired reason or message text lands in a shape: shapes with
/// required text store the empty string for an absent value.
pub open spec fn norm_text(strict: bool, t: Option<Seq<char>>) -> Option<Seq<char>> {
    if strict {
        match t {
            Some(s) => Some(s),
            None => Some(Seq::empty()),
        }
    } else {
        t
    }
}

/// The condition appended when no entry of the requested type exists yet:
/// both timestamps start at `now`.
pub open spec fn fresh_cond(
    cond_type: Seq<char>,
    d: StateDetailsView,
    now: i64,
    caps: CondCaps,
) -> CondView {
    CondView {
        cond_type: cond_type,
        status: status_text(d.state),
        reason: norm_text(caps.strict_text, d.reason),
        message: norm_text(caps.strict_text, d.message),
        last_transition_time: Some(now),
        last_probe_time: if caps.probe { Some(now) } else { None },
        observed_generation: if caps.observed { d.observed_generation } else { None },
    }
}

/// An existing condition after an upsert: the transition timestamp moves only
/// when the decoded state changes, the probe timestamp always moves (where
/// supported), and the diagnostic fields are overwritten unconditionally.
pub open spec fn refreshed_cond(c: CondView, d: StateDetailsView, now: i64, caps: CondCaps) -> CondView {
    let changed = parse_status(c.status) != d.state;
    CondView {
        cond_type: c.cond_type,
        status: if changed { status_text(d.state) } else { c.status },
        reason: norm_text(caps.strict_text, d.reason),
        message: norm_text(caps.strict_text, d.message),
        last_transition_time: if changed { Some(now) } else { c.last_transition_time },
        last_probe_time: if caps.probe { Some(now) } else { c.last_probe_time },
        observed_generation: if caps.observed {
            d.observed_generation
        } else {
            c.observed_generation
        },
    }
}

/// Whether some entry carries the given type name.
pub open spec fn has_condition(cs: Seq<CondView>, cond_type: Seq<char>) -> bool {
    exists|i: int| 0 <= i < cs.len() && cs[i].cond_type == cond_type
}

/// The index of the first entry carrying the given type name.
pub open spec fn condition_index(cs: Seq<CondView>, cond_type: Seq<char>) -> int
    decreases cs.len(),
{
    if cs.len() == 0 {
        0
    } else if cs[0].cond_type == cond_type {
        0
    } else {
        1 + condition_index(cs.skip(1), cond_type)
    }
}

/// The upsert rule on the mathematical model: refresh the first entry of the
/// requested type in place, or append a fresh one.
pub open spec fn upsert_conditions(
    cs: Seq<CondView>,
    cond_type: Seq<char>,
    d: StateDetailsView,
    now: i64,
    caps: CondCaps,
) -> Seq<CondView> {
    if has_condition(cs, cond_type) {
        let i = condition_index(cs, cond_type);
        cs.update(i, refreshed_cond(cs[i], d, now, caps))
    } else {
        cs.push(fresh_cond(cond_type, d, now, caps))
    }
}

/// `condition_index` really is the first matching index.
pub proof fn lemma_condition_index(cs: Seq<CondView>, cond_type: Seq<char>)
    requires
        has_condition(cs, cond_type),
    ensures
        0 <= condition_index(cs, cond_type) < cs.len(),
        cs[condition_index(cs, cond_type)].cond_type == cond_type,
        forall|j: int| 0 <= j < condition_index(cs, cond_type) ==> cs[j].cond_type != cond_type,
    decreases cs.len(),
{
    if cs.len() == 0 {
    } else if cs[0].cond_type == cond_type {
    } else {
        assert(has_condition(cs.skip(1), cond_type)) by {
            let w = choose|i: int| 0 <= i < cs.len() && cs[i].cond_type == cond_type;
            assert(cs.skip(1)[w - 1].cond_type == cond_type);
        }
        lemma_condition_index(cs.skip(1), cond_type);
        assert forall|j: int| 0 <= j < condition_index(cs, cond_type) implies cs[j].cond_type
            != cond_type by {
            if j > 0 {
                assert(cs.skip(1)[j - 1].cond_type != cond_type);
            }
        }
    }
}

/// A first match found by a forward scan is `condition_index`.
pub proof fn lemma_condition_index_of_scan(cs: Seq<CondView>, cond_type: Seq<char>, i: int)
    requires
        0 <= i < cs.len(),
        cs[i].cond_type == cond_type,
        forall|j: int| 0 <= j < i ==> cs[j].cond_type != cond_type,
    ensures
        has_condition(cs, cond_type),
        condition_index(cs, cond_type) == i,
    decreases cs.len(),
{
    if i == 0 {
    } else {
        assert forall|j: int| 0 <= j < i - 1 implies cs.skip(1)[j].cond_type != cond_type by {
            assert(cs.skip(1)[j] == cs[j + 1]);
        }
        assert(cs.skip(1)[i - 1].cond_type == cond_type);
        lemma_condition_index_of_scan(cs.skip(1), cond_type, i - 1);
    }
}

/// An upsert never disturbs the other entries: every existing position keeps
/// its type name, an upsert of a known type keeps the length, and an upsert
/// of an unknown type appends. Upserting distinct types therefore yields one
/// entry each, in first-seen order.
pub proof fn lemma_upsert_keeps_order(
    cs: Seq<CondView>,
    t: Seq<char>,
    d: StateDetailsView,
    now: i64,
    caps: CondCaps,
)
    ensures
        forall|j: int|
            0 <= j < cs.len() ==> upsert_conditions(cs, t, d, now, caps)[j].cond_type
                == cs[j].cond_type,
        has_condition(cs, t) ==> upsert_conditions(cs, t, d, now, caps).len() == cs.len(),
        !has_condition(cs, t) ==> upsert_conditions(cs, t, d, now, caps) == cs.push(
            fresh_cond(t, d, now, caps),
        ),
{
    if has_condition(cs, t) {
        lemma_condition_index(cs, t);
    }
}

/// At most one entry per type name.
pub open spec fn unique_types(cs: Seq<CondView>) -> bool {
    forall|i: int, j: int| 0 <= i < j < cs.len() ==> cs[i].cond_type != cs[j].cond_type
}

/// The collection invariant: an upsert keeps type names unique.
pub proof fn lemma_upsert_keeps_unique_types(
    cs: Seq<CondView>,
    t: Seq<char>,
    d: StateDetailsView,
    now: i64,
    caps: CondCaps,
)
    requires
        unique_types(cs),
    ensures
        unique_types(upsert_conditions(cs, t, d, now, caps)),
{
    let r = upsert_conditions(cs, t, d, now, caps);
    if has_condition(cs, t) {
        lemma_condition_index(cs, t);
        assert forall|i: int, j: int| 0 <= i < j < r.len() implies r[i].cond_type
            != r[j].cond_type by {
            assert(r[i].cond_type == cs[i].cond_type);
            assert(r[j].cond_type == cs[j].cond_type);
        }
    } else {
        assert forall|i: int, j: int| 0 <= i < j < r.len() implies r[i].cond_type
            != r[j].cond_type by {
            if j == cs.len() {
                assert(cs[i].cond_type != t);
            }
        }
    }
}

/// After an upsert of `(t, d)`, the entry for `t` stores exactly the decoded
/// state `d.state`, and sits at a well-defined first index.
pub proof fn lemma_upsert_settles_state(
    cs: Seq<CondView>,
    t: Seq<char>,
    d: StateDetailsView,
    now: i64,
    caps: CondCaps,
)
    ensures
        ({
            let r = upsert_conditions(cs, t, d, now, caps);
            let e = r[condition_index(r, t)];
            &&& has_condition(r, t)
            &&& 0 <= condition_index(r, t) < r.len()
            &&& parse_status(e.status) == d.state
            &&& e.cond_type == t
            &&& e.reason == norm_text(caps.strict_text, d.reason)
            &&& e.message == norm_text(caps.strict_text, d.message)
            &&& caps.observed ==> e.observed_generation == d.observed_generation
            &&& caps.probe ==> e.last_probe_time == Some(now)
        }),
{
    let r = upsert_conditions(cs, t, d, now, caps);
    lemma_status_text_roundtrip(d.state);
    if has_condition(cs, t) {
        lemma_condition_index(cs, t);
        let i = condition_index(cs, t);
        lemma_condition_index_of_scan(r, t, i);
    } else {
        assert(r[cs.len() as int].cond_type == t);
        assert forall|j: int| 0 <= j < cs.len() implies r[j].cond_type != t by {
            assert(r[j] == cs[j]);
        }
        lemma_condition_index_of_scan(r, t, cs.len() as int);
    }
}

/// Upserting the same desired state twice moves nothing but the probe
/// timestamp: the transition timestamp of the entry is whatever the first
/// upsert left there, while the probe timestamp (on shapes that support it)
/// advances to the second call's time.
pub proof fn lemma_upsert_idempotent(
    cs: Seq<CondView>,
    t: Seq<char>,
    d: StateDetailsView,
    n1: i64,
    n2: i64,
    caps: CondCaps,
)
    ensures
        ({
            let once = upsert_conditions(cs, t, d, n1, caps);
            let twice = upsert_conditions(once, t, d, n2, caps);
            let i = condition_index(once, t);
            &&& has_condition(once, t)
            &&& twice.len() == once.len()
            &&& twice[i].last_transition_time == once[i].last_transition_time
            &&& twice[i].status == once[i].status
            &&& twice[i].reason == once[i].reason
            &&& twice[i].message == once[i].message
            &&& twice[i].observed_generation == once[i].observed_generation
            &&& caps.probe ==> twice[i].last_probe_time == Some(n2)
            &&& forall|j: int| 0 <= j < once.len() && j != i ==> twice[j] == once[j]
        }),
{
    let once = upsert_conditions(cs, t, d, n1, caps);
    let twice = upsert_conditions(once, t, d, n2, caps);
    lemma_upsert_settles_state(cs, t, d, n1, caps);
    lemma_condition_index(once, t);
    let i = condition_index(once, t);
    assert(twice == once.update(i, refreshed_cond(once[i], d, n2, caps)));
}

/// Upserting a different state moves the transition timestamp: after an
/// upsert of `(t, d1)` and then of `(t, d2)` with `d2.state != d1.state`, the
/// entry for `t` carries the second state and the second call's transition
/// timestamp.
pub proof fn lemma_upsert_transition(
    cs: Seq<CondView>,
    t: Seq<char>,
    d1: StateDetailsView,
    d2: StateDetailsView,
    n1: i64,
    n2: i64,
    caps: CondCaps,
)
    requires
        d1.state != d2.state,
    ensures
        ({
            let once = upsert_conditions(cs, t, d1, n1, caps);
            let twice = upsert_conditions(once, t, d2, n2, caps);
            let i = condition_index(once, t);
            &&& has_condition(once, t)
            &&& twice[i].status == status_text(d2.state)
            &&& twice[i].last_transition_time == Some(n2)
            &&& caps.probe ==> twice[i].last_probe_time == Some(n2)
        }),
{
    let once = upsert_conditions(cs, t, d1, n1, caps);
    lemma_upsert_settles_state(cs, t, d1, n1, caps);
    lemma_condition_index(once, t);
}

/// Uniform access to one stored condition, whatever its concrete shape.
///
/// The upsert rule is written once against this interface; each shape states
/// through `caps` which optional capabilities it has, and its setters leave
/// unsupported fields untouched.
pub trait Condition: Sized {
    /// Which optional capabilities this shape supports.
    spec fn caps() -> CondCaps;

    /// The mathematical content of the condition.
    spec fn model(&self) -> CondView;

    fn state(&self) -> (s: State)
        ensures
            s == parse_status(self.model().status),
    ;

    fn set_state(&mut self, state: State)
        ensures
            final(self).model() == (CondView { status: status_text(state), ..old(self).model() }),
    ;

    fn cond_type(&self) -> (t: &str)
        ensures
            t@ == self.model().cond_type,
    ;

    fn message(&self) -> (m: Option<&String>)
        ensures
            m.deep_view() == self.model().message,
    ;

    fn set_message(&mut self, message: Option<String>)
        ensures
            final(self).model() == (CondView {
                message: norm_text(Self::caps().strict_text, message.deep_view()),
                ..old(self).model()
            }),
    ;

    fn reason(&self) -> (r: Option<&String>)
        ensures
            r.deep_view() == self.model().reason,
    ;

    fn set_reason(&mut self, reason: Option<String>)
        ensures
            final(self).model() == (CondView {
                reason: norm_text(Self::caps().strict_text, reason.deep_view()),
                ..old(self).model()
            }),
    ;

    fn last_probe_time(&self) -> (t: Option<i64>)
        ensures
            t == self.model().last_probe_time,
    ;

    fn set_last_probe_time(&mut self, time: i64)
        ensures
            final(self).model() == (CondView {
                last_probe_time: if Self::caps().probe {
                    Some(time)
                } else {
                    old(self).model().last_probe_time
                },
                ..old(self).model()
            }),
    ;

    fn last_transition_time(&self) -> (t: Option<i64>)
        ensures
            t == self.model().last_transition_time,
    ;

    fn set_last_transition_time(&mut self, time: i64)
        ensures
            final(self).model() == (CondView {
                last_transition_time: Some(time),
                ..old(self).model()
            }),
    ;

    fn observed_generation(&self) -> (g: Option<i64>)
        ensures
            g == self.model().observed_generation,
    ;

    fn set_observed_generation(&mut self, observed_generation: Option<i64>)
        ensures
            final(self).model() == (CondView {
                observed_generation: if Self::caps().observed {
                    observed_generation
                } else {
                    old(self).model().observed_generation
                },
                ..old(self).model()
            }),
    ;

    /// Build a brand-new condition entry, as appended on first upsert.
    fn make(cond_type: String, details: StateDetails, now: i64) -> (c: Self)
        ensures
            c.model() == fresh_cond(cond_type@, details@, now, Self::caps()),
    ;
}

/// A condition shape with optional diagnostic text and no probe or
/// generation bookkeeping, as carried by most workload resources.
#[derive(Clone, Debug, PartialEq, Eq)]
pub struct BasicCondition {
    pub type_: String,
    pub status: String,
    pub reason: Option<String>,
    pub message: Option<String>,
    pub last_transition_time: Option<i64>,
}

impl Condition for BasicCondition {
    open spec fn caps() -> CondCaps {
        CondCaps { probe: false, observed: false, strict_text: false }
    }

    open spec fn model(&self) -> CondView {
        CondView {
            cond_type: self.type_@,
            status: self.status@,
            reason: self.reason.deep_view(),
            message: self.message.deep_view(),
            last_transition_time: self.last_transition_time,
            last_probe_time: None,
            observed_generation: None,
        }
    }

    fn state(&self) -> State {
        parse_state(&self.status)
    }

    fn set_state(&mut self, state: State) {
        self.status = state.text();
    }

    fn cond_type(&self) -> &str {
        self.type_.as_str()
    }

    fn message(&self) -> Option<&String> {
        self.message.as_ref()
    }

    fn set_message(&mut self, message: Option<String>) {
        self.message = message;
    }

    fn reason(&self) -> Option<&String> {
        self.reason.as_ref()
    }

    fn set_reason(&mut self, reason: Option<String>) {
        self.reason = reason;
    }

    fn last_probe_time(&self) -> Option<i64> {
        None
    }

    fn set_last_probe_time(&mut self, _time: i64) {
    }

    fn last_transition_time(&self) -> Option<i64> {
        self.last_transition_time
    }

    fn set_last_transition_time(&mut self, time: i64) {
        self.last_transition_time = Some(time);
    }

    fn observed_generation(&self) -> Option<i64> {
        None
    }

    fn set_observed_generation(&mut self, _observed_generation: Option<i64>) {
    }

    fn make(cond_type: String, details: StateDetails, now: i64) -> Self {
        BasicCondition {
            type_: cond_type,
            status: details.state.text(),
            reason: details.reason,
            message: details.message,
            last_transition_time: Some(now),
        }
    }
}

/// A condition shape that additionally records when the aspect was last
/// probed, whether or not the probe changed anything.
#[derive(Clone, Debug, PartialEq, Eq)]
pub struct ProbeCondition {
    pub type_: String,
    pub status: String,
    pub reason: Option<String>,
    pub message: Option<String>,
    pub last_probe_time: Option<i64>,
    pub last_transition_time: Option<i64>,
}

impl Condition for ProbeCondition {
    open spec fn caps() -> CondCaps {
        CondCaps { probe: true, observed: false, strict_text: false }
    }

    open spec fn model(&self) -> CondView {
        CondView {
            cond_type: self.type_@,
            status: self.status@,
            reason: self.reason.deep_view(),
            message: self.message.deep_view(),
            last_transition_time: self.last_transition_time,
            last_probe_time: self.last_probe_time,
            observed_generation: None,
        }
    }

    fn state(&self) -> State {
        parse_state(&self.status)
    }

    fn set_state(&mut self, state: State) {
        self.status = state.text();
    }

    fn cond_type(&self) -> &str {
        self.type_.as_str()
    }

    fn message(&self) -> Option<&String> {
        self.message.as_ref()
    }

    fn set_message(&mut self, message: Option<String>) {
        self.message = message;
    }

    fn reason(&self) -> Option<&String> {
        self.reason.as_ref()
    }

    fn set_reason(&mut self, reason: Option<String>) {
        self.reason = reason;
    }

    fn last_probe_time(&self) -> Option<i64> {
        self.last_probe_time
    }

    fn set_last_probe_time(&mut self, time: i64) {
        self.last_probe_time = Some(time);
    }

    fn last_transition_time(&self) -> Option<i64> {
        self.last_transition_time
    }

    fn set_last_transition_time(&mut self, time: i64) {
        self.last_transition_time = Some(time);
    }

    fn observed_generation(&self) -> Option<i64> {
        None
    }

    fn set_observed_generation(&mut self, _observed_generation: Option<i64>) {
    }

    fn make(cond_type: String, details: StateDetails, now: i64) -> Self {
        ProbeCondition {
            type_: cond_type,
            status: details.state.text(),
            reason: details.reason,
            message: details.message,
            last_probe_time: Some(now),
            last_transition_time: Some(now),
        }
    }
}

/// A condition shape with required diagnostic text, a required transition
/// timestamp and an observed generation, as carried by newer status schemas.
#[derive(Clone, Debug, PartialEq, Eq)]
pub struct CoreCondition {
    pub type_: String,
    pub status: String,
    pub reason: String,
    pub message: String,
    pub observed_generation: Option<i64>,
    pub last_transition_time: i64,
}

impl Condition for CoreCondition {
    open spec fn caps() -> CondCaps {
        CondCaps { probe: false, observed: true, strict_text: true }
    }

    open spec fn model(&self) -> CondView {
        CondView {
            cond_type: self.type_@,
            status: self.status@,
            reason: Some(self.reason@),
            message: Some(self.message@),
            last_transition_time: Some(self.last_transition_time),
            last_probe_time: None,
            observed_generation: self.observed_generation,
        }
    }

    fn state(&self) -> State {
        parse_state(&self.status)
    }

    fn set_state(&mut self, state: State) {
        self.status = state.text();
    }

    fn cond_type(&self) -> &str {
        self.type_.as_str()
    }

    fn message(&self) -> Option<&String> {
        Some(&self.message)
    }

    fn set_message(&mut self, message: Option<String>) {
        self.message = match message {
            Some(m) => m,
            None => String::new(),
        };
    }

    fn reason(&self) -> Option<&String> {
        Some(&self.reason)
    }

    fn set_reason(&mut self, reason: Option<String>) {
        self.reason = match reason {
            Some(r) => r,
            None => String::new(),
        };
    }

    fn last_probe_time(&self) -> Option<i64> {
        None
    }

    fn set_last_probe_time(&mut self, _time: i64) {
    }

    fn last_transition_time(&self) -> Option<i64> {
        Some(self.last_transition_time)
    }

    fn set_last_transition_time(&mut self, time: i64) {
        self.last_transition_time = time;
    }

    fn observed_generation(&self) -> Option<i64> {
        self.observed_generation
    }

    fn set_observed_generation(&mut self, observed_generation: Option<i64>) {
        self.observed_generation = observed_generation;
    }

    fn make(cond_type: String, details: StateDetails, now: i64) -> Self {
        CoreCondition {
            type_: cond_type,
            status: details.state.text(),
            reason: match details.reason {
                Some(r) => r,
                None => String::new(),
            },
            message: match details.message {
                Some(m) => m,
                None => String::new(),
            },
            observed_generation: details.observed_generation,
            last_transition_time: now,
        }
    }
}

/// Decode stored status text, leniently.
fn parse_state(status: &String) -> (s: State)
    ensures
        s == parse_status(status@),
{
    if str_eq(status.as_str(), "True") {
        State::True
    } else if str_eq(status.as_str(), "False") {
        State::False
    } else {
        State::Unknown
    }
}

/// Relies on `chrono::Utc::now`: the current wall-clock time, in milliseconds
/// since the epoch. Nothing can be promised of the value.
#[verifier::external_body]
fn now_millis() -> i64 {
    chrono::Utc::now().timestamp_millis()
}

/// A collection of conditions, at most one entry per type name, kept in
/// first-seen order.
pub trait Conditions {
    /// The models of the stored conditions, in order.
    spec fn cond_models(&self) -> Seq<CondView>;

    /// The capabilities of the stored condition shape.
    spec fn collection_caps(&self) -> CondCaps;

    /// Upsert the condition of the given type at the caller-supplied time.
    fn update_condition_on(&mut self, cond_type: &str, details: StateDetails, now: i64)
        ensures
            final(self).cond_models() == upsert_conditions(
                old(self).cond_models(),
                cond_type@,
                details@,
                now,
                old(self).collection_caps(),
            ),
            final(self).collection_caps() == old(self).collection_caps(),
    ;

    /// Upsert the condition of the given type at the current wall-clock time.
    fn update_condition(&mut self, cond_type: &str, details: StateDetails)
        ensures
            exists|now: i64|
                final(self).cond_models() == upsert_conditions(
                    old(self).cond_models(),
                    cond_type@,
                    details@,
                    now,
                    old(self).collection_caps(),
                ),
            final(self).collection_caps() == old(self).collection_caps(),
    ;
}

impl<C: Condition> Conditions for Vec<C> {
    open spec fn cond_models(&self) -> Seq<CondView> {
        self@.map_values(|c: C| c.model())
    }

    open spec fn collection_caps(&self) -> CondCaps {
        C::caps()
    }

    #[verifier::loop_isolation(false)]
    fn update_condition_on(&mut self, cond_type: &str, details: StateDetails, now: i64) {
        let ghost orig = self@.map_values(|c: C| c.model());
        let ghost dv = details@;
        let mut i: usize = 0;
        while i < self.len()
            invariant
                i <= self@.len(),
                self@.map_values(|c: C| c.model()) == orig,
                forall|j: int| 0 <= j < i ==> orig[j].cond_type != cond_type@,
            decreases self@.len() - i,
        {
            let found = str_eq(self[i].cond_type(), cond_type);
            assert(orig[i as int] == self@.map_values(|c: C| c.model())[i as int]);
            if found {
                proof {
                    lemma_condition_index_of_scan(orig, cond_type@, i as int);
                }
                let StateDetails { state, reason, message, observed_generation } = details;
                assert(self@[i as int].model() == orig[i as int]);
                let c = &mut self[i];
                if c.state() != state {
                    c.set_last_transition_time(now);
                    c.set_state(state);
                }
                c.set_last_probe_time(now);
                c.set_reason(reason);
                c.set_message(message);
                c.set_observed_generation(observed_generation);
                assert(c.model() == refreshed_cond(orig[i as int], dv, now, C::caps()));
                assert(self@.map_values(|x: C| x.model()) =~= orig.update(
                    i as int,
                    refreshed_cond(orig[i as int], dv, now, C::caps()),
                ));
                return;
            }
            i += 1;
        }
        let fresh = C::make(cond_type.to_owned(), details, now);
        self.push(fresh);
        proof {
            assert(!has_condition(orig, cond_type@));
            assert(self@.map_values(|c: C| c.model()) =~= orig.push(
                fresh_cond(cond_type@, dv, now, C::caps()),
            ));
        }
    }

    fn update_condition(&mut self, cond_type: &str, details: StateDetails) {
        let now = now_millis();
        self.update_condition_on(cond_type, details, now);
    }
}

impl<C: Condition> Conditions for Option<Vec<C>> {
    open spec fn cond_models(&self) -> Seq<CondView> {
        match self {
            Some(cs) => cs.cond_models(),
            None => Seq::empty(),
        }
    }

    open spec fn collection_caps(&self) -> CondCaps {
        C::caps()
    }

    fn update_condition_on(&mut self, cond_type: &str, details: StateDetails, now: i64) {
        let mut cs = match self.take() {
            Some(cs) => cs,
            None => Vec::new(),
        };
        cs.update_condition_on(cond_type, details, now);
        *self = Some(cs);
    }

    fn update_condition(&mut self, cond_type: &str, details: StateDetails) {
        let now = now_millis();
        self.update_condition_on(cond_type, details, now);
    }
}

} // verus!
