//! Tracking content changes of configuration data.
//!
//! This is useful where a change in configuration content should trigger a
//! redeployment: the tracker folds byte content into a digest which, for
//! example, can be applied as an annotation to a pod template. A change in
//! content changes the digest, and so changes the template.

use vstd::prelude::*;

use sha1::Digest;
use vstd::utf8::encode_utf8;
use sha1::Sha1;

verus! {

/// The lowercase hex digest the tracker reports for given byte content.
pub uninterp spec fn sha1_hex(data: Seq<u8>) -> Seq<char>;

/// Relies on `sha1::Sha1::digest` and its hex formatting: the digest is a
/// function of the bytes alone.
#[verifier::external_body]
fn sha1_hex_of(data: &Vec<u8>) -> (r: String)
    ensures
        r@ == sha1_hex(data@),
{
    format!("{:x}", Sha1::digest(data.as_slice()))
}

/// Accumulates configuration content and reports its digest.
pub struct ConfigTracker {
    data: Vec<u8>,
}

impl ConfigTracker {
    /// The bytes folded in so far.
    pub closed spec fn bytes(&self) -> Seq<u8> {
        self.data@
    }

    pub fn new() -> (t: ConfigTracker)
        ensures
            t.bytes() == Seq::<u8>::empty(),
    {
        ConfigTracker { data: Vec::new() }
    }

    /// Fold more content into the tracker.
    pub fn track(&mut self, data: &[u8])
        ensures
            final(self).bytes() == old(self).bytes() + data@,
    {
        self.data.extend_from_slice(data);
        proof {
            assert(self.data@ =~= old(self).data@ + data@);
        }
    }

    /// The digest of everything folded in so far.
    pub fn current_hash(&self) -> (h: String)
        ensures
            h@ == sha1_hex(self.bytes()),
    {
        sha1_hex_of(&self.data)
    }

    /// Freeze the current tracker state and return it.
    pub fn freeze(self) -> (s: TrackerState)
        ensures
            s@ == sha1_hex(self.bytes()),
    {
        TrackerState(self.current_hash())
    }
}

/// A frozen tracker digest.
#[derive(Clone, Debug, PartialEq, Eq)]
pub struct TrackerState(pub String);

impl View for TrackerState {
    type V = Seq<char>;

    open spec fn view(&self) -> Seq<char> {
        self.0@
    }
}

impl TrackerState {
    /// The digest text.
    pub fn text(&self) -> (s: &str)
        ensures
            s@ == self@,
    {
        self.0.as_str()
    }
}

impl From<TrackerState> for String {
    fn from(state: TrackerState) -> (s: String) {
        state.0
    }
}

impl vstd::std_specs::convert::FromSpecImpl<TrackerState> for String {
    open spec fn obeys_from_spec() -> bool {
        true
    }

    open spec fn from_spec(state: TrackerState) -> String {
        state.0
    }
}

/// Content that knows how to fold itself into a tracker.
pub trait Trackable {
    /// The bytes this value contributes.
    spec fn tracked_bytes(&self) -> Seq<u8>;

    fn track_with(&self, tracker: &mut ConfigTracker)
        ensures
            final(tracker).bytes() == old(tracker).bytes() + self.tracked_bytes(),
    ;
}

/// A frozen digest can itself be tracked, as the bytes of its text.
impl Trackable for TrackerState {
    open spec fn tracked_bytes(&self) -> Seq<u8> {
        encode_utf8(self.0@)
    }

    fn track_with(&self, tracker: &mut ConfigTracker) {
        tracker.track(self.0.as_str().as_bytes());
    }
}

/// The bytes of the values of a text map, concatenated in entry order.
pub open spec fn text_values_bytes(m: Seq<(String, String)>) -> Seq<u8>
    decreases m.len(),
{
    if m.len() == 0 {
        Seq::empty()
    } else {
        text_values_bytes(m.drop_last()) + encode_utf8(m.last().1@)
    }
}

/// The values of a binary map, concatenated in entry order.
pub open spec fn binary_values_bytes(m: Seq<(String, Vec<u8>)>) -> Seq<u8>
    decreases m.len(),
{
    if m.len() == 0 {
        Seq::empty()
    } else {
        binary_values_bytes(m.drop_last()) + m.last().1@
    }
}

fn track_text_values(m: &Vec<(String, String)>, tracker: &mut ConfigTracker)
    ensures
        final(tracker).bytes() == old(tracker).bytes() + text_values_bytes(m@),
{
    let ghost start = tracker.bytes();
    let mut i: usize = 0;
    #[verifier::loop_isolation(false)]
    while i < m.len()
        invariant
            i <= m@.len(),
            tracker.bytes() == start + text_values_bytes(m@.subrange(0, i as int)),
        decreases m@.len() - i,
    {
        proof {
            let prefix = m@.subrange(0, i as int);
            let extended = m@.subrange(0, i + 1 as int);
            assert(extended.drop_last() =~= prefix);
            assert(extended.last() == m@[i as int]);
        }
        tracker.track(m[i].1.as_str().as_bytes());
        i += 1;
    }
    proof {
        assert(m@.subrange(0, m@.len() as int) =~= m@);
    }
}

fn track_binary_values(m: &Vec<(String, Vec<u8>)>, tracker: &mut ConfigTracker)
    ensures
        final(tracker).bytes() == old(tracker).bytes() + binary_values_bytes(m@),
{
    let ghost start = tracker.bytes();
    let mut i: usize = 0;
    #[verifier::loop_isolation(false)]
    while i < m.len()
        invariant
            i <= m@.len(),
            tracker.bytes() == start + binary_values_bytes(m@.subrange(0, i as int)),
        decreases m@.len() - i,
    {
        proof {
            let prefix = m@.subrange(0, i as int);
            let extended = m@.subrange(0, i + 1 as int);
            assert(extended.drop_last() =~= prefix);
            assert(extended.last() == m@[i as int]);
        }
        tracker.track(m[i].1.as_slice());
        i += 1;
    }
    proof {
        assert(m@.subrange(0, m@.len() as int) =~= m@);
    }
}

/// A config map contributes the bytes of its text values, in entry order.
impl Trackable for crate::config::ConfigMap {
    open spec fn tracked_bytes(&self) -> Seq<u8> {
        text_values_bytes(self.data@)
    }

    fn track_with(&self, tracker: &mut ConfigTracker) {
        track_text_values(&self.data, tracker);
    }
}

/// A secret contributes its binary values, in entry order.
impl Trackable for crate::config::Secret {
    open spec fn tracked_bytes(&self) -> Seq<u8> {
        binary_values_bytes(self.data@)
    }

    fn track_with(&self, tracker: &mut ConfigTracker) {
        track_binary_values(&self.data, tracker);
    }
}

} // verus!
