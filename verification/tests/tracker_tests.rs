use operator_framework::config::{AppendBinary, AppendString, ConfigMap, Secret};
use operator_framework::tracker::{ConfigTracker, Trackable, TrackerState};

#[test]
fn tracker_test() {
    let tracker = ConfigTracker::new();
    assert_eq!("da39a3ee5e6b4b0d3255bfef95601890afd80709", tracker.current_hash());
}

/// The digest is the digest of everything folded in, in order.
#[test]
fn tracker_digest_of_content() {
    let mut tracker = ConfigTracker::new();
    tracker.track(b"abc");
    assert_eq!("a9993e364706816aba3e25717850c26c9cd0d89d", tracker.current_hash());

    let mut split = ConfigTracker::new();
    split.track(b"ab");
    split.track(b"c");
    assert_eq!(tracker.current_hash(), split.current_hash());
    assert_eq!(tracker.current_hash(), split.freeze().text());
}

/// A frozen digest contributes the bytes of its text.
#[test]
fn tracker_state_trackable() {
    let state = TrackerState("abc".to_string());

    let mut via_state = ConfigTracker::new();
    state.track_with(&mut via_state);

    let mut direct = ConfigTracker::new();
    direct.track(b"abc");

    assert_eq!(direct.current_hash(), via_state.current_hash());
}

/// Config maps contribute their text values; secrets their binary values.
#[test]
fn config_objects_trackable() {
    let mut cm: ConfigMap = Default::default();
    cm.append_string("a", "one".to_string());
    cm.append_string("b", "two".to_string());

    let mut via_cm = ConfigTracker::new();
    cm.track_with(&mut via_cm);

    let mut direct = ConfigTracker::new();
    direct.track(b"one");
    direct.track(b"two");
    assert_eq!(direct.current_hash(), via_cm.current_hash());

    let mut secret: Secret = Default::default();
    secret.append_binary("k", vec![1, 2, 3]);

    let mut via_secret = ConfigTracker::new();
    secret.track_with(&mut via_secret);

    let mut direct = ConfigTracker::new();
    direct.track(&[1, 2, 3]);
    assert_eq!(direct.current_hash(), via_secret.current_hash());
}
