use operator_framework::conditions::{
    BasicCondition, Conditions, CoreCondition, ProbeCondition, State, StateBuilder, StateDetails,
};

#[test]
fn test_basic() {
    let mut conditions: Option<Vec<ProbeCondition>> = None;

    // initial update

    let now = 1000;

    conditions.update_condition_on("Ready", State::True.into(), now);

    assert_eq!(
        conditions,
        Some(vec![ProbeCondition {
            type_: "Ready".into(),
            status: "True".into(),
            reason: None,
            message: None,
            last_probe_time: Some(now),
            last_transition_time: Some(now),
        }])
    );

    // second update, no change

    let now_2 = 2000;

    conditions.update_condition_on("Ready", State::True.into(), now_2);

    assert_eq!(
        conditions,
        Some(vec![ProbeCondition {
            type_: "Ready".into(),
            status: "True".into(),
            reason: None,
            message: None,
            last_probe_time: Some(now_2),
            last_transition_time: Some(now),
        }])
    );

    // third update, change

    let now = 3000;

    conditions.update_condition_on(
        "Ready",
        State::False
            .with_reason("NotReady".to_string())
            .with_message("Something failed".to_string()),
        now,
    );

    assert_eq!(
        conditions,
        Some(vec![ProbeCondition {
            type_: "Ready".into(),
            status: "False".into(),
            reason: Some("NotReady".into()),
            message: Some("Something failed".into()),
            last_probe_time: Some(now),
            last_transition_time: Some(now),
        }])
    );

    // fourth update, back to ok

    let now = 4000;

    conditions.update_condition_on("Ready", State::True.into(), now);

    assert_eq!(
        conditions,
        Some(vec![ProbeCondition {
            type_: "Ready".into(),
            status: "True".into(),
            reason: None,
            message: None,
            last_probe_time: Some(now),
            last_transition_time: Some(now),
        }])
    );
}

#[test]
fn test_multi() {
    let mut conditions: Option<Vec<ProbeCondition>> = None;

    // initial update

    let now = 1000;

    conditions.update_condition_on("Ready", State::True.into(), now);
    conditions.update_condition_on("Foo", State::True.into(), now);
    conditions.update_condition_on("Bar", State::True.into(), now);

    let ready = |status: &str, probe: i64, transition: i64| ProbeCondition {
        type_: "Ready".into(),
        status: status.into(),
        reason: None,
        message: None,
        last_probe_time: Some(probe),
        last_transition_time: Some(transition),
    };

    assert_eq!(
        conditions,
        Some(vec![
            ProbeCondition { type_: "Ready".into(), ..ready("True", now, now) },
            ProbeCondition { type_: "Foo".into(), ..ready("True", now, now) },
            ProbeCondition { type_: "Bar".into(), ..ready("True", now, now) },
        ])
    );

    let now_2 = 2000;

    conditions.update_condition_on("Foo", State::False.into(), now_2);

    assert_eq!(
        conditions,
        Some(vec![
            ProbeCondition { type_: "Ready".into(), ..ready("True", now, now) },
            ProbeCondition { type_: "Foo".into(), ..ready("False", now_2, now_2) },
            ProbeCondition { type_: "Bar".into(), ..ready("True", now, now) },
        ])
    );
}

/// The concrete three-step scenario: first seen at t0, probed again at t1,
/// flipped with a reason at t2.
#[test]
fn upsert_scenario() {
    let t0 = 10;
    let t1 = 20;
    let t2 = 30;

    let mut conditions: Option<Vec<ProbeCondition>> = None;

    conditions.update_condition_on("Ready", State::True.into(), t0);
    {
        let cs = conditions.as_ref().unwrap();
        assert_eq!(cs.len(), 1);
        assert_eq!(cs[0].type_, "Ready");
        assert_eq!(cs[0].status, "True");
        assert_eq!(cs[0].last_transition_time, Some(t0));
        assert_eq!(cs[0].last_probe_time, Some(t0));
    }

    conditions.update_condition_on("Ready", State::True.into(), t1);
    {
        let cs = conditions.as_ref().unwrap();
        assert_eq!(cs[0].status, "True");
        assert_eq!(cs[0].last_transition_time, Some(t0));
        assert_eq!(cs[0].last_probe_time, Some(t1));
    }

    conditions.update_condition_on("Ready", State::False.with_reason("NotReady".to_string()), t2);
    {
        let cs = conditions.as_ref().unwrap();
        assert_eq!(cs.len(), 1);
        assert_eq!(cs[0].status, "False");
        assert_eq!(cs[0].reason, Some("NotReady".to_string()));
        assert_eq!(cs[0].last_transition_time, Some(t2));
        assert_eq!(cs[0].last_probe_time, Some(t2));
    }
}

/// Upserting the same state twice never moves the transition timestamp.
#[test]
fn upsert_same_state_keeps_transition() {
    let mut cs: Vec<BasicCondition> = Vec::new();
    cs.update_condition_on("Synced", State::Unknown.into(), 5);
    cs.update_condition_on("Synced", State::Unknown.into(), 9);
    assert_eq!(cs.len(), 1);
    assert_eq!(cs[0].last_transition_time, Some(5));
}

/// Upserting a different state moves the transition timestamp to the second
/// call's time.
#[test]
fn upsert_state_change_moves_transition() {
    let mut cs: Vec<BasicCondition> = Vec::new();
    cs.update_condition_on("Synced", State::True.into(), 5);
    cs.update_condition_on("Synced", State::False.into(), 9);
    assert_eq!(cs[0].last_transition_time, Some(9));
    assert_eq!(cs[0].status, "False");
}

/// Upserting distinct types appends one entry each, in first-seen order.
#[test]
fn upsert_distinct_types_in_order() {
    let mut cs: Vec<BasicCondition> = Vec::new();
    cs.update_condition_on("A", State::True.into(), 1);
    cs.update_condition_on("B", State::False.into(), 1);
    cs.update_condition_on("C", State::Unknown.into(), 1);
    cs.update_condition_on("B", State::True.into(), 2);
    assert_eq!(cs.len(), 3);
    assert_eq!(cs[0].type_, "A");
    assert_eq!(cs[1].type_, "B");
    assert_eq!(cs[2].type_, "C");
    assert_eq!(cs[1].status, "True");
}

/// The strict shape stores absent reason and message as empty text and
/// records the observed generation.
#[test]
fn core_shape_stores_required_text() {
    let mut cs: Vec<CoreCondition> = Vec::new();
    cs.update_condition_on("Ready", StateDetails::from(State::True).with_observed(Some(7)), 100);
    assert_eq!(cs.len(), 1);
    assert_eq!(cs[0].reason, "");
    assert_eq!(cs[0].message, "");
    assert_eq!(cs[0].observed_generation, Some(7));
    assert_eq!(cs[0].last_transition_time, 100);

    cs.update_condition_on("Ready", State::True.with_reason("Fine".to_string()), 200);
    assert_eq!(cs[0].reason, "Fine");
    assert_eq!(cs[0].observed_generation, None);
    assert_eq!(cs[0].last_transition_time, 100);
}

/// Shapes without probe support report no probe time, ever.
#[test]
fn basic_shape_has_no_probe_time() {
    let mut cs: Vec<BasicCondition> = Vec::new();
    cs.update_condition_on("Ready", State::True.into(), 50);
    assert_eq!(cs.len(), 1);
    assert_eq!(cs[0].last_transition_time, Some(50));
}

/// Status text decodes leniently: any unexpected text reads as `Unknown`,
/// so an upsert to `Unknown` leaves the stored text alone.
#[test]
fn lenient_decoding() {
    assert_eq!(State::True.text(), "True");
    assert_eq!(State::False.text(), "False");
    assert_eq!(State::Unknown.text(), "Unknown");

    let mut cs = vec![BasicCondition {
        type_: "Odd".into(),
        status: "bogus".into(),
        reason: None,
        message: None,
        last_transition_time: Some(1),
    }];
    cs.update_condition_on("Odd", State::Unknown.into(), 2);
    assert_eq!(cs[0].status, "bogus");
    assert_eq!(cs[0].last_transition_time, Some(1));

    cs.update_condition_on("Odd", State::True.into(), 3);
    assert_eq!(cs[0].status, "True");
    assert_eq!(cs[0].last_transition_time, Some(3));
}
