use rigos::ids::Timestamp;
use rigos::models::{AgentStep, StoreBackend};
use rigos::sandbox::SandboxLimits;
use rigos::state::AgentState;

#[test]
fn initial_state_is_clean_and_identified_by_a_uuid() {
    let s = AgentState::new_initial(r#"{"task":"x"}"#.to_string());
    assert!(s.parent_step_id.is_none());
    assert!(!s.requires_human_approval);
    assert!(!s.is_finished);
    assert_eq!(s.payload, r#"{"task":"x"}"#);
    let id = uuid::Uuid::parse_str(&s.step_id).unwrap().as_u128();
    assert_eq!((id >> 76) & 0xf, 4);
    assert_ne!(s.step_id, AgentState::new_initial("{}".to_string()).step_id);
}

#[test]
fn state_json_matches_serde_field_order() {
    let s = AgentState {
        step_id: "s\"1".to_string(),
        parent_step_id: Some("p".to_string()),
        payload: "[1,2]".to_string(),
        requires_human_approval: true,
        is_finished: false,
    };
    assert_eq!(
        s.to_json(),
        r#"{"step_id":"s\"1","parent_step_id":"p","payload":[1,2],"requires_human_approval":true,"is_finished":false}"#
    );
}

#[test]
fn branch_follows_its_parent() {
    let parent = AgentStep {
        step_id: 11,
        trace_id: 22,
        parent_step_id: None,
        step_number: 4,
        payload: "{}".to_string(),
        tool_calls: Some("{}".to_string()),
        output: Some("{}".to_string()),
        requires_approval: true,
        created_at: Timestamp { secs: 0, nanos: 0 },
    };
    let b = AgentStep::branch_from(&parent, &vec![1, 2, 3, 4], r#"{"new":true}"#.to_string()).unwrap();
    assert_eq!(b.trace_id, 22);
    assert_eq!(b.parent_step_id, Some(11));
    assert_eq!(b.step_number, 5);
    assert_eq!(b.payload, r#"{"new":true}"#);
    assert!(b.tool_calls.is_none());
    assert!(b.output.is_none());
    assert!(!b.requires_approval);
    assert_ne!(b.step_id, 11);
}

#[test]
fn branch_takes_a_free_step_number() {
    let parent = AgentStep {
        step_id: 1,
        trace_id: 9,
        parent_step_id: None,
        step_number: 1,
        payload: "{}".to_string(),
        tool_calls: None,
        output: None,
        requires_approval: false,
        created_at: Timestamp { secs: 0, nanos: 0 },
    };
    // The number after the parent's is free: the branch takes it.
    let b = AgentStep::branch_from(&parent, &vec![1, 3], "{}".to_string()).unwrap();
    assert_eq!(b.step_number, 2);
    assert_eq!(b.parent_step_id, Some(1));
    // Step 1 already has a child numbered 2, and the trace reaches 7.
    let b = AgentStep::branch_from(&parent, &vec![1, 2, 7, 3], "{}".to_string()).unwrap();
    assert_eq!(b.step_number, 8);
    // A lone parent in an empty listing gets the next number.
    assert_eq!(AgentStep::branch_from(&parent, &vec![], "{}".to_string()).unwrap().step_number, 2);
    // The next number is taken and no number is left above the highest one.
    assert!(AgentStep::branch_from(&parent, &vec![2, i32::MAX], "{}".to_string()).is_none());
    // The next number is free even though the trace reaches the highest one.
    assert_eq!(AgentStep::branch_from(&parent, &vec![1, i32::MAX], "{}".to_string()).unwrap().step_number, 2);
    // A parent at the highest number has no branch.
    let mut top = parent.clone();
    top.step_number = i32::MAX;
    assert!(AgentStep::branch_from(&top, &vec![], "{}".to_string()).is_none());
}

#[test]
fn store_backend_follows_the_url_scheme() {
    assert_eq!(StoreBackend::for_url("postgres://u@h/db"), StoreBackend::Postgres);
    assert_eq!(StoreBackend::for_url("postgresql://u@h/db"), StoreBackend::Postgres);
    assert_eq!(StoreBackend::for_url("sqlite://rigos.db"), StoreBackend::Sqlite);
}

#[test]
fn dispatch_limits() {
    let l = SandboxLimits::for_tool_dispatch();
    assert_eq!(l.max_fuel, 5_000_000);
    assert_eq!(l.max_memory_bytes, 67_108_864);
}
