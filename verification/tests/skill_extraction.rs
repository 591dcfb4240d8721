use rigos::skills::{compute_task_hash, Skill, SkillEngine, SkillRouter, SkillStore};
use rigos::state::AgentState;
use sha2::{Digest, Sha256};

fn payload(task: &str) -> String {
    format!("{{\"task\":\"{}\"}}", task)
}

#[test]
fn incomplete_execution_does_not_extract_skill() {
    let state = AgentState::new_initial(payload("still running"));

    let skill = SkillEngine::extract_skill("still running", &state);

    assert!(skill.is_none());
}

#[test]
fn completed_execution_extracts_skill_with_task_hash() {
    let mut state = AgentState::new_initial(payload("repeatable workflow"));
    state.is_finished = true;
    let raw_task = "repeatable workflow";

    let skill = SkillEngine::extract_skill(raw_task, &state);

    assert!(skill.is_some());
    if let Some(skill) = skill {
        assert_eq!(skill.trigger_pattern.task_hash, compute_task_hash(raw_task));
        assert!(!skill.checksum.is_empty());
    }
}

#[test]
fn red_team_invalid_source_trace_id_must_not_extract_skill() {
    let mut state = AgentState::new_initial(payload("corrupt trace"));
    state.step_id = "not-a-uuid".to_string();
    state.is_finished = true;

    let skill = SkillEngine::extract_skill("corrupt trace", &state);

    assert!(
        skill.is_none(),
        "skill extraction must not hide corrupt DAG provenance with a random UUID"
    );
}

#[test]
fn extracted_skill_fields() {
    let state = AgentState {
        step_id: "936da01f-9abd-4d9d-80c7-02af85c822a8".to_string(),
        parent_step_id: None,
        payload: r#"{"task":"x"}"#.to_string(),
        requires_human_approval: false,
        is_finished: true,
    };
    let task = "  deploy\tthe  service ";
    let skill = SkillEngine::extract_skill(task, &state).unwrap();
    assert_eq!(skill.name, "auto_skill_deploy");
    assert_eq!(skill.version, "1.0.0");
    assert_eq!(skill.description, "Automatically extracted skill from task:   deploy\tthe  service ");
    assert_eq!(skill.source_trace_id, 0x936da01f_9abd_4d9d_80c7_02af85c822a8);
    assert_eq!(skill.trigger_pattern.keywords, vec!["deploy", "the", "service"]);
    assert_eq!(skill.trigger_pattern.example_prompt, task);
    assert!(skill.trigger_pattern.embedding_bits.is_none());
    assert_eq!(f32::from_bits(skill.metadata.success_rate_bits), 1.0f32);
    assert_eq!(skill.metadata.usage_count, 0);
    assert_eq!(skill.procedure.steps.len(), 1);
    assert_eq!(skill.procedure.steps[0].action, "Execute observed tool calls");
    assert_eq!(skill.procedure.guardrails[0].action_if_fail, "human_approval");
    assert_eq!(skill.procedure.estimated_tokens_saved, 1200);

    // The checksum covers the task followed by the state's JSON object.
    let json = r#"{"step_id":"936da01f-9abd-4d9d-80c7-02af85c822a8","parent_step_id":null,"payload":{"task":"x"},"requires_human_approval":false,"is_finished":true}"#;
    assert_eq!(state.to_json(), json);
    let mut hasher = Sha256::new();
    hasher.update(task.as_bytes());
    hasher.update(json.as_bytes());
    let expected: String = hasher.finalize().iter().map(|b| format!("{:02x}", b)).collect();
    assert_eq!(skill.checksum, expected);
    assert_eq!(skill.checksum.len(), 64);
    assert_eq!(skill.trigger_pattern.task_hash.len(), 64);
}

#[test]
fn blank_task_is_named_after_task() {
    let state = AgentState {
        step_id: "936DA01F9ABD4D9D80C702AF85C822A8".to_string(),
        parent_step_id: Some("p".to_string()),
        payload: "{}".to_string(),
        requires_human_approval: false,
        is_finished: true,
    };
    let skill = SkillEngine::extract_skill(" \n ", &state).unwrap();
    assert_eq!(skill.name, "auto_skill_task");
    assert!(skill.trigger_pattern.keywords.is_empty());
}

#[test]
fn task_hash_is_sha256_hex() {
    assert_eq!(
        compute_task_hash(""),
        "e3b0c44298fc1c149afbf4c8996fb92427ae41e4649b934ca495991b7852b855"
    );
    assert_eq!(compute_task_hash("abc").len(), 64);
    assert_eq!(compute_task_hash("abc"), compute_task_hash("abc"));
}

struct OneSkillStore {
    hash: String,
}

impl SkillStore for OneSkillStore {
    fn find_by_hash(&self, hash: &str) -> Option<Skill> {
        if hash == self.hash {
            let mut state = AgentState::new_initial("{}".to_string());
            state.is_finished = true;
            SkillEngine::extract_skill("stored", &state)
        } else {
            None
        }
    }

    fn find_by_similarity(&self, _embedding: &[u32]) -> Option<Skill> {
        None
    }
}

#[test]
fn router_asks_the_store_for_the_task_hash() {
    let router = SkillRouter::new(OneSkillStore { hash: compute_task_hash("known task") });
    assert!(router.route("known task", None).is_some());
    assert!(router.route("other task", None).is_none());
}

#[test]
fn checksum_covers_the_canonical_payload() {
    let loose = AgentState {
        step_id: "{936da01f-9abd-4d9d-80c7-02af85c822a8}".to_string(),
        parent_step_id: None,
        payload: "{ \"b\": 1,\n \"a\": [true, null] }".to_string(),
        requires_human_approval: false,
        is_finished: true,
    };
    let mut compact = loose.clone();
    compact.payload = r#"{"a":[true,null],"b":1}"#.to_string();
    let a = SkillEngine::extract_skill("t", &loose).unwrap();
    let b = SkillEngine::extract_skill("t", &compact).unwrap();
    assert_eq!(a.source_trace_id, 0x936da01f_9abd_4d9d_80c7_02af85c822a8);
    assert_eq!(a.checksum, b.checksum);
    let json = r#"{"step_id":"{936da01f-9abd-4d9d-80c7-02af85c822a8}","parent_step_id":null,"payload":{"a":[true,null],"b":1},"requires_human_approval":false,"is_finished":true}"#;
    let mut hasher = Sha256::new();
    hasher.update(b"t");
    hasher.update(json.as_bytes());
    let expected: String = hasher.finalize().iter().map(|b| format!("{:02x}", b)).collect();
    assert_eq!(a.checksum, expected);
}

#[test]
fn payload_that_is_not_json_yields_no_skill() {
    let state = AgentState {
        step_id: "936da01f-9abd-4d9d-80c7-02af85c822a8".to_string(),
        parent_step_id: None,
        payload: "{ not json".to_string(),
        requires_human_approval: false,
        is_finished: true,
    };
    assert!(SkillEngine::extract_skill("t", &state).is_none());
}
