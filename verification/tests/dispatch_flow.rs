use rigos::models::AgentStep;
use rigos::policy::{PolicyDecision, PolicyError};
use rigos::protocol::{McpRequest, McpResponse};
use rigos::registry::{ActiveToolRegistry, RegistryError, ToolArtifact, ToolRegistry};
use rigos::router::{DispatchAction, DispatchError, DispatchFlow};

/// What one dispatch did: the response or error, the steps persisted, and
/// how many times the sandbox ran.
struct Run {
    outcome: Result<McpResponse, DispatchError>,
    steps: Vec<AgentStep>,
    executions: usize,
}

/// Drives a dispatch with a registry, a fixed policy answer and a sandbox
/// that reports success, the way the daemon's router does.
fn dispatch(
    registry: &dyn Fn(&str) -> Result<Option<ToolArtifact>, RegistryError>,
    policy: Result<PolicyDecision, PolicyError>,
    request: McpRequest,
) -> Run {
    let (mut flow, mut action) = DispatchFlow::start(request, 7, 8, 1);
    let mut steps = Vec::new();
    let mut executions = 0;
    let mut policy = Some(policy);
    loop {
        action = match action {
            DispatchAction::ResolveTool { tool_name } => flow.on_tool_resolved(registry(&tool_name)),
            DispatchAction::EvaluatePolicy { policy_path, .. } => {
                assert_eq!(policy_path, "mcp/tool/allow");
                flow.on_policy_decided(policy.take().unwrap())
            }
            DispatchAction::Execute { limits, .. } => {
                assert_eq!(limits.max_fuel, 5_000_000);
                assert_eq!(limits.max_memory_bytes, 64 * 1024 * 1024);
                executions += 1;
                flow.on_executed(Ok("Tool executed safely".to_string()))
            }
            DispatchAction::Persist { step } => {
                steps.push(step);
                flow.on_persisted(Ok(()))
            }
            DispatchAction::Respond(r) => return Run { outcome: Ok(r), steps, executions },
            DispatchAction::Fail(e) => return Run { outcome: Err(e), steps, executions },
        };
    }
}

fn registry() -> ActiveToolRegistry {
    let mut r = ActiveToolRegistry::new();
    r.register(ToolArtifact::new("dangerous.tool", b"\0asm\x01\0\0\0".to_vec()));
    r
}

fn request(tool_name: &str) -> McpRequest {
    McpRequest {
        tool_name: tool_name.to_string(),
        payload: r#"{"operation":"delete_database"}"#.to_string(),
    }
}

fn allow() -> Result<PolicyDecision, PolicyError> {
    Ok(PolicyDecision { allowed: true, reason: "allowed by policy".to_string() })
}

#[test]
fn denied_policy_does_not_persist_agent_step() {
    let reg = registry();
    let run = dispatch(
        &|name| reg.resolve_tool(name),
        Ok(PolicyDecision { allowed: false, reason: "red-team denial".to_string() }),
        request("dangerous.tool"),
    );
    let response = run.outcome.unwrap();
    assert!(!response.success);
    assert_eq!(run.steps.len(), 0);
    assert_eq!(run.executions, 0);
    assert!(response
        .error_msg
        .as_deref()
        .is_some_and(|error| error.contains("OPAL RBAC denied")));
    assert_eq!(response.error_msg.as_deref(), Some("OPAL RBAC denied: red-team denial"));
}

#[test]
fn red_team_unknown_tool_must_not_execute_even_when_policy_allows() {
    let reg = registry();
    let run = dispatch(&|name| reg.resolve_tool(name), allow(), request("unregistered.destructive.tool"));
    let response = run.outcome.unwrap();
    assert!(
        !response.success,
        "unknown tools must fail closed instead of executing unregistered artifacts"
    );
    assert_eq!(run.executions, 0);
    assert_eq!(
        response.error_msg.as_deref(),
        Some("Unknown or unauthorized internal tool: unregistered.destructive.tool")
    );
    assert_eq!(response.output, "{}");
}

#[test]
fn allowed_tool_persists_artifact_and_policy_evidence() {
    let reg = registry();
    let run = dispatch(&|name| reg.resolve_tool(name), allow(), request("dangerous.tool"));
    let response = run.outcome.unwrap();
    assert!(response.success);
    assert_eq!(run.steps.len(), 1);
    let tool_calls: serde_json::Value =
        serde_json::from_str(run.steps[0].tool_calls.as_ref().expect("missing tool call audit evidence"))
            .unwrap();
    assert_eq!(tool_calls["tool_name"], "dangerous.tool");
    assert!(tool_calls["artifact_sha256"]
        .as_str()
        .is_some_and(|hash| hash.len() == 64));
    assert_eq!(tool_calls["policy_allowed"], true);
    assert_eq!(tool_calls["policy_path"], "mcp/tool/allow");
    assert_eq!(tool_calls["policy_reason"], "allowed by policy");
    assert_eq!(response.output, r#"{"result":"Tool executed safely"}"#);
    assert_eq!(response.error_msg, None);
}

#[test]
fn known_tool_with_opa_error_fails_closed_without_persisting_step() {
    let reg = registry();
    let run = dispatch(
        &|name| reg.resolve_tool(name),
        Err(PolicyError::Failed("policy transport unavailable".to_string())),
        request("dangerous.tool"),
    );
    let response = run.outcome.unwrap();
    assert!(!response.success);
    assert_eq!(run.steps.len(), 0);
    assert_eq!(run.executions, 0);
    assert!(response
        .error_msg
        .as_deref()
        .is_some_and(|error| error.contains("failed closed")));
    assert_eq!(
        response.error_msg.as_deref(),
        Some("OPAL policy evaluation failed closed: policy transport unavailable")
    );
}

#[test]
fn persisted_step_carries_the_request_and_dispatch_position() {
    let reg = registry();
    let run = dispatch(&|name| reg.resolve_tool(name), allow(), request("dangerous.tool"));
    let step = &run.steps[0];
    assert_eq!(step.trace_id, 7);
    assert_eq!(step.parent_step_id, Some(8));
    assert_eq!(step.step_number, 1);
    assert_eq!(
        step.payload,
        r#"{"payload":{"operation":"delete_database"},"tool_name":"dangerous.tool"}"#
    );
    assert_eq!(step.output.as_deref(), Some(r#"{"result":"Tool executed safely"}"#));
    assert!(!step.requires_approval);
    let expected_sha = ToolArtifact::new("x", b"\0asm\x01\0\0\0".to_vec()).sha256;
    assert_eq!(
        step.tool_calls.as_deref(),
        Some(
            format!(
                r#"{{"artifact_sha256":"{}","policy_allowed":true,"policy_path":"mcp/tool/allow","policy_reason":"allowed by policy","tool_name":"dangerous.tool"}}"#,
                expected_sha
            )
            .as_str()
        )
    );
}

#[test]
fn mismatched_registry_artifact_is_refused() {
    let run = dispatch(
        &|_name| Ok(Some(ToolArtifact::new("other.tool", vec![0, 1]))),
        allow(),
        request("dangerous.tool"),
    );
    let response = run.outcome.unwrap();
    assert!(!response.success);
    assert_eq!(run.executions, 0);
    assert_eq!(response.error_msg.as_deref(), Some("Tool registry returned a mismatched artifact"));
}

#[test]
fn registry_error_fails_the_dispatch() {
    let run = dispatch(
        &|_name| Err(RegistryError { message: "registry offline".to_string() }),
        allow(),
        request("dangerous.tool"),
    );
    let error = run.outcome.unwrap_err();
    assert_eq!(error.message(), "registry offline");
    assert_eq!(run.executions, 0);
}

#[test]
fn sandbox_trap_fails_the_dispatch_without_persisting() {
    let reg = registry();
    let (mut flow, _) = DispatchFlow::start(request("dangerous.tool"), 1, 2, 3);
    let a = flow.on_tool_resolved(reg.resolve_tool("dangerous.tool"));
    assert!(matches!(a, DispatchAction::EvaluatePolicy { .. }));
    let a = flow.on_policy_decided(allow());
    assert!(matches!(a, DispatchAction::Execute { .. }));
    match flow.on_executed(Err("all fuel consumed by WebAssembly".to_string())) {
        DispatchAction::Fail(e) => assert!(e.message().contains("fuel")),
        other => panic!("unexpected {:?}", other),
    }
}

#[test]
fn store_failure_fails_the_dispatch() {
    let reg = registry();
    let (mut flow, _) = DispatchFlow::start(request("dangerous.tool"), 1, 2, 3);
    flow.on_tool_resolved(reg.resolve_tool("dangerous.tool"));
    flow.on_policy_decided(allow());
    flow.on_executed(Ok("ok".to_string()));
    match flow.on_persisted(Err("Failed to insert step into SQLite".to_string())) {
        DispatchAction::Fail(DispatchError::Store(m)) => assert_eq!(m, "Failed to insert step into SQLite"),
        other => panic!("unexpected {:?}", other),
    }
}
