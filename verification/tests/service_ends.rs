use rigos::api::{
    begin_grpc_dispatch, begin_http_dispatch, grpc_dispatch_result, grpc_health,
    http_dispatch_result, http_health_body, DispatchMcpRequest, ExecuteRequest, GrpcCode,
    TenantHeader, TenantId,
};
use rigos::policy::PolicyDecision;
use rigos::protocol::{McpRequest, McpResponse};
use rigos::registry::RegistryError;
use rigos::router::{DispatchAction, DispatchError, DispatchFlow};

/// Runs a begun dispatch against a registry that knows no tool and a policy
/// that denies everything.
fn run_with_empty_registry(mut flow: DispatchFlow, mut action: DispatchAction) -> Result<McpResponse, DispatchError> {
    loop {
        action = match action {
            DispatchAction::ResolveTool { .. } => flow.on_tool_resolved(Ok(None)),
            DispatchAction::EvaluatePolicy { .. } => flow.on_policy_decided(Ok(PolicyDecision {
                allowed: false,
                reason: "deny".to_string(),
            })),
            DispatchAction::Respond(r) => return Ok(r),
            DispatchAction::Fail(e) => return Err(e),
            other => panic!("the sandbox and the store must not be reached: {:?}", other),
        };
    }
}

fn grpc_request(trace_id: &str, tool_name: &str, payload_json: &str) -> DispatchMcpRequest {
    DispatchMcpRequest {
        tenant_id: "t1".to_string(),
        trace_id: trace_id.to_string(),
        tool_name: tool_name.to_string(),
        payload_json: payload_json.to_string(),
    }
}

fn some_trace_text() -> String {
    "550e8400-e29b-41d4-a716-446655440000".to_string()
}

#[test]
fn grpc_health_returns_ok() {
    let res = grpc_health();
    assert_eq!(res.status, "OK");
}

#[test]
fn grpc_invalid_json_returns_structured_error() {
    let error = match begin_grpc_dispatch(grpc_request(&some_trace_text(), "test", "{ bad json ")) {
        Ok(_) => panic!("expected malformed JSON to fail"),
        Err(error) => error,
    };
    assert_eq!(error.code, GrpcCode::InvalidArgument);
    assert!(error.message.contains("Malformed payload_json"));
}

#[test]
fn grpc_unknown_tool_fails_closed_via_router() {
    let begun = begin_grpc_dispatch(grpc_request(&some_trace_text(), "ghost_tool", "{}")).unwrap();
    let trace_id = begun.trace_id;
    let outcome = run_with_empty_registry(begun.flow, begun.action);
    let res = grpc_dispatch_result(trace_id, outcome).unwrap();
    assert!(!res.success);
    assert!(res.error_msg.contains("Unknown"));
    assert_eq!(res.trace_id, "550e8400-e29b-41d4-a716-446655440000");
    assert_eq!(res.output_json, "{}");
}

#[test]
fn grpc_empty_trace_id_generates_new_trace_id() {
    let begun = begin_grpc_dispatch(grpc_request("", "ghost_tool", "{}")).unwrap();
    let trace_id = begun.trace_id;
    let outcome = run_with_empty_registry(begun.flow, begun.action);
    let res = grpc_dispatch_result(trace_id, outcome).unwrap();
    assert!(uuid::Uuid::parse_str(&res.trace_id).is_ok());
}

#[test]
fn grpc_invalid_trace_id_is_rejected() {
    let error = match begin_grpc_dispatch(grpc_request("invalid-uuid-string", "ghost_tool", "{}")) {
        Ok(_) => panic!("expected invalid trace ID to fail"),
        Err(error) => error,
    };
    assert_eq!(error.code, GrpcCode::InvalidArgument);
    assert!(error.message.contains("Invalid trace_id"));
}

#[test]
fn grpc_payload_is_passed_on_compactly() {
    let begun = begin_grpc_dispatch(grpc_request("", "t", "{ \"b\": 1,\n \"a\": [true, null] }")).unwrap();
    match begun.action {
        DispatchAction::ResolveTool { tool_name } => assert_eq!(tool_name, "t"),
        other => panic!("unexpected {:?}", other),
    }
    let mut flow = begun.flow;
    match flow.on_tool_resolved(Ok(Some(rigos::registry::ToolArtifact::new("t", vec![])))) {
        DispatchAction::EvaluatePolicy { input, .. } => {
            assert_eq!(input, r#"{"payload":{"a":[true,null],"b":1},"tool_name":"t"}"#)
        }
        other => panic!("unexpected {:?}", other),
    }
}

#[test]
fn grpc_dispatch_error_is_internal() {
    let status = grpc_dispatch_result(
        1,
        Err(DispatchError::Registry(RegistryError { message: "boom".to_string() })),
    )
    .unwrap_err();
    assert_eq!(status.code, GrpcCode::Internal);
    assert_eq!(status.message, "Internal Daemon error: boom");
}

#[test]
fn http_dispatch_keeps_the_given_trace() {
    let begun = begin_http_dispatch(ExecuteRequest {
        trace_id: Some(42),
        mcp_request: McpRequest { tool_name: "x".to_string(), payload: "{}".to_string() },
    });
    assert_eq!(begun.trace_id, 42);
    let outcome = run_with_empty_registry(begun.flow, begun.action);
    let answer = http_dispatch_result(42, outcome).unwrap();
    assert_eq!(answer.trace_id, 42);
    assert_eq!(
        answer.response.error_msg.as_deref(),
        Some("Unknown or unauthorized internal tool: x")
    );
}

#[test]
fn http_dispatch_error_is_500() {
    let (status, error) = http_dispatch_result(
        3,
        Err(DispatchError::Sandbox("Failed to compile WASM module".to_string())),
    )
    .unwrap_err();
    assert_eq!(status, 500);
    assert_eq!(error.code, "MCP_DISPATCH_ERROR");
    assert_eq!(error.error, "Failed to compile WASM module");
}

#[test]
fn http_health_body_is_fixed() {
    assert_eq!(http_health_body(), "RigOS Daemon OK");
}

#[test]
fn tenant_header_rules() {
    for header in [TenantHeader::Missing, TenantHeader::Unreadable] {
        let (status, error) = TenantId::from_header(header).unwrap_err();
        assert_eq!(status, 401);
        assert_eq!(error.error, "Missing or empty X-Tenant-ID header");
        assert_eq!(error.code, "MISSING_TENANT");
    }
    assert_eq!(
        TenantId::from_header(TenantHeader::Text("acme".to_string())).unwrap().0,
        "acme"
    );
    let (status, error) = TenantId::from_header(TenantHeader::Text(String::new())).unwrap_err();
    assert_eq!(status, 401);
    assert_eq!(error.error, "Missing or empty X-Tenant-ID header");
    assert_eq!(error.code, "MISSING_TENANT");
}

#[test]
fn grpc_trace_id_is_read_in_any_uuid_form() {
    let u: u128 = 0x550e8400_e29b_41d4_a716_446655440000;
    for text in [
        "550e8400-e29b-41d4-a716-446655440000",
        "550E8400E29B41D4A716446655440000",
        "{550e8400-e29b-41d4-a716-446655440000}",
    ] {
        let begun = begin_grpc_dispatch(grpc_request(text, "ghost_tool", "{}")).unwrap();
        assert_eq!(begun.trace_id, u, "input {:?}", text);
        let res = grpc_dispatch_result(begun.trace_id, Err(DispatchError::Store("x".to_string())));
        assert!(res.is_err());
        let outcome = run_with_empty_registry(begun.flow, begun.action);
        let answer = grpc_dispatch_result(u, outcome).unwrap();
        assert_eq!(answer.trace_id, "550e8400-e29b-41d4-a716-446655440000");
    }
}
