//! The daemon's request handling: tenant resolution, and the HTTP and gRPC
//! ends of an MCP dispatch.
use vstd::prelude::*;
use vstd::string::*;
use crate::ids::{fresh_uuid, is_random_uuid, parse_uuid, uuid_parsed, uuid_text, uuid_to_text};
use crate::json::{canonical_json, json_canonical};
use crate::protocol::{McpRequest, McpResponse};
use crate::router::{dispatch_error_message, DispatchAction, DispatchError, DispatchFlow};

verus! {

/// A structured API error.
#[derive(Clone, Debug)]
pub struct ApiError {
    pub error: String,
    pub code: String,
}

/// The tenant a request acts for.
#[derive(Clone, Debug)]
pub struct TenantId(pub String);

/// The `X-Tenant-ID` header of a request.
#[derive(Clone, Debug)]
pub enum TenantHeader {
    /// The request has no such header.
    Missing,
    /// The header's value is not visible ASCII text.
    Unreadable,
    /// The header's text.
    Text(String),
}

/// The status and error a request without a usable tenant is rejected with.
pub open spec fn is_missing_tenant_rejection(status: u16, e: ApiError) -> bool {
    &&& status == 401
    &&& e.error@ == "Missing or empty X-Tenant-ID header"@
    &&& e.code@ == "MISSING_TENANT"@
}

impl TenantId {
    /// Resolves the tenant from the `X-Tenant-ID` header. The tenant is never
    /// defaulted: a missing, unreadable or empty header is rejected with 401.
    pub fn from_header(header: TenantHeader) -> (r: Result<TenantId, (u16, ApiError)>)
        ensures
            match header {
                TenantHeader::Text(t) => if t@.len() == 0 {
                    r matches Err((status, e)) && is_missing_tenant_rejection(status, e)
                } else {
                    r matches Ok(id) && id.0@ == t@
                },
                _ => r matches Err((status, e)) && is_missing_tenant_rejection(status, e),
            },
    {
        match header {
            TenantHeader::Text(t) => {
                if t.as_str().is_empty() {
                    Err(Self::missing_tenant())
                } else {
                    Ok(TenantId(t))
                }
            },
            _ => Err(Self::missing_tenant()),
        }
    }

    /// The rejection of a request without a usable tenant.
    fn missing_tenant() -> (r: (u16, ApiError))
        ensures
            is_missing_tenant_rejection(r.0, r.1),
    {
        let mut error = String::new();
        error.append("Missing or empty X-Tenant-ID header");
        let mut code = String::new();
        code.append("MISSING_TENANT");
        (401, ApiError { error, code })
    }
}

/// An HTTP request to dispatch a tool, in an optional trace.
#[derive(Clone, Debug)]
pub struct ExecuteRequest {
    pub trace_id: Option<u128>,
    pub mcp_request: McpRequest,
}

/// The HTTP answer to a dispatch.
#[derive(Clone, Debug)]
pub struct ExecuteResponse {
    pub trace_id: u128,
    pub response: McpResponse,
}

/// A dispatch begun for a request: its trace, the flow, and the first action.
pub struct BegunDispatch {
    pub trace_id: u128,
    pub flow: DispatchFlow,
    pub action: DispatchAction,
}

/// A dispatch begun in `trace_id` for `request`, as step 1 after a fresh
/// random parent step.
pub open spec fn begun_as(b: BegunDispatch, trace_id: u128, request: McpRequest) -> bool {
    &&& b.trace_id == trace_id
    &&& b.flow.request() == request
    &&& b.flow.trace_id() == trace_id
    &&& is_random_uuid(b.flow.parent_step_id())
    &&& b.flow.step_number() == 1
    &&& b.flow.stage() is AwaitingTool
    &&& b.action matches DispatchAction::ResolveTool { tool_name } && tool_name@ == request.tool_name@
}

/// Begins the dispatch of an HTTP request: in the request's trace, or in a
/// fresh random one when it names none.
pub fn begin_http_dispatch(request: ExecuteRequest) -> (r: BegunDispatch)
    ensures
        match request.trace_id {
            Some(t) => begun_as(r, t, request.mcp_request),
            None => is_random_uuid(r.trace_id) && begun_as(r, r.trace_id, request.mcp_request),
        },
{
    let trace_id = match request.trace_id {
        Some(t) => t,
        None => fresh_uuid(),
    };
    let parent = fresh_uuid();
    let (flow, action) = DispatchFlow::start(request.mcp_request, trace_id, parent, 1);
    BegunDispatch { trace_id, flow, action }
}

/// The HTTP answer to a finished dispatch: its response, or a 500 error that
/// carries the dispatch error's message.
pub fn http_dispatch_result(trace_id: u128, outcome: Result<McpResponse, DispatchError>) -> (r: Result<ExecuteResponse, (u16, ApiError)>)
    ensures
        match outcome {
            Ok(resp) => r matches Ok(er) && er.trace_id == trace_id && er.response == resp,
            Err(e) => r matches Err((status, api)) && status == 500
                && api.error@ == dispatch_error_message(e) && api.code@ == "MCP_DISPATCH_ERROR"@,
        },
{
    match outcome {
        Ok(response) => Ok(ExecuteResponse { trace_id, response }),
        Err(e) => {
            let error = e.message();
            let mut code = String::new();
            code.append("MCP_DISPATCH_ERROR");
            Err((500, ApiError { error, code }))
        },
    }
}

/// The body of a successful health check over HTTP.
pub fn http_health_body() -> (r: String)
    ensures
        r@ == "RigOS Daemon OK"@,
{
    let mut r = String::new();
    r.append("RigOS Daemon OK");
    r
}

/// A gRPC request to dispatch a tool.
#[derive(Clone, Debug)]
pub struct DispatchMcpRequest {
    pub tenant_id: String,
    /// The trace's UUID text, or empty for a new trace.
    pub trace_id: String,
    pub tool_name: String,
    /// The tool's arguments, as JSON text.
    pub payload_json: String,
}

/// The gRPC answer to a dispatch.
#[derive(Clone, Debug)]
pub struct DispatchMcpResponse {
    pub trace_id: String,
    pub success: bool,
    pub output_json: String,
    /// Empty when there is no error.
    pub error_msg: String,
}

/// The gRPC answer to a health check.
#[derive(Clone, Debug)]
pub struct HealthResponse {
    pub status: String,
}

/// The gRPC status codes the service answers with.
#[derive(Clone, Copy, Debug, PartialEq, Eq)]
pub enum GrpcCode {
    InvalidArgument,
    Internal,
}

/// A gRPC error status.
#[derive(Clone, Debug)]
pub struct GrpcStatus {
    pub code: GrpcCode,
    pub message: String,
}

/// Answers a gRPC health check.
pub fn grpc_health() -> (r: HealthResponse)
    ensures
        r.status@ == "OK"@,
{
    let mut status = String::new();
    status.append("OK");
    HealthResponse { status }
}

/// Why a gRPC dispatch request is refused before any dispatch, if it is: a
/// trace id that is neither empty nor a UUID, then a payload that is not JSON.
pub open spec fn grpc_refusal(trace_id: Seq<char>, payload_json: Seq<char>) -> Option<Seq<char>> {
    if trace_id.len() != 0 && uuid_parsed(trace_id) is None {
        Some("Invalid trace_id"@)
    } else if json_canonical(payload_json) is None {
        Some("Malformed payload_json bounds"@)
    } else {
        None
    }
}

/// Begins the dispatch of a gRPC request: an empty trace id starts a fresh
/// random trace, another must be a UUID; the payload must be JSON, and is
/// passed on in its compact form. Refusals carry `InvalidArgument`.
pub fn begin_grpc_dispatch(request: DispatchMcpRequest) -> (r: Result<BegunDispatch, GrpcStatus>)
    ensures
        match grpc_refusal(request.trace_id@, request.payload_json@) {
            Some(m) => r matches Err(s) && s.code == GrpcCode::InvalidArgument && s.message@ == m,
            None => r matches Ok(b) && b.flow.request().tool_name@ == request.tool_name@
                && json_canonical(request.payload_json@) == Some(b.flow.request().payload@)
                && (if request.trace_id@.len() == 0 {
                    is_random_uuid(b.trace_id)
                } else {
                    uuid_parsed(request.trace_id@) == Some(b.trace_id)
                })
                && begun_as(b, b.trace_id, b.flow.request()),
        },
{
    let trace_id = if request.trace_id.as_str().is_empty() {
        fresh_uuid()
    } else {
        match parse_uuid(request.trace_id.as_str()) {
            Some(t) => t,
            None => {
                let mut message = String::new();
                message.append("Invalid trace_id");
                return Err(GrpcStatus { code: GrpcCode::InvalidArgument, message });
            },
        }
    };
    let payload = match canonical_json(request.payload_json.as_str()) {
        Some(p) => p,
        None => {
            let mut message = String::new();
            message.append("Malformed payload_json bounds");
            return Err(GrpcStatus { code: GrpcCode::InvalidArgument, message });
        },
    };
    let mcp_request = McpRequest { tool_name: request.tool_name, payload };
    let parent = fresh_uuid();
    let (flow, action) = DispatchFlow::start(mcp_request, trace_id, parent, 1);
    Ok(BegunDispatch { trace_id, flow, action })
}

/// The gRPC answer to a finished dispatch: the trace's UUID text and the
/// response's fields, an absent error message as empty text; a dispatch
/// error becomes an `Internal` status.
pub fn grpc_dispatch_result(trace_id: u128, outcome: Result<McpResponse, DispatchError>) -> (r: Result<DispatchMcpResponse, GrpcStatus>)
    ensures
        match outcome {
            Ok(resp) => r matches Ok(g) && g.trace_id@ == uuid_text(trace_id) && g.success == resp.success
                && g.output_json@ == resp.output@ && g.error_msg@ == match resp.error_msg {
                    Some(m) => m@,
                    None => Seq::<char>::empty(),
                },
            Err(e) => r matches Err(s) && s.code == GrpcCode::Internal
                && s.message@ == "Internal Daemon error: "@ + dispatch_error_message(e),
        },
{
    match outcome {
        Ok(res) => {
            let error_msg = match res.error_msg {
                Some(m) => m,
                None => String::new(),
            };
            Ok(DispatchMcpResponse {
                trace_id: uuid_to_text(trace_id),
                success: res.success,
                output_json: res.output,
                error_msg,
            })
        },
        Err(e) => {
            let mut message = String::new();
            message.append("Internal Daemon error: ");
            let m = e.message();
            message.append(m.as_str());
            Err(GrpcStatus { code: GrpcCode::Internal, message })
        },
    }
}

} // verus!
