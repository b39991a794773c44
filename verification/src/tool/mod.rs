//! Tool invocation over a child process or HTTP: responses, their envelopes,
//! and how a tool's raw output is judged.
use crate::error::{HostError, HostErrorCode};
use crate::platform::string_from_utf8;
use crate::text::{decimal, decimal_text, utf8};
use crate::transport::http::HttpTransport;
use crate::transport::authority::{base_url_accepted, base_url_refusal};
use crate::transport::PrivateResolutionPolicy;
use crate::value::{HostRequestId, HostValue};
use vstd::prelude::*;

verus! {

/// The answer to one tool request.
#[derive(Debug, PartialEq)]
pub struct ToolResponse {
    pub id: HostRequestId,
    pub result: Result<HostValue, HostError>,
}

/// A tool response as a process tool writes it.
#[derive(Debug, PartialEq)]
pub struct ProcessToolResponseEnvelope {
    pub response: ToolResponse,
}

/// A tool response as an HTTP tool endpoint returns it.
#[derive(Debug, PartialEq)]
pub struct HttpToolResponseEnvelope {
    pub response: ToolResponse,
}

/// A tool response as an MCP endpoint returns it.
#[derive(Debug, PartialEq)]
pub struct McpToolResponseEnvelope {
    pub response: ToolResponse,
}

/// A tool run as a child process: the program and its arguments.
#[derive(Clone, Debug, PartialEq, Eq)]
pub struct ProcessToolProtocolAdapter {
    pub program: String,
    pub args: Vec<String>,
}

/// Decimal form of a signed integer.
pub open spec fn signed_decimal(v: int) -> Seq<char> {
    if v < 0 {
        seq!['-'] + decimal((-v) as nat)
    } else {
        decimal(v as nat)
    }
}

fn signed_decimal_text(v: i32) -> (text: String)
    ensures
        text@ == signed_decimal(v as int),
{
    if v < 0 {
        let magnitude: u64 = (-(v as i64)) as u64;
        let mut text = String::from_str("-");
        proof {
            reveal_strlit("-");
        }
        text.append(decimal_text(magnitude).as_str());
        assert(text@ =~= signed_decimal(v as int));
        text
    } else {
        decimal_text(v as u64)
    }
}

/// What a process tool's run yields: its standard output as text when it
/// exited with status 0 and wrote valid UTF-8.
pub open spec fn process_output_ok(exit_code: i32, stdout: Seq<u8>) -> bool {
    exit_code == 0 && vstd::utf8::valid_utf8(stdout)
}

impl ProcessToolProtocolAdapter {
    pub fn new(program: &str, args: Vec<String>) -> (adapter: ProcessToolProtocolAdapter)
        ensures
            adapter.program@ == program@,
            adapter.args == args,
    {
        ProcessToolProtocolAdapter { program: program.to_owned(), args }
    }

    /// The response an envelope carries.
    pub fn decode_response(response: ProcessToolResponseEnvelope) -> (decoded: Result<ToolResponse, HostError>)
        ensures
            decoded matches Ok(r) && r == response.response,
    {
        Ok(response.response)
    }

    /// Judges a finished tool process: a non-zero exit status is a tool
    /// rejection naming the status; output that is not UTF-8 is an invalid
    /// response; otherwise the output text, to be read as JSON.
    pub fn decode_output(exit_code: i32, stdout: Vec<u8>) -> (body: Result<String, HostError>)
        ensures
            match body {
                Ok(text) => process_output_ok(exit_code, stdout@) && utf8(text@) == stdout@,
                Err(e) => !process_output_ok(exit_code, stdout@) && if exit_code != 0 {
                    &&& e.code == HostErrorCode::ToolRejected
                    &&& e.message@ == "process tool exited with failure"@
                    &&& e.details@.len() == 1
                    &&& e.details@[0].0@ == "status"@
                    &&& e.details@[0].1@ == signed_decimal(exit_code as int)
                } else {
                    &&& e.code == HostErrorCode::InvalidResponse
                    &&& e.message@ == "process tool output is not valid UTF-8"@
                    &&& e.details@.len() == 1
                    &&& e.details@[0].0@ == "error"@
                },
            },
    {
        if exit_code != 0 {
            return Err(
                HostError::new(HostErrorCode::ToolRejected, "process tool exited with failure").with_detail(
                    "status",
                    signed_decimal_text(exit_code),
                ),
            );
        }
        match string_from_utf8(stdout) {
            Ok(text) => Ok(text),
            Err(reason) => Err(
                HostError::new(
                    HostErrorCode::InvalidResponse,
                    "process tool output is not valid UTF-8",
                ).with_detail("error", reason),
            ),
        }
    }
}

/// Judges the status of an HTTP tool endpoint's answer: anything outside
/// 200..300 is a tool rejection naming the status.
pub fn check_tool_status(status: u16) -> (checked: Result<(), HostError>)
    ensures
        match checked {
            Ok(()) => 200 <= status < 300,
            Err(e) => !(200 <= status < 300) && e.code == HostErrorCode::ToolRejected && e.message@
                == "HTTP tool endpoint returned an error status"@ && e.details@.len() == 1
                && e.details@[0].0@ == "status"@ && e.details@[0].1@ == decimal(status as nat),
        },
{
    if status < 200 || status >= 300 {
        return Err(
            HostError::new(
                HostErrorCode::ToolRejected,
                "HTTP tool endpoint returned an error status",
            ).with_detail("status", decimal_text(status as u64)),
        );
    }
    Ok(())
}

/// A tool behind an HTTP endpoint: requests are posted to `path`.
#[derive(Clone, Debug, PartialEq, Eq)]
pub struct HttpToolProtocolAdapter {
    pub transport: HttpTransport,
    pub path: String,
}

impl HttpToolProtocolAdapter {
    /// An adapter for an endpoint that must resolve to public addresses.
    pub fn new(base_url: &str, path: &str) -> (adapter: Result<HttpToolProtocolAdapter, HostError>)
        ensures
            match adapter {
                Ok(a) => base_url_accepted(base_url@) && a.path@ == path@
                    && a.transport.spec_authority().made_from(base_url@, PrivateResolutionPolicy::PublicOnly),
                Err(e) => !base_url_accepted(base_url@) && e.code == HostErrorCode::InvalidRequest
                    && e.message@ == base_url_refusal(base_url@),
            },
    {
        HttpToolProtocolAdapter::try_new_with_policy(base_url, path, PrivateResolutionPolicy::PublicOnly)
    }

    pub fn try_new_with_policy(base_url: &str, path: &str, policy: PrivateResolutionPolicy) -> (adapter: Result<HttpToolProtocolAdapter, HostError>)
        ensures
            match adapter {
                Ok(a) => base_url_accepted(base_url@) && a.path@ == path@
                    && a.transport.spec_authority().made_from(base_url@, policy),
                Err(e) => !base_url_accepted(base_url@) && e.code == HostErrorCode::InvalidRequest
                    && e.message@ == base_url_refusal(base_url@),
            },
    {
        match HttpTransport::try_new(base_url, policy) {
            Ok(transport) => Ok(HttpToolProtocolAdapter { transport, path: path.to_owned() }),
            Err(error) => Err(error),
        }
    }

    /// The response an envelope carries.
    pub fn decode_response(response: HttpToolResponseEnvelope) -> (decoded: Result<ToolResponse, HostError>)
        ensures
            decoded matches Ok(r) && r == response.response,
    {
        Ok(response.response)
    }
}

/// A tool behind an MCP endpoint, called over HTTP at `/mcp/call`.
#[derive(Clone, Debug, PartialEq, Eq)]
pub struct McpToolProtocolAdapter {
    pub http: HttpToolProtocolAdapter,
}

impl McpToolProtocolAdapter {
    pub fn new(base_url: &str) -> (adapter: Result<McpToolProtocolAdapter, HostError>)
        ensures
            match adapter {
                Ok(a) => base_url_accepted(base_url@) && a.http.path@ == "/mcp/call"@
                    && a.http.transport.spec_authority().made_from(base_url@, PrivateResolutionPolicy::PublicOnly),
                Err(e) => !base_url_accepted(base_url@) && e.code == HostErrorCode::InvalidRequest
                    && e.message@ == base_url_refusal(base_url@),
            },
    {
        McpToolProtocolAdapter::try_new_with_policy(base_url, PrivateResolutionPolicy::PublicOnly)
    }

    pub fn try_new_with_policy(base_url: &str, policy: PrivateResolutionPolicy) -> (adapter: Result<McpToolProtocolAdapter, HostError>)
        ensures
            match adapter {
                Ok(a) => base_url_accepted(base_url@) && a.http.path@ == "/mcp/call"@
                    && a.http.transport.spec_authority().made_from(base_url@, policy),
                Err(e) => !base_url_accepted(base_url@) && e.code == HostErrorCode::InvalidRequest
                    && e.message@ == base_url_refusal(base_url@),
            },
    {
        match HttpToolProtocolAdapter::try_new_with_policy(base_url, "/mcp/call", policy) {
            Ok(http) => Ok(McpToolProtocolAdapter { http }),
            Err(error) => Err(error),
        }
    }

    /// The response an envelope carries.
    pub fn decode_response(response: McpToolResponseEnvelope) -> (decoded: Result<ToolResponse, HostError>)
        ensures
            decoded matches Ok(r) && r == response.response,
    {
        Ok(response.response)
    }
}

} // verus!
