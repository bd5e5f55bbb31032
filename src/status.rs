//! The status report of the server.

use vstd::prelude::*;

use crate::model::JobsucheServerStatus;

verus! {

/// The name the server reports.
pub const SERVER_NAME: &'static str = "Jobsuche MCP Server";

/// The version the server reports.
pub const SERVER_VERSION: &'static str = "0.3.1";

/// The number of operations the server offers.
pub const TOOLS_COUNT: usize = 4;

/// The connectivity line: `"Connected"`, or the probe's error after `"Connection Error: "`.
pub open spec fn connection_text(probe: Result<(), String>) -> Seq<char> {
    match probe {
        Ok(_) => "Connected"@,
        Err(e) => "Connection Error: "@ + e@,
    }
}

/// The connectivity line for the outcome of a probe search.
pub fn connection_status_text(probe: Result<(), String>) -> (r: String)
    ensures
        r@ == connection_text(probe),
{
    match probe {
        Ok(_) => String::from_str("Connected"),
        Err(e) => String::from_str("Connection Error: ").concat(e.as_str()),
    }
}

/// The status report, from the uptime, the configured address and the connectivity line.
pub fn server_status(uptime_seconds: u64, api_url: &str, api_connection_status: String) -> (r: JobsucheServerStatus)
    ensures
        r.server_name@ == SERVER_NAME@,
        r.version@ == SERVER_VERSION@,
        r.uptime_seconds == uptime_seconds,
        r.api_url@ == api_url@,
        r.api_connection_status == api_connection_status,
        r.tools_count == TOOLS_COUNT,
{
    JobsucheServerStatus {
        server_name: String::from_str(SERVER_NAME),
        version: String::from_str(SERVER_VERSION),
        uptime_seconds,
        api_url: String::from_str(api_url),
        api_connection_status,
        tools_count: TOOLS_COUNT,
    }
}

} // verus!
