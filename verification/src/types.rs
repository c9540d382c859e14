//! The data carried through the protocol: tracked instances, tool
//! parameters, and request/response envelopes.

use vstd::prelude::*;
use crate::json::JsonValue;

verus! {

/// Mathematical model of a tracked instance.
pub struct InstanceModel {
    pub id: Seq<char>,
    pub pid: u32,
    pub window_id: Option<u32>,
    pub title: Seq<char>,
    pub command: Seq<char>,
    pub created_at: u64,
}

/// One managed terminal process tracked by the registry.
///
/// `id` is an opaque identity minted at creation time and never derived from
/// the operating system's process id, which the system may reuse.
/// `created_at` is zero for an instance discovered by reconciliation, whose
/// true start time is unknown.
#[derive(Debug)]
pub struct AlacrittyInstance {
    pub id: String,
    pub pid: u32,
    pub window_id: Option<u32>,
    pub title: String,
    pub command: String,
    pub created_at: u64,
}

impl View for AlacrittyInstance {
    type V = InstanceModel;

    open spec fn view(&self) -> InstanceModel {
        InstanceModel {
            id: self.id@,
            pid: self.pid,
            window_id: self.window_id,
            title: self.title@,
            command: self.command@,
            created_at: self.created_at,
        }
    }
}

impl Clone for AlacrittyInstance {
    fn clone(&self) -> (r: Self)
        ensures
            r@ == self@,
    {
        AlacrittyInstance {
            id: self.id.clone(),
            pid: self.pid,
            window_id: self.window_id,
            title: self.title.clone(),
            command: self.command.clone(),
            created_at: self.created_at,
        }
    }
}

/// Arguments accepted by the spawn tool; every field is optional.
#[derive(Debug)]
pub struct SpawnParams {
    pub command: Option<String>,
    pub args: Option<Vec<String>>,
    pub working_directory: Option<String>,
    pub title: Option<String>,
}

/// Arguments of the key-injection tool.
#[derive(Debug)]
pub struct SendKeysParams {
    pub instance_id: String,
    pub keys: String,
}

/// Arguments of the screen-capture tool.
#[derive(Debug)]
pub struct ScreenshotParams {
    pub instance_id: String,
    pub format: Option<String>,
}

/// Arguments of the editor-context tool, with its documented defaults.
#[derive(Debug)]
pub struct NeovimContextParams {
    pub instance_id: String,
    pub include_diagnostics: bool,
    pub include_buffers: bool,
    pub context_lines: u32,
}

/// The client's self-description inside a handshake.
#[derive(Debug)]
pub struct ClientInfo {
    pub name: String,
    pub version: String,
}

/// A well-formed handshake request body.
#[derive(Debug)]
pub struct InitializeParams {
    pub protocol_version: String,
    pub capabilities: JsonValue,
    pub client_info: ClientInfo,
}

/// A decoded request envelope: one per input record.
#[derive(Debug)]
pub struct JsonRpcRequest {
    pub jsonrpc: String,
    pub method: String,
    pub params: Option<JsonValue>,
    pub id: Option<JsonValue>,
}

/// The error half of a response envelope.
#[derive(Debug)]
pub struct JsonRpcError {
    pub code: i32,
    pub message: String,
    pub data: Option<JsonValue>,
}

/// A response envelope: carries either a result or an error, never both.
#[derive(Debug)]
pub struct JsonRpcResponse {
    pub jsonrpc: String,
    pub result: Option<JsonValue>,
    pub error: Option<JsonRpcError>,
    pub id: Option<JsonValue>,
}

/// One entry of the tool catalogue.
#[derive(Debug)]
pub struct Tool {
    pub name: String,
    pub description: String,
    pub input_schema: JsonValue,
}

/// What the server offers after a handshake: its tool catalogue.
#[derive(Debug)]
pub struct ServerCapabilities {
    pub tools: Vec<Tool>,
}

} // verus!
