//! The IPC protocol between the daemon and the agents in the AppVMs.
//!
//! Transport: a Unix domain socket; each message is a frame of a 4-byte
//! little-endian length followed by that many bytes of JSON. Frames longer
//! than `MAX_FRAME` are refused on both ends. The socket and the JSON codec
//! live at the edge; this module holds the messages, the frame header and
//! what a client makes of the daemon's answers.

use vstd::prelude::*;

verus! {

/// Where the daemon listens.
pub const SOCKET_PATH: &'static str = "/run/krypt/ipc.sock";

/// The largest frame body: 64 KiB. Larger frames could exhaust memory.
pub const MAX_FRAME: usize = 65536;

/// Why an IPC exchange failed.
#[derive(Debug)]
pub enum IpcError {
    Io(std::io::Error),
    Json(serde_json::Error),
    Closed,
    FrameTooLarge(usize),
}

/// Every message between the daemon and the agents; JSON tags it with a
/// `"type"` field.
#[derive(Debug, Clone)]
pub enum IpcMessage {
    /// Agent to daemon: may `src_vm` use `service` on `dst_vm`?
    PolicyCheck { src_vm: String, dst_vm: String, service: String },
    /// Agent to daemon: the state of one VM.
    VmStatusQuery { vm_name: String },
    /// Agent to daemon: all known VMs with state and trust level.
    ListVmsQuery {},
    /// Agent to daemon: start a VM.
    VmStartRequest { vm_name: String },
    /// Agent to daemon: stop a VM; `force` destroys it, else it is shut down.
    VmStopRequest { vm_name: String, force: bool },
    /// Daemon to agent.
    ListVmsResponse { vms: Vec<VmInfo> },
    /// Daemon to agent.
    VmStartResponse { vm_name: String, domain_id: Option<u32> },
    /// Daemon to agent.
    VmStopResponse { vm_name: String },
    /// Daemon to agent; `reason` explains the decision to the user.
    PolicyResponse { decision: PolicyDecision, reason: Option<String> },
    /// Daemon to agent.
    VmStatusResponse { vm_name: String, state: String, domain_id: Option<u32> },
    /// Daemon to all agents.
    VmStateChanged { vm_name: String, state: String },
    /// The daemon's answer when it cannot serve a request.
    Error { message: String },
}

/// One VM in a `ListVmsResponse`.
#[derive(Debug, Clone)]
pub struct VmInfo {
    pub name: String,
    pub state: String,
    pub domain_id: Option<u32>,
    /// `"red"`, `"orange"`, `"yellow"`, `"green"` or `"black"`.
    pub trust_level: String,
}

/// A policy decision in the protocol.
#[derive(Debug, Clone, Copy, PartialEq, Eq, Structural)]
pub enum PolicyDecision {
    Allow,
    Deny,
    AskUser,
}

/// The number that four bytes write in little-endian order.
pub open spec fn le_value(b: Seq<u8>) -> nat {
    b[0] as nat + 256 * (b[1] as nat) + 65536 * (b[2] as nat) + 16777216 * (b[3] as nat)
}

/// The header of a frame whose body is `body_len` bytes long: the length
/// as four little-endian bytes. A body over `MAX_FRAME` is refused.
pub fn frame_header(body_len: usize) -> (r: Result<[u8; 4], IpcError>)
    ensures
        body_len > MAX_FRAME <==> r is Err,
        r matches Err(e) ==> (e matches IpcError::FrameTooLarge(n) && n == body_len),
        r matches Ok(h) ==> h@.len() == 4 && le_value(h@) == body_len,
{
    if body_len > MAX_FRAME {
        return Err(IpcError::FrameTooLarge(body_len));
    }
    let n = body_len as u32;
    let b0 = (n % 256) as u8;
    let b1 = ((n / 256) % 256) as u8;
    let b2 = ((n / 65536) % 256) as u8;
    let b3 = (n / 16777216) as u8;
    let h: [u8; 4] = [b0, b1, b2, b3];
    assert(h@ =~= seq![b0, b1, b2, b3]);
    Ok(h)
}

/// The body length that a frame header announces; more than `MAX_FRAME`
/// is refused before any body is read.
pub fn frame_length(header: [u8; 4]) -> (r: Result<usize, IpcError>)
    ensures
        le_value(header@) > MAX_FRAME <==> r is Err,
        r matches Err(e) ==> (e matches IpcError::FrameTooLarge(n) && n == le_value(header@)),
        r matches Ok(n) ==> n == le_value(header@),
{
    let n: u64 = header[0] as u64 + 256 * (header[1] as u64) + 65536 * (header[2] as u64)
        + 16777216 * (header[3] as u64);
    assert(n == le_value(header@));
    if n > MAX_FRAME as u64 {
        assert(n <= u32::MAX);
        return Err(IpcError::FrameTooLarge(n as usize));
    }
    Ok(n as usize)
}

/// `std::io::Error::other`: an I/O error that carries `message`.
///
/// Nothing is claimed of the error it returns beyond its type.
#[verifier::external_body]
fn io_error_other(message: String) -> std::io::Error {
    std::io::Error::other(message)
}

/// `std::io::Error::new` with the kind `InvalidData` and the text
/// `unexpected response to <request>: <message as {:?}>`.
///
/// Nothing is claimed of the error it returns beyond its type.
#[verifier::external_body]
fn unexpected_response(request: &str, msg: &IpcMessage) -> std::io::Error {
    std::io::Error::new(
        std::io::ErrorKind::InvalidData,
        format!("unexpected response to {}: {:?}", request, msg),
    )
}

/// The VM list in the daemon's answer to `ListVmsQuery`; an `Error` answer
/// or any other message becomes an I/O error.
pub fn list_vms_reply(resp: IpcMessage) -> (r: Result<Vec<VmInfo>, IpcError>)
    ensures
        resp matches IpcMessage::ListVmsResponse { vms } ==> r == Ok::<Vec<VmInfo>, IpcError>(
            vms,
        ),
        !(resp is ListVmsResponse) ==> (r matches Err(e) && e is Io),
{
    match resp {
        IpcMessage::ListVmsResponse { vms } => Ok(vms),
        IpcMessage::Error { message } => Err(IpcError::Io(io_error_other(message))),
        other => Err(IpcError::Io(unexpected_response("ListVmsQuery", &other))),
    }
}

/// The domain ID in the daemon's answer to `VmStartRequest`; an `Error`
/// answer or any other message becomes an I/O error.
pub fn start_vm_reply(resp: IpcMessage) -> (r: Result<Option<u32>, IpcError>)
    ensures
        resp matches IpcMessage::VmStartResponse { domain_id, .. } ==> r == Ok::<
            Option<u32>,
            IpcError,
        >(domain_id),
        !(resp is VmStartResponse) ==> (r matches Err(e) && e is Io),
{
    match resp {
        IpcMessage::VmStartResponse { domain_id, .. } => Ok(domain_id),
        IpcMessage::Error { message } => Err(IpcError::Io(io_error_other(message))),
        other => Err(IpcError::Io(unexpected_response("VmStartRequest", &other))),
    }
}

/// Whether the daemon's answer to `VmStopRequest` confirms the stop; an
/// `Error` answer or any other message becomes an I/O error.
pub fn stop_vm_reply(resp: IpcMessage) -> (r: Result<(), IpcError>)
    ensures
        resp is VmStopResponse <==> r is Ok,
        !(resp is VmStopResponse) ==> (r matches Err(e) && e is Io),
{
    match resp {
        IpcMessage::VmStopResponse { .. } => Ok(()),
        IpcMessage::Error { message } => Err(IpcError::Io(io_error_other(message))),
        other => Err(IpcError::Io(unexpected_response("VmStopRequest", &other))),
    }
}

} // verus!
