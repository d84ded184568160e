//! Local control protocol: the request/response vocabulary of the runtime
//! control surface and the length-prefixed wire framing (4-byte little-endian
//! length, then the payload; payloads above 1 MiB are rejected before any
//! buffer is allocated).

use vstd::prelude::*;

verus! {

use crate::audio::{DeviceInfo, SinkInfo, SinkInputInfo, SourceInfo};
use crate::control::{ButtonAction, ControlId, DialAction};

/// Maximum framed message payload size (1 MiB).
pub const MAX_MESSAGE_SIZE: u32 = 1024 * 1024;

/// Errors of the local control protocol.
#[derive(Debug, Clone, PartialEq, Eq)]
pub enum IpcError {
    /// Transport I/O failed; carries the underlying message.
    Io(String),
    /// A message exceeded [`MAX_MESSAGE_SIZE`].
    MessageTooLarge { size: u32 },
    /// Payload (de)serialization failed; carries the underlying message.
    Serialize(String),
    /// Nothing is listening on the local control channel.
    ConnectionRefused,
}

/// Requests from the control tool to the daemon.
#[derive(Debug, Clone, PartialEq, Eq)]
pub enum IpcRequest {
    GetStatus,
    ListApps,
    ListDevices,
    /// List output devices only (legacy alias on decode: list-sinks).
    ListOutputs,
    /// List input devices only (legacy alias on decode: list-sources).
    ListInputs,
    AssignDial { control: ControlId, action: DialAction },
    AssignButton { control: ControlId, action: ButtonAction },
    Unassign { control: ControlId },
    GetConfig,
    ReloadConfig,
    Shutdown,
}

/// Device connection status reported over the local protocol.
#[derive(Debug, Clone, PartialEq, Eq)]
pub struct DeviceStatus {
    pub connected: bool,
    pub serial: Option<String>,
}

/// A single control mapping, rendered for status display.
#[derive(Debug, Clone, PartialEq, Eq)]
pub struct MappingInfo {
    pub control: String,
    pub dial: Option<String>,
    pub button: Option<String>,
}

/// Responses from the daemon to the control tool.
#[derive(Debug, Clone, PartialEq, Eq)]
pub enum IpcResponse {
    Okay,
    Error { message: String },
    Status { device: DeviceStatus, pulse_connected: bool, mappings: Vec<MappingInfo> },
    Apps { apps: Vec<SinkInputInfo> },
    Devices { devices: Vec<DeviceInfo> },
    /// Output devices only (legacy alias on decode: sinks).
    Outputs { outputs: Vec<SinkInfo> },
    /// Input devices only (legacy alias on decode: sources).
    Inputs { inputs: Vec<SourceInfo> },
    Config { toml_text: String },
}

/// The number a 4-byte little-endian prefix encodes.
pub open spec fn le32(b0: u8, b1: u8, b2: u8, b3: u8) -> int {
    b0 + 256 * b1 + 65536 * b2 + 16777216 * b3
}

/// Encode a payload with a 4-byte little-endian length prefix.
///
/// A message of length `L` encodes to exactly `4 + L` bytes; anything longer
/// than [`MAX_MESSAGE_SIZE`] is rejected.
pub fn encode_message(msg: &[u8]) -> (r: Result<Vec<u8>, IpcError>)
    ensures
        msg@.len() <= MAX_MESSAGE_SIZE <==> r is Ok,
        r matches Ok(buf) ==> {
            &&& buf@.len() == 4 + msg@.len()
            &&& le32(buf@[0], buf@[1], buf@[2], buf@[3]) == msg@.len()
            &&& buf@.subrange(4, buf@.len() as int) =~= msg@
        },
        r matches Err(e) ==> e == (IpcError::MessageTooLarge {
            size: if msg@.len() > u32::MAX { u32::MAX } else { msg@.len() as u32 },
        }),
{
    if msg.len() > MAX_MESSAGE_SIZE as usize {
        let size: u32 = if msg.len() > u32::MAX as usize {
            u32::MAX
        } else {
            msg.len() as u32
        };
        return Err(IpcError::MessageTooLarge { size });
    }
    let len: u32 = msg.len() as u32;
    let b0: u8 = (len % 256) as u8;
    let b1: u8 = ((len / 256) % 256) as u8;
    let b2: u8 = ((len / 65536) % 256) as u8;
    let b3: u8 = ((len / 16777216) % 256) as u8;
    assert(le32(b0, b1, b2, b3) == len) by (bit_vector)
        requires
            b0 == (len % 256) as u8 && b1 == ((len / 256) % 256) as u8 && b2 == ((len / 65536)
                % 256) as u8 && b3 == ((len / 16777216) % 256) as u8,
    ;
    let mut buf: Vec<u8> = Vec::new();
    buf.push(b0);
    buf.push(b1);
    buf.push(b2);
    buf.push(b3);
    let mut i: usize = 0;
    while i < msg.len()
        invariant
            i <= msg@.len(),
            buf@.len() == 4 + i,
            buf@[0] == b0 && buf@[1] == b1 && buf@[2] == b2 && buf@[3] == b3,
            buf@.subrange(4, buf@.len() as int) =~= msg@.take(i as int),
        decreases msg@.len() - i,
    {
        buf.push(msg[i]);
        i = i + 1;
        proof {
            assert(buf@.subrange(4, buf@.len() as int) =~= msg@.take(i as int));
        }
    }
    proof {
        assert(msg@.take(msg@.len() as int) =~= msg@);
    }
    Ok(buf)
}

/// Read a 4-byte little-endian length prefix. Declared lengths above
/// [`MAX_MESSAGE_SIZE`] are rejected before any payload is read.
pub fn read_length_prefix(buf: &[u8; 4]) -> (r: Result<u32, IpcError>)
    ensures
        le32(buf@[0], buf@[1], buf@[2], buf@[3]) <= MAX_MESSAGE_SIZE <==> r is Ok,
        r matches Ok(len) ==> len == le32(buf@[0], buf@[1], buf@[2], buf@[3]),
        r matches Err(e) ==> e == (IpcError::MessageTooLarge {
            size: le32(buf@[0], buf@[1], buf@[2], buf@[3]) as u32,
        }),
{
    let b0 = buf[0];
    let b1 = buf[1];
    let b2 = buf[2];
    let b3 = buf[3];
    let len: u32 = b0 as u32 + 256 * b1 as u32 + 65536 * b2 as u32 + 16777216 * b3 as u32;
    if len > MAX_MESSAGE_SIZE {
        Err(IpcError::MessageTooLarge { size: len })
    } else {
        Ok(len)
    }
}

} // verus!
