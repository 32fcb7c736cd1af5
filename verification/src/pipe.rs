//! Named pipes: the full `\\.\pipe\` name a pipe is reached by, the mode
//! constants, and how a pipe's information flags and a connect failure
//! read.

use vstd::prelude::*;

use crate::error::Win32Error;
use crate::wide::encode_utf16;

verus! {

/// `PIPE_ACCESS_DUPLEX`.
pub const PIPE_ACCESS_DUPLEX: u32 = 0x3;

/// `PIPE_ACCESS_INBOUND`.
pub const PIPE_ACCESS_INBOUND: u32 = 0x1;

/// `PIPE_ACCESS_OUTBOUND`.
pub const PIPE_ACCESS_OUTBOUND: u32 = 0x2;

/// `PIPE_TYPE_BYTE`.
pub const PIPE_TYPE_BYTE: u32 = 0x0;

/// `PIPE_TYPE_MESSAGE`.
pub const PIPE_TYPE_MESSAGE: u32 = 0x4;

/// `PIPE_READMODE_BYTE`.
pub const PIPE_READMODE_BYTE: u32 = 0x0;

/// `PIPE_READMODE_MESSAGE`.
pub const PIPE_READMODE_MESSAGE: u32 = 0x2;

/// `PIPE_WAIT`.
pub const PIPE_WAIT: u32 = 0x0;

/// `PIPE_NOWAIT`.
pub const PIPE_NOWAIT: u32 = 0x1;

/// `PIPE_UNLIMITED_INSTANCES`.
pub const PIPE_UNLIMITED_INSTANCES: u32 = 255;

/// `GENERIC_READ`.
pub const GENERIC_READ: u32 = 0x8000_0000;

/// `GENERIC_WRITE`.
pub const GENERIC_WRITE: u32 = 0x4000_0000;

/// `PIPE_SERVER_END`.
pub const PIPE_SERVER_END: u32 = 0x0000_0001;

/// The namespace every local pipe name lives under: `\\.\pipe\`.
pub open spec fn pipe_namespace() -> Seq<char> {
    seq!['\\', '\\', '.', '\\', 'p', 'i', 'p', 'e', '\\']
}

/// The NUL-terminated UTF-16 name a pipe called `name` is opened by.
pub open spec fn spec_full_pipe_name(name: Seq<char>) -> Seq<u16> {
    encode_utf16(pipe_namespace() + name).push(0)
}

/// `\\.\pipe\` followed by `name`, as a NUL-terminated UTF-16 string.
pub fn full_pipe_name(name: &str) -> (w: Vec<u16>)
    ensures
        w@ == spec_full_pipe_name(name@),
{
    let prefix = "\\\\.\\pipe\\";
    proof {
        reveal_strlit("\\\\.\\pipe\\");
        assert(prefix@ =~= pipe_namespace());
    }
    let mut w: Vec<u16> = Vec::new();
    crate::wide::push_utf16(&mut w, prefix);
    crate::wide::push_utf16(&mut w, name);
    proof {
        crate::wide::lemma_encode_append(pipe_namespace(), name@);
        assert(w@ =~= encode_utf16(pipe_namespace() + name@));
    }
    w.push(0);
    w
}

/// A named pipe's end, type, buffer sizes and instance limit.
#[derive(Debug, Clone, Copy, PartialEq, Eq, Structural)]
pub struct PipeInfo {
    pub is_server_end: bool,
    pub is_message_type: bool,
    pub out_buffer_size: u32,
    pub in_buffer_size: u32,
    pub max_instances: u32,
}

impl PipeInfo {
    /// The information `GetNamedPipeInfo` reported: the end and type are
    /// read from the flags.
    pub fn from_raw(flags: u32, out_buffer_size: u32, in_buffer_size: u32, max_instances: u32) -> (p:
        PipeInfo)
        ensures
            p == (PipeInfo {
                is_server_end: flags & PIPE_SERVER_END != 0,
                is_message_type: flags & PIPE_TYPE_MESSAGE != 0,
                out_buffer_size,
                in_buffer_size,
                max_instances,
            }),
    {
        PipeInfo {
            is_server_end: flags & PIPE_SERVER_END != 0,
            is_message_type: flags & PIPE_TYPE_MESSAGE != 0,
            out_buffer_size,
            in_buffer_size,
            max_instances,
        }
    }
}

/// The result of a server connect whose call failed with `err`: a client
/// that connected before the call (`ERROR_PIPE_CONNECTED`) is success.
pub fn connect_failure(err: Win32Error) -> (r: Result<(), Win32Error>)
    ensures
        err@ == 535 ==> r is Ok,
        err@ != 535 ==> r == Err::<(), Win32Error>(err),
{
    if err.code() == 535 {
        Ok(())
    } else {
        Err(err)
    }
}

} // verus!
