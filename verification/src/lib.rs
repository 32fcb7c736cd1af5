//! Verified core of a Windows (Win32) system-interface library: the data
//! types, encodings, decoders and decision rules that sit between a shell
//! and the raw `kernel32`/`advapi32`/`ws2_32` entry points.

pub mod wide;
pub mod error;
pub mod time;
pub mod bytes;
pub mod watch;
pub mod env;
pub mod net;
pub mod split;
pub mod path;
pub mod handle;
pub mod process;
pub mod job;
pub mod registry;
pub mod fs;
pub mod security;
pub mod volume;
pub mod conpty;
pub mod pipe;
pub mod service;
