//! Directory-change notifications (`ReadDirectoryChangesW`): the
//! `FILE_NOTIFY_INFORMATION` record chain one completed read fills a buffer
//! with, decoded into [`FileNotification`]s.

use vstd::prelude::*;

use crate::bytes::{le_u32_at, read_le_u32};
use crate::error::Win32Error;
use crate::wide::{decode_utf16_lossy, le_bytes_to_units, le_units, from_utf16_lossy};

verus! {

/// `ReadDirectoryChangesW`'s `dwNotifyFilter` bits.
pub const FILE_NOTIFY_CHANGE_FILE_NAME: u32 = 0x0000_0001;
pub const FILE_NOTIFY_CHANGE_DIR_NAME: u32 = 0x0000_0002;
pub const FILE_NOTIFY_CHANGE_ATTRIBUTES: u32 = 0x0000_0004;
pub const FILE_NOTIFY_CHANGE_SIZE: u32 = 0x0000_0008;
pub const FILE_NOTIFY_CHANGE_LAST_WRITE: u32 = 0x0000_0010;
pub const FILE_NOTIFY_CHANGE_LAST_ACCESS: u32 = 0x0000_0020;
pub const FILE_NOTIFY_CHANGE_CREATION: u32 = 0x0000_0040;
pub const FILE_NOTIFY_CHANGE_SECURITY: u32 = 0x0000_0100;

/// `FILE_NOTIFY_INFORMATION::Action` values.
pub const FILE_ACTION_ADDED: u32 = 1;
pub const FILE_ACTION_REMOVED: u32 = 2;
pub const FILE_ACTION_MODIFIED: u32 = 3;
/// The old-name half of a rename, always followed by a
/// [`FILE_ACTION_RENAMED_NEW_NAME`] record for the same rename.
pub const FILE_ACTION_RENAMED_OLD_NAME: u32 = 4;
pub const FILE_ACTION_RENAMED_NEW_NAME: u32 = 5;

/// Size of one `FILE_NOTIFY_INFORMATION` header: `NextEntryOffset`,
/// `Action` and `FileNameLength`, each a `u32`.
pub const NOTIFY_HEADER_LEN: usize = 12;

/// One reported change: `action` is a `FILE_ACTION_*` value, `file_name`
/// is relative to the watched directory.
#[derive(Debug, Clone, PartialEq, Eq)]
pub struct FileNotification {
    pub action: u32,
    pub file_name: String,
}

impl View for FileNotification {
    type V = (u32, Seq<char>);

    open spec fn view(&self) -> (u32, Seq<char>) {
        (self.action, self.file_name@)
    }
}

/// The record whose header starts at byte `offset`: its action and its
/// name (`FileNameLength` bytes of UTF-16 right after the header).
pub open spec fn record_at(buf: Seq<u8>, offset: int) -> (u32, Seq<char>) {
    let name_start = offset + 12;
    let name_end = name_start + le_u32_at(buf, offset + 8);
    (le_u32_at(buf, offset + 4), decode_utf16_lossy(le_units(buf.subrange(name_start, name_end))))
}

/// `true` when a whole record (header and name) starts at `offset`.
pub open spec fn record_fits(buf: Seq<u8>, offset: int) -> bool {
    &&& offset + 12 <= buf.len()
    &&& offset + 12 + le_u32_at(buf, offset + 8) <= buf.len()
}

/// The notifications of the record chain starting at byte `offset`: each
/// record in turn, following `NextEntryOffset` until it is 0; a record that
/// does not fit in the buffer ends the chain (as does a next offset that
/// points past where a header could start).
pub open spec fn notifications_from(buf: Seq<u8>, offset: int) -> Seq<(u32, Seq<char>)>
    decreases buf.len() - offset,
{
    if offset < 0 || !record_fits(buf, offset) {
        Seq::empty()
    } else {
        let next = le_u32_at(buf, offset) as int;
        if next == 0 || offset + next + 12 > buf.len() {
            seq![record_at(buf, offset)]
        } else {
            seq![record_at(buf, offset)] + notifications_from(buf, offset + next)
        }
    }
}

/// Decodes one `ReadDirectoryChangesW` result buffer (the bytes it
/// reported as transferred) into its notifications, in order.
pub fn parse_notifications(buf: &[u8]) -> (out: Vec<FileNotification>)
    ensures
        out@.map_values(|n: FileNotification| n@) == notifications_from(buf@, 0),
{
    let mut out: Vec<FileNotification> = Vec::new();
    let mut offset: usize = 0;
    let len = buf.len();
    loop
        invariant_except_break
            len == buf@.len(),
            offset <= len,
            notifications_from(buf@, 0) == out@.map_values(|n: FileNotification| n@)
                + notifications_from(buf@, offset as int),
        ensures
            notifications_from(buf@, 0) == out@.map_values(|n: FileNotification| n@),
        decreases len - offset,
    {
        let ghost rest = notifications_from(buf@, offset as int);
        if len - offset < NOTIFY_HEADER_LEN {
            proof {
                assert(rest =~= Seq::<(u32, Seq<char>)>::empty());
                assert(out@.map_values(|n: FileNotification| n@) + rest =~= out@.map_values(
                    |n: FileNotification| n@,
                ));
            }
            break;
        }
        let next_entry_offset = read_le_u32(buf, offset);
        let action = read_le_u32(buf, offset + 4);
        let file_name_length = read_le_u32(buf, offset + 8);
        let name_start = offset + NOTIFY_HEADER_LEN;
        if file_name_length as usize > len - name_start {
            proof {
                assert(rest =~= Seq::<(u32, Seq<char>)>::empty());
                assert(out@.map_values(|n: FileNotification| n@) + rest =~= out@.map_values(
                    |n: FileNotification| n@,
                ));
            }
            break;
        }
        let name_end = name_start + file_name_length as usize;
        let name_bytes = crate::wide::slice_range(buf, name_start, name_end);
        let units = le_bytes_to_units(name_bytes);
        let file_name = from_utf16_lossy(units.as_slice());
        let n = FileNotification { action, file_name };
        assert(n@ == record_at(buf@, offset as int));
        let ghost before = out@;
        out.push(n);
        proof {
            assert(out@.map_values(|n: FileNotification| n@) =~= before.map_values(
                |n: FileNotification| n@,
            ).push(record_at(buf@, offset as int)));
        }
        if next_entry_offset == 0 || next_entry_offset as usize > len - offset - NOTIFY_HEADER_LEN {
            proof {
                assert(rest =~= seq![record_at(buf@, offset as int)]);
                assert(out@.map_values(|n: FileNotification| n@) =~= before.map_values(
                    |n: FileNotification| n@,
                ) + rest);
            }
            break;
        }
        proof {
            assert(rest =~= seq![record_at(buf@, offset as int)] + notifications_from(
                buf@,
                offset + next_entry_offset,
            ));
            assert(before.map_values(|n: FileNotification| n@) + rest =~= out@.map_values(
                |n: FileNotification| n@,
            ) + notifications_from(buf@, offset + next_entry_offset));
        }
        offset = offset + next_entry_offset as usize;
    }
    out
}

/// The size of the buffer a change read is given, in bytes.
pub const CHANGE_BUFFER_LEN: usize = 64 * 1024;

/// The notifications of a completed change read that transferred
/// `bytes_transferred` bytes into `buf`: none for 0, else those the first
/// `bytes_transferred` bytes hold.
pub fn notifications_in(buf: &[u8], bytes_transferred: u32) -> (out: Vec<FileNotification>)
    requires
        bytes_transferred <= buf@.len(),
    ensures
        out@.map_values(|n: FileNotification| n@) == notifications_from(
            buf@.take(bytes_transferred as int),
            0,
        ),
{
    if bytes_transferred == 0 {
        let out: Vec<FileNotification> = Vec::new();
        proof {
            assert(out@.map_values(|n: FileNotification| n@) =~= Seq::<(u32, Seq<char>)>::empty());
        }
        return out;
    }
    let prefix = crate::wide::slice_prefix(buf, bytes_transferred as usize);
    parse_notifications(prefix)
}

/// The result of starting an overlapped change read whose call failed with
/// `err`: `ERROR_IO_PENDING` means the read is under way (`None`); any
/// other error ends it.
pub fn change_read_failure(err: Win32Error) -> (r: Option<Win32Error>)
    ensures
        err@ == 997 ==> r is None,
        err@ != 997 ==> r == Some(err),
{
    if err.code() == 997 {
        None
    } else {
        Some(err)
    }
}

/// What the wait on a change read's event returned.
#[derive(Debug, Clone, Copy, PartialEq, Eq, Structural)]
pub enum ChangeWait {
    /// The read completed: its result is to be collected.
    Completed,
    /// The timeout elapsed: the read is to be cancelled, and nothing
    /// changed.
    TimedOut,
    /// The wait failed: the error is the thread's last error.
    Failed,
}

/// Reads the wait's return code.
pub fn change_wait_outcome(result: u32) -> (w: ChangeWait)
    ensures
        result == 0 ==> w == ChangeWait::Completed,
        result == 258 ==> w == ChangeWait::TimedOut,
        result != 0 && result != 258 ==> w == ChangeWait::Failed,
{
    if result == crate::handle::WAIT_TIMEOUT {
        ChangeWait::TimedOut
    } else if result == crate::handle::WAIT_OBJECT_0 {
        ChangeWait::Completed
    } else {
        ChangeWait::Failed
    }
}

} // verus!
