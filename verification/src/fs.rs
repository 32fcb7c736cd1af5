//! Files: attribute bits, the metadata records the file queries fill in,
//! directory entries, directory enumeration state, and the symbolic-link
//! reparse data a link's target is read from.
//!
//! A handle is carried here as the integer value of the `HANDLE`.

use vstd::prelude::*;

use crate::bytes::le_u32_at;
use crate::error::Win32Error;
use crate::time::{FileTime, Timespec, spec_filetime_to_timespec};
use crate::process::instant_in_range;
use crate::wide::{decode_until_nul, decode_utf16_lossy, le_u16_at, le_units};

verus! {

/// `FILE_ATTRIBUTE_READONLY`.
pub const FILE_ATTRIBUTE_READONLY: u32 = 0x0001;

/// `FILE_ATTRIBUTE_HIDDEN`.
pub const FILE_ATTRIBUTE_HIDDEN: u32 = 0x0002;

/// `FILE_ATTRIBUTE_SYSTEM`.
pub const FILE_ATTRIBUTE_SYSTEM: u32 = 0x0004;

/// `FILE_ATTRIBUTE_DIRECTORY`.
pub const FILE_ATTRIBUTE_DIRECTORY: u32 = 0x0010;

/// `FILE_ATTRIBUTE_ARCHIVE`.
pub const FILE_ATTRIBUTE_ARCHIVE: u32 = 0x0020;

/// `FILE_ATTRIBUTE_NORMAL`.
pub const FILE_ATTRIBUTE_NORMAL: u32 = 0x0080;

/// `FILE_ATTRIBUTE_REPARSE_POINT`.
pub const FILE_ATTRIBUTE_REPARSE_POINT: u32 = 0x0400;

/// `SYMBOLIC_LINK_FLAG_DIRECTORY`.
pub const SYMBOLIC_LINK_FLAG_DIRECTORY: u32 = 0x1;

/// `SYMBOLIC_LINK_FLAG_ALLOW_UNPRIVILEGED_CREATE`.
pub const SYMBOLIC_LINK_FLAG_ALLOW_UNPRIVILEGED_CREATE: u32 = 0x2;

/// `MOVEFILE_REPLACE_EXISTING`.
pub const MOVEFILE_REPLACE_EXISTING: u32 = 0x1;

/// `MOVEFILE_COPY_ALLOWED`.
pub const MOVEFILE_COPY_ALLOWED: u32 = 0x2;

/// `FILE_SHARE_READ`.
pub const FILE_SHARE_READ: u32 = 0x0000_0001;

/// `FILE_SHARE_WRITE`.
pub const FILE_SHARE_WRITE: u32 = 0x0000_0002;

/// `OPEN_EXISTING`.
pub const OPEN_EXISTING: u32 = 3;

/// `FILE_FLAG_OPEN_REPARSE_POINT`.
pub const FILE_FLAG_OPEN_REPARSE_POINT: u32 = 0x0020_0000;

/// `FILE_FLAG_BACKUP_SEMANTICS`.
pub const FILE_FLAG_BACKUP_SEMANTICS: u32 = 0x0200_0000;

/// `FSCTL_GET_REPARSE_POINT`.
pub const FSCTL_GET_REPARSE_POINT: u32 = 0x0009_00A8;

/// `MAXIMUM_REPARSE_DATA_BUFFER_SIZE`, in bytes.
pub const MAXIMUM_REPARSE_DATA_BUFFER_SIZE: usize = 16 * 1024;

/// `IO_REPARSE_TAG_SYMLINK`.
pub const IO_REPARSE_TAG_SYMLINK: u32 = 0xA000_000C;

/// Where a symbolic link's path buffer starts in its reparse data.
pub const SYMLINK_PATH_BUFFER_START: usize = 20;

/// `hi` and `lo` as the high and low halves of a `u64`.
pub open spec fn combine(hi: u32, lo: u32) -> u64 {
    (hi * 0x1_0000_0000int + lo) as u64
}

/// Joins the two halves of a 64-bit size or index.
pub fn combine_halves(hi: u32, lo: u32) -> (v: u64)
    ensures
        v == combine(hi, lo),
        v == hi * 0x1_0000_0000int + lo,
{
    (hi as u64) * 0x1_0000_0000 + lo as u64
}

/// The `dwFlags` a symbolic link is created with: unprivileged creation
/// allowed, plus the directory flag for a directory target.
pub fn symlink_flags(target_is_directory: bool) -> (f: u32)
    ensures
        f == SYMBOLIC_LINK_FLAG_ALLOW_UNPRIVILEGED_CREATE + (if target_is_directory {
            SYMBOLIC_LINK_FLAG_DIRECTORY
        } else {
            0
        }),
{
    if target_is_directory {
        assert(SYMBOLIC_LINK_FLAG_ALLOW_UNPRIVILEGED_CREATE | SYMBOLIC_LINK_FLAG_DIRECTORY == 3u32)
            by (bit_vector);
        SYMBOLIC_LINK_FLAG_ALLOW_UNPRIVILEGED_CREATE | SYMBOLIC_LINK_FLAG_DIRECTORY
    } else {
        SYMBOLIC_LINK_FLAG_ALLOW_UNPRIVILEGED_CREATE
    }
}

/// A file's attributes, timestamps and size, looked up by path.
#[derive(Debug, Clone, Copy, PartialEq, Eq, Structural)]
pub struct FileInfo {
    pub attributes: u32,
    pub creation_time: Timespec,
    pub last_access_time: Timespec,
    pub last_write_time: Timespec,
    pub size: u64,
}

/// A file's attributes, timestamps, size, volume, link count and index,
/// looked up by handle.
#[derive(Debug, Clone, Copy, PartialEq, Eq, Structural)]
pub struct FileInfoByHandle {
    pub attributes: u32,
    pub creation_time: Timespec,
    pub last_access_time: Timespec,
    pub last_write_time: Timespec,
    pub size: u64,
    pub volume_serial_number: u32,
    pub link_count: u32,
    pub file_index: u64,
}

/// The fields of `WIN32_FILE_ATTRIBUTE_DATA`.
#[derive(Debug, Clone, Copy, PartialEq, Eq, Structural, Default)]
pub struct FileAttributeData {
    pub file_attributes: u32,
    pub creation_time: FileTime,
    pub last_access_time: FileTime,
    pub last_write_time: FileTime,
    pub file_size_high: u32,
    pub file_size_low: u32,
}

/// The fields of `BY_HANDLE_FILE_INFORMATION`.
#[derive(Debug, Clone, Copy, PartialEq, Eq, Structural, Default)]
pub struct ByHandleFileInformation {
    pub file_attributes: u32,
    pub creation_time: FileTime,
    pub last_access_time: FileTime,
    pub last_write_time: FileTime,
    pub volume_serial_number: u32,
    pub file_size_high: u32,
    pub file_size_low: u32,
    pub number_of_links: u32,
    pub file_index_high: u32,
    pub file_index_low: u32,
}

/// The three timestamps convert without overflow.
pub open spec fn times_in_range(c: FileTime, a: FileTime, w: FileTime) -> bool {
    instant_in_range(c) && instant_in_range(a) && instant_in_range(w)
}

impl FileInfo {
    /// The file information an attribute query filled in.
    pub fn from_attribute_data(d: &FileAttributeData) -> (f: FileInfo)
        requires
            times_in_range(d.creation_time, d.last_access_time, d.last_write_time),
        ensures
            f == (FileInfo {
                attributes: d.file_attributes,
                creation_time: spec_filetime_to_timespec(d.creation_time),
                last_access_time: spec_filetime_to_timespec(d.last_access_time),
                last_write_time: spec_filetime_to_timespec(d.last_write_time),
                size: combine(d.file_size_high, d.file_size_low),
            }),
    {
        FileInfo {
            attributes: d.file_attributes,
            creation_time: crate::time::filetime_to_timespec(d.creation_time),
            last_access_time: crate::time::filetime_to_timespec(d.last_access_time),
            last_write_time: crate::time::filetime_to_timespec(d.last_write_time),
            size: combine_halves(d.file_size_high, d.file_size_low),
        }
    }
}

impl FileInfoByHandle {
    /// The file information a by-handle query filled in.
    pub fn from_handle_information(d: &ByHandleFileInformation) -> (f: FileInfoByHandle)
        requires
            times_in_range(d.creation_time, d.last_access_time, d.last_write_time),
        ensures
            f == (FileInfoByHandle {
                attributes: d.file_attributes,
                creation_time: spec_filetime_to_timespec(d.creation_time),
                last_access_time: spec_filetime_to_timespec(d.last_access_time),
                last_write_time: spec_filetime_to_timespec(d.last_write_time),
                size: combine(d.file_size_high, d.file_size_low),
                volume_serial_number: d.volume_serial_number,
                link_count: d.number_of_links,
                file_index: combine(d.file_index_high, d.file_index_low),
            }),
    {
        FileInfoByHandle {
            attributes: d.file_attributes,
            creation_time: crate::time::filetime_to_timespec(d.creation_time),
            last_access_time: crate::time::filetime_to_timespec(d.last_access_time),
            last_write_time: crate::time::filetime_to_timespec(d.last_write_time),
            size: combine_halves(d.file_size_high, d.file_size_low),
            volume_serial_number: d.volume_serial_number,
            link_count: d.number_of_links,
            file_index: combine_halves(d.file_index_high, d.file_index_low),
        }
    }
}

/// The fields of `WIN32_FIND_DATAW` a directory entry is read from.
#[derive(Debug, Clone, Copy, PartialEq, Eq)]
pub struct FindData {
    pub file_attributes: u32,
    pub creation_time: FileTime,
    pub last_access_time: FileTime,
    pub last_write_time: FileTime,
    pub file_size_high: u32,
    pub file_size_low: u32,
    pub file_name: [u16; 260],
}

/// One entry of a directory listing.
#[derive(Debug, Clone, PartialEq, Eq)]
pub struct DirEntry {
    pub file_name: String,
    pub file_attributes: u32,
    pub file_size: u64,
    pub creation_time: Timespec,
    pub last_access_time: Timespec,
    pub last_write_time: Timespec,
}

/// Decodes a `cFileName` buffer up to its first NUL (the whole buffer when
/// it has none).
pub fn decode_find_file_name(units: &[u16; 260]) -> (s: String)
    ensures
        s@ == decode_until_nul(units@),
{
    crate::wide::from_wide(units.as_slice())
}

/// The directory entry a find call filled in.
pub fn dir_entry_from_find_data(data: &FindData) -> (e: DirEntry)
    requires
        times_in_range(data.creation_time, data.last_access_time, data.last_write_time),
    ensures
        e.file_name@ == decode_until_nul(data.file_name@),
        e.file_attributes == data.file_attributes,
        e.file_size == combine(data.file_size_high, data.file_size_low),
        e.creation_time == spec_filetime_to_timespec(data.creation_time),
        e.last_access_time == spec_filetime_to_timespec(data.last_access_time),
        e.last_write_time == spec_filetime_to_timespec(data.last_write_time),
{
    DirEntry {
        file_name: decode_find_file_name(&data.file_name),
        file_attributes: data.file_attributes,
        file_size: combine_halves(data.file_size_high, data.file_size_low),
        creation_time: crate::time::filetime_to_timespec(data.creation_time),
        last_access_time: crate::time::filetime_to_timespec(data.last_access_time),
        last_write_time: crate::time::filetime_to_timespec(data.last_write_time),
    }
}

/// A directory listing in progress: the find handle and the entry the
/// first find call returned, until it has been handed out.
pub struct ReadDir {
    handle: usize,
    pending: Option<FindData>,
}

impl ReadDir {
    /// A listing whose find call returned `handle` and `first`.
    pub fn new(handle: usize, first: FindData) -> (r: ReadDir)
        ensures
            r.handle() == handle,
            r.pending() == Some(first),
    {
        ReadDir { handle, pending: Some(first) }
    }

    /// The find handle.
    pub closed spec fn handle(&self) -> usize {
        self.handle
    }

    /// The entry not yet handed out, if any.
    pub closed spec fn pending(&self) -> Option<FindData> {
        self.pending
    }

    /// The find handle, for the next find call and for closing.
    pub fn find_handle(&self) -> (h: usize)
        ensures
            h == self.handle(),
    {
        self.handle
    }

    /// Hands out the first entry once: `Some` the first time, `None` after.
    pub fn take_pending(&mut self) -> (d: Option<FindData>)
        ensures
            d == old(self).pending(),
            final(self).pending() is None,
            final(self).handle() == old(self).handle(),
    {
        let d = self.pending;
        self.pending = None;
        d
    }
}

/// The next item of a listing after a follow-up find call: its entry when
/// the call found one, the end when it failed with `ERROR_NO_MORE_FILES`,
/// and the error otherwise.
pub fn next_dir_entry(found: bool, data: &FindData, last_error: Win32Error) -> (r: Option<
    Result<DirEntry, Win32Error>,
>)
    requires
        found ==> times_in_range(data.creation_time, data.last_access_time, data.last_write_time),
    ensures
        found ==> (r matches Some(Ok(e)) && e.file_name@ == decode_until_nul(data.file_name@)
            && e.file_attributes == data.file_attributes && e.file_size == combine(
            data.file_size_high,
            data.file_size_low,
        ) && e.creation_time == spec_filetime_to_timespec(data.creation_time)
            && e.last_access_time == spec_filetime_to_timespec(data.last_access_time)
            && e.last_write_time == spec_filetime_to_timespec(data.last_write_time)),
        !found && last_error@ == 18 ==> r is None,
        !found && last_error@ != 18 ==> r == Some(Err::<DirEntry, Win32Error>(last_error)),
{
    if found {
        Some(Ok(dir_entry_from_find_data(data)))
    } else {
        match crate::error::enumeration_failure(last_error) {
            Some(e) => Some(Err(e)),
            None => None,
        }
    }
}

/// Reparse data holds a symbolic link: its tag is `IO_REPARSE_TAG_SYMLINK`.
pub open spec fn is_symlink_reparse(b: Seq<u8>) -> bool {
    le_u32_at(b, 0) == IO_REPARSE_TAG_SYMLINK
}

/// Where a symbolic link's print name starts in its reparse data.
pub open spec fn print_name_start(b: Seq<u8>) -> int {
    SYMLINK_PATH_BUFFER_START + le_u16_at(b, 12)
}

/// Where a symbolic link's print name ends in its reparse data.
pub open spec fn print_name_end(b: Seq<u8>) -> int {
    print_name_start(b) + le_u16_at(b, 14)
}

/// The target a symbolic link's reparse data names: its print name,
/// decoded as UTF-16 with unpaired surrogates replaced.
pub open spec fn symlink_target(b: Seq<u8>) -> Seq<char> {
    decode_utf16_lossy(le_units(b.subrange(print_name_start(b), print_name_end(b))))
}

/// Reparse data whose print name, if it is a symbolic link's, lies inside
/// the buffer.
pub open spec fn reparse_data_readable(b: Seq<u8>) -> bool {
    &&& b.len() >= SYMLINK_PATH_BUFFER_START
    &&& is_symlink_reparse(b) ==> print_name_end(b) <= b.len()
}

/// Reads a symbolic link's target out of the reparse data
/// `FSCTL_GET_REPARSE_POINT` returned: a reparse point of another kind is
/// `ERROR_NOT_SUPPORTED`.
pub fn symlink_target_from_reparse_data(buf: &[u8]) -> (r: Result<String, Win32Error>)
    requires
        reparse_data_readable(buf@),
    ensures
        is_symlink_reparse(buf@) ==> (r matches Ok(s) && s@ == symlink_target(buf@)),
        !is_symlink_reparse(buf@) ==> (r matches Err(e) && e@ == 50),
{
    let tag = crate::bytes::read_le_u32(buf, 0);
    if tag != IO_REPARSE_TAG_SYMLINK {
        return Err(Win32Error::ERROR_NOT_SUPPORTED());
    }
    let offset = crate::bytes::read_le_u16(buf, 12) as usize;
    let length = crate::bytes::read_le_u16(buf, 14) as usize;
    let start = SYMLINK_PATH_BUFFER_START + offset;
    let end = start + length;
    let name = crate::wide::slice_range(buf, start, end);
    let units = crate::wide::le_bytes_to_units(name);
    Ok(crate::wide::from_utf16_lossy(units.as_slice()))
}

} // verus!
