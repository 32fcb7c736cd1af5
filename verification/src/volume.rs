//! Volumes and drives: drive letters from the logical-drive bitmask, drive
//! types, volume information and free space, and volume enumeration state.

use vstd::prelude::*;

use crate::error::Win32Error;
use crate::wide::decode_until_nul;

verus! {

/// The size of a volume query's name buffers, in UTF-16 units
/// (`MAX_PATH + 1`).
pub const NAME_BUFFER_LEN: usize = 261;

/// The size of a volume-enumeration name buffer, in UTF-16 units.
pub const VOLUME_NAME_BUFFER_LEN: usize = 50;

/// `DRIVE_NO_ROOT_DIR`.
pub const DRIVE_NO_ROOT_DIR: u32 = 1;

/// `DRIVE_REMOVABLE`.
pub const DRIVE_REMOVABLE: u32 = 2;

/// `DRIVE_FIXED`.
pub const DRIVE_FIXED: u32 = 3;

/// `DRIVE_REMOTE`.
pub const DRIVE_REMOTE: u32 = 4;

/// `DRIVE_CDROM`.
pub const DRIVE_CDROM: u32 = 5;

/// `DRIVE_RAMDISK`.
pub const DRIVE_RAMDISK: u32 = 6;

/// Bit `bit` of `mask` is set.
pub open spec fn bit_set(mask: u32, bit: u32) -> bool {
    mask & (1u32 << bit) != 0
}

/// The drive letters a logical-drive bitmask names: bit N for the N-th
/// letter from `A`, in order, for the 26 letters.
pub open spec fn drive_letters(mask: u32, upto: nat) -> Seq<char>
    decreases upto,
{
    if upto == 0 {
        Seq::empty()
    } else {
        let bit = (upto - 1) as u32;
        let rest = drive_letters(mask, (upto - 1) as nat);
        if bit_set(mask, bit) {
            rest.push(('A' as u32 + bit) as char)
        } else {
            rest
        }
    }
}

/// The drive letters `GetLogicalDrives`' bitmask names, in order.
pub fn logical_drives_from_mask(mask: u32) -> (v: Vec<char>)
    ensures
        v@ == drive_letters(mask, 26),
{
    let mut v: Vec<char> = Vec::new();
    let mut bit: u32 = 0;
    while bit < 26
        invariant
            bit <= 26,
            v@ == drive_letters(mask, bit as nat),
        decreases 26 - bit,
    {
        if mask & (1u32 << bit) != 0 {
            let c = (65u8 + bit as u8) as char;
            assert(c == ('A' as u32 + bit) as char);
            v.push(c);
        }
        bit = bit + 1;
    }
    v
}

/// The kind of drive a root path names.
#[derive(Debug, Clone, Copy, PartialEq, Eq, Structural)]
pub enum DriveType {
    Unknown,
    NoRootDir,
    Removable,
    Fixed,
    Remote,
    CdRom,
    RamDisk,
}

/// The drive type a raw `GetDriveTypeW` result names (anything
/// unrecognized is `Unknown`).
pub open spec fn drive_type_of(raw: u32) -> DriveType {
    if raw == DRIVE_NO_ROOT_DIR {
        DriveType::NoRootDir
    } else if raw == DRIVE_REMOVABLE {
        DriveType::Removable
    } else if raw == DRIVE_FIXED {
        DriveType::Fixed
    } else if raw == DRIVE_REMOTE {
        DriveType::Remote
    } else if raw == DRIVE_CDROM {
        DriveType::CdRom
    } else if raw == DRIVE_RAMDISK {
        DriveType::RamDisk
    } else {
        DriveType::Unknown
    }
}

impl DriveType {
    /// Reads a raw `GetDriveTypeW` result.
    pub fn from_raw(raw: u32) -> (d: DriveType)
        ensures
            d == drive_type_of(raw),
    {
        if raw == DRIVE_NO_ROOT_DIR {
            DriveType::NoRootDir
        } else if raw == DRIVE_REMOVABLE {
            DriveType::Removable
        } else if raw == DRIVE_FIXED {
            DriveType::Fixed
        } else if raw == DRIVE_REMOTE {
            DriveType::Remote
        } else if raw == DRIVE_CDROM {
            DriveType::CdRom
        } else if raw == DRIVE_RAMDISK {
            DriveType::RamDisk
        } else {
            DriveType::Unknown
        }
    }
}

/// A volume's label, serial number, limits, flags and file-system name.
#[derive(Debug, Clone, PartialEq, Eq)]
pub struct VolumeInformation {
    pub volume_name: String,
    pub serial_number: u32,
    pub maximum_component_length: u32,
    pub file_system_flags: u32,
    pub file_system_name: String,
}

impl VolumeInformation {
    /// The information a volume query filled in: the two names are read up
    /// to their first NUL.
    pub fn from_buffers(
        volume_name: &[u16],
        serial_number: u32,
        maximum_component_length: u32,
        file_system_flags: u32,
        file_system_name: &[u16],
    ) -> (v: VolumeInformation)
        ensures
            v.volume_name@ == decode_until_nul(volume_name@),
            v.serial_number == serial_number,
            v.maximum_component_length == maximum_component_length,
            v.file_system_flags == file_system_flags,
            v.file_system_name@ == decode_until_nul(file_system_name@),
    {
        VolumeInformation {
            volume_name: crate::wide::from_wide(volume_name),
            serial_number,
            maximum_component_length,
            file_system_flags,
            file_system_name: crate::wide::from_wide(file_system_name),
        }
    }
}

/// A volume's free and total space, in bytes.
#[derive(Debug, Clone, Copy, PartialEq, Eq, Structural)]
pub struct DiskFreeSpace {
    pub free_bytes_available_to_caller: u64,
    pub total_bytes: u64,
    pub total_free_bytes: u64,
}

/// A volume enumeration in progress: the find handle and the name the
/// first find call returned, until it has been handed out.
pub struct FindVolumes {
    handle: usize,
    pending: Option<String>,
}

impl FindVolumes {
    /// The find handle.
    pub closed spec fn handle(&self) -> usize {
        self.handle
    }

    /// The name not yet handed out, if any.
    pub closed spec fn pending(&self) -> Option<Seq<char>> {
        match self.pending {
            Some(s) => Some(s@),
            None => None,
        }
    }

    /// An enumeration whose first find call returned `handle` and wrote the
    /// first volume name into `first_name`.
    pub fn new(handle: usize, first_name: &[u16]) -> (f: FindVolumes)
        ensures
            f.handle() == handle,
            f.pending() == Some(decode_until_nul(first_name@)),
    {
        FindVolumes { handle, pending: Some(crate::wide::from_wide(first_name)) }
    }

    /// The find handle, for the next find call and for closing.
    pub fn find_handle(&self) -> (h: usize)
        ensures
            h == self.handle(),
    {
        self.handle
    }

    /// Hands out the first name once: `Some` the first time, `None` after.
    pub fn take_pending(&mut self) -> (n: Option<String>)
        ensures
            match n {
                Some(s) => old(self).pending() == Some(s@),
                None => old(self).pending() is None,
            },
            final(self).pending() is None,
            final(self).handle() == old(self).handle(),
    {
        let mut n: Option<String> = None;
        std::mem::swap(&mut n, &mut self.pending);
        n
    }
}

/// The next item of a volume enumeration after a follow-up find call: the
/// name it wrote into `buf` when it found one, the end when it failed with
/// `ERROR_NO_MORE_FILES`, and the error otherwise.
pub fn next_volume_name(found: bool, buf: &[u16], last_error: Win32Error) -> (r: Option<
    Result<String, Win32Error>,
>)
    ensures
        found ==> (r matches Some(Ok(s)) && s@ == decode_until_nul(buf@)),
        !found && last_error@ == 18 ==> r is None,
        !found && last_error@ != 18 ==> r == Some(Err::<String, Win32Error>(last_error)),
{
    if found {
        Some(Ok(crate::wide::from_wide(buf)))
    } else {
        match crate::error::enumeration_failure(last_error) {
            Some(e) => Some(Err(e)),
            None => None,
        }
    }
}

} // verus!
