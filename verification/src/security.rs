//! Security descriptors of files: which parts a query or an update names,
//! the owner and DACL a query returned, and the access-control entries an
//! ACL holds.
//!
//! Memory the security calls hand back (a descriptor, an owner SID, a
//! DACL, an entry's SID) is carried here as its address.

use vstd::prelude::*;

use crate::bytes::le_u32_at;

verus! {

/// `SE_FILE_OBJECT`.
pub const SE_FILE_OBJECT: u32 = 1;

/// `OWNER_SECURITY_INFORMATION`.
pub const OWNER_SECURITY_INFORMATION: u32 = 0x0000_0001;

/// `GROUP_SECURITY_INFORMATION`.
pub const GROUP_SECURITY_INFORMATION: u32 = 0x0000_0002;

/// `DACL_SECURITY_INFORMATION`.
pub const DACL_SECURITY_INFORMATION: u32 = 0x0000_0004;

/// `ACCESS_ALLOWED_ACE_TYPE`.
pub const ACCESS_ALLOWED_ACE_TYPE: u8 = 0;

/// `ACCESS_DENIED_ACE_TYPE`.
pub const ACCESS_DENIED_ACE_TYPE: u8 = 1;

/// `AclSizeInformation`.
pub const ACL_SIZE_INFORMATION_CLASS: u32 = 2;

/// The byte length of an ACL's header.
pub const ACL_HEADER_LEN: usize = 8;

/// The header of an `ACL`.
#[derive(Debug, Clone, Copy, PartialEq, Eq, Structural)]
pub struct Acl {
    acl_revision: u8,
    sbz1: u8,
    acl_size: u16,
    ace_count: u16,
    sbz2: u16,
}

impl Acl {
    /// The header the first 8 bytes of an ACL hold.
    pub fn from_header(b: &[u8]) -> (a: Acl)
        requires
            b@.len() >= ACL_HEADER_LEN,
        ensures
            a.revision() == b@[0],
            a.size() == crate::wide::le_u16_at(b@, 2),
            a.ace_count() == crate::wide::le_u16_at(b@, 4),
    {
        Acl {
            acl_revision: b[0],
            sbz1: b[1],
            acl_size: crate::bytes::read_le_u16(b, 2),
            ace_count: crate::bytes::read_le_u16(b, 4),
            sbz2: crate::bytes::read_le_u16(b, 6),
        }
    }

    pub closed spec fn revision(&self) -> u8 {
        self.acl_revision
    }

    pub closed spec fn size(&self) -> u16 {
        self.acl_size
    }

    pub closed spec fn ace_count(&self) -> u16 {
        self.ace_count
    }

    /// How many entries the ACL holds.
    pub fn entry_count(&self) -> (n: u16)
        ensures
            n == self.ace_count(),
    {
        self.ace_count
    }

    /// The ACL's size in bytes.
    pub fn byte_size(&self) -> (n: u16)
        ensures
            n == self.size(),
    {
        self.acl_size
    }
}

/// The kind of an access-control entry.
#[derive(Debug, Clone, Copy, PartialEq, Eq, Structural)]
pub enum AceKind {
    Allow,
    Deny,
    /// Any other entry type, with its raw value; its mask and SID are not
    /// read.
    Other(u8),
}

/// The kind an `AceType` byte names.
pub open spec fn ace_kind_of(t: u8) -> AceKind {
    if t == ACCESS_ALLOWED_ACE_TYPE {
        AceKind::Allow
    } else if t == ACCESS_DENIED_ACE_TYPE {
        AceKind::Deny
    } else {
        AceKind::Other(t)
    }
}

impl AceKind {
    /// Reads an `AceType` byte.
    pub fn from_type(t: u8) -> (k: AceKind)
        ensures
            k == ace_kind_of(t),
    {
        if t == ACCESS_ALLOWED_ACE_TYPE {
            AceKind::Allow
        } else if t == ACCESS_DENIED_ACE_TYPE {
            AceKind::Deny
        } else {
            AceKind::Other(t)
        }
    }
}

/// One access-control entry: its kind and flags, and for an allow or deny
/// entry its access mask and the address of its SID (the mask is 0 and the
/// SID absent otherwise).
#[derive(Debug, Clone, Copy, PartialEq, Eq, Structural)]
pub struct AclEntry {
    pub kind: AceKind,
    pub flags: u8,
    pub mask: u32,
    pub sid: Option<usize>,
}

/// The bytes at `address` are readable as the entry they start: a header,
/// and for an allow or deny entry the mask after it.
pub open spec fn ace_readable(ace: Seq<u8>, address: usize) -> bool {
    &&& ace.len() >= 4
    &&& (ace[0] == ACCESS_ALLOWED_ACE_TYPE || ace[0] == ACCESS_DENIED_ACE_TYPE) ==> ace.len() >= 8
        && address + 8 <= usize::MAX
}

/// The entry `ace` (the entry's bytes, found at `address`) describes.
pub open spec fn spec_acl_entry(ace: Seq<u8>, address: usize) -> AclEntry {
    let kind = ace_kind_of(ace[0]);
    if kind is Other {
        AclEntry { kind, flags: ace[1], mask: 0, sid: None }
    } else {
        AclEntry { kind, flags: ace[1], mask: le_u32_at(ace, 4), sid: Some((address + 8) as usize) }
    }
}

/// Whatever its kind, an entry's flags are its `AceFlags` byte (byte 1).
/// An allow (type 0) or deny (type 1) entry carries the access mask at byte
/// 4 and the SID that starts 8 bytes into it; any other type is reported as
/// such, with no mask and no SID.
pub proof fn lemma_acl_entry_fields(ace: Seq<u8>, address: usize)
    requires
        ace_readable(ace, address),
    ensures
        spec_acl_entry(ace, address).flags == ace[1],
        ace[0] == 0 ==> spec_acl_entry(ace, address).kind == AceKind::Allow,
        ace[0] == 1 ==> spec_acl_entry(ace, address).kind == AceKind::Deny,
        (ace[0] == 0 || ace[0] == 1) ==> spec_acl_entry(ace, address).mask == le_u32_at(ace, 4)
            && spec_acl_entry(ace, address).sid == Some((address + 8) as usize),
        !(ace[0] == 0 || ace[0] == 1) ==> spec_acl_entry(ace, address).kind == AceKind::Other(
            ace[0],
        ) && spec_acl_entry(ace, address).mask == 0 && spec_acl_entry(ace, address).sid is None,
{
}

/// Reads one access-control entry from its bytes and address: `AceType`
/// and `AceFlags` from the header, then for an allow or deny entry the
/// mask at byte 4 and the SID that starts at byte 8.
pub fn parse_ace(ace: &[u8], address: usize) -> (e: AclEntry)
    requires
        ace_readable(ace@, address),
    ensures
        e == spec_acl_entry(ace@, address),
        e.flags == ace@[1],
        ace@[0] == 0 ==> e.kind == AceKind::Allow,
        ace@[0] == 1 ==> e.kind == AceKind::Deny,
        (ace@[0] == 0 || ace@[0] == 1) ==> e.mask == le_u32_at(ace@, 4) && e.sid == Some(
            (address + 8) as usize,
        ),
        !(ace@[0] == 0 || ace@[0] == 1) ==> e.kind == AceKind::Other(ace@[0]) && e.mask == 0
            && e.sid is None,
{
    proof {
        lemma_acl_entry_fields(ace@, address);
    }
    let kind = AceKind::from_type(ace[0]);
    let flags = ace[1];
    match kind {
        AceKind::Other(_) => AclEntry { kind, flags, mask: 0, sid: None },
        _ => {
            let mask = crate::bytes::read_le_u32(ace, 4);
            AclEntry { kind, flags, mask, sid: Some(address + 8) }
        },
    }
}

/// An address as an optional pointer: 0 (null) is none.
pub open spec fn non_null(p: usize) -> Option<usize> {
    if p == 0 {
        None
    } else {
        Some(p)
    }
}

/// A file's owner SID and DACL, as a security query returned them, with
/// the descriptor they live in (freed with `LocalFree` when it is done
/// with).
#[derive(Debug, PartialEq, Eq, Structural)]
pub struct PathSecurityInfo {
    security_descriptor: Option<usize>,
    owner: Option<usize>,
    dacl: Option<usize>,
}

impl PathSecurityInfo {
    pub closed spec fn spec_owner(&self) -> Option<usize> {
        self.owner
    }

    pub closed spec fn spec_dacl(&self) -> Option<usize> {
        self.dacl
    }

    pub closed spec fn spec_descriptor(&self) -> Option<usize> {
        self.security_descriptor
    }

    /// An owner and DACL the caller holds, with no descriptor of this
    /// library's to free.
    pub fn from_raw_parts(owner: Option<usize>, dacl: Option<usize>) -> (p: PathSecurityInfo)
        ensures
            p.spec_owner() == owner,
            p.spec_dacl() == dacl,
            p.spec_descriptor() is None,
    {
        PathSecurityInfo { security_descriptor: None, owner, dacl }
    }

    /// What a security query returned: the descriptor, owner and DACL
    /// addresses, each null for none.
    pub fn from_query(security_descriptor: usize, owner: usize, dacl: usize) -> (p: PathSecurityInfo)
        ensures
            p.spec_owner() == non_null(owner),
            p.spec_dacl() == non_null(dacl),
            p.spec_descriptor() == non_null(security_descriptor),
    {
        PathSecurityInfo {
            security_descriptor: if security_descriptor == 0 {
                None
            } else {
                Some(security_descriptor)
            },
            owner: if owner == 0 {
                None
            } else {
                Some(owner)
            },
            dacl: if dacl == 0 {
                None
            } else {
                Some(dacl)
            },
        }
    }

    /// The owner SID's address, if the query asked for and returned one.
    pub fn owner(&self) -> (o: Option<usize>)
        ensures
            o == self.spec_owner(),
    {
        self.owner
    }

    /// The DACL's address, if the query asked for and returned one.
    pub fn dacl(&self) -> (d: Option<usize>)
        ensures
            d == self.spec_dacl(),
    {
        self.dacl
    }

    /// The descriptor to free, if this holds one.
    pub fn security_descriptor(&self) -> (d: Option<usize>)
        ensures
            d == self.spec_descriptor(),
    {
        self.security_descriptor
    }

    /// The `SECURITY_INFORMATION` an update with this information names:
    /// the owner if there is one, the DACL if there is one.
    pub fn update_flags(&self) -> (f: u32)
        ensures
            f == (if self.spec_owner() is Some {
                OWNER_SECURITY_INFORMATION
            } else {
                0
            }) + (if self.spec_dacl() is Some {
                DACL_SECURITY_INFORMATION
            } else {
                0
            }),
    {
        let mut f: u32 = 0;
        if self.owner.is_some() {
            f = OWNER_SECURITY_INFORMATION;
        }
        if self.dacl.is_some() {
            assert(0u32 | DACL_SECURITY_INFORMATION == 4u32) by (bit_vector);
            assert(OWNER_SECURITY_INFORMATION | DACL_SECURITY_INFORMATION == 5u32) by (bit_vector);
            f = f | DACL_SECURITY_INFORMATION;
        }
        f
    }
}

} // verus!
