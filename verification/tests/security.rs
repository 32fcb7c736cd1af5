use rusty_win32::security::{
    parse_ace, AceKind, Acl, AclEntry, PathSecurityInfo, DACL_SECURITY_INFORMATION,
    OWNER_SECURITY_INFORMATION,
};

#[test]
fn ace_types_name_their_kind() {
    assert_eq!(AceKind::from_type(0), AceKind::Allow);
    assert_eq!(AceKind::from_type(1), AceKind::Deny);
    assert_eq!(AceKind::from_type(5), AceKind::Other(5));
}

#[test]
fn allow_and_deny_entries_carry_a_mask_and_a_sid() {
    let ace = [0u8, 0x10, 20, 0, 0xFF, 0x01, 0x1F, 0x00, 1, 1, 0, 0, 0, 0, 0, 5, 18, 0, 0, 0];
    assert_eq!(
        parse_ace(&ace, 0x1000),
        AclEntry { kind: AceKind::Allow, flags: 0x10, mask: 0x001F_01FF, sid: Some(0x1008) }
    );
    let deny = [1u8, 0, 8, 0, 1, 0, 0, 0];
    assert_eq!(
        parse_ace(&deny, 0x40),
        AclEntry { kind: AceKind::Deny, flags: 0, mask: 1, sid: Some(0x48) }
    );
}

#[test]
fn other_entries_carry_neither() {
    assert_eq!(
        parse_ace(&[9, 2, 8, 0], 0x2000),
        AclEntry { kind: AceKind::Other(9), flags: 2, mask: 0, sid: None }
    );
}

#[test]
fn an_acl_header_gives_its_size_and_count() {
    let acl = Acl::from_header(&[2, 0, 0x1C, 0, 3, 0, 0, 0]);
    assert_eq!(acl.entry_count(), 3);
    assert_eq!(acl.byte_size(), 28);
}

#[test]
fn query_results_map_null_to_none() {
    let info = PathSecurityInfo::from_query(0, 0x10, 0);
    assert_eq!(info.owner(), Some(0x10));
    assert_eq!(info.dacl(), None);
    assert_eq!(info.security_descriptor(), None);
    let full = PathSecurityInfo::from_query(0x500, 0x510, 0x520);
    assert_eq!(full.security_descriptor(), Some(0x500));
    assert_eq!(full.dacl(), Some(0x520));
}

#[test]
fn an_update_names_what_it_carries() {
    assert_eq!(PathSecurityInfo::from_raw_parts(Some(1), None).update_flags(), OWNER_SECURITY_INFORMATION);
    assert_eq!(PathSecurityInfo::from_raw_parts(None, Some(2)).update_flags(), DACL_SECURITY_INFORMATION);
    assert_eq!(PathSecurityInfo::from_raw_parts(Some(1), Some(2)).update_flags(), 5);
    assert_eq!(PathSecurityInfo::from_raw_parts(None, None).update_flags(), 0);
    let p = PathSecurityInfo::from_raw_parts(Some(1), Some(2));
    assert_eq!(p.owner(), Some(1));
    assert_eq!(p.dacl(), Some(2));
    assert_eq!(p.security_descriptor(), None);
}
