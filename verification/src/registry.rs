//! Registry values: the predefined root keys, the access masks, key
//! dispositions, and how the raw data of a value reads as a
//! [`RegistryValue`] according to its type.

use vstd::prelude::*;

use crate::bytes::{le_u32_at, le_u64_at};
use crate::error::Win32Error;
use crate::env::{block_entries, lemma_no_nul_prefix, lemma_nul_at};
use crate::wide::{decode_utf16_lossy, le_units, nul_position};

verus! {

/// `KEY_QUERY_VALUE`.
pub const KEY_QUERY_VALUE: u32 = 0x0001;

/// `KEY_READ`.
pub const KEY_READ: u32 = 0x0002_0019;

/// `KEY_WRITE`.
pub const KEY_WRITE: u32 = 0x0002_0006;

/// `KEY_ALL_ACCESS`.
pub const KEY_ALL_ACCESS: u32 = 0x000F_003F;

/// `REG_OPTION_NON_VOLATILE`.
pub const REG_OPTION_NON_VOLATILE: u32 = 0x0000_0000;

/// `REG_OPENED_EXISTING_KEY`.
pub const REG_OPENED_EXISTING_KEY: u32 = 0x0000_0002;

/// `HKEY_CLASSES_ROOT`: a 32-bit sentinel sign-extended to 64 bits.
pub const HKEY_CLASSES_ROOT: u64 = 0xFFFF_FFFF_8000_0000;

/// `HKEY_CURRENT_USER`.
pub const HKEY_CURRENT_USER: u64 = 0xFFFF_FFFF_8000_0001;

/// `HKEY_LOCAL_MACHINE`.
pub const HKEY_LOCAL_MACHINE: u64 = 0xFFFF_FFFF_8000_0002;

/// `HKEY_USERS`.
pub const HKEY_USERS: u64 = 0xFFFF_FFFF_8000_0003;

/// `HKEY_CURRENT_CONFIG`.
pub const HKEY_CURRENT_CONFIG: u64 = 0xFFFF_FFFF_8000_0005;

/// `REG_SZ`.
pub const REG_SZ: u32 = 1;

/// `REG_EXPAND_SZ`.
pub const REG_EXPAND_SZ: u32 = 2;

/// `REG_BINARY`.
pub const REG_BINARY: u32 = 3;

/// `REG_DWORD`.
pub const REG_DWORD: u32 = 4;

/// `REG_MULTI_SZ`.
pub const REG_MULTI_SZ: u32 = 7;

/// `REG_QWORD`.
pub const REG_QWORD: u32 = 11;

/// The result of a registry call that reports its own status (`LSTATUS`):
/// 0 is success, anything else is that error.
pub fn status_result(status: i32) -> (r: Result<(), Win32Error>)
    ensures
        status == 0 ==> r is Ok,
        status != 0 ==> (r matches Err(e) && e@ == status as u32),
{
    if status == 0 {
        Ok(())
    } else {
        Err(Win32Error::from_raw(status as u32))
    }
}

/// What creating a key did.
#[derive(Debug, Clone, Copy, PartialEq, Eq, Structural)]
pub enum KeyDisposition {
    /// The subkey did not exist and was created.
    CreatedNewKey,
    /// The subkey existed and was opened.
    OpenedExistingKey,
}

/// Reads `RegCreateKeyExW`'s disposition: `REG_OPENED_EXISTING_KEY` is an
/// opened key, anything else a created one.
pub fn key_disposition(raw: u32) -> (d: KeyDisposition)
    ensures
        raw == REG_OPENED_EXISTING_KEY ==> d == KeyDisposition::OpenedExistingKey,
        raw != REG_OPENED_EXISTING_KEY ==> d == KeyDisposition::CreatedNewKey,
{
    if raw == REG_OPENED_EXISTING_KEY {
        KeyDisposition::OpenedExistingKey
    } else {
        KeyDisposition::CreatedNewKey
    }
}

/// A value's data, decoded by its type.
#[derive(Debug, Clone, PartialEq)]
pub enum RegistryValue {
    /// `REG_NONE`, or a type this library does not decode.
    Untyped,
    /// `REG_SZ`.
    Sz(String),
    /// `REG_EXPAND_SZ`: the text as stored, `%VAR%` references unexpanded.
    ExpandSz(String),
    /// `REG_DWORD`.
    Dword(u32),
    /// `REG_QWORD`.
    Qword(u64),
    /// `REG_BINARY`.
    Binary(Vec<u8>),
    /// `REG_MULTI_SZ`, split into its strings.
    MultiSz(Vec<String>),
}

/// The UTF-16 units of string data, with one trailing NUL dropped if there
/// is one.
pub open spec fn string_units(b: Seq<u8>) -> Seq<u16> {
    let u = le_units(b);
    if u.len() > 0 && u.last() == 0 {
        u.drop_last()
    } else {
        u
    }
}

/// The text `REG_SZ`/`REG_EXPAND_SZ` data holds.
pub open spec fn wide_string_text(b: Seq<u8>) -> Seq<char> {
    decode_utf16_lossy(string_units(b))
}

/// The strings `REG_MULTI_SZ` data holds: the NUL-terminated runs of units
/// up to the first empty one, which is the list's closing NUL (what follows
/// it, and units after the last NUL, are not part of any string).
pub open spec fn multi_sz_strings(b: Seq<u8>) -> Seq<Seq<char>> {
    multi_sz_of_units(le_units(b))
}

/// The strings `units` holds as `REG_MULTI_SZ` data.
pub open spec fn multi_sz_of_units(units: Seq<u16>) -> Seq<Seq<char>> {
    decode_pieces(block_entries(units))
}

/// Each run of units decoded as text, in order.
pub open spec fn decode_pieces(ps: Seq<Seq<u16>>) -> Seq<Seq<char>>
    decreases ps.len(),
{
    if ps.len() == 0 {
        Seq::empty()
    } else {
        decode_pieces(ps.drop_last()).push(decode_utf16_lossy(ps.last()))
    }
}

/// The first `n` bytes of `b`, padded with zeros to `n` when it is shorter.
pub open spec fn zero_padded(b: Seq<u8>, n: nat) -> Seq<u8> {
    Seq::new(n, |i: int| if i < b.len() { b[i] } else { 0u8 })
}

/// The little-endian `u32` of `REG_DWORD` data (short data zero-padded).
pub open spec fn dword_value(b: Seq<u8>) -> u32 {
    le_u32_at(zero_padded(b, 4), 0)
}

/// The little-endian `u64` of `REG_QWORD` data (short data zero-padded).
pub open spec fn qword_value(b: Seq<u8>) -> u64 {
    le_u64_at(zero_padded(b, 8), 0)
}

/// The views of a sequence of strings.
pub open spec fn string_views(v: Seq<String>) -> Seq<Seq<char>> {
    v.map_values(|s: String| s@)
}

/// Decodes `REG_SZ`/`REG_EXPAND_SZ` data: little-endian UTF-16 (a trailing
/// odd byte ignored), one trailing NUL dropped if present.
pub fn decode_wide_string(buf: &[u8]) -> (s: String)
    ensures
        s@ == wide_string_text(buf@),
{
    let mut units = crate::wide::le_bytes_to_units(buf);
    let n = units.len();
    if n > 0 && units[n - 1] == 0 {
        units.pop();
        proof {
            assert(units@ =~= le_units(buf@).drop_last());
        }
    }
    crate::wide::from_utf16_lossy(units.as_slice())
}

/// Decodes `REG_MULTI_SZ` data into its NUL-terminated strings, stopping at
/// the empty one that closes the list.
pub fn decode_multi_sz(buf: &[u8]) -> (v: Vec<String>)
    ensures
        string_views(v@) == multi_sz_strings(buf@),
{
    let units = crate::wide::le_bytes_to_units(buf);
    let len = units.len();
    let mut strings: Vec<String> = Vec::new();
    let mut start: usize = 0;
    let mut i: usize = 0;
    proof {
        assert(units@.skip(0) =~= units@);
        assert(string_views(strings@) + multi_sz_of_units(units@) =~= multi_sz_of_units(units@));
    }
    loop
        invariant_except_break
            len == units@.len(),
            units@ == le_units(buf@),
            start <= i <= len,
            forall|k: int| start <= k < i ==> units@[k] != 0,
            multi_sz_of_units(units@) == string_views(strings@) + multi_sz_of_units(
                units@.skip(start as int),
            ),
        ensures
            units@ == le_units(buf@),
            multi_sz_of_units(units@) == string_views(strings@),
        decreases len - i,
    {
        let ghost rest = units@.skip(start as int);
        if i >= len {
            proof {
                lemma_no_nul_prefix(rest, (i - start) as int);
                assert(block_entries(rest) =~= Seq::<Seq<u16>>::empty());
                assert(string_views(strings@) + multi_sz_of_units(rest) =~= string_views(
                    strings@,
                ));
            }
            break;
        }
        if units[i] == 0 {
            proof {
                lemma_nul_at(rest, (i - start) as int);
            }
            if i == start {
                proof {
                    assert(block_entries(rest) =~= Seq::<Seq<u16>>::empty());
                    assert(string_views(strings@) + multi_sz_of_units(rest) =~= string_views(
                        strings@,
                    ));
                }
                break;
            }
            let piece = crate::wide::slice_range(units.as_slice(), start, i);
            let s = crate::wide::from_utf16_lossy(piece);
            let ghost k = (i - start) as int;
            let ghost after = units@.skip(i + 1);
            proof {
                assert(piece@ =~= rest.take(k));
                assert(rest.skip(k + 1) =~= after);
                assert(block_entries(rest) == seq![rest.take(k)] + block_entries(after));
                lemma_decode_prepend(rest.take(k), block_entries(after));
            }
            let ghost before = strings@;
            strings.push(s);
            proof {
                assert(string_views(strings@) =~= string_views(before).push(s@));
                assert(string_views(before) + (seq![s@] + multi_sz_of_units(after))
                    =~= string_views(strings@) + multi_sz_of_units(after));
            }
            start = i + 1;
        }
        i = i + 1;
    }
    strings
}

/// Decodes `REG_DWORD` data as a little-endian `u32` (data shorter than 4
/// bytes is zero-padded; bytes past the fourth are ignored).
pub fn decode_u32_le(buf: &[u8]) -> (v: u32)
    ensures
        v == dword_value(buf@),
{
    let mut bytes: [u8; 4] = [0, 0, 0, 0];
    let mut i: usize = 0;
    while i < 4 && i < buf.len()
        invariant
            i <= 4,
            forall|k: int| 0 <= k < i ==> k < buf@.len() && bytes@[k] == buf@[k],
            forall|k: int| i <= k < 4 ==> bytes@[k] == 0,
        decreases 4 - i,
    {
        bytes[i] = buf[i];
        i = i + 1;
    }
    proof {
        assert(bytes@ =~= zero_padded(buf@, 4));
    }
    crate::bytes::read_le_u32(bytes.as_slice(), 0)
}

/// Decodes `REG_QWORD` data as a little-endian `u64` (data shorter than 8
/// bytes is zero-padded; bytes past the eighth are ignored).
pub fn decode_u64_le(buf: &[u8]) -> (v: u64)
    ensures
        v == qword_value(buf@),
{
    let mut bytes: [u8; 8] = [0, 0, 0, 0, 0, 0, 0, 0];
    let mut i: usize = 0;
    while i < 8 && i < buf.len()
        invariant
            i <= 8,
            forall|k: int| 0 <= k < i ==> k < buf@.len() && bytes@[k] == buf@[k],
            forall|k: int| i <= k < 8 ==> bytes@[k] == 0,
        decreases 8 - i,
    {
        bytes[i] = buf[i];
        i = i + 1;
    }
    proof {
        assert(bytes@ =~= zero_padded(buf@, 8));
    }
    crate::bytes::read_le_u64(bytes.as_slice(), 0)
}

/// The value a query returned: `value_type` names how to read the first
/// `actual_size` bytes of `buf` (all of `buf` if it is shorter). A type
/// this library does not decode is [`RegistryValue::Untyped`].
pub fn decode_registry_value(value_type: u32, buf: Vec<u8>, actual_size: u32) -> (v: RegistryValue)
    ensures
        ({
            let d = if actual_size < buf@.len() {
                buf@.take(actual_size as int)
            } else {
                buf@
            };
            &&& value_type == REG_SZ ==> (v matches RegistryValue::Sz(s) && s@ == wide_string_text(
                d,
            ))
            &&& value_type == REG_EXPAND_SZ ==> (v matches RegistryValue::ExpandSz(s) && s@
                == wide_string_text(d))
            &&& value_type == REG_DWORD ==> v == RegistryValue::Dword(dword_value(d))
            &&& value_type == REG_QWORD ==> v == RegistryValue::Qword(qword_value(d))
            &&& value_type == REG_MULTI_SZ ==> (v matches RegistryValue::MultiSz(ss) && string_views(
                ss@,
            ) == multi_sz_strings(d))
            &&& value_type == REG_BINARY ==> (v matches RegistryValue::Binary(bytes) && bytes@ == d)
            &&& value_type != REG_SZ && value_type != REG_EXPAND_SZ && value_type != REG_DWORD
                && value_type != REG_QWORD && value_type != REG_MULTI_SZ && value_type != REG_BINARY
                ==> v == RegistryValue::Untyped
        }),
{
    let mut buf = buf;
    if (actual_size as usize) < buf.len() {
        buf.truncate(actual_size as usize);
    }
    if value_type == REG_SZ {
        RegistryValue::Sz(decode_wide_string(buf.as_slice()))
    } else if value_type == REG_EXPAND_SZ {
        RegistryValue::ExpandSz(decode_wide_string(buf.as_slice()))
    } else if value_type == REG_DWORD {
        RegistryValue::Dword(decode_u32_le(buf.as_slice()))
    } else if value_type == REG_QWORD {
        RegistryValue::Qword(decode_u64_le(buf.as_slice()))
    } else if value_type == REG_MULTI_SZ {
        RegistryValue::MultiSz(decode_multi_sz(buf.as_slice()))
    } else if value_type == REG_BINARY {
        RegistryValue::Binary(buf)
    } else {
        RegistryValue::Untyped
    }
}

/// UTF-16 units laid out as little-endian bytes, the way string data is
/// stored.
pub open spec fn units_le_bytes(u: Seq<u16>) -> Seq<u8> {
    Seq::new(
        2 * u.len(),
        |i: int|
            if i % 2 == 0 {
                (u[i / 2] % 256) as u8
            } else {
                (u[i / 2] / 256) as u8
            },
    )
}

/// Reading stored units back gives the same units.
pub proof fn lemma_units_bytes_round_trip(u: Seq<u16>)
    ensures
        le_units(units_le_bytes(u)) == u,
{
    let b = units_le_bytes(u);
    assert forall|i: int| 0 <= i < u.len() implies le_units(b)[i] == u[i] by {
        assert((2 * i) % 2 == 0 && (2 * i) / 2 == i);
        assert((2 * i + 1) % 2 == 1 && (2 * i + 1) / 2 == i);
        assert(b[2 * i] + 256 * b[2 * i + 1] == u[i]);
    }
    assert(le_units(b) =~= u);
}

/// `REG_SZ` data stored with its terminating NUL reads back as the string
/// that was stored.
pub proof fn lemma_terminated_string_round_trip(text: Seq<char>)
    ensures
        wide_string_text(units_le_bytes(crate::wide::encode_utf16(text).push(0))) == text,
{
    let u = crate::wide::encode_utf16(text);
    lemma_units_bytes_round_trip(u.push(0));
    assert(u.push(0).drop_last() =~= u);
    crate::wide::lemma_decode_encode(text);
}

/// The `REG_MULTI_SZ` units of a list of strings: each string followed by
/// a NUL, then one more NUL.
pub open spec fn multi_sz_units(strings: Seq<Seq<char>>) -> Seq<u16>
    decreases strings.len(),
{
    if strings.len() == 0 {
        seq![0u16]
    } else {
        crate::wide::encode_utf16(strings[0]).push(0) + multi_sz_units(strings.drop_first())
    }
}

/// Every string of the list is non-empty and holds no NUL.
pub open spec fn storable_strings(strings: Seq<Seq<char>>) -> bool {
    forall|i: int|
        0 <= i < strings.len() ==> strings[i].len() > 0 && crate::wide::no_nul_char(
            #[trigger] strings[i],
        )
}

/// Decoding the pieces `[p] + rest`.
proof fn lemma_decode_prepend(p: Seq<u16>, rest: Seq<Seq<u16>>)
    ensures
        decode_pieces(seq![p] + rest) == seq![decode_utf16_lossy(p)] + decode_pieces(rest),
    decreases rest.len(),
{
    if rest.len() == 0 {
        assert(seq![p] + rest =~= seq![p]);
        assert(seq![p].drop_last() =~= Seq::<Seq<u16>>::empty());
        assert(seq![p].last() == p);
        assert(decode_pieces(Seq::<Seq<u16>>::empty()) == Seq::<Seq<char>>::empty());
        assert(decode_pieces(seq![p]) == decode_pieces(seq![p].drop_last()).push(
            decode_utf16_lossy(p),
        ));
        assert(Seq::<Seq<char>>::empty().push(decode_utf16_lossy(p)) =~= seq![decode_utf16_lossy(p)]);
        assert(decode_pieces(rest) == Seq::<Seq<char>>::empty());
        assert(seq![decode_utf16_lossy(p)] + decode_pieces(rest) =~= seq![decode_utf16_lossy(p)]);
    } else {
        lemma_decode_prepend(p, rest.drop_last());
        assert((seq![p] + rest).last() == rest.last());
        assert((seq![p] + rest).drop_last() =~= seq![p] + rest.drop_last());
        assert((seq![decode_utf16_lossy(p)] + decode_pieces(rest.drop_last())).push(
            decode_utf16_lossy(rest.last()),
        ) =~= seq![decode_utf16_lossy(p)] + decode_pieces(rest.drop_last()).push(
            decode_utf16_lossy(rest.last()),
        ));
    }
}

proof fn lemma_multi_sz_units_round_trip(strings: Seq<Seq<char>>)
    requires
        storable_strings(strings),
    ensures
        multi_sz_of_units(multi_sz_units(strings)) == strings,
    decreases strings.len(),
{
    if strings.len() == 0 {
        let u = multi_sz_units(strings);
        assert(u == seq![0u16]);
        assert(nul_position(u) == 0);
        assert(block_entries(u) =~= Seq::<Seq<u16>>::empty());
        assert(multi_sz_of_units(u) =~= strings);
    } else {
        let head = strings[0];
        let tail = strings.drop_first();
        assert(storable_strings(tail)) by {
            assert forall|i: int| 0 <= i < tail.len() implies tail[i].len() > 0
                && crate::wide::no_nul_char(#[trigger] tail[i]) by {
                assert(tail[i] == strings[i + 1]);
            }
        }
        lemma_multi_sz_units_round_trip(tail);
        let a = crate::wide::encode_utf16(head);
        let b = multi_sz_units(tail);
        let u = a.push(0) + b;
        assert(u == multi_sz_units(strings));
        assert(storable_strings(strings) ==> head.len() > 0 && crate::wide::no_nul_char(head));
        crate::wide::lemma_encode_no_nul(head);
        crate::wide::lemma_encode_char_len(head[0]);
        assert(a.len() > 0) by {
            crate::wide::lemma_encode_append(seq![head[0]], head.drop_first());
            assert(seq![head[0]] + head.drop_first() =~= head);
            assert(crate::wide::encode_utf16(seq![head[0]]) =~= crate::wide::encode_char(head[0]))
                by {
                assert(seq![head[0]].drop_first() =~= Seq::<char>::empty());
            }
        }
        let k = a.len() as int;
        assert forall|j: int| 0 <= j < k implies u[j] != 0 by {
            assert(u[j] == a[j]);
        }
        lemma_nul_at(u, k);
        assert(u.take(k) =~= a);
        assert(u.skip(k + 1) =~= b);
        assert(block_entries(u) == seq![a] + block_entries(b));
        lemma_decode_prepend(a, block_entries(b));
        crate::wide::lemma_decode_encode(head);
        assert(seq![head] + tail =~= strings);
    }
}

/// `REG_MULTI_SZ` data stored in its standard form (each string followed by
/// a NUL, then one more NUL) reads back as the same strings, when each is
/// non-empty and holds no NUL.
pub proof fn lemma_multi_sz_round_trip(strings: Seq<Seq<char>>)
    requires
        storable_strings(strings),
    ensures
        multi_sz_strings(units_le_bytes(multi_sz_units(strings))) == strings,
{
    lemma_units_bytes_round_trip(multi_sz_units(strings));
    lemma_multi_sz_units_round_trip(strings);
}

} // verus!
