//! Windows environment blocks: the `"NAME=value\0...\0\0"` UTF-16 format
//! `CreateProcessW` takes (with `CREATE_UNICODE_ENVIRONMENT`) and
//! `GetEnvironmentStringsW` returns.

use vstd::prelude::*;

use crate::wide::{
    decode_utf16_lossy, encode_char, encode_utf16, from_utf16_lossy, lemma_decode_encode,
    lemma_encode_append, no_nul_char, nul_position, push_utf16,
};

verus! {

/// The UTF-16 unit of `'='`.
pub open spec fn equals_unit() -> u16 {
    0x3D
}

/// One `NAME=value` entry with its terminating NUL.
pub open spec fn env_entry(name: Seq<char>, value: Seq<char>) -> Seq<u16> {
    encode_utf16(name) + seq![equals_unit()] + encode_utf16(value) + seq![0u16]
}

/// The entries of `vars`, back to back.
pub open spec fn env_entries(vars: Seq<(Seq<char>, Seq<char>)>) -> Seq<u16>
    decreases vars.len(),
{
    if vars.len() == 0 {
        Seq::empty()
    } else {
        env_entry(vars[0].0, vars[0].1) + env_entries(vars.drop_first())
    }
}

/// The whole block: every entry, then one more NUL — two NULs in all when
/// there is no entry.
pub open spec fn env_block(vars: Seq<(Seq<char>, Seq<char>)>) -> Seq<u16> {
    if vars.len() == 0 {
        seq![0u16, 0u16]
    } else {
        env_entries(vars).push(0u16)
    }
}

/// The string views of a slice of `(name, value)` pairs.
pub open spec fn pair_views(vars: Seq<(&str, &str)>) -> Seq<(Seq<char>, Seq<char>)> {
    vars.map_values(|p: (&str, &str)| (p.0@, p.1@))
}

/// The NUL-terminated entries at the front of `u`, up to the first empty
/// one (the block's terminator); an entry with no NUL after it is not
/// part of the block.
pub open spec fn block_entries(u: Seq<u16>) -> Seq<Seq<u16>>
    decreases u.len(),
{
    let k = nul_position(u);
    if k == 0 || k >= u.len() {
        Seq::empty()
    } else {
        proof {
            crate::wide::lemma_nul_position_bounds(u);
        }
        seq![u.take(k)] + block_entries(u.skip(k + 1))
    }
}

/// Index of the first `'='` unit of `e` at or after index 1 (a leading
/// `'='` belongs to the name, as in the hidden `=C:=C:\dir` entries), or
/// `e.len()` when there is none.
pub open spec fn separator_position(e: Seq<u16>) -> int
    decreases e.len(),
{
    if e.len() <= 1 {
        e.len() as int
    } else if e[1] == equals_unit() {
        1
    } else {
        1 + separator_position(e.drop_first())
    }
}

/// One entry split at its separator into `(name, value)`, or `None` when it
/// has none.
pub open spec fn parse_entry(e: Seq<u16>) -> Option<(Seq<char>, Seq<char>)> {
    let j = separator_position(e);
    if j >= e.len() {
        None
    } else {
        Some((decode_utf16_lossy(e.take(j)), decode_utf16_lossy(e.skip(j + 1))))
    }
}

/// The parsed pairs of a sequence of entries, entries with no separator
/// left out.
pub open spec fn parse_entries(es: Seq<Seq<u16>>) -> Seq<(Seq<char>, Seq<char>)>
    decreases es.len(),
{
    if es.len() == 0 {
        Seq::empty()
    } else {
        match parse_entry(es[0]) {
            Some(p) => seq![p] + parse_entries(es.drop_first()),
            None => parse_entries(es.drop_first()),
        }
    }
}

/// The `(name, value)` pairs a block holds.
pub open spec fn parse_block(u: Seq<u16>) -> Seq<(Seq<char>, Seq<char>)> {
    parse_entries(block_entries(u))
}

/// A variable name the block format can carry and give back: non-empty,
/// no NUL, and no `'='` after its first character.
pub open spec fn valid_env_name(name: Seq<char>) -> bool {
    &&& name.len() > 0
    &&& no_nul_char(name)
    &&& forall|i: int| 1 <= i < name.len() ==> name[i] != '='
}

/// Every pair of `vars` can go through a block and come back.
pub open spec fn valid_env_vars(vars: Seq<(Seq<char>, Seq<char>)>) -> bool {
    forall|i: int| 0 <= i < vars.len() ==> valid_env_name(#[trigger] vars[i].0) && no_nul_char(
        vars[i].1,
    )
}

/// Builds an environment block from `(name, value)` pairs, in the order
/// given: each pair as a NUL-terminated UTF-16 `NAME=value`, then one more
/// NUL (two NULs in all for no pairs).
pub fn environment_block(vars: &[(&str, &str)]) -> (block: Vec<u16>)
    ensures
        block@ == env_block(pair_views(vars@)),
{
    let mut block: Vec<u16> = Vec::new();
    let n = vars.len();
    let ghost views = pair_views(vars@);
    let mut i: usize = 0;
    proof {
        assert(views.skip(0) =~= views);
        assert(block@ + env_entries(views) =~= env_entries(views));
    }
    while i < n
        invariant
            n == vars@.len(),
            views == pair_views(vars@),
            i <= n,
            env_entries(views) == block@ + env_entries(views.skip(i as int)),
        decreases n - i,
    {
        let (name, value) = vars[i];
        let ghost before = block@;
        proof {
            assert(views.skip(i as int).drop_first() =~= views.skip(i + 1));
            assert(views.skip(i as int)[0] == (name@, value@));
        }
        push_utf16(&mut block, name);
        block.push(0x3D);
        push_utf16(&mut block, value);
        block.push(0);
        proof {
            assert(block@ =~= before + env_entry(name@, value@));
        }
        i = i + 1;
    }
    block.push(0);
    if block.len() == 1 {
        block.push(0);
    }
    proof {
        assert(views.skip(n as int) =~= Seq::<(Seq<char>, Seq<char>)>::empty());
        if n > 0 {
            lemma_env_entries_nonempty(views);
        } else {
            assert(views.len() == 0);
        }
    }
    block
}

proof fn lemma_env_entries_nonempty(vars: Seq<(Seq<char>, Seq<char>)>)
    requires
        vars.len() > 0,
    ensures
        env_entries(vars).len() >= 2,
{
}

/// Splits one entry (no terminating NUL) at its separator — the first
/// `'='` after index 0 — into `(name, value)`; `None` when there is none.
pub fn parse_environment_entry(units: &[u16]) -> (r: Option<(String, String)>)
    ensures
        match r {
            Some((n, v)) => parse_entry(units@) == Some((n@, v@)),
            None => parse_entry(units@) is None,
        },
{
    let len = units.len();
    if len <= 1 {
        return None;
    }
    let mut j: usize = 1;
    proof {
        assert(units@.skip(0) =~= units@);
    }
    while j < len && units[j] != 0x3D
        invariant
            len == units@.len(),
            1 <= j <= len,
            separator_position(units@) == (j - 1) + separator_position(units@.skip(j - 1)),
        decreases len - j,
    {
        proof {
            let t = units@.skip(j - 1);
            assert(t.drop_first() =~= units@.skip(j as int));
            assert(t[1] == units@[j as int]);
        }
        j = j + 1;
    }
    proof {
        let t = units@.skip(j - 1);
        if j < len {
            assert(t[1] == units@[j as int]);
        }
    }
    if j >= len {
        return None;
    }
    let name = from_utf16_lossy(crate::wide::slice_prefix(units, j));
    let value = from_utf16_lossy(crate::wide::slice_range(units, j + 1, len));
    proof {
        assert(units@.subrange(j + 1, len as int) =~= units@.skip(j + 1));
    }
    Some((name, value))
}

/// The `(name, value)` views of parsed pairs.
pub open spec fn string_pair_views(ps: Seq<(String, String)>) -> Seq<(Seq<char>, Seq<char>)> {
    ps.map_values(|p: (String, String)| (p.0@, p.1@))
}

/// Reads an environment block back into its `(name, value)` pairs, up to
/// the empty entry that ends it; entries with no `'='` separator are
/// skipped.
pub fn parse_environment_block(block: &[u16]) -> (pairs: Vec<(String, String)>)
    ensures
        string_pair_views(pairs@) == parse_block(block@),
{
    let mut pairs: Vec<(String, String)> = Vec::new();
    let len = block.len();
    let mut entry_start: usize = 0;
    let mut i: usize = 0;
    proof {
        assert(block@.skip(0) =~= block@);
        assert(string_pair_views(pairs@) + parse_block(block@) =~= parse_block(block@));
    }
    loop
        invariant_except_break
            len == block@.len(),
            entry_start <= i <= len,
            forall|k: int| entry_start <= k < i ==> block@[k] != 0,
            parse_block(block@) == string_pair_views(pairs@) + parse_block(
                block@.skip(entry_start as int),
            ),
        ensures
            parse_block(block@) == string_pair_views(pairs@),
        decreases len - i,
    {
        let ghost rest = block@.skip(entry_start as int);
        if i >= len {
            proof {
                lemma_no_nul_prefix(rest, (i - entry_start) as int);
                assert(block_entries(rest) =~= Seq::<Seq<u16>>::empty());
                assert(string_pair_views(pairs@) + parse_block(rest) =~= string_pair_views(
                    pairs@,
                ));
            }
            break;
        }
        if block[i] == 0 {
            proof {
                lemma_nul_at(rest, (i - entry_start) as int);
            }
            if i == entry_start {
                proof {
                    assert(block_entries(rest) =~= Seq::<Seq<u16>>::empty());
                    assert(string_pair_views(pairs@) + parse_block(rest) =~= string_pair_views(
                        pairs@,
                    ));
                }
                break;
            }
            let entry = crate::wide::slice_range(block, entry_start, i);
            let ghost k = (i - entry_start) as int;
            proof {
                assert(entry@ =~= rest.take(k));
                assert(rest.skip(k + 1) =~= block@.skip(i + 1));
                assert(block_entries(rest) == seq![rest.take(k)] + block_entries(rest.skip(k + 1)));
                assert((seq![rest.take(k)] + block_entries(rest.skip(k + 1))).drop_first()
                    =~= block_entries(rest.skip(k + 1)));
            }
            let ghost before = pairs@;
            match parse_environment_entry(entry) {
                Some(p) => {
                    pairs.push(p);
                    proof {
                        assert(string_pair_views(pairs@) =~= string_pair_views(before).push(
                            (p.0@, p.1@),
                        ));
                        assert(parse_block(rest) == seq![(p.0@, p.1@)] + parse_block(
                            block@.skip(i + 1),
                        ));
                    }
                },
                None => {},
            }
            entry_start = i + 1;
        }
        i = i + 1;
    }
    pairs
}

/// A run with no NUL unit has its first NUL at its end.
pub(crate) proof fn lemma_no_nul_prefix(u: Seq<u16>, k: int)
    requires
        k == u.len(),
        forall|j: int| 0 <= j < k ==> u[j] != 0,
    ensures
        nul_position(u) == u.len(),
    decreases k,
{
    if k > 0 {
        lemma_no_nul_prefix(u.drop_first(), k - 1);
    }
}

/// The first NUL of `u` is at `k` when `u[k]` is NUL and none comes before.
pub(crate) proof fn lemma_nul_at(u: Seq<u16>, k: int)
    requires
        0 <= k < u.len(),
        u[k] == 0,
        forall|j: int| 0 <= j < k ==> u[j] != 0,
    ensures
        nul_position(u) == k,
    decreases k,
{
    if k > 0 {
        lemma_nul_at(u.drop_first(), k - 1);
    }
}

/// `NAME=value` without its terminating NUL.
pub open spec fn entry_body(name: Seq<char>, value: Seq<char>) -> Seq<u16> {
    encode_utf16(name) + seq![equals_unit()] + encode_utf16(value)
}

proof fn lemma_no_equals_units(s: Seq<char>)
    requires
        forall|i: int| 0 <= i < s.len() ==> s[i] != '=',
    ensures
        forall|j: int| 0 <= j < encode_utf16(s).len() ==> encode_utf16(s)[j] != equals_unit(),
    decreases s.len(),
{
    if s.len() > 0 {
        let t = s.drop_first();
        assert forall|i: int| 0 <= i < t.len() implies t[i] != '=' by {
            assert(t[i] == s[i + 1]);
        }
        lemma_no_equals_units(t);
        let e = encode_char(s[0]);
        lemma_char_unit_not_equals(s[0]);
        assert forall|j: int| 0 <= j < encode_utf16(s).len() implies encode_utf16(s)[j]
            != equals_unit() by {
            if j < e.len() {
                assert(encode_utf16(s)[j] == e[j]);
            } else {
                assert(encode_utf16(s)[j] == encode_utf16(t)[j - e.len()]);
            }
        }
    }
}

proof fn lemma_char_unit_not_equals(c: char)
    requires
        c != '=',
    ensures
        forall|j: int| 0 <= j < encode_char(c).len() ==> encode_char(c)[j] != equals_unit(),
{
    if (c as u32) < 0x10000 {
        if (c as u32) == 0x3D {
            vstd::utf8::char_u32_cast(c, 0x3D);
            vstd::utf8::char_u32_cast('=', 0x3D);
        }
    } else {
        crate::wide::lemma_pair_decodes(c);
    }
}

/// In the encoding of a valid name, no unit after the first is `'='`.
proof fn lemma_name_units(name: Seq<char>)
    requires
        valid_env_name(name),
    ensures
        encode_utf16(name).len() >= 1,
        forall|j: int| 1 <= j < encode_utf16(name).len() ==> encode_utf16(name)[j]
            != equals_unit(),
        forall|j: int| 0 <= j < encode_utf16(name).len() ==> encode_utf16(name)[j] != 0,
{
    let t = name.drop_first();
    assert forall|i: int| 0 <= i < t.len() implies t[i] != '=' by {
        assert(t[i] == name[i + 1]);
    }
    lemma_no_equals_units(t);
    crate::wide::lemma_encode_no_nul(name);
    let e = encode_char(name[0]);
    crate::wide::lemma_encode_char_len(name[0]);
    if (name[0] as u32) >= 0x10000 {
        crate::wide::lemma_pair_decodes(name[0]);
    }
    assert forall|j: int| 1 <= j < encode_utf16(name).len() implies encode_utf16(name)[j]
        != equals_unit() by {
        if j < e.len() {
            assert(encode_utf16(name)[j] == e[j]);
        } else {
            assert(encode_utf16(name)[j] == encode_utf16(t)[j - e.len()]);
        }
    }
}

proof fn lemma_separator_at(e: Seq<u16>, j: int)
    requires
        1 <= j < e.len(),
        e[j] == equals_unit(),
        forall|i: int| 1 <= i < j ==> e[i] != equals_unit(),
    ensures
        separator_position(e) == j,
    decreases j,
{
    if j > 1 {
        let t = e.drop_first();
        assert forall|i: int| 1 <= i < j - 1 implies t[i] != equals_unit() by {
            assert(t[i] == e[i + 1]);
        }
        lemma_separator_at(t, j - 1);
    }
}

proof fn lemma_parse_entry_body(name: Seq<char>, value: Seq<char>)
    requires
        valid_env_name(name),
    ensures
        parse_entry(entry_body(name, value)) == Some((name, value)),
{
    let b = entry_body(name, value);
    let en = encode_utf16(name);
    lemma_name_units(name);
    assert forall|i: int| 1 <= i < en.len() implies b[i] != equals_unit() by {
        assert(b[i] == en[i]);
    }
    lemma_separator_at(b, en.len() as int);
    assert(b.take(en.len() as int) =~= en);
    assert(b.skip(en.len() as int + 1) =~= encode_utf16(value));
    lemma_decode_encode(name);
    lemma_decode_encode(value);
}

/// Splitting a block built from valid pairs at its NULs gives each pair's
/// `NAME=value` body in turn.
proof fn lemma_block_entries(vars: Seq<(Seq<char>, Seq<char>)>, tail: Seq<u16>)
    requires
        valid_env_vars(vars),
        tail.len() > 0,
        tail[0] == 0,
    ensures
        block_entries(env_entries(vars) + tail) == vars.map_values(
            |p: (Seq<char>, Seq<char>)| entry_body(p.0, p.1),
        ),
    decreases vars.len(),
{
    let u = env_entries(vars) + tail;
    if vars.len() == 0 {
        assert(u =~= tail);
        assert(nul_position(u) == 0);
        assert(vars.map_values(|p: (Seq<char>, Seq<char>)| entry_body(p.0, p.1)) =~= Seq::<
            Seq<u16>,
        >::empty());
    } else {
        let (n, v) = vars[0];
        assert(valid_env_name(vars[0].0) && no_nul_char(vars[0].1));
        let rest = vars.drop_first();
        assert(valid_env_vars(rest)) by {
            assert forall|i: int| 0 <= i < rest.len() implies valid_env_name(
                #[trigger] rest[i].0,
            ) && no_nul_char(rest[i].1) by {
                assert(rest[i] == vars[i + 1]);
            }
        }
        let body = entry_body(n, v);
        lemma_name_units(n);
        crate::wide::lemma_encode_no_nul(v);
        assert forall|j: int| 0 <= j < body.len() implies u[j] != 0 by {
            assert(u[j] == body[j]);
            let en = encode_utf16(n);
            if j < en.len() {
                assert(body[j] == en[j]);
            } else if j > en.len() {
                assert(body[j] == encode_utf16(v)[j - en.len() - 1]);
            }
        }
        assert(u =~= body + (seq![0u16] + (env_entries(rest) + tail)));
        assert(u[body.len() as int] == 0);
        crate::wide::lemma_nul_position_of_prefix(u, body.len() as int);
        assert(u.take(body.len() as int) =~= body);
        assert(u.skip(body.len() as int + 1) =~= env_entries(rest) + tail);
        lemma_block_entries(rest, tail);
        assert(vars.map_values(|p: (Seq<char>, Seq<char>)| entry_body(p.0, p.1)) =~= seq![body]
            + rest.map_values(|p: (Seq<char>, Seq<char>)| entry_body(p.0, p.1)));
    }
}

proof fn lemma_parse_bodies(vars: Seq<(Seq<char>, Seq<char>)>)
    requires
        valid_env_vars(vars),
    ensures
        parse_entries(vars.map_values(|p: (Seq<char>, Seq<char>)| entry_body(p.0, p.1))) == vars,
    decreases vars.len(),
{
    let es = vars.map_values(|p: (Seq<char>, Seq<char>)| entry_body(p.0, p.1));
    if vars.len() > 0 {
        let rest = vars.drop_first();
        assert(valid_env_name(vars[0].0) && no_nul_char(vars[0].1));
        assert(valid_env_vars(rest)) by {
            assert forall|i: int| 0 <= i < rest.len() implies valid_env_name(
                #[trigger] rest[i].0,
            ) && no_nul_char(rest[i].1) by {
                assert(rest[i] == vars[i + 1]);
            }
        }
        lemma_parse_entry_body(vars[0].0, vars[0].1);
        assert(es.drop_first() =~= rest.map_values(
            |p: (Seq<char>, Seq<char>)| entry_body(p.0, p.1),
        ));
        lemma_parse_bodies(rest);
        assert(seq![(vars[0].0, vars[0].1)] + rest =~= vars);
    } else {
        assert(es =~= Seq::<Seq<u16>>::empty());
    }
}

/// Reading back a block built from `(name, value)` pairs gives exactly those
/// pairs, in order — for every name that is non-empty, holds no NUL and no
/// `'='` after its first character, and every value without a NUL.
pub proof fn lemma_block_round_trip(vars: Seq<(Seq<char>, Seq<char>)>)
    requires
        valid_env_vars(vars),
    ensures
        parse_block(env_block(vars)) == vars,
{
    if vars.len() == 0 {
        let b = env_block(vars);
        assert(nul_position(b) == 0);
        assert(block_entries(b) =~= Seq::<Seq<u16>>::empty());
    } else {
        assert(env_block(vars) =~= env_entries(vars) + seq![0u16]);
        lemma_block_entries(vars, seq![0u16]);
        lemma_parse_bodies(vars);
    }
}

} // verus!
