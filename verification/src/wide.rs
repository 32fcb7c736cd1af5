//! UTF-16 ("wide") strings: the encoding every `...W` Win32 entry point
//! takes and returns. Encoding a `&str` into a NUL-terminated UTF-16
//! buffer, and decoding a returned buffer back (lossily: an unpaired
//! surrogate becomes U+FFFD, the same rule `String::from_utf16_lossy`
//! applies), are modelled here over `Seq<char>`/`Seq<u16>`.

use vstd::prelude::*;

verus! {

/// U+FFFD REPLACEMENT CHARACTER, what a lossy decode puts in place of an
/// unpaired surrogate.
pub open spec fn replacement_char() -> char {
    '\u{FFFD}'
}

pub open spec fn is_high_surrogate(u: u16) -> bool {
    0xD800 <= u <= 0xDBFF
}

pub open spec fn is_low_surrogate(u: u16) -> bool {
    0xDC00 <= u <= 0xDFFF
}

pub open spec fn is_surrogate(u: u16) -> bool {
    0xD800 <= u <= 0xDFFF
}

/// The code point a surrogate pair stands for.
pub open spec fn pair_code_point(hi: u16, lo: u16) -> int {
    0x10000 + (hi - 0xD800) * 0x400 + (lo - 0xDC00)
}

/// The UTF-16 code units of one `char`.
pub open spec fn encode_char(c: char) -> Seq<u16> {
    let v = (c as u32) as int;
    if v < 0x10000 {
        seq![v as u16]
    } else {
        let w = v - 0x10000;
        seq![(0xD800 + w / 0x400) as u16, (0xDC00 + w % 0x400) as u16]
    }
}

/// The UTF-16 encoding of a whole string (no terminator).
pub open spec fn encode_utf16(s: Seq<char>) -> Seq<u16>
    decreases s.len(),
{
    if s.len() == 0 {
        Seq::empty()
    } else {
        encode_char(s[0]) + encode_utf16(s.drop_first())
    }
}

/// `encode_utf16(s)` followed by a terminating NUL unit.
pub open spec fn encode_wide(s: Seq<char>) -> Seq<u16> {
    encode_utf16(s).push(0u16)
}

/// How many units the first decoded `char` of `u` consumes (1 or 2).
pub open spec fn first_char_width(u: Seq<u16>) -> int
    recommends
        u.len() > 0,
{
    if is_high_surrogate(u[0]) && u.len() >= 2 && is_low_surrogate(u[1]) {
        2
    } else {
        1
    }
}

/// The first `char` a lossy decode of `u` produces.
pub open spec fn first_char(u: Seq<u16>) -> char
    recommends
        u.len() > 0,
{
    if is_high_surrogate(u[0]) && u.len() >= 2 && is_low_surrogate(u[1]) {
        pair_code_point(u[0], u[1]) as char
    } else if is_surrogate(u[0]) {
        replacement_char()
    } else {
        u[0] as char
    }
}

/// Lossy UTF-16 decoding: well-formed pairs and non-surrogate units decode
/// to their `char`; every unpaired surrogate becomes U+FFFD.
pub open spec fn decode_utf16_lossy(u: Seq<u16>) -> Seq<char>
    decreases u.len(),
{
    if u.len() == 0 {
        Seq::empty()
    } else {
        seq![first_char(u)] + decode_utf16_lossy(u.skip(first_char_width(u)))
    }
}

/// Index of the first NUL unit of `u`, or `u.len()` when there is none.
pub open spec fn nul_position(u: Seq<u16>) -> int
    decreases u.len(),
{
    if u.len() == 0 {
        0
    } else if u[0] == 0 {
        0
    } else {
        1 + nul_position(u.drop_first())
    }
}

/// Decoding of a fixed buffer up to (not including) its first NUL.
pub open spec fn decode_until_nul(u: Seq<u16>) -> Seq<char> {
    decode_utf16_lossy(u.take(nul_position(u)))
}

/// The little-endian `u16` at byte offset `i` of `b`.
pub open spec fn le_u16_at(b: Seq<u8>, i: int) -> u16 {
    (b[i] + 256 * b[i + 1]) as u16
}

/// `b` read as consecutive little-endian `u16` units; a trailing odd byte
/// is ignored.
pub open spec fn le_units(b: Seq<u8>) -> Seq<u16> {
    Seq::new(b.len() / 2, |i: int| le_u16_at(b, 2 * i))
}

/// `s` holds no U+0000 character.
pub open spec fn no_nul_char(s: Seq<char>) -> bool {
    forall|i: int| 0 <= i < s.len() ==> (s[i] as u32) != 0
}

pub open spec fn is_unicode_scalar(v: int) -> bool {
    (0 <= v <= 0xD7FF) || (0xE000 <= v <= 0x10FFFF)
}

/// `char::from_u32`: `Some` exactly for a Unicode scalar value, which it
/// returns as that `char`.
#[verifier::external_body]
fn char_from_u32(v: u32) -> (r: Option<char>)
    ensures
        r == (if is_unicode_scalar(v as int) {
            Some(v as char)
        } else {
            None::<char>
        }),
{
    char::from_u32(v)
}

/// `String::push`: appends one `char` to the end of the string.
#[verifier::external_body]
pub(crate) fn push_char(s: &mut String, c: char)
    ensures
        final(s)@ == old(s)@.push(c),
{
    s.push(c)
}

pub proof fn lemma_encode_char_len(c: char)
    ensures
        1 <= encode_char(c).len() <= 2,
{
}

/// Encoding distributes over concatenation.
pub proof fn lemma_encode_append(a: Seq<char>, b: Seq<char>)
    ensures
        encode_utf16(a + b) == encode_utf16(a) + encode_utf16(b),
    decreases a.len(),
{
    if a.len() == 0 {
        assert(a + b =~= b);
        assert(encode_utf16(a) =~= Seq::<u16>::empty());
        assert(encode_utf16(a) + encode_utf16(b) =~= encode_utf16(b));
    } else {
        assert((a + b).drop_first() =~= a.drop_first() + b);
        assert((a + b)[0] == a[0]);
        lemma_encode_append(a.drop_first(), b);
        assert(encode_utf16(a + b) =~= encode_char(a[0]) + (encode_utf16(a.drop_first())
            + encode_utf16(b)));
    }
}

proof fn lemma_encode_push(a: Seq<char>, c: char)
    ensures
        encode_utf16(a.push(c)) == encode_utf16(a) + encode_char(c),
{
    lemma_encode_append(a, seq![c]);
    assert(a.push(c) =~= a + seq![c]);
    assert(seq![c].drop_first() =~= Seq::<char>::empty());
    assert(encode_utf16(seq![c]) =~= encode_char(c) + encode_utf16(Seq::<char>::empty()));
    assert(encode_utf16(Seq::<char>::empty()) =~= Seq::<u16>::empty());
    assert(encode_utf16(seq![c]) =~= encode_char(c));
}

pub proof fn lemma_pair_decodes(c: char)
    requires
        (c as u32) as int >= 0x10000,
    ensures
        is_high_surrogate(encode_char(c)[0]),
        is_low_surrogate(encode_char(c)[1]),
        pair_code_point(encode_char(c)[0], encode_char(c)[1]) == (c as u32) as int,
{
    let v = (c as u32) as int;
    let w = v - 0x10000;
    assert(0 <= w <= 0xFFFFF);
    assert(0 <= w / 0x400 <= 0x3FF);
    assert(0 <= w % 0x400 < 0x400);
    assert(w == 0x400 * (w / 0x400) + w % 0x400);
}

/// Decoding the encoding of one `char` followed by anything gives that
/// `char` followed by the decoding of the rest.
proof fn lemma_decode_after_char(c: char, rest: Seq<u16>)
    ensures
        decode_utf16_lossy(encode_char(c) + rest) == seq![c] + decode_utf16_lossy(rest),
{
    let u = encode_char(c) + rest;
    let v = (c as u32) as int;
    if v < 0x10000 {
        assert(u[0] == v as u16);
        assert(!is_surrogate(u[0]));
        assert(first_char_width(u) == 1);
        assert(u.skip(1) =~= rest);
        assert((v as u16) as int == v);
        assert(first_char(u) == (v as u16) as char);
    } else {
        lemma_pair_decodes(c);
        assert(u[0] == encode_char(c)[0]);
        assert(u[1] == encode_char(c)[1]);
        assert(first_char_width(u) == 2);
        assert(u.skip(2) =~= rest);
        assert(first_char(u) == c);
    }
}

/// Decoding undoes encoding, for every string.
pub proof fn lemma_decode_encode(s: Seq<char>)
    ensures
        decode_utf16_lossy(encode_utf16(s)) == s,
    decreases s.len(),
{
    if s.len() == 0 {
        assert(encode_utf16(s) =~= Seq::<u16>::empty());
    } else {
        lemma_decode_encode(s.drop_first());
        lemma_decode_after_char(s[0], encode_utf16(s.drop_first()));
        assert(seq![s[0]] + s.drop_first() =~= s);
    }
}

/// No unit of the encoding of a string without NUL is NUL.
pub proof fn lemma_encode_no_nul(s: Seq<char>)
    requires
        no_nul_char(s),
    ensures
        forall|j: int| 0 <= j < encode_utf16(s).len() ==> encode_utf16(s)[j] != 0,
    decreases s.len(),
{
    if s.len() > 0 {
        assert(no_nul_char(s.drop_first())) by {
            assert forall|i: int| 0 <= i < s.drop_first().len() implies (s.drop_first()[i] as u32)
                != 0 by {
                assert(s.drop_first()[i] == s[i + 1]);
            }
        }
        lemma_encode_no_nul(s.drop_first());
        assert((s[0] as u32) != 0);
        let e = encode_char(s[0]);
        if (s[0] as u32) >= 0x10000 {
            lemma_pair_decodes(s[0]);
        }
        assert forall|j: int| 0 <= j < encode_utf16(s).len() implies encode_utf16(s)[j] != 0 by {
            if j < e.len() {
                assert(encode_utf16(s)[j] == e[j]);
            } else {
                assert(encode_utf16(s)[j] == encode_utf16(s.drop_first())[j - e.len()]);
            }
        }
    }
}

pub proof fn lemma_nul_position_of_prefix(u: Seq<u16>, k: int)
    requires
        0 <= k < u.len(),
        u[k] == 0,
        forall|j: int| 0 <= j < k ==> u[j] != 0,
    ensures
        nul_position(u) == k,
    decreases k,
{
    if k > 0 {
        lemma_nul_position_of_prefix(u.drop_first(), k - 1);
    }
}

proof fn lemma_nul_position_none(u: Seq<u16>)
    requires
        forall|j: int| 0 <= j < u.len() ==> u[j] != 0,
    ensures
        nul_position(u) == u.len(),
    decreases u.len(),
{
    if u.len() > 0 {
        lemma_nul_position_none(u.drop_first());
    }
}

pub proof fn lemma_nul_position_bounds(u: Seq<u16>)
    ensures
        0 <= nul_position(u) <= u.len(),
        nul_position(u) < u.len() ==> u[nul_position(u)] == 0,
        forall|j: int| 0 <= j < nul_position(u) ==> u[j] != 0,
    decreases u.len(),
{
    if u.len() > 0 && u[0] != 0 {
        let t = u.drop_first();
        lemma_nul_position_bounds(t);
        assert forall|j: int| 0 <= j < nul_position(u) implies u[j] != 0 by {
            if j > 0 {
                assert(u[j] == t[j - 1]);
            }
        }
    }
}

/// Reading a NUL-terminated buffer back gives the original string, for
/// every string that holds no NUL of its own.
pub proof fn lemma_wide_round_trip(s: Seq<char>)
    requires
        no_nul_char(s),
    ensures
        decode_until_nul(encode_wide(s)) == s,
{
    let e = encode_utf16(s);
    lemma_encode_no_nul(s);
    let w = encode_wide(s);
    assert forall|j: int| 0 <= j < e.len() implies w[j] != 0 by {
        assert(w[j] == e[j]);
    }
    lemma_nul_position_of_prefix(w, e.len() as int);
    assert(w.take(e.len() as int) =~= e);
    lemma_decode_encode(s);
}

/// The lossy decoding of one step, as the decode loop performs it.
proof fn lemma_decode_step(u: Seq<u16>, i: int)
    requires
        0 <= i < u.len(),
    ensures
        decode_utf16_lossy(u.skip(i)) == seq![first_char(u.skip(i))] + decode_utf16_lossy(
            u.skip(i + first_char_width(u.skip(i))),
        ),
        first_char_width(u.skip(i)) == 1 || first_char_width(u.skip(i)) == 2,
        i + first_char_width(u.skip(i)) <= u.len(),
{
    let t = u.skip(i);
    assert(t.len() > 0);
    assert(t.skip(first_char_width(t)) =~= u.skip(i + first_char_width(t)));
}

/// Encodes `s` as UTF-16 and appends the units to `out`.
pub fn push_utf16(out: &mut Vec<u16>, s: &str)
    ensures
        final(out)@ == old(out)@ + encode_utf16(s@),
{
    let ghost start = out@;
    let ghost mut done: Seq<char> = Seq::empty();
    proof {
        assert(encode_utf16(done) =~= Seq::<u16>::empty());
        assert(out@ =~= start + encode_utf16(done));
    }
    for c in it: s.chars()
        invariant
            it.seq() == s@,
            done == it.seq().take(it.index() as int),
            out@ == start + encode_utf16(done),
    {
        let ghost before = done;
        let v = c as u32;
        proof {
            lemma_encode_char_len(c);
            vstd::utf8::char_is_scalar(c);
        }
        if v < 0x10000 {
            out.push(v as u16);
        } else {
            let w = v - 0x10000;
            assert(w <= 0xFFFFF);
            let hi = (0xD800 + w / 0x400) as u16;
            let lo = (0xDC00 + w % 0x400) as u16;
            assert(hi == encode_char(c)[0]);
            assert(lo == encode_char(c)[1]);
            out.push(hi);
            out.push(lo);
        }
        proof {
            done = before.push(c);
            lemma_encode_push(before, c);
            assert(out@ =~= start + encode_utf16(done));
        }
    }
    proof {
        assert(done =~= s@);
    }
}

/// `s` as a NUL-terminated UTF-16 buffer, the form every `...W` call takes.
pub fn to_wide(s: &str) -> (w: Vec<u16>)
    ensures
        w@ == encode_wide(s@),
{
    let mut w: Vec<u16> = Vec::new();
    push_utf16(&mut w, s);
    w.push(0);
    w
}

/// The `char`s of a lossy UTF-16 decoding of `units`.
pub fn decode_chars(units: &[u16]) -> (s: Vec<char>)
    ensures
        s@ == decode_utf16_lossy(units@),
{
    let mut s: Vec<char> = Vec::new();
    let n = units.len();
    let mut i: usize = 0;
    proof {
        assert(units@.skip(0) =~= units@);
    }
    while i < n
        invariant
            n == units@.len(),
            i <= n,
            decode_utf16_lossy(units@) == s@ + decode_utf16_lossy(units@.skip(i as int)),
        decreases n - i,
    {
        proof {
            lemma_decode_step(units@, i as int);
        }
        let ghost t = units@.skip(i as int);
        let u = units[i];
        assert(t[0] == u);
        let c: char;
        if 0xD800 <= u && u <= 0xDBFF && i + 1 < n && 0xDC00 <= units[i + 1] && units[i + 1]
            <= 0xDFFF {
            let lo = units[i + 1];
            assert(t[1] == lo);
            let cp: u32 = 0x10000 + (u as u32 - 0xD800) * 0x400 + (lo as u32 - 0xDC00);
            assert(cp as int == pair_code_point(u, lo));
            match char_from_u32(cp) {
                Some(ch) => {
                    c = ch;
                },
                None => {
                    c = '\u{FFFD}';
                    assert(false);
                },
            }
            i = i + 2;
        } else {
            if 0xD800 <= u && u <= 0xDFFF {
                c = '\u{FFFD}';
            } else {
                match char_from_u32(u as u32) {
                    Some(ch) => {
                        c = ch;
                    },
                    None => {
                        c = '\u{FFFD}';
                        assert(false);
                    },
                }
            }
            i = i + 1;
        }
        assert(c == first_char(t));
        let ghost before = s@;
        s.push(c);
        assert(s@ + decode_utf16_lossy(units@.skip(i as int)) =~= before + (seq![c]
            + decode_utf16_lossy(units@.skip(i as int))));
    }
    proof {
        assert(units@.skip(n as int) =~= Seq::<u16>::empty());
        assert(s@ + decode_utf16_lossy(Seq::<u16>::empty()) =~= s@);
    }
    s
}

/// A `String` holding exactly `chars`.
pub fn string_from_chars(chars: &[char]) -> (s: String)
    ensures
        s@ == chars@,
{
    let mut s = String::new();
    let n = chars.len();
    let mut i: usize = 0;
    while i < n
        invariant
            n == chars@.len(),
            i <= n,
            s@ =~= chars@.take(i as int),
        decreases n - i,
    {
        push_char(&mut s, chars[i]);
        i = i + 1;
    }
    s
}

/// Lossy UTF-16 decoding of `units` — every unpaired surrogate becomes
/// U+FFFD.
pub fn from_utf16_lossy(units: &[u16]) -> (s: String)
    ensures
        s@ == decode_utf16_lossy(units@),
{
    let chars = decode_chars(units);
    string_from_chars(chars.as_slice())
}

/// Index of the first NUL unit of `units`, or its length if none.
pub fn find_nul(units: &[u16]) -> (k: usize)
    ensures
        k == nul_position(units@),
{
    let n = units.len();
    let mut k: usize = 0;
    while k < n
        invariant
            n == units@.len(),
            k <= n,
            forall|j: int| 0 <= j < k ==> units@[j] != 0,
        decreases n - k,
    {
        if units[k] == 0 {
            proof {
                lemma_nul_position_of_prefix(units@, k as int);
            }
            return k;
        }
        k = k + 1;
    }
    proof {
        lemma_nul_position_none(units@);
    }
    k
}

/// Decodes a fixed-size buffer up to its first NUL (or the whole buffer,
/// if it holds none) — the shape of every fixed `[u16; N]` name field a
/// Win32 struct carries.
pub fn from_wide(units: &[u16]) -> (s: String)
    ensures
        s@ == decode_until_nul(units@),
{
    let k = find_nul(units);
    proof {
        lemma_nul_position_bounds(units@);
    }
    let prefix = slice_prefix(units, k);
    from_utf16_lossy(prefix)
}

/// `&units[..k]`.
pub(crate) fn slice_prefix<T>(units: &[T], k: usize) -> (p: &[T])
    requires
        k <= units@.len(),
    ensures
        p@ == units@.take(k as int),
{
    let p = &units[0..k];
    assert(p@ =~= units@.take(k as int));
    p
}

/// `&units[a..b]`.
pub(crate) fn slice_range<T>(units: &[T], a: usize, b: usize) -> (p: &[T])
    requires
        a <= b <= units@.len(),
    ensures
        p@ == units@.subrange(a as int, b as int),
{
    &units[a..b]
}

/// Reads `bytes` as consecutive little-endian `u16` units (a trailing odd
/// byte is ignored).
pub fn le_bytes_to_units(bytes: &[u8]) -> (u: Vec<u16>)
    ensures
        u@ == le_units(bytes@),
{
    let n = bytes.len() / 2;
    let mut u: Vec<u16> = Vec::new();
    let mut i: usize = 0;
    while i < n
        invariant
            n == bytes@.len() / 2,
            2 * n <= bytes@.len(),
            bytes@.len() <= usize::MAX,
            i <= n,
            u@ =~= le_units(bytes@).take(i as int),
        decreases n - i,
    {
        assert(2 * i + 1 < bytes@.len());
        let lo = bytes[2 * i];
        let hi = bytes[2 * i + 1];
        let v: u16 = lo as u16 + 256 * (hi as u16);
        u.push(v);
        i = i + 1;
    }
    u
}

} // verus!
