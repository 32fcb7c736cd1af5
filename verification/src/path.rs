//! Command resolution the way Windows itself resolves a command name
//! (`PATHEXT` extensions tried in order), and the two-attempt
//! buffer-growth rule every length-reporting path query follows.

use vstd::prelude::*;

use crate::error::Win32Error;
use crate::split::{lemma_split_on_nonempty, lemma_split_on_step, nonempty_pieces, split_on};

verus! {

/// `MAX_PATH`, in UTF-16 units: the size of a path query's first buffer.
pub const MAX_PATH: usize = 260;

/// How many times a length-reporting path query is tried before it gives up.
pub const PATH_QUERY_ATTEMPTS: usize = 2;

/// A path-component separator: `\` or `/`.
pub open spec fn is_separator(c: char) -> bool {
    c == '\\' || c == '/'
}

/// The last path component of `s` contains a `.`: some `.` in `s` has no
/// separator after it.
pub open spec fn names_extension(s: Seq<char>) -> bool {
    exists|i: int|
        0 <= i < s.len() && s[i] == '.' && forall|j: int| i < j < s.len() ==> !is_separator(s[j])
}

/// The extensions a `PATHEXT`-style list names, in order: its non-empty
/// `;`-separated entries.
pub open spec fn pathext_entries(pathext: Seq<char>) -> Seq<Seq<char>> {
    nonempty_pieces(split_on(pathext, ';'))
}

/// The extension argument of each search `command` resolves through: the
/// command as it is when it already names an extension, else each
/// `PATHEXT` entry in order.
pub open spec fn command_candidates(command: Seq<char>, pathext: Seq<char>) -> Seq<
    Option<Seq<char>>,
> {
    if names_extension(command) {
        seq![None]
    } else {
        pathext_entries(pathext).map_values(|e: Seq<char>| Some(e))
    }
}

/// The text an optional string holds, if any.
pub open spec fn opt_str_view(e: Option<&str>) -> Option<Seq<char>> {
    match e {
        Some(s) => Some(s@),
        None => None,
    }
}

/// The views of a sequence of strings.
pub open spec fn string_views(v: Seq<String>) -> Seq<Seq<char>> {
    v.map_values(|s: String| s@)
}

/// `out` is a result `search` can give when asked for `command` with the
/// extension `ext`.
pub open spec fn search_gives<F: Fn(&str, Option<&str>) -> Result<Option<String>, Win32Error>>(
    search: F,
    command: &str,
    ext: Option<Seq<char>>,
    out: Result<Option<String>, Win32Error>,
) -> bool {
    exists|e: Option<&str>| opt_str_view(e) == ext && #[trigger] call_ensures(search, (command, e), out)
}

/// `outs` are the results of searching for `command` with the first
/// `outs.len()` candidates in order, stopping at the first that is not
/// `Ok(None)`.
pub open spec fn search_trace<F: Fn(&str, Option<&str>) -> Result<Option<String>, Win32Error>>(
    search: F,
    command: &str,
    cands: Seq<Option<Seq<char>>>,
    outs: Seq<Result<Option<String>, Win32Error>>,
) -> bool {
    &&& outs.len() <= cands.len()
    &&& (cands.len() > 0 ==> outs.len() > 0)
    &&& forall|j: int| 0 <= j < outs.len() ==> search_gives(search, command, cands[j], #[trigger] outs[j])
    &&& forall|j: int| 0 <= j < outs.len() - 1 ==> #[trigger] outs[j] == Ok::<Option<String>, Win32Error>(None)
    &&& outs.len() < cands.len() ==> outs.last() != Ok::<Option<String>, Win32Error>(None)
}

/// What a search trace resolves to: its last result, or "not found" when
/// there was nothing to search.
pub open spec fn trace_result(outs: Seq<Result<Option<String>, Win32Error>>) -> Result<
    Option<String>,
    Win32Error,
> {
    if outs.len() == 0 {
        Ok(None)
    } else {
        outs.last()
    }
}

/// The `char`s of `s`, in order.
pub fn chars_of(s: &str) -> (v: Vec<char>)
    ensures
        v@ == s@,
{
    let mut v: Vec<char> = Vec::new();
    for c in it: s.chars()
        invariant
            it.seq() == s@,
            v@ == it.seq().take(it.index() as int),
    {
        v.push(c);
    }
    v
}

/// Whether the last path component of `command` names an extension.
pub fn command_has_extension(command: &str) -> (b: bool)
    ensures
        b == names_extension(command@),
{
    let cs = chars_of(command);
    let mut i: usize = cs.len();
    while i > 0
        invariant
            cs@ == command@,
            i <= cs@.len(),
            forall|j: int| i <= j < cs@.len() ==> cs@[j] != '.' && !is_separator(cs@[j]),
        decreases i,
    {
        let c = cs[i - 1];
        if c == '.' {
            return true;
        }
        if c == '\\' || c == '/' {
            proof {
                assert forall|k: int|
                    0 <= k < cs@.len() && cs@[k] == '.' implies exists|j: int|
                    k < j < cs@.len() && is_separator(cs@[j]) by {
                    assert(k < i - 1);
                    assert(is_separator(cs@[i - 1]));
                }
            }
            return false;
        }
        i = i - 1;
    }
    false
}

/// The non-empty `;`-separated entries of a `PATHEXT`-style list, in order.
pub fn split_pathext(pathext: &str) -> (entries: Vec<String>)
    ensures
        string_views(entries@) == pathext_entries(pathext@),
{
    let cs = chars_of(pathext);
    let n = cs.len();
    let mut entries: Vec<String> = Vec::new();
    let mut cur = String::new();
    proof {
        assert(cs@.take(0) =~= Seq::<char>::empty());
        assert(string_views(entries@) =~= Seq::<Seq<char>>::empty());
    }
    let mut i: usize = 0;
    while i < n
        invariant
            n == cs@.len(),
            cs@ == pathext@,
            i <= n,
            split_on(cs@.take(i as int), ';').len() >= 1,
            string_views(entries@) == nonempty_pieces(
                split_on(cs@.take(i as int), ';').drop_last(),
            ),
            cur@ == split_on(cs@.take(i as int), ';').last(),
        decreases n - i,
    {
        let ghost done = cs@.take(i as int);
        let ghost p = split_on(done, ';');
        let ghost next = cs@.take(i + 1);
        let c = cs[i];
        proof {
            lemma_split_on_nonempty(done, ';');
            lemma_split_on_step(cs@, i as int, ';');
            assert(next.drop_last() =~= done);
            assert(next.last() == c);
        }
        if c == ';' {
            proof {
                assert(split_on(next, ';') == p.push(Seq::<char>::empty()));
                assert(split_on(next, ';').drop_last() =~= p);
                assert(p.drop_last().push(p.last()) =~= p);
            }
            if !cur.as_str().is_empty() {
                proof {
                    assert(cur@.len() > 0);
                }
                let ghost before = entries@;
                entries.push(cur);
                proof {
                    assert(string_views(entries@) =~= string_views(before).push(p.last()));
                }
            } else {
                proof {
                    assert(cur@.len() == 0);
                }
            }
            cur = String::new();
        } else {
            proof {
                assert(split_on(next, ';') == p.update(p.len() - 1, p.last().push(c)));
                assert(split_on(next, ';').drop_last() =~= p.drop_last());
            }
            crate::wide::push_char(&mut cur, c);
        }
        i = i + 1;
    }
    proof {
        let p = split_on(cs@.take(n as int), ';');
        assert(cs@.take(n as int) =~= pathext@);
        lemma_split_on_nonempty(cs@.take(n as int), ';');
        assert(p.drop_last().push(p.last()) =~= p);
    }
    if !cur.as_str().is_empty() {
        let ghost before = entries@;
        entries.push(cur);
        proof {
            assert(string_views(entries@) =~= string_views(before).push(cur@));
        }
    }
    entries
}

/// Resolves a command name the way Windows resolves one: a name whose last
/// component already has an extension is searched for as it is; otherwise
/// each non-empty `;`-separated entry of `pathext` (the `PATHEXT` format,
/// e.g. `".COM;.EXE;.BAT;.CMD"`) is tried in order as the extension, and
/// the first match wins. `search(name, extension)` is the search itself
/// (`SearchPathW` in its standard directory order): `Ok(None)` when
/// nothing matched, an error stops the resolution.
pub fn resolve_command<F>(command: &str, pathext: &str, search: F) -> (r: Result<
    Option<String>,
    Win32Error,
>) where F: Fn(&str, Option<&str>) -> Result<Option<String>, Win32Error>
    requires
        forall|name: &str, ext: Option<&str>| call_requires(search, (name, ext)),
    ensures
        exists|outs: Seq<Result<Option<String>, Win32Error>>|
            search_trace(search, command, command_candidates(command@, pathext@), outs) && r
                == trace_result(outs),
{
    let ghost cands = command_candidates(command@, pathext@);
    if command_has_extension(command) {
        let out = search(command, None);
        proof {
            let e: Option<&str> = None;
            assert(opt_str_view(e) == cands[0] && call_ensures(search, (command, e), out));
            let outs = seq![out];
            assert(search_trace(search, command, cands, outs));
            assert(search_trace(search, command, command_candidates(command@, pathext@), outs)
                && out == trace_result(outs));
        }
        return out;
    }
    let exts = split_pathext(pathext);
    let n = exts.len();
    let ghost mut outs: Seq<Result<Option<String>, Win32Error>> = Seq::empty();
    proof {
        assert(cands.len() == n);
    }
    let mut i: usize = 0;
    while i < n
        invariant
            n == exts@.len(),
            cands == command_candidates(command@, pathext@),
            !names_extension(command@),
            cands == pathext_entries(pathext@).map_values(|e: Seq<char>| Some(e)),
            string_views(exts@) == pathext_entries(pathext@),
            cands.len() == n,
            forall|name: &str, ext: Option<&str>| call_requires(search, (name, ext)),
            i <= n,
            outs.len() == i,
            forall|j: int| 0 <= j < i ==> search_gives(search, command, cands[j], #[trigger] outs[j]),
            forall|j: int| 0 <= j < i ==> #[trigger] outs[j] == Ok::<Option<String>, Win32Error>(None),
        decreases n - i,
    {
        let e: Option<&str> = Some(exts[i].as_str());
        let out = search(command, e);
        proof {
            assert(string_views(exts@)[i as int] == exts@[i as int]@);
            assert(opt_str_view(e) == cands[i as int]);
            assert(search_gives(search, command, cands[i as int], out));
            outs = outs.push(out);
            assert(outs[i as int] == out);
        }
        match out {
            Ok(None) => {},
            _ => {
                proof {
                    assert(search_trace(search, command, cands, outs));
                    assert(search_trace(search, command, command_candidates(command@, pathext@), outs)
                        && out == trace_result(outs));
                }
                return out;
            },
        }
        i = i + 1;
    }
    proof {
        assert(search_trace(search, command, cands, outs));
        assert(outs.len() > 0 ==> outs.last() == Ok::<Option<String>, Win32Error>(None));
        assert(search_trace(search, command, command_candidates(command@, pathext@), outs)
            && Ok::<Option<String>, Win32Error>(None) == trace_result(outs));
    }
    Ok(None)
}

/// What one attempt of a length-reporting path query (`SearchPathW`,
/// `GetFullPathNameW`, `GetCurrentDirectoryW`, ...) calls for next.
#[derive(Debug, PartialEq, Eq)]
pub enum SizedRead {
    /// The call failed (it reported 0): its error is the thread's last error.
    LastError,
    /// The buffer was too small: retry with one of this many units.
    Grow(usize),
    /// The buffer was too small on the last attempt.
    Failed(Win32Error),
    /// The call filled the buffer: the text it wrote.
    Text(String),
}

/// Decides what attempt number `attempt` (from 0) of a length-reporting
/// path query does with the length `needed` that the call reported over the
/// buffer `buf` it was given: 0 is a failure, a length over the buffer's
/// size asks for a buffer of exactly that size (or, on the last of
/// [`PATH_QUERY_ATTEMPTS`] attempts, fails with `ERROR_INSUFFICIENT_BUFFER`),
/// and any other length is the number of units of text written.
pub fn sized_read_step(attempt: usize, buf: &[u16], needed: u32) -> (s: SizedRead)
    requires
        attempt < PATH_QUERY_ATTEMPTS,
    ensures
        needed == 0 ==> s == SizedRead::LastError,
        needed != 0 && needed > buf@.len() && attempt + 1 < PATH_QUERY_ATTEMPTS ==> s
            == SizedRead::Grow(needed as usize),
        needed != 0 && needed > buf@.len() && attempt + 1 >= PATH_QUERY_ATTEMPTS ==> (s matches SizedRead::Failed(e) && e@ == 122),
        needed != 0 && needed <= buf@.len() ==> (s matches SizedRead::Text(t) && t@
            == crate::wide::decode_utf16_lossy(buf@.take(needed as int))),
{
    if needed == 0 {
        SizedRead::LastError
    } else if needed as usize > buf.len() {
        if attempt + 1 < PATH_QUERY_ATTEMPTS {
            SizedRead::Grow(needed as usize)
        } else {
            SizedRead::Failed(Win32Error::ERROR_INSUFFICIENT_BUFFER())
        }
    } else {
        let text = crate::wide::slice_prefix(buf, needed as usize);
        SizedRead::Text(crate::wide::from_utf16_lossy(text))
    }
}

/// The result of a file search whose call failed with `err`: "not found"
/// (`ERROR_FILE_NOT_FOUND`) is `Ok(None)`, any other error is itself.
pub fn search_failure(err: Win32Error) -> (r: Result<Option<String>, Win32Error>)
    ensures
        err@ == 2 ==> r == Ok::<Option<String>, Win32Error>(None),
        err@ != 2 ==> r == Err::<Option<String>, Win32Error>(err),
{
    if err.code() == 2 {
        Ok(None)
    } else {
        Err(err)
    }
}

} // verus!
