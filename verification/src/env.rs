//! Rules for reading configuration from the environment and from `.env`
//! files. The environment and the files are read elsewhere; here stand the
//! grammar of a line and the decisions made on what was read.

use crate::text::{chars_of, find_char, position, trim, trimmed};
use vstd::prelude::*;
use vstd::string::*;

verus! {

/// The byte-order mark that some editors put before the first key of a file.
pub const BYTE_ORDER_MARK: char = '\u{feff}';

/// The characters of the message for a variable that is required and missing.
pub open spec fn missing_var_message(key: Seq<char>, hint: Seq<char>) -> Seq<char> {
    "Missing required env var: "@ + key + ". "@ + hint
}

/// How a yes or no is written in a hint.
pub open spec fn flag_text(flag: bool) -> Seq<char> {
    if flag {
        "true"@
    } else {
        "false"@
    }
}

/// The characters of the hint that says where configuration was looked
/// for: the working directory, and for each of the three places whether a
/// `.env` file is there.
pub open spec fn debug_hint_text(cwd: Seq<char>, here: bool, backend: bool, parent: bool) -> Seq<
    char,
> {
    "cwd="@ + cwd + "; .env exists? "@ + flag_text(here) + " ; backend/.env exists? "@
        + flag_text(backend) + " ; ../.env exists? "@ + flag_text(parent)
}

/// `s` without the byte-order marks that it begins with.
pub open spec fn strip_marks(s: Seq<char>) -> Seq<char>
    decreases s.len(),
{
    if s.len() > 0 && s[0] == BYTE_ORDER_MARK {
        strip_marks(s.drop_first())
    } else {
        s
    }
}

/// `v` without the pair of double quotes around it, if there is one.
pub open spec fn unquote(v: Seq<char>) -> Seq<char> {
    if v.len() >= 2 && v[0] == '"' && v.last() == '"' {
        v.subrange(1, v.len() - 1)
    } else {
        v
    }
}

/// The key and the value that a line of a `.env` file sets, if it sets
/// any. The line is trimmed; an empty line and a line that begins with `#`
/// set nothing, nor does a line without `=`. The key stands before the
/// first `=`, trimmed and then freed of leading byte-order marks, and must
/// not be empty; the value is the rest, trimmed and unquoted.
pub open spec fn env_entry(line: Seq<char>) -> Option<(Seq<char>, Seq<char>)> {
    let l = trim(line);
    let at = position(l, '=');
    let key = strip_marks(trim(l.subrange(0, at)));
    if l.len() == 0 || l[0] == '#' || !l.contains('=') || key.len() == 0 {
        None
    } else {
        Some((key, unquote(trim(l.subrange(at + 1, l.len() as int)))))
    }
}

/// The characters of an entry.
pub open spec fn entry_view(e: Option<(String, String)>) -> Option<(Seq<char>, Seq<char>)> {
    match e {
        Some((k, v)) => Some((k@, v@)),
        None => None,
    }
}

/// Skipping `k` leading byte-order marks that are followed by the end of
/// the string or by another character is `strip_marks`.
pub proof fn lemma_strip_marks(s: Seq<char>, k: int)
    requires
        0 <= k <= s.len(),
        forall|j: int| 0 <= j < k ==> s[j] == BYTE_ORDER_MARK,
        k < s.len() ==> s[k] != BYTE_ORDER_MARK,
    ensures
        strip_marks(s) == s.subrange(k, s.len() as int),
    decreases k,
{
    if k == 0 {
        assert(s.subrange(0, s.len() as int) =~= s);
    } else {
        let t = s.drop_first();
        assert forall|j: int| 0 <= j < k - 1 implies t[j] == BYTE_ORDER_MARK by {
            assert(t[j] == s[j + 1]);
        }
        lemma_strip_marks(t, k - 1);
        assert(t.subrange(k - 1, t.len() as int) =~= s.subrange(k, s.len() as int));
    }
}

fn without_marks(s: &str) -> (r: &str)
    ensures
        r@ == strip_marks(s@),
{
    let v = chars_of(s);
    let mut k: usize = 0;
    while k < v.len() && v[k] == BYTE_ORDER_MARK
        invariant
            k <= v@.len(),
            forall|j: int| 0 <= j < k ==> v@[j] == BYTE_ORDER_MARK,
        decreases v@.len() - k,
    {
        k += 1;
    }
    proof {
        lemma_strip_marks(s@, k as int);
    }
    s.substring_char(k, v.len())
}

fn without_quotes(s: &str) -> (r: &str)
    ensures
        r@ == unquote(s@),
{
    let v = chars_of(s);
    let n = v.len();
    if n >= 2 && v[0] == '"' && v[n - 1] == '"' {
        s.substring_char(1, n - 1)
    } else {
        s
    }
}

/// Reads one line of a `.env` file.
pub fn parse_env_line(line: &str) -> (r: Option<(String, String)>)
    ensures
        entry_view(r) == env_entry(line@),
{
    let l = trimmed(line);
    let v = chars_of(l);
    if v.len() == 0 || v[0] == '#' {
        return None;
    }
    let at = find_char(&v, '=');
    if at == v.len() {
        return None;
    }
    let key = without_marks(trimmed(l.substring_char(0, at)));
    if key.is_empty() {
        return None;
    }
    let value = without_quotes(trimmed(l.substring_char(at + 1, v.len())));
    Some((String::from_str(key), String::from_str(value)))
}

fn flag_str(flag: bool) -> (r: &'static str)
    ensures
        r@ == flag_text(flag),
{
    if flag {
        "true"
    } else {
        "false"
    }
}

/// The hint that says where configuration was looked for.
pub fn debug_hint(cwd: &str, here: bool, backend: bool, parent: bool) -> (r: String)
    ensures
        r@ == debug_hint_text(cwd@, here, backend, parent),
{
    String::from_str("cwd=").concat(cwd).concat("; .env exists? ").concat(flag_str(here)).concat(
        " ; backend/.env exists? ",
    ).concat(flag_str(backend)).concat(" ; ../.env exists? ").concat(flag_str(parent))
}

/// The name under which a variable is found when a byte-order mark got
/// stuck to its key: the mark, then the key.
pub fn marked_key(key: &str) -> (r: String)
    ensures
        r@ == seq![BYTE_ORDER_MARK] + key@,
{
    proof {
        reveal_strlit("\u{feff}");
    }
    let r = String::from_str("\u{feff}").concat(key);
    assert(r@ =~= seq![BYTE_ORDER_MARK] + key@);
    r
}

/// The value of a variable, given what the environment holds under its key
/// and under its key with a byte-order mark: the first of the two that is there.
pub fn get_var(plain: Option<String>, marked: Option<String>) -> (r: Option<String>)
    ensures
        r == (if plain is Some {
            plain
        } else {
            marked
        }),
{
    match plain {
        Some(v) => Some(v),
        None => marked,
    }
}

/// The value of a required variable, or the message that says which
/// variable is missing, followed by a hint on where it was looked for.
pub fn require_var(key: &str, value: Option<String>, hint: &str) -> (r: Result<String, String>)
    ensures
        match value {
            Some(v) => r == Ok::<String, String>(v),
            None => r matches Err(m) && m@ == missing_var_message(key@, hint@),
        },
{
    match value {
        Some(v) => Ok(v),
        None => {
            let m = String::from_str("Missing required env var: ").concat(key).concat(
                ". ",
            ).concat(hint);
            Err(m)
        },
    }
}

} // verus!
