//! Character-level text utilities shared by the player logic.
//!
//! Strings are modelled by their views, sequences of `char`.  The few
//! operations whose behaviour depends on Unicode tables or on the platform's
//! path rules are taken from std through trusted wrappers; the rest is
//! written and proved here.
use vstd::prelude::*;

verus! {

// ---------------------------------------------------------------------------
// Specifications
// ---------------------------------------------------------------------------

/// What `str::to_lowercase` returns for a string, as a sequence of chars.
pub uninterp spec fn lowercase(s: Seq<char>) -> Seq<char>;

/// What `Path::new(p).file_name()` returns for a path, converted to text.
pub uninterp spec fn path_file_name(p: Seq<char>) -> Option<Seq<char>>;

/// The chars of `needle` occur in `hay` in order, other chars allowed
/// between them: `needle` is a subsequence of `hay`.
pub open spec fn seq_has_in_order(hay: Seq<char>, needle: Seq<char>) -> bool
    decreases hay.len(),
{
    if needle.len() == 0 {
        true
    } else if hay.len() == 0 {
        false
    } else {
        ||| (hay[0] == needle[0] && seq_has_in_order(hay.drop_first(), needle.drop_first()))
        ||| seq_has_in_order(hay.drop_first(), needle)
    }
}

/// `s` begins with `prefix`.
pub open spec fn seq_starts_with(s: Seq<char>, prefix: Seq<char>) -> bool {
    prefix.len() <= s.len() && s.subrange(0, prefix.len() as int) == prefix
}

/// The Unicode `White_Space` property, which `char::is_whitespace` tests.
pub open spec fn spec_is_whitespace(c: char) -> bool {
    let u = c as u32;
    ||| 0x09 <= u <= 0x0d
    ||| u == 0x20
    ||| u == 0x85
    ||| u == 0xa0
    ||| u == 0x1680
    ||| 0x2000 <= u <= 0x200a
    ||| u == 0x2028
    ||| u == 0x2029
    ||| u == 0x202f
    ||| u == 0x205f
    ||| u == 0x3000
}

/// The string holds only whitespace, i.e. `s.trim().is_empty()`.
pub open spec fn spec_is_blank(s: Seq<char>) -> bool {
    forall|i: int| 0 <= i < s.len() ==> spec_is_whitespace(#[trigger] s[i])
}

/// ASCII lower-casing of one char; other chars are left alone.
pub open spec fn ascii_lower(c: char) -> char {
    if 'A' <= c && c <= 'Z' {
        ((c as u32) + 32) as char
    } else {
        c
    }
}

/// The two strings are equal once ASCII letters are lower-cased
/// (`str::eq_ignore_ascii_case`).
pub open spec fn spec_eq_ignore_ascii_case(a: Seq<char>, b: Seq<char>) -> bool {
    a.len() == b.len() && forall|i: int| 0 <= i < a.len() ==> ascii_lower(#[trigger] a[i])
        == ascii_lower(b[i])
}

/// The string with every trailing `'/'` removed (`trim_end_matches('/')`).
pub open spec fn trim_trailing_slashes(s: Seq<char>) -> Seq<char>
    decreases s.len(),
{
    if s.len() > 0 && s.last() == '/' {
        trim_trailing_slashes(s.drop_last())
    } else {
        s
    }
}

/// The chars after the last `'/'` of `p` (all of `p` when it has none).
pub open spec fn last_piece(p: Seq<char>) -> Seq<char>
    decreases p.len(),
{
    if p.len() == 0 || p.last() == '/' {
        Seq::empty()
    } else {
        last_piece(p.drop_last()).push(p.last())
    }
}

/// The final component of a `/`-separated path, as `Path::file_name`
/// finds it: separators at the end and `.` components are passed over, and
/// there is none when the path is empty, is the root, or ends in `..`.
pub open spec fn slash_path_file_name(p: Seq<char>) -> Option<Seq<char>>
    decreases p.len(),
{
    if p.len() == 0 {
        None
    } else if p.last() == '/' {
        slash_path_file_name(p.drop_last())
    } else if p.last() == '.' && (p.len() == 1 || p[p.len() - 2] == '/') {
        slash_path_file_name(p.drop_last())
    } else if last_piece(p) == ".."@ {
        None
    } else {
        Some(last_piece(p))
    }
}

/// A path that every target splits at `/` alone: no backslash, no `:` (which
/// could start a drive prefix) and no leading `//`.
pub open spec fn is_plain_slash_path(p: Seq<char>) -> bool {
    &&& forall|i: int| 0 <= i < p.len() ==> #[trigger] p[i] != '\\' && p[i] != ':'
    &&& !(p.len() >= 2 && p[0] == '/' && p[1] == '/')
}

/// The last component of a path, or the whole path when it has none.
pub open spec fn file_name_or_path(p: Seq<char>) -> Seq<char> {
    match path_file_name(p) {
        Some(name) => name,
        None => p,
    }
}

/// Dropping the first char of `needle` keeps it in order in `hay`.
pub proof fn lemma_in_order_drop_first(hay: Seq<char>, needle: Seq<char>)
    requires
        needle.len() > 0,
        seq_has_in_order(hay, needle),
    ensures
        seq_has_in_order(hay, needle.drop_first()),
    decreases hay.len(),
{
    if hay.len() > 0 {
        if seq_has_in_order(hay.drop_first(), needle) {
            lemma_in_order_drop_first(hay.drop_first(), needle);
        }
    }
}

/// A prefix of `needle` occurs in order wherever `needle` does.
pub proof fn lemma_in_order_prefix(hay: Seq<char>, needle: Seq<char>, more: Seq<char>)
    requires
        seq_has_in_order(hay, needle + more),
    ensures
        seq_has_in_order(hay, needle),
    decreases hay.len(),
{
    let whole = needle + more;
    if needle.len() > 0 && hay.len() > 0 {
        assert(whole.drop_first() =~= needle.drop_first() + more);
        if hay[0] == whole[0] && seq_has_in_order(hay.drop_first(), whole.drop_first()) {
            lemma_in_order_prefix(hay.drop_first(), needle.drop_first(), more);
        } else {
            lemma_in_order_prefix(hay.drop_first(), needle, more);
        }
    }
}

// ---------------------------------------------------------------------------
// Trusted wrappers around std
// ---------------------------------------------------------------------------

/// Calls `str::to_lowercase`.  The result is named `lowercase(s@)`: it is
/// fixed by the Unicode case tables of std and by nothing else.
#[verifier::external_body]
pub(crate) fn to_lowercase(s: &str) -> (out: String)
    ensures
        out@ == lowercase(s@),
{
    s.to_lowercase()
}

/// Calls `Path::file_name` on `p` and converts the component to text.  The
/// result is named `path_file_name(p@)`.  For a path given as UTF-8 text the
/// component is a slice of it, so the lossy conversion loses nothing.  For a
/// path split at `/` alone the result is stated: the final component after
/// trailing separators and `.` components, none for an empty path, the root
/// or a final `..`.  How other paths split (at a backslash, or after a drive prefix) depends
/// on the target and is left to the name.
#[verifier::external_body]
pub(crate) fn file_name_of(p: &str) -> (out: Option<String>)
    ensures
        match out {
            Some(name) => path_file_name(p@) == Some(name@),
            None => path_file_name(p@) is None,
        },
        is_plain_slash_path(p@) ==> match out {
            Some(name) => slash_path_file_name(p@) == Some(name@),
            None => slash_path_file_name(p@) is None,
        },
{
    std::path::Path::new(p).file_name().map(|n| n.to_string_lossy().to_string())
}

/// Calls `String::push`, which appends one char.
#[verifier::external_body]
pub(crate) fn push_char(s: &mut String, c: char)
    ensures
        final(s)@ == old(s)@.push(c),
{
    s.push(c)
}

/// Calls `String::pop`, which removes and returns the last char, if any.
#[verifier::external_body]
pub(crate) fn pop_char(s: &mut String) -> (out: Option<char>)
    ensures
        old(s)@.len() == 0 ==> out is None && final(s)@ == old(s)@,
        old(s)@.len() > 0 ==> out == Some(old(s)@.last()) && final(s)@ == old(s)@.drop_last(),
{
    s.pop()
}

// ---------------------------------------------------------------------------
// Verified operations
// ---------------------------------------------------------------------------

/// The characters of a string, in order.
pub fn chars_of(s: &str) -> (out: Vec<char>)
    ensures
        out@ == s@,
{
    let mut out: Vec<char> = Vec::new();
    for c in it: s.chars()
        invariant
            out@ == it.seq().take(it.index() as int),
            it.seq() == s@,
    {
        out.push(c);
    }
    out
}

/// A string holding exactly the given characters.
pub fn string_from_chars(cs: &Vec<char>) -> (out: String)
    ensures
        out@ == cs@,
{
    let mut out = String::new();
    let mut i: usize = 0;
    while i < cs.len()
        invariant
            i <= cs.len(),
            out@ == cs@.take(i as int),
        decreases cs.len() - i,
    {
        push_char(&mut out, cs[i]);
        assert(cs@.take(i as int).push(cs@[i as int]) =~= cs@.take(i + 1));
        i = i + 1;
    }
    assert(cs@.take(cs.len() as int) =~= cs@);
    out
}

/// `s` followed by `t`, as a new string.
pub fn join_str(s: &str, t: &str) -> (out: String)
    ensures
        out@ == s@ + t@,
{
    let mut out = String::from_str(s);
    out.append(t);
    out
}

/// `char::is_whitespace`.
pub fn is_whitespace(c: char) -> (b: bool)
    ensures
        b == spec_is_whitespace(c),
{
    let u = c as u32;
    (0x09 <= u && u <= 0x0d) || u == 0x20 || u == 0x85 || u == 0xa0 || u == 0x1680 || (0x2000
        <= u && u <= 0x200a) || u == 0x2028 || u == 0x2029 || u == 0x202f || u == 0x205f || u
        == 0x3000
}

/// `s.trim().is_empty()`: the string holds only whitespace.
pub fn is_blank(s: &str) -> (b: bool)
    ensures
        b == spec_is_blank(s@),
{
    let cs = chars_of(s);
    let mut i: usize = 0;
    while i < cs.len()
        invariant
            i <= cs.len(),
            cs@ == s@,
            forall|j: int| 0 <= j < i ==> spec_is_whitespace(#[trigger] cs@[j]),
        decreases cs.len() - i,
    {
        if !is_whitespace(cs[i]) {
            return false;
        }
        i = i + 1;
    }
    true
}

/// Whether `needle` occurs in `hay` at position `at`.
fn matches_at(hay: &Vec<char>, needle: &Vec<char>, at: usize) -> (b: bool)
    requires
        at + needle.len() <= hay.len(),
    ensures
        b == (hay@.subrange(at as int, at + needle.len()) == needle@),
{
    let mut j: usize = 0;
    while j < needle.len()
        invariant
            j <= needle.len(),
            at + needle.len() <= hay.len(),
            forall|k: int| 0 <= k < j ==> hay@[at + k] == needle@[k],
        decreases needle.len() - j,
    {
        if hay[at + j] != needle[j] {
            assert(hay@.subrange(at as int, at + needle.len())[j as int] != needle@[j as int]);
            return false;
        }
        j = j + 1;
    }
    assert(hay@.subrange(at as int, at + needle.len()) =~= needle@);
    true
}

/// `a == b` for two strings.
pub fn text_eq(a: &str, b: &str) -> (r: bool)
    ensures
        r == (a@ == b@),
{
    let ac = chars_of(a);
    let bc = chars_of(b);
    if ac.len() != bc.len() {
        return false;
    }
    let r = matches_at(&ac, &bc, 0);
    assert(ac@.subrange(0, bc.len() as int) =~= ac@);
    r
}

/// Whether the chars of `needle` occur in `hay` in order (a subsequence
/// test), matching each char of `needle` at its earliest place.
pub fn has_in_order(hay: &Vec<char>, needle: &Vec<char>) -> (b: bool)
    ensures
        b == seq_has_in_order(hay@, needle@),
{
    let mut i: usize = 0;
    let mut j: usize = 0;
    assert(hay@.skip(0) =~= hay@ && needle@.skip(0) =~= needle@);
    while i < hay.len()
        invariant
            i <= hay.len(),
            j <= needle.len(),
            seq_has_in_order(hay@, needle@) == seq_has_in_order(
                hay@.skip(i as int),
                needle@.skip(j as int),
            ),
        decreases hay.len() - i,
    {
        let ghost h = hay@.skip(i as int);
        let ghost n = needle@.skip(j as int);
        assert(h.drop_first() =~= hay@.skip(i + 1));
        if j < needle.len() {
            assert(h[0] == hay@[i as int] && n[0] == needle@[j as int]);
            if hay[i] == needle[j] {
                assert(n.drop_first() =~= needle@.skip(j + 1));
                proof {
                    if seq_has_in_order(h.drop_first(), n) {
                        lemma_in_order_drop_first(h.drop_first(), n);
                    }
                }
                j = j + 1;
            }
        }
        i = i + 1;
    }
    j == needle.len()
}

/// Whether `s` begins with `prefix` (`str::starts_with`).
pub fn starts_with_chars(s: &Vec<char>, prefix: &Vec<char>) -> (b: bool)
    ensures
        b == seq_starts_with(s@, prefix@),
{
    if prefix.len() > s.len() {
        return false;
    }
    matches_at(s, prefix, 0)
}

/// ASCII lower-casing of one char.
pub fn to_ascii_lower(c: char) -> (out: char)
    ensures
        out == ascii_lower(c),
{
    if 'A' <= c && c <= 'Z' {
        let u = (c as u32) + 32;
        assert(0x61 <= u <= 0x7a);
        char_from_ascii(u)
    } else {
        c
    }
}

/// The char with an ASCII code point.
fn char_from_ascii(u: u32) -> (c: char)
    requires
        u < 128,
    ensures
        c == u as char,
{
    let b: u8 = u as u8;
    b as char
}

/// `str::eq_ignore_ascii_case`.  Comparing byte-wise, as std does, agrees
/// with comparing char-wise: ASCII lower-casing maps ASCII bytes to ASCII
/// bytes and leaves every byte of a longer UTF-8 encoding alone.
pub fn eq_ignore_ascii_case(a: &str, b: &str) -> (r: bool)
    ensures
        r == spec_eq_ignore_ascii_case(a@, b@),
{
    let ac = chars_of(a);
    let bc = chars_of(b);
    if ac.len() != bc.len() {
        return false;
    }
    let mut i: usize = 0;
    while i < ac.len()
        invariant
            i <= ac.len(),
            ac.len() == bc.len(),
            ac@ == a@,
            bc@ == b@,
            forall|j: int| 0 <= j < i ==> ascii_lower(#[trigger] ac@[j]) == ascii_lower(bc@[j]),
        decreases ac.len() - i,
    {
        if to_ascii_lower(ac[i]) != to_ascii_lower(bc[i]) {
            return false;
        }
        i = i + 1;
    }
    true
}

/// `s.trim_end_matches('/')`.
pub fn trim_end_slashes(s: &str) -> (out: String)
    ensures
        out@ == trim_trailing_slashes(s@),
{
    let mut cs = chars_of(s);
    while cs.len() > 0 && cs[cs.len() - 1] == '/'
        invariant
            trim_trailing_slashes(cs@) == trim_trailing_slashes(s@),
        decreases cs.len(),
    {
        cs.pop();
    }
    string_from_chars(&cs)
}

/// The file name found for `path`, or `path` itself when none was found.
pub fn name_or_path(file_name: Option<String>, path: &str) -> (out: String)
    ensures
        out@ == match file_name {
            Some(name) => name@,
            None => path@,
        },
{
    match file_name {
        Some(name) => name,
        None => String::from_str(path),
    }
}

/// The last component of `path`, or `path` itself when it has none.
pub fn get_filename_fallback(path: &str) -> (out: String)
    ensures
        out@ == file_name_or_path(path@),
        is_plain_slash_path(path@) ==> out@ == match slash_path_file_name(path@) {
            Some(name) => name,
            None => path@,
        },
{
    let found = file_name_of(path);
    name_or_path(found, path)
}

} // verus!
