//! The library browser's view of a directory: which entries of an MPD
//! listing are shown, the path each one is queued by, and their order
//! (directories first, then by case-folded name, ties kept in listing order).
use vstd::prelude::*;
use crate::mpd_client::{DirEntry, DirEntryView};
use crate::text::{
    chars_of, join_str, file_name_or_path, get_filename_fallback, lowercase, seq_starts_with,
    starts_with_chars, text_eq, to_lowercase, trim_end_slashes, trim_trailing_slashes,
};

verus! {

// ---------------------------------------------------------------------------
// Which entries are shown
// ---------------------------------------------------------------------------

/// The path by which an item of the listing of `dir` is queued: the item
/// itself when it is already rooted at `dir` (or `dir` is the root), else
/// `dir` without trailing slashes, a slash, and the item.
pub open spec fn full_path(dir: Seq<char>, item: Seq<char>) -> Seq<char> {
    if dir.len() == 0 || seq_starts_with(item, dir) {
        item
    } else {
        trim_trailing_slashes(dir) + seq!['/'] + item
    }
}

/// A name that starts with `.` is hidden.
pub open spec fn is_hidden(name: Seq<char>) -> bool {
    name.len() > 0 && name[0] == '.'
}

/// The browser entry for one `(kind, path)` line of MPD's listing of `dir`:
/// only `directory` and `file` lines give entries, and hidden names are
/// dropped unless `show_hidden`.
pub open spec fn listed_entry(dir: Seq<char>, line: (Seq<char>, Seq<char>), show_hidden: bool) -> Option<DirEntryView> {
    let (kind, item) = line;
    let name = file_name_or_path(item);
    if (kind == "directory"@ || kind == "file"@) && (show_hidden || !is_hidden(name)) {
        Some(DirEntryView { name: name, path: full_path(dir, item), is_dir: kind == "directory"@ })
    } else {
        None
    }
}

/// The entries a listing gives, in listing order.
pub open spec fn listed_entries(
    dir: Seq<char>,
    listing: Seq<(Seq<char>, Seq<char>)>,
    show_hidden: bool,
) -> Seq<DirEntryView> {
    listing.filter_map(|line: (Seq<char>, Seq<char>)| listed_entry(dir, line, show_hidden))
}

// ---------------------------------------------------------------------------
// The order
// ---------------------------------------------------------------------------

/// Directories rank before files.
pub open spec fn rank(e: DirEntryView) -> u8 {
    if e.is_dir {
        0
    } else {
        1
    }
}

/// Lexicographic order of char sequences by code point: the order of
/// `String`'s `Ord`, since UTF-8 byte order agrees with code point order.
pub open spec fn chars_lt(a: Seq<char>, b: Seq<char>) -> bool
    decreases a.len(),
{
    if a.len() == 0 {
        b.len() > 0
    } else if b.len() == 0 {
        false
    } else if a[0] != b[0] {
        (a[0] as int) < (b[0] as int)
    } else {
        chars_lt(a.drop_first(), b.drop_first())
    }
}

/// What entries are sorted by: rank, then lower-cased name.
pub open spec fn sort_key(e: DirEntryView) -> (u8, Seq<char>) {
    (rank(e), lowercase(e.name))
}

/// Strict order of sort keys.
pub open spec fn key_lt(a: (u8, Seq<char>), b: (u8, Seq<char>)) -> bool {
    a.0 < b.0 || (a.0 == b.0 && chars_lt(a.1, b.1))
}

/// `a` sorts strictly before `b`.
pub open spec fn sorts_before(a: DirEntryView, b: DirEntryView) -> bool {
    key_lt(sort_key(a), sort_key(b))
}

/// No entry sorts strictly before one that precedes it.
pub open spec fn is_sorted(s: Seq<DirEntryView>) -> bool {
    forall|i: int, j: int| 0 <= i < j < s.len() ==> !sorts_before(#[trigger] s[j], #[trigger] s[i])
}

/// The entries of `s` whose sort key is `k`, in the order of `s`.
pub open spec fn key_class(s: Seq<DirEntryView>, k: (u8, Seq<char>)) -> Seq<DirEntryView> {
    s.filter(|e: DirEntryView| sort_key(e) == k)
}

/// `out` is `input` sorted stably: sorted, and for every key the entries
/// with that key come in the same order.  This fixes `out` given `input`.
pub open spec fn stably_sorted(out: Seq<DirEntryView>, input: Seq<DirEntryView>) -> bool {
    &&& is_sorted(out)
    &&& forall|k: (u8, Seq<char>)| #[trigger] key_class(out, k) == key_class(input, k)
}

/// No item's key is strictly below the key of an item before it.
pub open spec fn is_sorted_by_key(s: Seq<(DirEntryView, (u8, Seq<char>))>) -> bool {
    forall|i: int, j: int| 0 <= i < j < s.len() ==> !key_lt(#[trigger] s[j].1, #[trigger] s[i].1)
}

/// The items of `s` whose key is `k`, in the order of `s`.
pub open spec fn class_by_key(s: Seq<(DirEntryView, (u8, Seq<char>))>, k: (u8, Seq<char>)) -> Seq<
    (DirEntryView, (u8, Seq<char>)),
> {
    s.filter(|p: (DirEntryView, (u8, Seq<char>))| p.1 == k)
}

/// `out` is `input` sorted stably by the keys the items carry.
pub open spec fn stably_sorted_by_key(
    out: Seq<(DirEntryView, (u8, Seq<char>))>,
    input: Seq<(DirEntryView, (u8, Seq<char>))>,
) -> bool {
    &&& is_sorted_by_key(out)
    &&& forall|k: (u8, Seq<char>)| #[trigger] class_by_key(out, k) == class_by_key(input, k)
}

/// Every item carries its entry's sort key.
pub open spec fn keys_match(s: Seq<(DirEntryView, (u8, Seq<char>))>) -> bool {
    forall|i: int| 0 <= i < s.len() ==> #[trigger] s[i].1 == sort_key(s[i].0)
}

/// The entries of keyed items.
pub open spec fn entries_of(s: Seq<(DirEntryView, (u8, Seq<char>))>) -> Seq<DirEntryView> {
    s.map_values(|p: (DirEntryView, (u8, Seq<char>))| p.0)
}

// ---------------------------------------------------------------------------
// Lemmas on the order
// ---------------------------------------------------------------------------

proof fn lemma_chars_lt_irreflexive(a: Seq<char>)
    ensures
        !chars_lt(a, a),
    decreases a.len(),
{
    if a.len() > 0 {
        lemma_chars_lt_irreflexive(a.drop_first());
    }
}

proof fn lemma_chars_lt_transitive(a: Seq<char>, b: Seq<char>, c: Seq<char>)
    requires
        chars_lt(a, b),
        chars_lt(b, c),
    ensures
        chars_lt(a, c),
    decreases a.len(),
{
    if a.len() > 0 && b.len() > 0 && c.len() > 0 && a[0] == b[0] && b[0] == c[0] {
        lemma_chars_lt_transitive(a.drop_first(), b.drop_first(), c.drop_first());
    }
}

proof fn lemma_key_lt_irreflexive(a: (u8, Seq<char>))
    ensures
        !key_lt(a, a),
{
    lemma_chars_lt_irreflexive(a.1);
}

proof fn lemma_key_lt_transitive(a: (u8, Seq<char>), b: (u8, Seq<char>), c: (u8, Seq<char>))
    requires
        key_lt(a, b),
        key_lt(b, c),
    ensures
        key_lt(a, c),
{
    if a.0 == b.0 && b.0 == c.0 {
        lemma_chars_lt_transitive(a.1, b.1, c.1);
    }
}

/// Filtering keeps nothing of a sequence none of whose elements passes.
proof fn lemma_filter_none<A>(s: Seq<A>, pred: spec_fn(A) -> bool)
    requires
        forall|i: int| 0 <= i < s.len() ==> !pred(#[trigger] s[i]),
    ensures
        s.filter(pred) == Seq::<A>::empty(),
    decreases s.len(),
{
    reveal(Seq::filter);
    if s.len() > 0 {
        lemma_filter_none(s.drop_last(), pred);
    }
}

/// Inserting `e` at `p` into a sorted sequence, after every item whose key
/// is not above its key and before the first whose key is, keeps it sorted
/// and adds `e` at the end of its key class.
proof fn lemma_insert_sorted(
    s: Seq<(DirEntryView, (u8, Seq<char>))>,
    p: int,
    e: (DirEntryView, (u8, Seq<char>)),
)
    requires
        is_sorted_by_key(s),
        0 <= p <= s.len(),
        forall|q: int| 0 <= q < p ==> !key_lt(e.1, #[trigger] s[q].1),
        p < s.len() ==> key_lt(e.1, s[p].1),
    ensures
        is_sorted_by_key(s.insert(p, e)),
        forall|k: (u8, Seq<char>)| #[trigger] class_by_key(s.insert(p, e), k) == class_by_key(
            s.push(e),
            k,
        ),
{
    let t = s.insert(p, e);
    assert forall|i: int, j: int| 0 <= i < j < t.len() implies !key_lt(#[trigger] t[j].1, #[trigger] t[i].1) by {
        if i < p && j == p {
        } else if i == p && j > p {
            if key_lt(t[j].1, e.1) {
                lemma_key_lt_transitive(s[j - 1].1, e.1, s[p].1);
                if j - 1 == p {
                    lemma_key_lt_irreflexive(s[p].1);
                } else {
                    assert(!key_lt(s[j - 1].1, s[p].1));
                }
            }
        } else if i < p && j > p {
            assert(t[i] == s[i] && t[j] == s[j - 1]);
        } else if i > p {
            assert(t[i] == s[i - 1] && t[j] == s[j - 1]);
        } else {
            assert(t[i] == s[i] && t[j] == s[j]);
        }
    }
    let front = s.subrange(0, p);
    let back = s.subrange(p, s.len() as int);
    assert(t =~= front.push(e) + back);
    assert(s =~= front + back);
    assert forall|k: (u8, Seq<char>)| #[trigger] class_by_key(t, k) == class_by_key(s.push(e), k) by {
        let pred = |x: (DirEntryView, (u8, Seq<char>))| x.1 == k;
        Seq::filter_distributes_over_add(front.push(e), back, pred);
        Seq::filter_distributes_over_add(front, back, pred);
        front.lemma_filter_push(e, pred);
        s.lemma_filter_push(e, pred);
        if e.1 == k {
            assert forall|q: int| 0 <= q < back.len() implies !pred(#[trigger] back[q]) by {
                if back[q].1 == k {
                    if q == 0 {
                        lemma_key_lt_irreflexive(s[p].1);
                    } else {
                        assert(!key_lt(s[p + q].1, s[p].1));
                    }
                }
            }
            lemma_filter_none(back, pred);
            assert(front.filter(pred) + back.filter(pred) =~= front.filter(pred));
            assert(front.filter(pred).push(e) + back.filter(pred) =~= front.filter(pred).push(e));
        }
    }
}

/// When every item carries its entry's key, taking the entries commutes
/// with picking a key class.
proof fn lemma_entries_of_class(s: Seq<(DirEntryView, (u8, Seq<char>))>, k: (u8, Seq<char>))
    requires
        keys_match(s),
    ensures
        key_class(entries_of(s), k) == entries_of(class_by_key(s, k)),
    decreases s.len(),
{
    reveal(Seq::filter);
    if s.len() > 0 {
        let rest = s.drop_last();
        assert(entries_of(rest) =~= entries_of(s).drop_last());
        lemma_entries_of_class(rest, k);
        let pred = |p: (DirEntryView, (u8, Seq<char>))| p.1 == k;
        if pred(s.last()) {
            assert(entries_of(rest.filter(pred).push(s.last())) =~= entries_of(rest.filter(pred)).push(
                s.last().0,
            ));
        }
    }
}

/// An item of a stably sorted sequence is an item of what was sorted.
proof fn lemma_sorted_item_from_input(
    out: Seq<(DirEntryView, (u8, Seq<char>))>,
    input: Seq<(DirEntryView, (u8, Seq<char>))>,
    i: int,
)
    requires
        stably_sorted_by_key(out, input),
        0 <= i < out.len(),
    ensures
        input.contains(out[i]),
{
    let pred = |p: (DirEntryView, (u8, Seq<char>))| p.1 == out[i].1;
    assert(class_by_key(out, out[i].1) == class_by_key(input, out[i].1));
    out.lemma_filter_contains(pred, i);
    input.lemma_filter_contains_rev(pred, out[i]);
}

/// A vector of chars deep-views as its view.
proof fn lemma_chars_deep_view(v: Vec<char>)
    ensures
        v.deep_view() == v@,
{
    assert(v.deep_view() =~= v@);
}

// ---------------------------------------------------------------------------
// Executable
// ---------------------------------------------------------------------------

/// `chars_lt` of two char vectors.
fn chars_less(a: &Vec<char>, b: &Vec<char>) -> (r: bool)
    ensures
        r == chars_lt(a@, b@),
{
    let mut i: usize = 0;
    assert(a@.skip(0) =~= a@ && b@.skip(0) =~= b@);
    loop
        invariant
            i <= a.len(),
            i <= b.len(),
            chars_lt(a@, b@) == chars_lt(a@.skip(i as int), b@.skip(i as int)),
        decreases a.len() - i,
    {
        if i == a.len() {
            return i < b.len();
        }
        if i == b.len() {
            return false;
        }
        assert(a@.skip(i as int)[0] == a@[i as int] && b@.skip(i as int)[0] == b@[i as int]);
        if a[i] != b[i] {
            return a[i] < b[i];
        }
        assert(a@.skip(i as int).drop_first() =~= a@.skip(i + 1));
        assert(b@.skip(i as int).drop_first() =~= b@.skip(i + 1));
        i = i + 1;
    }
}

/// Whether key `a` is strictly below key `b`.
fn key_less(a: &(u8, Vec<char>), b: &(u8, Vec<char>)) -> (r: bool)
    ensures
        r == key_lt((a.0, a.1@), (b.0, b.1@)),
{
    a.0 < b.0 || (a.0 == b.0 && chars_less(&a.1, &b.1))
}

/// The sort key of an entry: its rank and its lower-cased name.
fn key_of(e: &DirEntry) -> (k: (u8, Vec<char>))
    ensures
        (k.0, k.1@) == sort_key(e@),
{
    let lower = to_lowercase(e.name.as_str());
    (if e.is_dir { 0 } else { 1 }, chars_of(lower.as_str()))
}

/// Sorts entries by the keys they carry, keeping entries with equal keys in
/// their original order (insertion sort).
pub fn sort_keyed(items: Vec<(DirEntry, (u8, Vec<char>))>) -> (out: Vec<(DirEntry, (u8, Vec<char>))>)
    ensures
        stably_sorted_by_key(out.deep_view(), items.deep_view()),
{
    let ghost input = items.deep_view();
    let mut rest = items;
    let mut out: Vec<(DirEntry, (u8, Vec<char>))> = Vec::new();
    let mut i: usize = 0;
    let n = rest.len();
    assert forall|k: (u8, Seq<char>)| #[trigger] class_by_key(out.deep_view(), k) == class_by_key(
        input.take(0),
        k,
    ) by {
        reveal(Seq::filter);
        assert(out.deep_view() =~= Seq::<(DirEntryView, (u8, Seq<char>))>::empty());
        assert(input.take(0) =~= Seq::<(DirEntryView, (u8, Seq<char>))>::empty());
    }
    while i < n
        invariant
            n == input.len(),
            i <= n,
            rest.deep_view() =~= input.skip(i as int),
            rest.len() == n - i,
            is_sorted_by_key(out.deep_view()),
            forall|k: (u8, Seq<char>)| #[trigger] class_by_key(out.deep_view(), k) == class_by_key(
                input.take(i as int),
                k,
            ),
        decreases n - i,
    {
        let ghost rest_before = rest.deep_view();
        let ghost rest_raw = rest@;
        assert(rest_before[0] == input[i as int]);
        let e = rest.remove(0);
        assert(e.deep_view() == input[i as int]);
        assert forall|j: int| 0 <= j < rest.len() implies rest.deep_view()[j] == input.skip(
            i + 1,
        )[j] by {
            assert(rest@[j] == rest_raw[j + 1]);
            assert(rest_before[j + 1] == rest_raw[j + 1].deep_view());
        }
        proof {
            lemma_chars_deep_view(e.1.1);
        }
        assert(rest.deep_view() =~= input.skip(i + 1));
        let ghost before = out.deep_view();
        let mut p: usize = 0;
        while p < out.len()
            invariant
                p <= out.len(),
                before == out.deep_view(),
                e.deep_view().1 == (e.1.0, e.1.1@),
                forall|q: int| 0 <= q < p ==> !key_lt(e.deep_view().1, #[trigger] before[q].1),
            ensures
                p <= out.len(),
                forall|q: int| 0 <= q < p ==> !key_lt(e.deep_view().1, #[trigger] before[q].1),
                p < out.len() ==> key_lt(e.deep_view().1, before[p as int].1),
            decreases out.len() - p,
        {
            assert(before[p as int] == out@[p as int].deep_view());
            proof {
                lemma_chars_deep_view(out@[p as int].1.1);
            }
            if key_less(&e.1, &out[p].1) {
                break;
            }
            p = p + 1;
        }
        proof {
            lemma_insert_sorted(before, p as int, e.deep_view());
            assert(input.take(i + 1) =~= input.take(i as int).push(e.deep_view()));
            assert forall|k: (u8, Seq<char>)| #[trigger] class_by_key(before.push(e.deep_view()), k)
                == class_by_key(input.take(i + 1), k) by {
                let pred = |x: (DirEntryView, (u8, Seq<char>))| x.1 == k;
                before.lemma_filter_push(e.deep_view(), pred);
                input.take(i as int).lemma_filter_push(e.deep_view(), pred);
                assert(class_by_key(before, k) == class_by_key(input.take(i as int), k));
                assert(class_by_key(input.take(i + 1), k) == input.take(i as int).push(
                    e.deep_view(),
                ).filter(pred));
            }
        }
        let ghost ev = e.deep_view();
        out.insert(p, e);
        assert(out.deep_view() =~= before.insert(p as int, ev));
        i = i + 1;
    }
    assert(input.take(n as int) =~= input);
    out
}

/// Sorts entries directories first, then by case-folded name, keeping
/// entries with equal keys in their original order (`sort_by` is stable).
pub fn sort_entries(entries: Vec<DirEntry>) -> (out: Vec<DirEntry>)
    ensures
        stably_sorted(out.deep_view(), entries.deep_view()),
{
    let ghost input = entries.deep_view();
    let mut keyed: Vec<(DirEntry, (u8, Vec<char>))> = Vec::new();
    let mut rest = entries;
    let n = rest.len();
    let mut i: usize = 0;
    while i < n
        invariant
            n == input.len(),
            i <= n,
            rest.deep_view() =~= input.skip(i as int),
            rest.len() == n - i,
            keyed.len() == i,
            keys_match(keyed.deep_view()),
            entries_of(keyed.deep_view()) =~= input.take(i as int),
        decreases n - i,
    {
        let ghost rest_before = rest.deep_view();
        let ghost rest_raw = rest@;
        assert(rest_before[0] == input[i as int]);
        let e = rest.remove(0);
        assert(e@ == input[i as int]);
        assert forall|j: int| 0 <= j < rest.len() implies rest.deep_view()[j] == input.skip(
            i + 1,
        )[j] by {
            assert(rest@[j] == rest_raw[j + 1]);
            assert(rest_before[j + 1] == rest_raw[j + 1].deep_view());
        }
        let k = key_of(&e);
        let ghost before = keyed.deep_view();
        let ghost item = (e@, (k.0, k.1@));
        proof {
            lemma_chars_deep_view(k.1);
        }
        keyed.push((e, k));
        assert(keyed.deep_view() =~= before.push(item));
        assert(entries_of(before.push(item)) =~= entries_of(before).push(item.0));
        assert(input.take(i + 1) =~= input.take(i as int).push(item.0));
        i = i + 1;
    }
    assert(input.take(n as int) =~= input);
    let ghost keyed_in = keyed.deep_view();
    let sorted = sort_keyed(keyed);
    let ghost keyed_out = sorted.deep_view();
    assert forall|i: int| 0 <= i < keyed_out.len() implies #[trigger] keyed_out[i].1 == sort_key(
        keyed_out[i].0,
    ) by {
        lemma_sorted_item_from_input(keyed_out, keyed_in, i);
    }
    let mut out: Vec<DirEntry> = Vec::new();
    let mut rest = sorted;
    let m = rest.len();
    let mut j: usize = 0;
    while j < m
        invariant
            m == keyed_out.len(),
            j <= m,
            rest.deep_view() =~= keyed_out.skip(j as int),
            rest.len() == m - j,
            out.deep_view() =~= entries_of(keyed_out.take(j as int)),
        decreases m - j,
    {
        let ghost rest_before = rest.deep_view();
        let ghost rest_raw = rest@;
        assert(rest_before[0] == keyed_out[j as int]);
        let item = rest.remove(0);
        assert(item.0@ == keyed_out[j as int].0);
        assert forall|q: int| 0 <= q < rest.len() implies rest.deep_view()[q] == keyed_out.skip(
            j + 1,
        )[q] by {
            assert(rest@[q] == rest_raw[q + 1]);
            assert(rest_before[q + 1] == rest_raw[q + 1].deep_view());
        }
        let ghost before = out.deep_view();
        out.push(item.0);
        assert(out.deep_view() =~= before.push(keyed_out[j as int].0));
        assert(keyed_out.take(j + 1) =~= keyed_out.take(j as int).push(keyed_out[j as int]));
        assert(entries_of(keyed_out.take(j + 1)) =~= entries_of(keyed_out.take(j as int)).push(
            keyed_out[j as int].0,
        ));
        j = j + 1;
    }
    assert(keyed_out.take(m as int) =~= keyed_out);
    proof {
        assert forall|k: (u8, Seq<char>)| #[trigger] key_class(out.deep_view(), k) == key_class(
            input,
            k,
        ) by {
            lemma_entries_of_class(keyed_out, k);
            lemma_entries_of_class(keyed_in, k);
            assert(class_by_key(keyed_out, k) == class_by_key(keyed_in, k));
        }
        assert forall|a: int, b: int| 0 <= a < b < out.deep_view().len() implies !sorts_before(
            #[trigger] out.deep_view()[b],
            #[trigger] out.deep_view()[a],
        ) by {
            assert(!key_lt(keyed_out[b].1, keyed_out[a].1));
            assert(keyed_out[a].1 == sort_key(keyed_out[a].0));
            assert(keyed_out[b].1 == sort_key(keyed_out[b].0));
        }
    }
    out
}

/// The browser entry for one line of the listing of `dir` when the line's
/// item has the file name `name`: only `directory` and `file` lines give
/// entries, and hidden names are dropped unless `show_hidden`.
pub fn entry_for_named_line(
    dir: &str,
    kind: &str,
    item: &str,
    name: String,
    show_hidden: bool,
) -> (out: Option<DirEntry>)
    ensures
        match out {
            Some(e) => {
                &&& kind@ == "directory"@ || kind@ == "file"@
                &&& show_hidden || !is_hidden(name@)
                &&& e@ == DirEntryView {
                    name: name@,
                    path: full_path(dir@, item@),
                    is_dir: kind@ == "directory"@,
                }
            },
            None => !(kind@ == "directory"@ || kind@ == "file"@) || (!show_hidden && is_hidden(
                name@,
            )),
        },
{
    let is_dir = text_eq(kind, "directory");
    let is_file = text_eq(kind, "file");
    if !is_dir && !is_file {
        return None;
    }
    let name_chars = chars_of(name.as_str());
    if !show_hidden && name_chars.len() > 0 && name_chars[0] == '.' {
        return None;
    }
    let dir_chars = chars_of(dir);
    let item_chars = chars_of(item);
    let path = if dir_chars.len() == 0 || starts_with_chars(&item_chars, &dir_chars) {
        String::from_str(item)
    } else {
        let trimmed = trim_end_slashes(dir);
        let with_slash = join_str(trimmed.as_str(), "/");
        let joined = join_str(with_slash.as_str(), item);
        assert(joined@ =~= trim_trailing_slashes(dir@) + seq!['/'] + item@) by {
            reveal_strlit("/");
        }
        joined
    };
    Some(DirEntry { name, path, is_dir })
}

/// The browser entry for one line of the listing of `dir`, if it shows one.
fn entry_for_line(dir: &str, kind: &str, item: &str, show_hidden: bool) -> (out: Option<DirEntry>)
    ensures
        match out {
            Some(e) => listed_entry(dir@, (kind@, item@), show_hidden) == Some(e@),
            None => listed_entry(dir@, (kind@, item@), show_hidden) is None,
        },
{
    let name = get_filename_fallback(item);
    entry_for_named_line(dir, kind, item, name, show_hidden)
}

/// The entries shown for MPD's listing of `dir`, in listing order.
fn listing_entries(dir: &str, listing: &Vec<(String, String)>, show_hidden: bool) -> (out: Vec<
    DirEntry,
>)
    ensures
        out.deep_view() == listed_entries(dir@, listing.deep_view(), show_hidden),
{
    let ghost lines = listing.deep_view();
    let ghost f = |line: (Seq<char>, Seq<char>)| listed_entry(dir@, line, show_hidden);
    let mut out: Vec<DirEntry> = Vec::new();
    let mut i: usize = 0;
    assert(lines.take(0) =~= Seq::<(Seq<char>, Seq<char>)>::empty());
    assert(out.deep_view() =~= lines.take(0).filter_map(f));
    while i < listing.len()
        invariant
            i <= listing.len(),
            lines == listing.deep_view(),
            f == (|line: (Seq<char>, Seq<char>)| listed_entry(dir@, line, show_hidden)),
            out.deep_view() =~= lines.take(i as int).filter_map(f),
        decreases listing.len() - i,
    {
        assert(lines.take(i + 1).drop_last() =~= lines.take(i as int));
        assert(lines.take(i + 1).last() == lines[i as int]);
        let ghost before = out.deep_view();
        match entry_for_line(dir, listing[i].0.as_str(), listing[i].1.as_str(), show_hidden) {
            Some(e) => {
                out.push(e);
                assert(out.deep_view() =~= before + seq![e@]);
            },
            None => {},
        }
        i = i + 1;
    }
    assert(lines.take(listing.len() as int) =~= lines);
    out
}

/// The browser's entries for MPD's listing of `dir`: the `directory` and
/// `file` lines, hidden names dropped unless `show_hidden`, each with the
/// path it is queued by, sorted directories first and then by case-folded
/// name, ties in listing order.
pub fn directory_entries(dir: &str, listing: &Vec<(String, String)>, show_hidden: bool) -> (out:
    Vec<DirEntry>)
    ensures
        stably_sorted(out.deep_view(), listed_entries(dir@, listing.deep_view(), show_hidden)),
{
    let entries = listing_entries(dir, listing, show_hidden);
    sort_entries(entries)
}

} // verus!
