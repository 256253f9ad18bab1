use vstd::prelude::*;
use vstd::string::StringExecFns;

use crate::text::{push_char, trim_bounds, trimmed};

verus! {

/// What the search reads of one library item: its display name and whether
/// it is a favourite.
pub struct Entry {
    pub name: String,
    pub favorite: bool,
}

/// `s` in lower case, as `str::to_lowercase` gives it (full Unicode case
/// mapping, where one character may become several).
pub uninterp spec fn lowercase(s: Seq<char>) -> Seq<char>;

/// Calls `str::to_lowercase`; its result is a function of the text alone.
/// The Unicode mapping tables behind it are not restated here.
#[verifier::external_body]
pub(crate) fn to_lowercase(s: &str) -> (lower: String)
    ensures
        lower@ == lowercase(s@),
{
    s.to_lowercase()
}

/// Whether `needle` occurs in `hay` as a run of consecutive characters.
pub open spec fn occurs_in(hay: Seq<char>, needle: Seq<char>) -> bool {
    exists|i: int| 0 <= i && i + needle.len() <= hay.len() && #[trigger] hay.subrange(i, i + needle.len()) == needle
}

/// Whether `needle` occurs in `hay` at position `at`.
fn occurs_at(hay: &str, needle: &str, at: usize) -> (found: bool)
    requires
        at + needle@.len() <= hay@.len(),
    ensures
        found == (hay@.subrange(at as int, at + needle@.len()) == needle@),
{
    let n = needle.unicode_len();
    let h = hay.unicode_len();
    let mut k: usize = 0;
    while k < n
        invariant
            n == needle@.len(),
            h == hay@.len(),
            at + n <= hay@.len(),
            k <= n,
            forall|j: int| 0 <= j < k ==> hay@[at + j] == needle@[j],
        decreases n - k,
    {
        if hay.get_char(at + k) != needle.get_char(k) {
            proof {
                assert(hay@.subrange(at as int, at + n)[k as int] != needle@[k as int]);
            }
            return false;
        }
        k = k + 1;
    }
    proof {
        assert(hay@.subrange(at as int, at + n) =~= needle@);
    }
    true
}

/// Whether `needle` occurs in `hay`, as `str::contains` answers for a text pattern.
pub fn contains_text(hay: &str, needle: &str) -> (found: bool)
    ensures
        found == occurs_in(hay@, needle@),
{
    let h = hay.unicode_len();
    let n = needle.unicode_len();
    if n > h {
        return false;
    }
    let last = h - n;
    let mut at: usize = 0;
    loop
        invariant
            h == hay@.len(),
            n == needle@.len(),
            last == h - n,
            at <= last,
            forall|i: int| 0 <= i < at ==> #[trigger] hay@.subrange(i, i + n) != needle@,
        decreases last - at,
    {
        if occurs_at(hay, needle, at) {
            return true;
        }
        if at == last {
            return false;
        }
        at = at + 1;
    }
}

/// The characters of `s` in order.
fn chars_of(s: &str) -> (chars: Vec<char>)
    ensures
        chars@ == s@,
{
    let n = s.unicode_len();
    let mut chars: Vec<char> = Vec::new();
    let mut i: usize = 0;
    while i < n
        invariant
            n == s@.len(),
            i <= n,
            chars@ == s@.take(i as int),
        decreases n - i,
    {
        chars.push(s.get_char(i));
        proof {
            assert(s@.take(i + 1) =~= s@.take(i as int).push(s@[i as int]));
        }
        i = i + 1;
    }
    proof {
        assert(s@.take(n as int) =~= s@);
    }
    chars
}

/// `s` without leading and trailing whitespace, as `str::trim` gives it.
pub fn trim(s: &str) -> (t: String)
    ensures
        t@ == trimmed(s@),
{
    let chars = chars_of(s);
    let (start, end) = trim_bounds(&chars);
    let mut t = String::new();
    let mut k: usize = start;
    while k < end
        invariant
            start <= k <= end <= chars@.len(),
            t@ == chars@.subrange(start as int, k as int),
        decreases end - k,
    {
        push_char(&mut t, chars[k]);
        proof {
            assert(chars@.subrange(start as int, k + 1) =~= chars@.subrange(start as int, k as int).push(chars@[k as int]));
        }
        k = k + 1;
    }
    t
}

/// Whether the entry is shown for a search: a favourite when only favourites
/// are asked for, and its lower-case name holds `needle`.
pub open spec fn shown(entry: Entry, needle: Seq<char>, favorites: bool) -> bool {
    (!favorites || entry.favorite) && occurs_in(lowercase(entry.name@), needle)
}

/// The indices, in ascending order, of the first `n` entries that are shown.
pub open spec fn shown_indices(entries: Seq<Entry>, needle: Seq<char>, favorites: bool, n: int) -> Seq<usize>
    decreases n,
{
    if n <= 0 {
        Seq::empty()
    } else if shown(entries[n - 1], needle, favorites) {
        shown_indices(entries, needle, favorites, n - 1).push((n - 1) as usize)
    } else {
        shown_indices(entries, needle, favorites, n - 1)
    }
}

/// A search gives positions in the whole library, in increasing order, and
/// exactly those of the items it shows: filtering never renumbers the items.
pub proof fn search_keeps_library_positions(entries: Seq<Entry>, needle: Seq<char>, favorites: bool, n: int)
    requires
        0 <= n <= entries.len(),
        entries.len() <= usize::MAX,
    ensures
        forall|k: int|
            0 <= k < shown_indices(entries, needle, favorites, n).len() ==> {
                let at = #[trigger] shown_indices(entries, needle, favorites, n)[k];
                at < n && shown(entries[at as int], needle, favorites)
            },
        forall|a: int, b: int|
            0 <= a < b < shown_indices(entries, needle, favorites, n).len() ==> #[trigger] shown_indices(
                entries,
                needle,
                favorites,
                n,
            )[a] < #[trigger] shown_indices(entries, needle, favorites, n)[b],
        forall|i: int|
            0 <= i < n && #[trigger] shown(entries[i], needle, favorites) ==> shown_indices(
                entries,
                needle,
                favorites,
                n,
            ).contains(i as usize),
    decreases n,
{
    if n > 0 {
        search_keeps_library_positions(entries, needle, favorites, n - 1);
        let before = shown_indices(entries, needle, favorites, n - 1);
        let after = shown_indices(entries, needle, favorites, n);
        assert forall|i: int| 0 <= i < n && #[trigger] shown(entries[i], needle, favorites) implies after.contains(
            i as usize,
        ) by {
            if i < n - 1 {
                let k = choose|k: int| 0 <= k < before.len() && before[k] == i as usize;
                assert(after[k] == i as usize);
            } else {
                assert(after[before.len() as int] == i as usize);
            }
        }
    }
}

/// The search text as it is compared: trimmed, then in lower case.
pub open spec fn search_key(query: Seq<char>) -> Seq<char> {
    lowercase(trimmed(query))
}

/// The positions of the entries that a search shows, in library order: those
/// whose lower-case name contains the trimmed, lower-case query, and, when
/// `favorites` is set, only favourites. Positions are those of the whole
/// library, so a result keeps pointing at the same items.
pub fn matching(entries: &[Entry], query: &str, favorites: bool) -> (found: Vec<usize>)
    ensures
        found@ == shown_indices(entries@, search_key(query@), favorites, entries@.len() as int),
{
    let trimmed_query = trim(query);
    let needle = to_lowercase(trimmed_query.as_str());
    let mut found: Vec<usize> = Vec::new();
    let mut i: usize = 0;
    while i < entries.len()
        invariant
            i <= entries@.len(),
            needle@ == search_key(query@),
            found@ == shown_indices(entries@, needle@, favorites, i as int),
        decreases entries@.len() - i,
    {
        let entry = &entries[i];
        if !favorites || entry.favorite {
            let name = to_lowercase(entry.name.as_str());
            if contains_text(name.as_str(), needle.as_str()) {
                found.push(i);
            }
        }
        i = i + 1;
    }
    found
}

/// Marks or unmarks the item at `index` as a favourite; an index past the
/// end changes nothing.
pub fn toggle_favorite(entries: &mut Vec<Entry>, index: usize)
    ensures
        final(entries)@.len() == old(entries)@.len(),
        forall|i: int|
            0 <= i < old(entries)@.len() && i != index ==> #[trigger] final(entries)@[i] == old(entries)@[i],
        index < old(entries)@.len() ==> final(entries)@[index as int].name == old(entries)@[index as int].name
            && final(entries)@[index as int].favorite == !old(entries)@[index as int].favorite,
{
    if index < entries.len() {
        let name = entries[index].name.clone();
        let favorite = !entries[index].favorite;
        entries.set(index, Entry { name, favorite });
    }
}

/// The items of `s` at positions `lo` up to `n` that `selected` does not name, in order.
pub open spec fn unselected<T>(s: Seq<T>, selected: Seq<usize>, lo: int, n: int) -> Seq<T>
    decreases n - lo,
{
    if lo >= n {
        Seq::empty()
    } else if selected.contains(lo as usize) {
        unselected(s, selected, lo + 1, n)
    } else {
        seq![s[lo]] + unselected(s, selected, lo + 1, n)
    }
}

/// Removes the item at `index`; an index past the end changes nothing.
pub fn remove_item<T>(items: &mut Vec<T>, index: usize)
    ensures
        index < old(items)@.len() ==> final(items)@ == old(items)@.remove(index as int),
        index >= old(items)@.len() ==> final(items)@ == old(items)@,
{
    if index < items.len() {
        items.remove(index);
    }
}

/// Removes every item whose position `selected` names, each once however
/// often it is named; the others keep their order.
pub fn remove_selected<T>(items: &mut Vec<T>, selected: &[usize])
    ensures
        final(items)@ == unselected(old(items)@, selected@, 0, old(items)@.len() as int),
{
    let ghost s = items@;
    let n = items.len();
    let mut i: usize = n;
    proof {
        assert(s.take(n as int) + unselected(s, selected@, n as int, n as int) =~= s);
    }
    while i > 0
        invariant
            n == s.len(),
            i <= n,
            items@ == s.take(i as int) + unselected(s, selected@, i as int, n as int),
        decreases i,
    {
        let position = i - 1;
        let mut named = false;
        let mut k: usize = 0;
        while k < selected.len()
            invariant
                k <= selected@.len(),
                named == exists|j: int| 0 <= j < k && selected@[j] == position,
            decreases selected@.len() - k,
        {
            if selected[k] == position {
                named = true;
            }
            k = k + 1;
        }
        proof {
            if named {
                let j = choose|j: int| 0 <= j < k && selected@[j] == position;
                assert(selected@.contains(position));
            } else {
                assert(!selected@.contains(position)) by {
                    if selected@.contains(position) {
                        let j = choose|j: int| 0 <= j < selected@.len() && selected@[j] == position;
                        assert(0 <= j < k && selected@[j] == position);
                    }
                }
            }
        }
        let ghost rest = unselected(s, selected@, i as int, n as int);
        if named {
            items.remove(position);
            proof {
                assert(items@ =~= s.take(position as int) + rest);
            }
        } else {
            proof {
                assert(s.take(i as int) + rest =~= s.take(position as int) + (seq![s[position as int]] + rest));
            }
        }
        i = position;
    }
    proof {
        assert(s.take(0) + unselected(s, selected@, 0, n as int) =~= unselected(s, selected@, 0, n as int));
    }
}

} // verus!
