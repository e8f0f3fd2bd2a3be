//! The order of a directory listing: directories before files, then by
//! name without regard to case. Entries that compare equal keep the order
//! in which they were found.

use vstd::prelude::*;
use crate::disc::browse::entry::{models, unexpanded, EntryModel, EntryType, FileEntry};
use crate::text::{chars_of, lowercase_text, to_lowercase};

verus! {

/// Lexicographic order of texts by code point.
pub open spec fn text_less(a: Seq<char>, b: Seq<char>) -> bool
    decreases a.len(),
{
    if b.len() == 0 {
        false
    } else if a.len() == 0 {
        true
    } else if a[0] != b[0] {
        (a[0] as u32) < (b[0] as u32)
    } else {
        text_less(a.drop_first(), b.drop_first())
    }
}

/// 0 for a directory, 1 for a file.
pub open spec fn rank(kind: EntryType) -> int {
    match kind {
        EntryType::Directory => 0,
        EntryType::File => 1,
    }
}

/// `a` comes strictly before `b` in a listing.
pub open spec fn entry_before(a: EntryModel, b: EntryModel) -> bool {
    rank(a.entry_type) < rank(b.entry_type) || (rank(a.entry_type) == rank(b.entry_type)
        && text_less(lowercase_text(a.name), lowercase_text(b.name)))
}

/// No entry comes strictly before one that stands earlier.
pub open spec fn listing_ordered(entries: Seq<EntryModel>) -> bool {
    forall|i: int, j: int|
        0 <= i < j < entries.len() ==> !entry_before(#[trigger] entries[j], #[trigger] entries[i])
}

/// Where `e` goes in an ordered listing so that it stands before every
/// entry that does not come strictly before it.
pub open spec fn insert_position(sorted: Seq<EntryModel>, e: EntryModel) -> int
    decreases sorted.len(),
{
    if sorted.len() == 0 || !entry_before(sorted[0], e) {
        0
    } else {
        1 + insert_position(sorted.drop_first(), e)
    }
}

/// The entries in listing order. Entries that compare equal keep their
/// order.
pub open spec fn sort_entries(raw: Seq<EntryModel>) -> Seq<EntryModel>
    decreases raw.len(),
{
    if raw.len() == 0 {
        Seq::empty()
    } else {
        let rest = sort_entries(raw.drop_first());
        rest.insert(insert_position(rest, raw.first()), raw.first())
    }
}

/// An insert position lies within the listing, after the entries that come
/// strictly before the new one and at the first that does not.
pub proof fn lemma_insert_position(sorted: Seq<EntryModel>, e: EntryModel)
    ensures
        0 <= insert_position(sorted, e) <= sorted.len(),
        forall|i: int| 0 <= i < insert_position(sorted, e) ==> entry_before(#[trigger] sorted[i], e),
        insert_position(sorted, e) < sorted.len() ==> !entry_before(
            sorted[insert_position(sorted, e)],
            e,
        ),
    decreases sorted.len(),
{
    if sorted.len() == 0 || !entry_before(sorted[0], e) {
    } else {
        let tail = sorted.drop_first();
        lemma_insert_position(tail, e);
        assert forall|i: int| 0 <= i < insert_position(sorted, e) implies entry_before(
            #[trigger] sorted[i],
            e,
        ) by {
            if i > 0 {
                assert(sorted[i] == tail[i - 1]);
            }
        }
        if insert_position(sorted, e) < sorted.len() {
            assert(sorted[insert_position(sorted, e)] == tail[insert_position(tail, e)]);
        }
    }
}

/// Sorting keeps the number of entries.
pub proof fn lemma_sort_len(raw: Seq<EntryModel>)
    ensures
        sort_entries(raw).len() == raw.len(),
    decreases raw.len(),
{
    if raw.len() > 0 {
        lemma_sort_len(raw.drop_first());
        lemma_insert_position(sort_entries(raw.drop_first()), raw.first());
    }
}

/// Sorting neither adds nor loses an entry.
pub proof fn lemma_sort_permutes(raw: Seq<EntryModel>)
    ensures
        sort_entries(raw).to_multiset() == raw.to_multiset(),
    decreases raw.len(),
{
    if raw.len() == 0 {
        assert(raw =~= Seq::<EntryModel>::empty());
    } else {
        let rest = sort_entries(raw.drop_first());
        lemma_sort_permutes(raw.drop_first());
        lemma_sort_len(raw.drop_first());
        lemma_insert_position(rest, raw.first());
        let at = insert_position(rest, raw.first());
        vstd::seq_lib::to_multiset_insert(rest, at, raw.first());
        vstd::seq_lib::to_multiset_insert(raw.drop_first(), 0, raw.first());
        assert(raw =~= raw.drop_first().insert(0, raw.first()));
        assert(sort_entries(raw) == rest.insert(at, raw.first()));
        assert(sort_entries(raw).to_multiset() == rest.to_multiset().insert(raw.first()));
        assert(raw.to_multiset() == raw.drop_first().to_multiset().insert(raw.first()));
    }
}

/// The order of texts is asymmetric.
pub proof fn lemma_text_less_asymmetric(a: Seq<char>, b: Seq<char>)
    ensures
        text_less(a, b) ==> !text_less(b, a),
    decreases a.len(),
{
    if a.len() > 0 && b.len() > 0 && a[0] == b[0] {
        lemma_text_less_asymmetric(a.drop_first(), b.drop_first());
    }
}

/// A text that comes before another comes before any third text, or the
/// third comes before the other.
pub proof fn lemma_text_less_between(a: Seq<char>, b: Seq<char>, c: Seq<char>)
    ensures
        text_less(a, c) ==> text_less(a, b) || text_less(b, c),
    decreases a.len(),
{
    if a.len() > 0 && b.len() > 0 && c.len() > 0 {
        vstd::utf8::char_u32_cast(a[0], a[0] as u32);
        vstd::utf8::char_u32_cast(b[0], b[0] as u32);
        vstd::utf8::char_u32_cast(c[0], c[0] as u32);
        if a[0] == b[0] && b[0] == c[0] {
            lemma_text_less_between(a.drop_first(), b.drop_first(), c.drop_first());
        }
    }
}

/// The order of entries is asymmetric.
pub proof fn lemma_entry_before_asymmetric(a: EntryModel, b: EntryModel)
    ensures
        entry_before(a, b) ==> !entry_before(b, a),
{
    lemma_text_less_asymmetric(lowercase_text(a.name), lowercase_text(b.name));
}

/// An entry that comes before another comes before any third entry, or
/// the third comes before the other.
pub proof fn lemma_entry_before_between(a: EntryModel, b: EntryModel, c: EntryModel)
    ensures
        entry_before(a, c) ==> entry_before(a, b) || entry_before(b, c),
{
    lemma_text_less_between(
        lowercase_text(a.name),
        lowercase_text(b.name),
        lowercase_text(c.name),
    );
}

/// A sorted listing is ordered: directories stand before files, and within
/// each kind the names ascend without regard to case.
pub proof fn lemma_sort_ordered(raw: Seq<EntryModel>)
    ensures
        listing_ordered(sort_entries(raw)),
    decreases raw.len(),
{
    if raw.len() > 0 {
        let rest = sort_entries(raw.drop_first());
        let e = raw.first();
        lemma_sort_ordered(raw.drop_first());
        lemma_insert_position(rest, e);
        let at = insert_position(rest, e);
        let all = rest.insert(at, e);
        assert forall|i: int, j: int| 0 <= i < j < all.len() implies !entry_before(
            #[trigger] all[j],
            #[trigger] all[i],
        ) by {
            if j < at {
                assert(all[i] == rest[i] && all[j] == rest[j]);
            } else if j == at {
                assert(all[i] == rest[i]);
                lemma_entry_before_asymmetric(rest[i], e);
            } else if i < at {
                assert(all[i] == rest[i] && all[j] == rest[j - 1]);
            } else if i == at {
                assert(all[j] == rest[j - 1]);
                if j - 1 > at {
                    assert(!entry_before(rest[j - 1], rest[at]));
                }
                lemma_entry_before_between(rest[j - 1], rest[at], e);
            } else {
                assert(all[i] == rest[i - 1] && all[j] == rest[j - 1]);
            }
        }
    }
}

/// Decides the lexicographic order of two texts.
pub fn chars_less(a: &[char], b: &[char]) -> (r: bool)
    ensures
        r == text_less(a@, b@),
{
    let mut i: usize = 0;
    proof {
        assert(a@.skip(0) =~= a@);
        assert(b@.skip(0) =~= b@);
    }
    loop
        invariant
            i <= a@.len(),
            i <= b@.len(),
            text_less(a@, b@) == text_less(a@.skip(i as int), b@.skip(i as int)),
        decreases a@.len() - i,
    {
        if i >= b.len() {
            return false;
        }
        if i >= a.len() {
            return true;
        }
        if a[i] != b[i] {
            return (a[i] as u32) < (b[i] as u32);
        }
        proof {
            assert(a@.skip(i as int).drop_first() =~= a@.skip(i + 1));
            assert(b@.skip(i as int).drop_first() =~= b@.skip(i + 1));
        }
        i = i + 1;
    }
}

/// The key by which an entry is ordered: its name in lower case.
pub fn order_key(entry: &FileEntry) -> (r: Vec<char>)
    ensures
        r@ == lowercase_text(entry.name@),
{
    let lower = to_lowercase(entry.name.as_str());
    chars_of(lower.as_str())
}

/// Decides whether an entry of the given kind and key comes strictly
/// before another.
pub fn key_before(kind_a: EntryType, key_a: &[char], kind_b: EntryType, key_b: &[char]) -> (r: bool)
    ensures
        r == (rank(kind_a) < rank(kind_b) || (rank(kind_a) == rank(kind_b) && text_less(
            key_a@,
            key_b@,
        ))),
{
    match (kind_a, kind_b) {
        (EntryType::Directory, EntryType::File) => true,
        (EntryType::File, EntryType::Directory) => false,
        _ => chars_less(key_a, key_b),
    }
}

/// Sorts a listing: directories before files, then by name without regard
/// to case.
pub fn sort_listing(entries: Vec<FileEntry>) -> (r: Vec<FileEntry>)
    ensures
        models(r@) == sort_entries(models(entries@)),
        unexpanded(entries@) ==> unexpanded(r@),
{
    let ghost raw = models(entries@);
    let ghost plain = unexpanded(entries@);
    let mut rest: Vec<FileEntry> = entries;
    let mut out: Vec<FileEntry> = Vec::new();
    let mut keys: Vec<Vec<char>> = Vec::new();
    proof {
        assert(raw.skip(raw.len() as int) =~= Seq::<EntryModel>::empty());
        assert(models(out@) =~= Seq::<EntryModel>::empty());
    }
    while rest.len() > 0
        invariant
            rest@.len() <= raw.len(),
            models(rest@) == raw.take(rest@.len() as int),
            models(out@) == sort_entries(raw.skip(rest@.len() as int)),
            keys@.len() == out@.len(),
            forall|i: int| 0 <= i < out@.len() ==> (#[trigger] keys@[i])@ == lowercase_text(out@[i].name@),
            plain == unexpanded(entries@),
            plain ==> unexpanded(rest@),
            plain ==> unexpanded(out@),
        decreases rest@.len(),
    {
        let ghost before = rest@;
        let entry = match rest.pop() {
            Some(e) => e,
            None => {
                return out;
            },
        };
        let key = order_key(&entry);
        let ghost sorted = models(out@);
        let ghost n = rest@.len() as int;
        proof {
            assert(entry == before[n]);
            assert(entry@ == raw[n]) by {
                assert(models(before)[n] == raw.take(before.len() as int)[n]);
            }
            assert(models(rest@) =~= raw.take(n)) by {
                assert forall|i: int| 0 <= i < n implies models(rest@)[i] == raw.take(n)[i] by {
                    assert(models(before)[i] == raw.take(before.len() as int)[i]);
                }
            }
            assert(raw.skip(n).drop_first() =~= raw.skip(n + 1));
            assert(raw.skip(n).first() == raw[n]);
            lemma_insert_position(sorted, entry@);
        }
        let mut at: usize = 0;
        proof {
            assert(sorted.skip(0) =~= sorted);
        }
        while at < out.len() && key_before(
            out[at].entry_type,
            keys[at].as_slice(),
            entry.entry_type,
            key.as_slice(),
        )
            invariant
                at <= out@.len(),
                keys@.len() == out@.len(),
                sorted == models(out@),
                key@ == lowercase_text(entry.name@),
                forall|i: int|
                    0 <= i < out@.len() ==> (#[trigger] keys@[i])@ == lowercase_text(out@[i].name@),
                insert_position(sorted, entry@) == at + insert_position(sorted.skip(at as int), entry@),
            decreases out@.len() - at,
        {
            proof {
                assert(sorted.skip(at as int)[0] == out@[at as int]@);
                assert(sorted.skip(at as int).drop_first() =~= sorted.skip(at + 1));
            }
            at = at + 1;
        }
        proof {
            if at < out@.len() {
                assert(sorted.skip(at as int)[0] == out@[at as int]@);
            }
            assert(insert_position(sorted, entry@) == at);
            assert(models(out@.insert(at as int, entry)) =~= sorted.insert(at as int, entry@));
        }
        out.insert(at, entry);
        keys.insert(at, key);
    }
    proof {
        assert(raw.skip(0) =~= raw);
    }
    out
}

} // verus!
