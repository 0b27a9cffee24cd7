//! The order of a listing: the parent entry first, then the directories, then
//! the files, and by name within each of these.
//!
//! Names are ordered as their UTF-8 bytes are, one byte after the other, which
//! is the order of the code points of their characters.

use vstd::prelude::*;
use vstd::multiset::Multiset;
use vstd::multiset::lemma_multiset_empty_len;
use vstd::seq_lib::{
    lemma_multiset_commutative, to_multiset_build, to_multiset_contains, to_multiset_len,
    to_multiset_remove,
};
use vstd::utf8::{encode_utf8, encode_utf8_decode_utf8, is_ascii_chars_encode_utf8};
use crate::fms::{EntryView, PathKind};

verus! {

/// `a` stands before `b` in the order of the dictionary: at the first place
/// where they differ `a` has the smaller byte, or `a` ends there and `b` goes
/// on.
pub open spec fn bytes_precede(a: Seq<u8>, b: Seq<u8>) -> bool
    decreases a.len(),
{
    if b.len() == 0 {
        false
    } else if a.len() == 0 {
        true
    } else if a.first() != b.first() {
        a.first() < b.first()
    } else {
        bytes_precede(a.drop_first(), b.drop_first())
    }
}

/// Of two byte strings that differ, one stands before the other.
pub proof fn lemma_bytes_total(a: Seq<u8>, b: Seq<u8>)
    ensures
        bytes_precede(a, b) || bytes_precede(b, a) || a == b,
    decreases a.len(),
{
    if a.len() > 0 && b.len() > 0 && a.first() == b.first() {
        lemma_bytes_total(a.drop_first(), b.drop_first());
        if a.drop_first() == b.drop_first() {
            assert(a =~= seq![a.first()] + a.drop_first());
            assert(b =~= seq![b.first()] + b.drop_first());
        }
    } else if a.len() == 0 && b.len() == 0 {
        assert(a =~= b);
    }
}

/// No byte string stands before one that stands before it, nor before itself.
pub proof fn lemma_bytes_asymmetric(a: Seq<u8>, b: Seq<u8>)
    ensures
        !(bytes_precede(a, b) && bytes_precede(b, a)),
    decreases a.len(),
{
    if a.len() > 0 && b.len() > 0 && a.first() == b.first() {
        lemma_bytes_asymmetric(a.drop_first(), b.drop_first());
    }
}

/// What stands before a byte string stands before all that it stands before.
pub proof fn lemma_bytes_transitive(a: Seq<u8>, b: Seq<u8>, c: Seq<u8>)
    requires
        bytes_precede(a, b),
        bytes_precede(b, c),
    ensures
        bytes_precede(a, c),
    decreases a.len(),
{
    if a.len() > 0 && a.first() == b.first() && b.first() == c.first() {
        lemma_bytes_transitive(a.drop_first(), b.drop_first(), c.drop_first());
    }
}

/// The name of the entry that leads to the parent directory.
pub open spec fn parent_name() -> Seq<char> {
    seq!['.', '.']
}

/// `a` stands before `b` in the order of names.
pub open spec fn name_precedes(a: Seq<char>, b: Seq<char>) -> bool {
    bytes_precede(encode_utf8(a), encode_utf8(b))
}

/// The group of an entry: the parent entry, the other directories, the files.
pub open spec fn entry_rank(entry: EntryView) -> int {
    if !entry.is_dir {
        2
    } else if entry.info.name == parent_name() {
        0
    } else {
        1
    }
}

/// `a` stands before `b` in a listing: it is of an earlier group, or of the
/// same group and its name stands before that of `b`.
pub open spec fn entry_precedes(a: EntryView, b: EntryView) -> bool {
    entry_rank(a) < entry_rank(b) || (entry_rank(a) == entry_rank(b) && name_precedes(
        a.info.name,
        b.info.name,
    ))
}

/// No entry of `listing` stands before one that comes earlier in it.
pub open spec fn listing_sorted(listing: Seq<EntryView>) -> bool {
    forall|i: int, j: int|
        0 <= i < j < listing.len() ==> !entry_precedes(#[trigger] listing[j], #[trigger] listing[i])
}

/// The entries of `entries` as mathematical values.
pub open spec fn entry_views(entries: Seq<PathKind>) -> Seq<EntryView> {
    entries.map_values(|entry: PathKind| entry@)
}

/// Where neither `b` stands before `a` nor `c` before `b`, `c` does not stand
/// before `a`.
pub proof fn lemma_entry_order_chain(a: EntryView, b: EntryView, c: EntryView)
    requires
        !entry_precedes(b, a),
        !entry_precedes(c, b),
    ensures
        !entry_precedes(c, a),
{
    let na = encode_utf8(a.info.name);
    let nb = encode_utf8(b.info.name);
    let nc = encode_utf8(c.info.name);
    if entry_rank(a) == entry_rank(b) && entry_rank(b) == entry_rank(c) && bytes_precede(nc, na) {
        // the names stand in the order a, b, c, unless two of them are one
        lemma_bytes_total(nb, na);
        lemma_bytes_total(nc, nb);
        if nb != na && nc != nb {
            lemma_bytes_transitive(na, nb, nc);
            lemma_bytes_asymmetric(na, nc);
        }
    }
}

/// In a sorted listing every directory comes before every file.
pub proof fn lemma_directories_first(listing: Seq<EntryView>, dir: int, file: int)
    requires
        listing_sorted(listing),
        0 <= dir < listing.len(),
        0 <= file < listing.len(),
        listing[dir].is_dir,
        !listing[file].is_dir,
    ensures
        dir < file,
{
    if file < dir {
        assert(entry_precedes(listing[dir], listing[file]));
    }
}

/// In a sorted listing the parent entry comes before every entry that is not
/// a parent entry, whatever the names.
pub proof fn lemma_parent_first(listing: Seq<EntryView>, parent: int, other: int)
    requires
        listing_sorted(listing),
        0 <= parent < listing.len(),
        0 <= other < listing.len(),
        entry_rank(listing[parent]) == 0,
        entry_rank(listing[other]) != 0,
    ensures
        parent < other,
{
    if other < parent {
        assert(entry_precedes(listing[parent], listing[other]));
    }
}

/// No two entries of `listing` are of the same group and name.
pub open spec fn listing_distinct(listing: Seq<EntryView>) -> bool {
    forall|i: int, j: int|
        0 <= i < listing.len() && 0 <= j < listing.len() && i != j ==> entry_precedes(
            #[trigger] listing[i],
            #[trigger] listing[j],
        ) || entry_precedes(listing[j], listing[i])
}

/// Entries that differ in group or name have one listing only: two sorted
/// sequences that hold the same such entries are the same sequence.
pub proof fn lemma_listing_unique(a: Seq<EntryView>, b: Seq<EntryView>)
    requires
        listing_sorted(a),
        listing_sorted(b),
        listing_distinct(a),
        a.to_multiset() == b.to_multiset(),
    ensures
        a == b,
    decreases a.len(),
{
    to_multiset_len(a);
    to_multiset_len(b);
    if a.len() == 0 {
        assert(a =~= b);
    } else {
        // each first entry occurs in the other sequence
        to_multiset_contains(a, a[0]);
        to_multiset_contains(b, a[0]);
        to_multiset_contains(a, b[0]);
        to_multiset_contains(b, b[0]);
        let i = choose|i: int| 0 <= i < a.len() && a[i] == b[0];
        let j = choose|j: int| 0 <= j < b.len() && b[j] == a[0];
        // neither first entry stands before the other, so they are one entry of `a`
        lemma_entry_order_asymmetric(a[0], a[0]);
        assert(!entry_precedes(a[i], a[0]) && !entry_precedes(b[j], b[0]));
        assert(a[0] == b[0]);
        // and what follows them holds the same entries again
        let rest_a = a.drop_first();
        let rest_b = b.drop_first();
        assert(a.remove(0) =~= rest_a && b.remove(0) =~= rest_b);
        to_multiset_remove(a, 0);
        to_multiset_remove(b, 0);
        assert(listing_sorted(rest_a) && listing_sorted(rest_b) && listing_distinct(rest_a));
        lemma_listing_unique(rest_a, rest_b);
        assert(a =~= seq![a[0]] + rest_a);
        assert(b =~= seq![b[0]] + rest_b);
    }
}

/// Only the name of the parent entry is written as two full stops.
pub proof fn lemma_parent_name_bytes(name: Seq<char>)
    ensures
        encode_utf8(name) == seq![46u8, 46u8] <==> name == parent_name(),
{
    let dots = parent_name();
    is_ascii_chars_encode_utf8(dots);
    assert(encode_utf8(dots) =~= seq![46u8, 46u8]);
    if encode_utf8(name) == seq![46u8, 46u8] {
        encode_utf8_decode_utf8(name);
        encode_utf8_decode_utf8(dots);
    }
}

/// Whether `a` stands before `b` in the order of the dictionary.
pub fn bytes_less(a: &[u8], b: &[u8]) -> (less: bool)
    ensures
        less == bytes_precede(a@, b@),
{
    let mut i: usize = 0;
    assert(a@.skip(0) =~= a@ && b@.skip(0) =~= b@);
    while i < a.len() && i < b.len()
        invariant
            i <= a@.len(),
            i <= b@.len(),
            bytes_precede(a@, b@) == bytes_precede(a@.skip(i as int), b@.skip(i as int)),
        decreases a@.len() - i,
    {
        proof {
            let ra = a@.skip(i as int);
            let rb = b@.skip(i as int);
            assert(ra.drop_first() =~= a@.skip(i + 1));
            assert(rb.drop_first() =~= b@.skip(i + 1));
        }
        if a[i] != b[i] {
            return a[i] < b[i];
        }
        i = i + 1;
    }
    i < b.len()
}

/// Whether `name` is the name of the parent entry.
pub fn is_parent_name(name: &str) -> (parent: bool)
    ensures
        parent == (name@ == parent_name()),
{
    let bytes = name.as_bytes();
    proof {
        lemma_parent_name_bytes(name@);
    }
    let parent: bool = bytes.len() == 2 && bytes[0] == 46 && bytes[1] == 46;
    assert(parent ==> bytes@ =~= seq![46u8, 46u8]);
    parent
}

/// The group of `entry`, as `entry_rank` numbers them.
fn rank_of(entry: &PathKind) -> (rank: u8)
    ensures
        rank == entry_rank(entry@),
{
    match entry {
        PathKind::FILE(_) => 2,
        PathKind::DIR(info) => {
            if is_parent_name(info.file_name.as_str()) {
                0
            } else {
                1
            }
        },
    }
}

/// Whether `a` stands before `b` in a listing.
pub fn entry_less(a: &PathKind, b: &PathKind) -> (less: bool)
    ensures
        less == entry_precedes(a@, b@),
{
    let rank_a: u8 = rank_of(a);
    let rank_b: u8 = rank_of(b);
    if rank_a != rank_b {
        rank_a < rank_b
    } else {
        bytes_less(a.info().file_name.as_str().as_bytes(), b.info().file_name.as_str().as_bytes())
    }
}

/// No entry stands before one that stands before it.
pub proof fn lemma_entry_order_asymmetric(a: EntryView, b: EntryView)
    ensures
        !(entry_precedes(a, b) && entry_precedes(b, a)),
{
    lemma_bytes_asymmetric(encode_utf8(a.info.name), encode_utf8(b.info.name));
}

/// No entry of `listing` stands before one that comes later in it.
spec fn listing_descending(listing: Seq<EntryView>) -> bool {
    forall|i: int, j: int|
        0 <= i < j < listing.len() ==> !entry_precedes(#[trigger] listing[i], #[trigger] listing[j])
}

/// No entry of `high` stands before an entry of `low`.
spec fn none_before(high: Seq<EntryView>, low: Seq<EntryView>) -> bool {
    forall|i: int, j: int|
        0 <= i < high.len() && 0 <= j < low.len() ==> !entry_precedes(
            #[trigger] high[i],
            #[trigger] low[j],
        )
}

/// The greatest entry of two sorted runs may be put on a run that descends
/// from entries that none of the two runs exceeds.
proof fn lemma_take_greatest(stack: Seq<EntryView>, from: Seq<EntryView>, other: Seq<EntryView>)
    requires
        from.len() > 0,
        listing_sorted(from),
        listing_sorted(other),
        listing_descending(stack),
        none_before(stack, from),
        none_before(stack, other),
        other.len() > 0 ==> !entry_precedes(from.last(), other.last()),
    ensures
        listing_sorted(from.drop_last()),
        listing_descending(stack.push(from.last())),
        none_before(stack.push(from.last()), from.drop_last()),
        none_before(stack.push(from.last()), other),
{
    let top = from.last();
    let grown = stack.push(top);
    lemma_entry_order_asymmetric(top, top);
    assert(listing_sorted(from.drop_last()));
    assert(listing_descending(grown));
    assert(none_before(grown, from.drop_last()));
    assert forall|i: int, j: int| 0 <= i < grown.len() && 0 <= j < other.len() implies !entry_precedes(
        #[trigger] grown[i],
        #[trigger] other[j],
    ) by {
        if i == stack.len() {
            // no entry of `other` comes after its last, which `top` is not before
            let last = other.last();
            lemma_entry_order_asymmetric(last, last);
            lemma_entry_order_chain(other[j], last, top);
        }
    }
}

/// The least entry of a descending run may be put behind a sorted run that
/// none of its entries stands before.
proof fn lemma_put_least(stack: Seq<EntryView>, merged: Seq<EntryView>)
    requires
        stack.len() > 0,
        listing_descending(stack),
        listing_sorted(merged),
        none_before(stack, merged),
    ensures
        listing_descending(stack.drop_last()),
        listing_sorted(merged.push(stack.last())),
        none_before(stack.drop_last(), merged.push(stack.last())),
{
    let grown = merged.push(stack.last());
    assert(listing_descending(stack.drop_last()));
    assert(listing_sorted(grown));
    assert(none_before(stack.drop_last(), grown));
}

/// A sequence without entries holds none.
proof fn lemma_views_empty(entries: Seq<PathKind>)
    requires
        entries.len() == 0,
    ensures
        entry_views(entries) == Seq::<EntryView>::empty(),
        entry_views(entries).to_multiset() == Multiset::<EntryView>::empty(),
{
    to_multiset_len(entry_views(entries));
    lemma_multiset_empty_len(entry_views(entries).to_multiset());
}

/// The entries of a sequence are those of all but its last, and its last.
proof fn lemma_views_split_last(entries: Seq<PathKind>)
    requires
        entries.len() > 0,
    ensures
        entry_views(entries).last() == entries.last()@,
        entry_views(entries.subrange(0, entries.len() - 1)) == entry_views(entries).drop_last(),
        entry_views(entries).to_multiset() == entry_views(
            entries.subrange(0, entries.len() - 1),
        ).to_multiset().insert(entries.last()@),
{
    let views = entry_views(entries);
    assert(views =~= views.drop_last().push(entries.last()@));
    to_multiset_build(views.drop_last(), entries.last()@);
}

/// The entries of a sequence with one more are those of the sequence, and
/// that one.
proof fn lemma_views_push(entries: Seq<PathKind>, entry: PathKind)
    ensures
        entry_views(entries.push(entry)) == entry_views(entries).push(entry@),
        entry_views(entries.push(entry)).to_multiset() == entry_views(
            entries,
        ).to_multiset().insert(entry@),
{
    assert(entry_views(entries.push(entry)) =~= entry_views(entries).push(entry@));
    to_multiset_build(entry_views(entries), entry@);
}

/// Merges two sorted runs of entries into one.
fn merge_entries(left: Vec<PathKind>, right: Vec<PathKind>) -> (merged: Vec<PathKind>)
    requires
        listing_sorted(entry_views(left@)),
        listing_sorted(entry_views(right@)),
    ensures
        listing_sorted(entry_views(merged@)),
        entry_views(merged@).to_multiset() == entry_views(left@).to_multiset().add(
            entry_views(right@).to_multiset(),
        ),
        merged@.len() == left@.len() + right@.len(),
{
    broadcast use vstd::multiset::group_multiset_axioms;

    let mut left = left;
    let mut right = right;
    let ghost all: Multiset<EntryView> = entry_views(left@).to_multiset().add(
        entry_views(right@).to_multiset(),
    );
    let ghost count: nat = left@.len() + right@.len();
    // the entries from the greatest down
    let mut stack: Vec<PathKind> = Vec::new();
    proof {
        lemma_views_empty(stack@);
        assert(Multiset::<EntryView>::empty().add(entry_views(left@).to_multiset()).add(
            entry_views(right@).to_multiset(),
        ) =~= all);
    }
    while left.len() > 0 || right.len() > 0
        invariant
            listing_sorted(entry_views(left@)),
            listing_sorted(entry_views(right@)),
            listing_descending(entry_views(stack@)),
            none_before(entry_views(stack@), entry_views(left@)),
            none_before(entry_views(stack@), entry_views(right@)),
            entry_views(stack@).to_multiset().add(entry_views(left@).to_multiset()).add(
                entry_views(right@).to_multiset(),
            ) == all,
            stack@.len() + left@.len() + right@.len() == count,
        decreases left@.len() + right@.len(),
    {
        let from_left: bool = if right.len() == 0 {
            true
        } else if left.len() == 0 {
            false
        } else {
            entry_less(&right[right.len() - 1], &left[left.len() - 1])
        };
        let ghost old_left = left@;
        let ghost old_right = right@;
        let ghost old_stack = stack@;
        if from_left {
            let entry = left.pop().unwrap();
            proof {
                lemma_views_split_last(old_left);
                lemma_views_push(old_stack, entry);
                if old_right.len() > 0 {
                    lemma_views_split_last(old_right);
                    lemma_entry_order_asymmetric(entry@, old_right.last()@);
                }
                lemma_take_greatest(
                    entry_views(old_stack),
                    entry_views(old_left),
                    entry_views(old_right),
                );
            }
            stack.push(entry);
            assert(entry_views(stack@).to_multiset().add(entry_views(left@).to_multiset()).add(
                entry_views(right@).to_multiset(),
            ) =~= all);
        } else {
            let entry = right.pop().unwrap();
            proof {
                lemma_views_split_last(old_right);
                lemma_views_push(old_stack, entry);
                if old_left.len() > 0 {
                    lemma_views_split_last(old_left);
                }
                lemma_take_greatest(
                    entry_views(old_stack),
                    entry_views(old_right),
                    entry_views(old_left),
                );
            }
            stack.push(entry);
            assert(entry_views(stack@).to_multiset().add(entry_views(left@).to_multiset()).add(
                entry_views(right@).to_multiset(),
            ) =~= all);
        }
    }
    let mut merged: Vec<PathKind> = Vec::new();
    proof {
        lemma_views_empty(left@);
        lemma_views_empty(right@);
        lemma_views_empty(merged@);
    }
    while stack.len() > 0
        invariant
            listing_descending(entry_views(stack@)),
            listing_sorted(entry_views(merged@)),
            none_before(entry_views(stack@), entry_views(merged@)),
            entry_views(merged@).to_multiset().add(entry_views(stack@).to_multiset()) == all,
            merged@.len() + stack@.len() == count,
        decreases stack@.len(),
    {
        let ghost old_stack = stack@;
        let ghost old_merged = merged@;
        let entry = stack.pop().unwrap();
        proof {
            lemma_views_split_last(old_stack);
            lemma_views_push(old_merged, entry);
            lemma_put_least(entry_views(old_stack), entry_views(old_merged));
        }
        merged.push(entry);
    }
    proof {
        lemma_views_empty(stack@);
        assert(entry_views(merged@).to_multiset().add(Multiset::<EntryView>::empty())
            =~= entry_views(merged@).to_multiset());
    }
    merged
}

/// Sorts entries into the order of a listing. The result holds the same
/// entries, each as often as before.
pub fn sort_entries(entries: Vec<PathKind>) -> (sorted: Vec<PathKind>)
    ensures
        listing_sorted(entry_views(sorted@)),
        entry_views(sorted@).to_multiset() == entry_views(entries@).to_multiset(),
        sorted@.len() == entries@.len(),
    decreases entries@.len(),
{
    let count: usize = entries.len();
    if count <= 1 {
        return entries;
    }
    let mut left = entries;
    let right = left.split_off(count / 2);
    proof {
        assert(entry_views(entries@) =~= entry_views(left@) + entry_views(right@));
        lemma_multiset_commutative(entry_views(left@), entry_views(right@));
    }
    let left = sort_entries(left);
    let right = sort_entries(right);
    merge_entries(left, right)
}

} // verus!
