//! The order in which directory entries are listed.

use vstd::prelude::*;

use crate::request::DirectoryEntryPlus;
use crate::text::{is_before, name_before, name_order_is_total, name_order_is_transitive};

verus! {

/// The names of some directory entries.
pub open spec fn entry_names(entries: Seq<DirectoryEntryPlus>) -> Seq<Seq<char>> {
    Seq::new(entries.len(), |i: int| entries[i].name@)
}

/// The entry at one position is listed before the entry at another: by name, and entries of the
/// same name by position.
pub open spec fn listed_before(names: Seq<Seq<char>>, i: int, j: int) -> bool {
    name_before(names[i], names[j]) || (names[i] == names[j] && i < j)
}

/// Some positions come in the order in which their entries are listed.
pub open spec fn in_listing_order(names: Seq<Seq<char>>, order: Seq<int>) -> bool {
    forall|k: int, l: int|
        0 <= k < l < order.len() ==> listed_before(names, #[trigger] order[k], #[trigger] order[l])
}

/// All positions, in the order in which their entries are listed.
pub open spec fn is_listing_order(names: Seq<Seq<char>>, order: Seq<int>) -> bool {
    &&& order.len() == names.len()
    &&& forall|k: int| 0 <= k < order.len() ==> 0 <= #[trigger] order[k] < names.len()
    &&& in_listing_order(names, order)
}

/// The order in which entries with these names are listed.
pub open spec fn listing_order(names: Seq<Seq<char>>) -> Seq<int> {
    choose|order: Seq<int>| is_listing_order(names, order)
}

/// Positions as mathematical integers.
pub open spec fn positions(order: Seq<usize>) -> Seq<int> {
    order.map_values(|i: usize| i as int)
}

proof fn listed_before_is_strict(names: Seq<Seq<char>>, i: int, j: int)
    ensures
        !(listed_before(names, i, j) && listed_before(names, j, i)),
        i != j ==> listed_before(names, i, j) || listed_before(names, j, i),
        !listed_before(names, i, i),
{
    name_order_is_total(names[i], names[j]);
}

proof fn listed_before_is_transitive(names: Seq<Seq<char>>, i: int, j: int, k: int)
    requires
        listed_before(names, i, j),
        listed_before(names, j, k),
    ensures
        listed_before(names, i, k),
{
    if name_before(names[i], names[j]) && name_before(names[j], names[k]) {
        name_order_is_transitive(names[i], names[j], names[k]);
    }
}

/// Positions in listing order are all different.
proof fn listing_order_has_no_duplicates(names: Seq<Seq<char>>, order: Seq<int>)
    requires
        in_listing_order(names, order),
    ensures
        order.no_duplicates(),
{
    assert forall|k: int, l: int|
        0 <= k < order.len() && 0 <= l < order.len() && k != l implies order[k] != order[l] by {
        if k < l {
            listed_before_is_strict(names, order[k], order[l]);
        } else {
            listed_before_is_strict(names, order[l], order[k]);
        }
    }
}

/// The listing order names every position exactly once.
pub proof fn listing_order_covers_all(names: Seq<Seq<char>>, order: Seq<int>, i: int)
    requires
        is_listing_order(names, order),
        0 <= i < names.len(),
    ensures
        order.contains(i),
        order.no_duplicates(),
{
    listing_order_has_no_duplicates(names, order);
    let all = vstd::set_lib::set_int_range(0, names.len() as int);
    order.unique_seq_to_set();
    vstd::set_lib::lemma_int_range(0, names.len() as int);
    assert(order.to_set().subset_of(all));
    vstd::set_lib::lemma_subset_equality(order.to_set(), all);
    assert(all.contains(i));
}

proof fn drop_last_removes_last(order: Seq<int>)
    requires
        order.no_duplicates(),
        order.len() > 0,
    ensures
        order.drop_last().to_set() == order.to_set().remove(order.last()),
{
    let rest = order.drop_last();
    assert forall|x: int|
        rest.to_set().contains(x) <==> order.to_set().remove(order.last()).contains(x) by {
        if rest.contains(x) {
            let k = choose|k: int| 0 <= k < rest.len() && rest[k] == x;
            assert(order[k] == x);
        }
        if order.contains(x) && x != order.last() {
            let k = choose|k: int| 0 <= k < order.len() && order[k] == x;
            assert(rest[k] == x);
        }
    }
    assert(rest.to_set() =~= order.to_set().remove(order.last()));
}

proof fn same_positions_same_order(names: Seq<Seq<char>>, a: Seq<int>, b: Seq<int>)
    requires
        in_listing_order(names, a),
        in_listing_order(names, b),
        a.to_set() == b.to_set(),
    ensures
        a == b,
    decreases a.len(),
{
    if a.len() == 0 {
        if b.len() > 0 {
            assert(b.to_set().contains(b[0]));
            assert(a.contains(b[0]));
        }
        assert(a =~= b);
    } else {
        assert(a.to_set().contains(a.last()));
        assert(b.contains(a.last()));
        assert(b.to_set().contains(b.last()));
        assert(a.contains(b.last()));
        let k = choose|k: int| 0 <= k < b.len() && b[k] == a.last();
        let l = choose|l: int| 0 <= l < a.len() && a[l] == b.last();
        if a.last() != b.last() {
            assert(listed_before(names, b[k], b[b.len() - 1]));
            assert(listed_before(names, a[l], a[a.len() - 1]));
            listed_before_is_strict(names, a.last(), b.last());
        }
        listing_order_has_no_duplicates(names, a);
        listing_order_has_no_duplicates(names, b);
        drop_last_removes_last(a);
        drop_last_removes_last(b);
        same_positions_same_order(names, a.drop_last(), b.drop_last());
        assert(a =~= a.drop_last().push(a.last()));
        assert(b =~= b.drop_last().push(b.last()));
    }
}

/// There is only one listing order.
pub proof fn listing_order_is_unique(names: Seq<Seq<char>>, order: Seq<int>)
    requires
        is_listing_order(names, order),
    ensures
        order == listing_order(names),
{
    let chosen = listing_order(names);
    assert(order.to_set() =~= chosen.to_set()) by {
        assert forall|x: int| order.to_set().contains(x) <==> chosen.to_set().contains(x) by {
            if order.contains(x) {
                let m = choose|m: int| 0 <= m < order.len() && order[m] == x;
                listing_order_covers_all(names, chosen, x);
            }
            if chosen.contains(x) {
                let m = choose|m: int| 0 <= m < chosen.len() && chosen[m] == x;
                listing_order_covers_all(names, order, x);
            }
        }
    }
    same_positions_same_order(names, order, chosen);
}

/// Puts a new position where it belongs among others.
proof fn insert_position(names: Seq<Seq<char>>, order: Seq<int>, new: int) -> (with_new: Seq<int>)
    requires
        in_listing_order(names, order),
        !order.contains(new),
    ensures
        in_listing_order(names, with_new),
        with_new.len() == order.len() + 1,
        forall|k: int|
            0 <= k < with_new.len() ==> #[trigger] with_new[k] == new || order.contains(
                with_new[k],
            ),
    decreases order.len(),
{
    if order.len() == 0 {
        push_keeps_order(names, order, new);
        order.push(new)
    } else if listed_before(names, order.last(), new) {
        assert forall|k: int| 0 <= k < order.len() implies listed_before(
            names,
            #[trigger] order[k],
            new,
        ) by {
            if k < order.len() - 1 {
                listed_before_is_transitive(names, order[k], order.last(), new);
            }
        }
        push_keeps_order(names, order, new);
        order.push(new)
    } else {
        let rest = order.drop_last();
        assert(order.contains(order.last()));
        listed_before_is_strict(names, order.last(), new);
        assert forall|k: int| 0 <= k < rest.len() implies order.contains(#[trigger] rest[k]) by {
            assert(order[k] == rest[k]);
        }
        assert(!rest.contains(new));
        let inner = insert_position(names, rest, new);
        assert forall|k: int| 0 <= k < inner.len() implies listed_before(
            names,
            #[trigger] inner[k],
            order.last(),
        ) && (inner[k] == new || order.contains(inner[k])) by {
            if inner[k] != new {
                let m = choose|m: int| 0 <= m < rest.len() && rest[m] == inner[k];
                assert(order[m] == inner[k]);
            }
        }
        let with_new = inner.push(order.last());
        push_keeps_order(names, inner, order.last());
        assert forall|k: int| 0 <= k < with_new.len() implies #[trigger] with_new[k] == new
            || order.contains(with_new[k]) by {
            if k < inner.len() {
                assert(with_new[k] == inner[k]);
            }
        }
        with_new
    }
}

proof fn push_keeps_order(names: Seq<Seq<char>>, order: Seq<int>, last: int)
    requires
        in_listing_order(names, order),
        forall|k: int| 0 <= k < order.len() ==> listed_before(names, #[trigger] order[k], last),
    ensures
        in_listing_order(names, order.push(last)),
        forall|k: int|
            0 <= k < order.push(last).len() ==> #[trigger] order.push(last)[k] == last
                || order.contains(order.push(last)[k]),
{
    let pushed = order.push(last);
    assert forall|k: int| 0 <= k < pushed.len() implies #[trigger] pushed[k] == last
        || order.contains(pushed[k]) by {
        if k < order.len() {
            assert(order[k] == pushed[k]);
        }
    }
}

proof fn order_of_first(names: Seq<Seq<char>>, n: nat) -> (order: Seq<int>)
    requires
        n <= names.len(),
    ensures
        order.len() == n,
        in_listing_order(names, order),
        forall|k: int| 0 <= k < order.len() ==> 0 <= #[trigger] order[k] < n,
    decreases n,
{
    if n == 0 {
        Seq::empty()
    } else {
        let before = order_of_first(names, (n - 1) as nat);
        let order = insert_position(names, before, n - 1);
        assert forall|k: int| 0 <= k < order.len() implies 0 <= #[trigger] order[k] < n by {
            if order[k] != n - 1 {
                let m = choose|m: int| 0 <= m < before.len() && before[m] == order[k];
                assert(before[m] == order[k]);
            }
        }
        order
    }
}

/// There is always a listing order.
pub proof fn listing_order_exists(names: Seq<Seq<char>>)
    ensures
        is_listing_order(names, listing_order(names)),
{
    let order = order_of_first(names, names.len());
    assert(is_listing_order(names, order));
}

/// Merges two stretches of positions that are in listing order, where every position of the first
/// is below every position of the second.
fn merge(
    entries: &Vec<DirectoryEntryPlus>,
    left: &Vec<usize>,
    right: &Vec<usize>,
    low: usize,
    mid: usize,
    high: usize,
) -> (order: Vec<usize>)
    requires
        low <= mid <= high <= entries@.len(),
        left@.len() == mid - low,
        right@.len() == high - mid,
        forall|k: int| 0 <= k < left@.len() ==> low <= #[trigger] left@[k] < mid,
        forall|k: int| 0 <= k < right@.len() ==> mid <= #[trigger] right@[k] < high,
        in_listing_order(entry_names(entries@), positions(left@)),
        in_listing_order(entry_names(entries@), positions(right@)),
    ensures
        order@.len() == high - low,
        forall|k: int| 0 <= k < order@.len() ==> low <= #[trigger] order@[k] < high,
        in_listing_order(entry_names(entries@), positions(order@)),
{
    let ghost names = entry_names(entries@);
    let mut order: Vec<usize> = Vec::new();
    let mut i: usize = 0;
    let mut j: usize = 0;
    assert forall|k: int, l: int| 0 <= k < l < left@.len() implies listed_before(
        names,
        #[trigger] left@[k] as int,
        #[trigger] left@[l] as int,
    ) by {
        assert(listed_before(names, positions(left@)[k], positions(left@)[l]));
    }
    assert forall|k: int, l: int| 0 <= k < l < right@.len() implies listed_before(
        names,
        #[trigger] right@[k] as int,
        #[trigger] right@[l] as int,
    ) by {
        assert(listed_before(names, positions(right@)[k], positions(right@)[l]));
    }
    while i < left.len() || j < right.len()
        invariant
            names == entry_names(entries@),
            low <= mid <= high <= entries@.len(),
            left@.len() == mid - low,
            right@.len() == high - mid,
            forall|k: int| 0 <= k < left@.len() ==> low <= #[trigger] left@[k] < mid,
            forall|k: int| 0 <= k < right@.len() ==> mid <= #[trigger] right@[k] < high,
            forall|k: int, l: int|
                0 <= k < l < left@.len() ==> listed_before(
                    names,
                    #[trigger] left@[k] as int,
                    #[trigger] left@[l] as int,
                ),
            forall|k: int, l: int|
                0 <= k < l < right@.len() ==> listed_before(
                    names,
                    #[trigger] right@[k] as int,
                    #[trigger] right@[l] as int,
                ),
            i <= left@.len(),
            j <= right@.len(),
            order@.len() == i + j,
            forall|k: int| 0 <= k < order@.len() ==> low <= #[trigger] order@[k] < high,
            forall|k: int, l: int|
                0 <= k < l < order@.len() ==> listed_before(
                    names,
                    #[trigger] order@[k] as int,
                    #[trigger] order@[l] as int,
                ),
            forall|k: int, l: int|
                0 <= k < order@.len() && i <= l < left@.len() ==> listed_before(
                    names,
                    #[trigger] order@[k] as int,
                    #[trigger] left@[l] as int,
                ),
            forall|k: int, l: int|
                0 <= k < order@.len() && j <= l < right@.len() ==> listed_before(
                    names,
                    #[trigger] order@[k] as int,
                    #[trigger] right@[l] as int,
                ),
        decreases left.len() - i + right.len() - j,
    {
        let from_left: bool = if i == left.len() {
            false
        } else if j == right.len() {
            true
        } else {
            !is_before(entries[right[j]].name, entries[left[i]].name)
        };
        if from_left {
            proof {
                if j < right@.len() {
                    name_order_is_total(
                        names[left@[i as int] as int],
                        names[right@[j as int] as int],
                    );
                    assert(listed_before(names, left@[i as int] as int, right@[j as int] as int));
                    assert forall|l: int| j <= l < right@.len() implies listed_before(
                        names,
                        left@[i as int] as int,
                        #[trigger] right@[l] as int,
                    ) by {
                        if l > j {
                            listed_before_is_transitive(
                                names,
                                left@[i as int] as int,
                                right@[j as int] as int,
                                right@[l] as int,
                            );
                        }
                    }
                }
            }
            order.push(left[i]);
            i += 1;
        } else {
            proof {
                if i < left@.len() {
                    assert(listed_before(names, right@[j as int] as int, left@[i as int] as int));
                    assert forall|l: int| i <= l < left@.len() implies listed_before(
                        names,
                        right@[j as int] as int,
                        #[trigger] left@[l] as int,
                    ) by {
                        if l > i {
                            listed_before_is_transitive(
                                names,
                                right@[j as int] as int,
                                left@[i as int] as int,
                                left@[l] as int,
                            );
                        }
                    }
                }
            }
            order.push(right[j]);
            j += 1;
        }
    }
    order
}

/// Sorts a stretch of positions into listing order.
fn sort_stretch(entries: &Vec<DirectoryEntryPlus>, low: usize, high: usize) -> (order: Vec<usize>)
    requires
        low <= high <= entries@.len(),
    ensures
        order@.len() == high - low,
        forall|k: int| 0 <= k < order@.len() ==> low <= #[trigger] order@[k] < high,
        in_listing_order(entry_names(entries@), positions(order@)),
    decreases high - low,
{
    if high - low == 0 {
        Vec::new()
    } else if high - low == 1 {
        let mut order: Vec<usize> = Vec::new();
        order.push(low);
        order
    } else {
        let mid: usize = low + (high - low) / 2;
        let left: Vec<usize> = sort_stretch(entries, low, mid);
        let right: Vec<usize> = sort_stretch(entries, mid, high);
        merge(entries, &left, &right, low, mid, high)
    }
}

/// Sorts directory entries: gives their positions in the order in which they are listed.
pub fn sort_entries(entries: &Vec<DirectoryEntryPlus>) -> (order: Vec<usize>)
    ensures
        is_listing_order(entry_names(entries@), positions(order@)),
        positions(order@) == listing_order(entry_names(entries@)),
{
    let order: Vec<usize> = sort_stretch(entries, 0, entries.len());
    proof {
        assert forall|k: int| 0 <= k < positions(order@).len() implies 0 <= #[trigger] positions(
            order@,
        )[k] < entry_names(entries@).len() by {
            assert(order@[k] < entries@.len());
        }
        listing_order_is_unique(entry_names(entries@), positions(order@));
    }
    order
}

/// An order of listing takes each position once and goes by the names at the positions, and by the
/// positions themselves where the names are the same. The names are those of the entries.
pub proof fn listing_order_goes_by_name(
    entries: Seq<DirectoryEntryPlus>,
    order: Seq<int>,
    sorted: Seq<usize>,
)
    ensures
        entry_names(entries).len() == entries.len(),
        forall|i: int|
            0 <= i < entries.len() ==> #[trigger] entry_names(entries)[i] == entries[i].name@,
        positions(sorted).len() == sorted.len(),
        forall|k: int| 0 <= k < sorted.len() ==> #[trigger] positions(sorted)[k] == sorted[k],
        is_listing_order(entry_names(entries), order) <==> {
            &&& order.len() == entries.len()
            &&& forall|k: int| 0 <= k < order.len() ==> 0 <= #[trigger] order[k] < entries.len()
            &&& forall|k: int, l: int|
                0 <= k < l < order.len() ==> {
                    ||| name_before(
                        entry_names(entries)[#[trigger] order[k]],
                        entry_names(entries)[#[trigger] order[l]],
                    )
                    ||| entry_names(entries)[order[k]] == entry_names(entries)[order[l]] && order[k]
                        < order[l]
                }
        },
        is_listing_order(entry_names(entries), order) ==> order.no_duplicates(),
{
    if is_listing_order(entry_names(entries), order) {
        listing_order_has_no_duplicates(entry_names(entries), order);
    }
}

} // verus!
