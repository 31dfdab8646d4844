//! Paths as Windows hands them over, cut into the names along the way.

use vstd::prelude::*;

use crate::text::{decode_utf16_lossy, wide_to_string_lossy};

verus! {

/// Both kinds of slash separate names.
pub open spec fn is_separator(c: char) -> bool {
    c == '\\' || c == '/'
}

/// The stretches of a text between its separators, empty ones included.
pub open spec fn pieces(text: Seq<char>) -> Seq<Seq<char>>
    decreases text.len(),
{
    if text.len() == 0 {
        seq![Seq::empty()]
    } else {
        let before = pieces(text.drop_last());
        if is_separator(text.last()) {
            before.push(Seq::empty())
        } else {
            before.drop_last().push(before.last().push(text.last()))
        }
    }
}

/// The names along a path: what stands between separators and is not empty.
pub open spec fn components(text: Seq<char>) -> Seq<Seq<char>> {
    pieces(text).filter(|piece: Seq<char>| piece.len() > 0)
}

/// A name that can stand on a path: it is not empty and holds no separator.
pub open spec fn is_component(name: Seq<char>) -> bool {
    &&& name.len() > 0
    &&& forall|i: int| 0 <= i < name.len() ==> !is_separator(#[trigger] name[i])
}

proof fn pieces_nonempty(text: Seq<char>)
    ensures
        pieces(text).len() > 0,
    decreases text.len(),
{
    if text.len() > 0 {
        pieces_nonempty(text.drop_last());
    }
}

/// Cuts a path into the names along the way.
pub fn split_components(text: &str) -> (names: Vec<String>)
    ensures
        names.deep_view() == components(text@),
{
    let ghost keep = |piece: Seq<char>| piece.len() > 0;
    let mut names: Vec<String> = Vec::new();
    let len: usize = text.unicode_len();
    let mut start: usize = 0;
    let mut i: usize = 0;
    proof {
        assert(text@.take(0) =~= Seq::empty());
        assert(pieces(text@.take(0)).drop_last() =~= Seq::empty());
        reveal(Seq::filter);
        assert(text@.subrange(0, 0) =~= Seq::empty());
        assert(names.deep_view() =~= Seq::empty());
    }
    for c in it: text.chars()
        invariant
            len == text@.len(),
            it.seq() == text@,
            i == it.index(),
            start <= i <= len,
            keep == (|piece: Seq<char>| piece.len() > 0),
            pieces(text@.take(i as int)).len() > 0,
            names.deep_view() == pieces(text@.take(i as int)).drop_last().filter(keep),
            pieces(text@.take(i as int)).last() == text@.subrange(start as int, i as int),
    {
        let ghost before = pieces(text@.take(i as int));
        let ghost old_names = names.deep_view();
        proof {
            assert(text@.take(i + 1).drop_last() =~= text@.take(i as int));
            assert(text@.take(i + 1).last() == c);
        }
        if c == '\\' || c == '/' {
            proof {
                assert(pieces(text@.take(i + 1)).drop_last() =~= before);
                assert(before =~= before.drop_last().push(before.last()));
                before.drop_last().lemma_filter_push(before.last(), keep);
                assert(text@.subrange(i + 1, i + 1) =~= Seq::empty());
            }
            if start < i {
                let name: String = text.substring_char(start, i).to_owned();
                names.push(name);
                assert(names.deep_view() =~= old_names.push(name@));
            }
            start = i + 1;
        } else {
            proof {
                assert(pieces(text@.take(i + 1)).drop_last() =~= before.drop_last());
                assert(text@.subrange(start as int, i + 1) =~= text@.subrange(
                    start as int,
                    i as int,
                ).push(c));
            }
        }
        i = i + 1;
    }
    let ghost all = pieces(text@);
    let ghost old_names = names.deep_view();
    proof {
        assert(text@.take(i as int) =~= text@);
        assert(all =~= all.drop_last().push(all.last()));
        all.drop_last().lemma_filter_push(all.last(), keep);
    }
    if start < len {
        let name: String = text.substring_char(start, len).to_owned();
        names.push(name);
        assert(names.deep_view() =~= old_names.push(name@));
    }
    names
}

/// The names along a path that Windows hands over.
pub fn path_components(file_name: &[u16]) -> (names: Vec<String>)
    ensures
        names.deep_view() == components(decode_utf16_lossy(file_name@)),
{
    let text: String = wide_to_string_lossy(file_name);
    split_components(text.as_str())
}

proof fn pieces_of_joined(a: Seq<char>, separator: char, b: Seq<char>)
    requires
        is_separator(separator),
    ensures
        pieces(a.push(separator) + b) == pieces(a) + pieces(b),
    decreases b.len(),
{
    let whole = a.push(separator) + b;
    if b.len() == 0 {
        assert(whole =~= a.push(separator));
        assert(a.push(separator).drop_last() =~= a);
        assert(pieces(a).push(Seq::empty()) =~= pieces(a) + pieces(b));
    } else {
        pieces_of_joined(a, separator, b.drop_last());
        pieces_nonempty(b.drop_last());
        assert(whole.drop_last() =~= a.push(separator) + b.drop_last());
        assert(pieces(whole) =~= pieces(a) + pieces(b));
    }
}

/// A separator between two paths joins their names, so separators that lead, trail or stand next
/// to one another make no difference.
pub proof fn components_of_joined(a: Seq<char>, separator: char, b: Seq<char>)
    requires
        is_separator(separator),
    ensures
        components(a.push(separator) + b) == components(a) + components(b),
{
    let keep = |piece: Seq<char>| piece.len() > 0;
    pieces_of_joined(a, separator, b);
    Seq::filter_distributes_over_add(pieces(a), pieces(b), keep);
}

proof fn pieces_hold_no_separator(text: Seq<char>, k: int, i: int)
    requires
        0 <= k < pieces(text).len(),
        0 <= i < pieces(text)[k].len(),
    ensures
        !is_separator(pieces(text)[k][i]),
    decreases text.len(),
{
    if text.len() > 0 {
        let before = pieces(text.drop_last());
        pieces_nonempty(text.drop_last());
        if is_separator(text.last()) {
            if k < before.len() {
                pieces_hold_no_separator(text.drop_last(), k, i);
            }
        } else if k < before.len() - 1 {
            pieces_hold_no_separator(text.drop_last(), k, i);
        } else if i < before.last().len() {
            pieces_hold_no_separator(text.drop_last(), k, i);
        }
    }
}

/// Every name along a path is one that can stand on a path.
pub proof fn components_are_components(text: Seq<char>, k: int)
    requires
        0 <= k < components(text).len(),
    ensures
        is_component(components(text)[k]),
{
    let keep = |piece: Seq<char>| piece.len() > 0;
    let all = pieces(text);
    let name = components(text)[k];
    all.lemma_filter_pred(keep, k);
    assert(all.filter(keep).contains(name));
    all.lemma_filter_contains_rev(keep, name);
    let j = choose|j: int| 0 <= j < all.len() && all[j] == name;
    assert forall|i: int| 0 <= i < name.len() implies !is_separator(#[trigger] name[i]) by {
        pieces_hold_no_separator(text, j, i);
    }
}

/// A name that can stand on a path is itself a path with that one name.
pub proof fn component_is_its_own_path(name: Seq<char>)
    requires
        is_component(name),
    ensures
        components(name) == seq![name],
{
    pieces_without_separator(name);
    let keep = |piece: Seq<char>| piece.len() > 0;
    let none: Seq<Seq<char>> = Seq::empty();
    none.lemma_filter_push(name, keep);
    assert(none.push(name) =~= seq![name]);
    reveal(Seq::filter);
    assert(components(name) =~= seq![name]);
}

proof fn pieces_without_separator(text: Seq<char>)
    requires
        forall|i: int| 0 <= i < text.len() ==> !is_separator(#[trigger] text[i]),
    ensures
        pieces(text) == seq![text],
    decreases text.len(),
{
    if text.len() > 0 {
        pieces_without_separator(text.drop_last());
        assert(text.drop_last().push(text.last()) =~= text);
        assert(pieces(text) =~= seq![text]);
    } else {
        assert(text =~= Seq::empty());
    }
}

/// A text that is not empty and in which neither slash occurs is one name, itself, whatever other
/// characters it holds.
pub proof fn text_without_slashes_is_one_name(text: Seq<char>)
    requires
        text.len() > 0,
        !text.contains('\\'),
        !text.contains('/'),
    ensures
        components(text) == seq![text],
{
    assert forall|i: int| 0 <= i < text.len() implies !is_separator(#[trigger] text[i]) by {
        assert(text.contains(text[i]));
    }
    component_is_its_own_path(text);
}

/// A path without a character has no name, and at each slash of either kind a path falls apart
/// into two whose names are those of the whole.
pub proof fn paths_fall_apart_at_slashes(a: Seq<char>, b: Seq<char>)
    ensures
        components(Seq::empty()) == Seq::<Seq<char>>::empty(),
        components(a + seq!['\\'] + b) == components(a) + components(b),
        components(a + seq!['/'] + b) == components(a) + components(b),
{
    components_of_joined(a, '\\', b);
    components_of_joined(a, '/', b);
    assert(a + seq!['\\'] + b =~= a.push('\\') + b);
    assert(a + seq!['/'] + b =~= a.push('/') + b);
    let none: Seq<Seq<char>> = Seq::empty();
    let keep = |piece: Seq<char>| piece.len() > 0;
    none.lemma_filter_push(Seq::empty(), keep);
    assert(pieces(Seq::empty()) =~= none.push(Seq::empty()));
    reveal(Seq::filter);
    assert(components(Seq::empty()) =~= none);
}

/// Names joined by backslashes.
pub open spec fn joined(names: Seq<Seq<char>>) -> Seq<char>
    decreases names.len(),
{
    if names.len() == 0 {
        Seq::empty()
    } else {
        joined(names.drop_last()) + seq!['\\'] + names.last()
    }
}

/// The names of a path that was joined from names are the names it was joined from.
pub proof fn joined_names_are_found_again(names: Seq<Seq<char>>)
    requires
        forall|i: int|
            0 <= i < names.len() ==> (#[trigger] names[i]).len() > 0 && !names[i].contains('\\')
                && !names[i].contains('/'),
    ensures
        components(joined(names)) == names,
    decreases names.len(),
{
    paths_fall_apart_at_slashes(Seq::empty(), Seq::empty());
    if names.len() > 0 {
        joined_names_are_found_again(names.drop_last());
        text_without_slashes_is_one_name(names.last());
        paths_fall_apart_at_slashes(joined(names.drop_last()), names.last());
        assert(names =~= names.drop_last() + seq![names.last()]);
    } else {
        assert(names =~= Seq::empty());
    }
}

} // verus!
