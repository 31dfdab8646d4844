//! Listing a directory.

use vstd::prelude::*;

use crate::attr::{describe, file_info_of, FileAttr, FileInfo, FileType};
use crate::context::{WinFileContext, WinFsContext};
use crate::error::{fs_error, reported, FsError, FsResult, FspError, ERROR_DIRECTORY};
use crate::order::{
    entry_names, is_listing_order, listed_before, listing_order, listing_order_covers_all,
    listing_order_exists, listing_order_goes_by_name, positions, sort_entries,
};
use crate::request::{DirectoryEntryPlus, FsCall, FsReply, FsRequest, ReplyKind, Step};
use crate::text::{
    decode_utf16_lossy, encode_utf16, is_before, name_before, name_order_is_total,
    name_order_is_transitive, string_from_utf16_lossy, utf16_round_trip,
};

verus! {

/// An entry that is to be listed.
pub struct Listed<Name> {
    pub name: Name,
    pub attr: FileAttr,
}

/// An entry as Windows is told of it.
#[derive(Debug, PartialEq, Eq)]
pub struct Shown<Name> {
    pub name: Name,
    pub info: FileInfo,
}

/// Listing a directory, once the file system was asked for its entries. Entries up to the marker
/// were listed before.
pub struct ReadDirectory<Name = String> {
    pub marker: Option<Name>,
}

/// The entries that are still to be put into the buffer of Windows.
pub struct DirectoryListing<'a> {
    /// The next entry is the last one.
    pending: Vec<DirectoryEntryPlus<'a>>,
}

/// A step of listing. The outcome is the entries to put into the buffer of Windows.
pub type ReadDirectoryStep<Call, Name, Listing> = Step<
    Call,
    ReadDirectory<Name>,
    Result<Listing, FspError>,
>;

/// What is to be done with the buffer of Windows.
#[derive(Debug, PartialEq, Eq)]
pub enum FillStep<Name> {
    Append(Shown<Name>),
    Finalize,
    Fail(FspError),
}

/// What became of an entry that was put into the buffer of Windows.
#[derive(Debug, Clone, Copy, PartialEq, Eq)]
pub enum AppendOutcome {
    Appended,
    Full,
    Rejected(FspError),
}

/// The name that was listed last.
pub open spec fn marker_view(marker: Option<String>) -> Option<Seq<char>> {
    match marker {
        Some(name) => Some(name@),
        None => None,
    }
}

impl View for ReadDirectory<String> {
    type V = ReadDirectory<Seq<char>>;

    open spec fn view(&self) -> ReadDirectory<Seq<char>> {
        ReadDirectory { marker: marker_view(self.marker) }
    }
}

impl<'a> View for DirectoryListing<'a> {
    type V = Seq<Listed<Seq<char>>>;

    closed spec fn view(&self) -> Seq<Listed<Seq<char>>> {
        reversed(self.pending@)
    }
}

impl<'a> DirectoryListing<'a> {
    /// Windows can be told of the next entry, if one is left.
    pub open spec fn wf(&self) -> bool {
        self@.len() > 0 ==> self@[0].attr.wf()
    }
}

impl<'a> ReadDirectoryStep<FsRequest, String, DirectoryListing<'a>> {
    pub open spec fn view(&self) -> ReadDirectoryStep<
        FsCall<Seq<char>>,
        Seq<char>,
        Seq<Listed<Seq<char>>>,
    > {
        match *self {
            Step::Call(call, state) => Step::Call(call@, state@),
            Step::Done(Ok(listing)) => Step::Done(Ok(listing@)),
            Step::Done(Err(err)) => Step::Done(Err(err)),
        }
    }
}

impl<'a> View for FillStep<&'a str> {
    type V = FillStep<Seq<char>>;

    open spec fn view(&self) -> FillStep<Seq<char>> {
        match *self {
            FillStep::Append(entry) => FillStep::Append(
                Shown { name: entry.name@, info: entry.info },
            ),
            FillStep::Finalize => FillStep::Finalize,
            FillStep::Fail(err) => FillStep::Fail(err),
        }
    }
}

/// All entries, or the first error among them.
pub open spec fn collected<'a>(entries: Seq<FsResult<DirectoryEntryPlus<'a>>>) -> FsResult<
    Seq<DirectoryEntryPlus<'a>>,
>
    decreases entries.len(),
{
    if entries.len() == 0 {
        Ok(Seq::empty())
    } else {
        match (collected(entries.drop_last()), entries.last()) {
            (Err(err), _) => Err(err),
            (Ok(before), Err(err)) => Err(err),
            (Ok(before), Ok(entry)) => Ok(before.push(entry)),
        }
    }
}

/// A name was not listed before.
pub open spec fn is_after(marker: Option<Seq<char>>, name: Seq<char>) -> bool {
    match marker {
        Some(marker) => name_before(marker, name),
        None => true,
    }
}

/// An entry that is to be listed.
pub open spec fn listed(entry: DirectoryEntryPlus) -> Listed<Seq<char>> {
    Listed { name: entry.name@, attr: entry.attr }
}

/// An entry as Windows is told of it.
pub open spec fn shown(entry: Listed<Seq<char>>) -> Shown<Seq<char>> {
    Shown { name: entry.name, info: file_info_of(entry.attr) }
}

/// Entries that are to be listed, from the last one to the first.
spec fn reversed(pending: Seq<DirectoryEntryPlus>) -> Seq<Listed<Seq<char>>> {
    pending.map_values(|entry: DirectoryEntryPlus| listed(entry)).reverse()
}

/// All entries of a directory in the order of their names.
pub open spec fn sorted_listing(entries: Seq<DirectoryEntryPlus>) -> Seq<Listed<Seq<char>>> {
    listing_order(entry_names(entries)).map_values(|i: int| listed(entries[i]))
}

/// The entries of a directory that are still to be listed, in the order of their names.
pub open spec fn listing(entries: Seq<DirectoryEntryPlus>, marker: Option<Seq<char>>) -> Seq<
    Listed<Seq<char>>,
> {
    sorted_listing(entries).filter(|entry: Listed<Seq<char>>| is_after(marker, entry.name))
}

/// How listing begins. What is no directory is refused.
pub open spec fn read_directory_start(
    context: WinFileContext<Seq<char>>,
    marker: Option<Seq<char>>,
) -> ReadDirectoryStep<FsCall<Seq<char>>, Seq<char>, Seq<Listed<Seq<char>>>> {
    if context.kind != FileType::Directory {
        Step::Done(Err(FspError::WIN32(ERROR_DIRECTORY)))
    } else {
        Step::Call(FsCall::ReadDirPlus { ino: context.ino }, ReadDirectory { marker })
    }
}

/// How listing goes on after the answer.
pub open spec fn read_directory_step(
    state: ReadDirectory<Seq<char>>,
    reply: FsReply,
) -> ReadDirectoryStep<FsCall<Seq<char>>, Seq<char>, Seq<Listed<Seq<char>>>> {
    match reply {
        FsReply::Entries(Ok(entries)) => match collected(entries@) {
            Ok(all) => Step::Done(Ok(listing(all, state.marker))),
            Err(err) => Step::Done(Err(reported(err))),
        },
        FsReply::Entries(Err(err)) => Step::Done(Err(reported(err))),
        _ => arbitrary(),
    }
}

/// What is done with the buffer of Windows next, given the entries that are left.
pub open spec fn fill_next(rest: Seq<Listed<Seq<char>>>) -> FillStep<Seq<char>> {
    if rest.len() == 0 {
        FillStep::Finalize
    } else {
        FillStep::Append(shown(rest[0]))
    }
}

/// What is done with the buffer of Windows after an entry was put into it: as long as entries fit,
/// the next one follows, and a rejected entry ends the listing with its error.
pub open spec fn fill_after(
    rest: Seq<Listed<Seq<char>>>,
    outcome: AppendOutcome,
) -> FillStep<Seq<char>> {
    match outcome {
        AppendOutcome::Appended => fill_next(rest),
        AppendOutcome::Full => FillStep::Finalize,
        AppendOutcome::Rejected(err) => FillStep::Fail(err),
    }
}

/// The entries that are left after the next one.
pub open spec fn left_after(rest: Seq<Listed<Seq<char>>>) -> Seq<Listed<Seq<char>>> {
    if rest.len() == 0 {
        rest
    } else {
        rest.skip(1)
    }
}

/// Gathers all entries, or the first error among them.
fn collect_entries<'a>(entries: Vec<FsResult<DirectoryEntryPlus<'a>>>) -> (all: FsResult<
    Vec<DirectoryEntryPlus<'a>>,
>)
    ensures
        match all {
            Ok(all) => collected(entries@) == Ok::<Seq<DirectoryEntryPlus>, FsError>(all@),
            Err(err) => collected(entries@) == Err::<Seq<DirectoryEntryPlus>, FsError>(err),
        },
{
    let ghost given = entries@;
    let mut all: Vec<DirectoryEntryPlus> = Vec::new();
    let mut i: usize = 0;
    let len: usize = entries.len();
    assert(given.take(0) =~= Seq::empty());
    for entry in it: entries
        invariant
            it.seq() == given,
            len == given.len(),
            i == it.index(),
            i <= len,
            collected(given.take(i as int)) == Ok::<Seq<DirectoryEntryPlus>, FsError>(all@),
    {
        assert(given.take(i + 1).drop_last() =~= given.take(i as int));
        assert(given.take(i + 1).last() == given[i as int]);
        assert(given[i as int] == entry);
        match entry {
            Ok(entry) => {
                all.push(entry);
            },
            Err(err) => {
                proof {
                    first_error_stays(given, i + 1);
                }
                return Err(err);
            },
        }
        i = i + 1;
    }
    assert(given.take(i as int) =~= given);
    Ok(all)
}

proof fn first_error_stays(entries: Seq<FsResult<DirectoryEntryPlus>>, n: int)
    requires
        0 <= n <= entries.len(),
        collected(entries.take(n)) is Err,
    ensures
        collected(entries) == collected(entries.take(n)),
    decreases entries.len() - n,
{
    if n < entries.len() {
        assert(entries.take(n + 1).drop_last() =~= entries.take(n));
        first_error_stays(entries, n + 1);
    } else {
        assert(entries.take(n) =~= entries);
    }
}

impl<Name> ReadDirectory<Name> {
    /// The kind of answer that listing waits for.
    pub open spec fn awaits(&self) -> ReplyKind {
        ReplyKind::Entries
    }
}

/// Whether a name was not listed before.
fn lies_after(marker: &Option<String>, name: &str) -> (after: bool)
    ensures
        after == is_after(marker_view(*marker), name@),
{
    match marker {
        Some(marker) => is_before(marker.as_str(), name),
        None => true,
    }
}

/// The entries of a directory that are still to be listed, the last one first.
fn make_listing<'a>(
    entries: &Vec<DirectoryEntryPlus<'a>>,
    marker: &Option<String>,
) -> (pending: Vec<DirectoryEntryPlus<'a>>)
    ensures
        reversed(pending@) == listing(entries@, marker_view(*marker)),
{
    let order: Vec<usize> = sort_entries(entries);
    let ghost sorted = sorted_listing(entries@);
    let ghost keep = |entry: Listed<Seq<char>>| is_after(marker_view(*marker), entry.name);
    let mut pending: Vec<DirectoryEntryPlus> = Vec::new();
    let mut k: usize = order.len();
    proof {
        assert(sorted.skip(k as int) =~= Seq::empty());
        reveal(Seq::filter);
        assert(reversed(pending@) =~= sorted.skip(k as int).filter(keep));
    }
    while k > 0
        invariant
            k <= order@.len(),
            is_listing_order(entry_names(entries@), positions(order@)),
            positions(order@) == listing_order(entry_names(entries@)),
            sorted == sorted_listing(entries@),
            sorted.len() == order@.len(),
            keep == (|entry: Listed<Seq<char>>| is_after(marker_view(*marker), entry.name)),
            reversed(pending@) == sorted.skip(k as int).filter(keep),
        decreases k,
    {
        k = k - 1;
        proof {
            assert(0 <= positions(order@)[k as int] < entry_names(entries@).len());
        }
        let entry: DirectoryEntryPlus<'a> = entries[order[k]];
        let ghost before = pending@;
        proof {
            assert(sorted[k as int] == listed(entry));
            assert(sorted.skip(k as int) =~= seq![sorted[k as int]] + sorted.skip(k + 1));
            sorted.skip(k + 1).lemma_filter_prepend(sorted[k as int], keep);
        }
        if lies_after(marker, entry.name) {
            pending.push(entry);
            assert(reversed(pending@) =~= seq![listed(entry)] + reversed(before));
        } else {
            assert(Seq::<Listed<Seq<char>>>::empty() + reversed(before) =~= reversed(before));
        }
    }
    assert(sorted.skip(0) =~= sorted);
    pending
}

impl ReadDirectory<String> {
    /// Goes on with listing after the answer.
    pub fn step<'a>(self, reply: FsReply<'a>) -> (step: ReadDirectoryStep<
        FsRequest,
        String,
        DirectoryListing<'a>,
    >)
        requires
            reply.kind() == self.awaits(),
        ensures
            step@ == read_directory_step(self@, reply),
            step is Done,
    {
        match reply {
            FsReply::Entries(Ok(entries)) => match collect_entries(entries) {
                Ok(all) => Step::Done(
                    Ok(DirectoryListing { pending: make_listing(&all, &self.marker) }),
                ),
                Err(err) => Step::Done(Err(fs_error(err))),
            },
            FsReply::Entries(Err(err)) => Step::Done(Err(fs_error(err))),
            _ => vstd::pervasive::unreached(),
        }
    }
}

impl<'a> DirectoryListing<'a> {
    /// Whether Windows can be told of the next entry, if one is left.
    pub fn is_valid(&self) -> (valid: bool)
        ensures
            valid == self.wf(),
    {
        let len: usize = self.pending.len();
        if len == 0 {
            return true;
        }
        assert(self@[0] == listed(self.pending@[len - 1]));
        self.pending[len - 1].attr.is_valid()
    }

    /// What is done with the buffer of Windows next.
    pub fn next(&mut self) -> (step: FillStep<&'a str>)
        requires
            old(self).wf(),
        ensures
            step@ == fill_next(old(self)@),
            final(self)@ == left_after(old(self)@),
    {
        let ghost before = self.pending@;
        match self.pending.pop() {
            Some(entry) => {
                proof {
                    assert(reversed(before)[0] == listed(entry));
                    assert(reversed(before).skip(1) =~= reversed(before.drop_last()));
                }
                let info: FileInfo = describe(&entry.attr);
                FillStep::Append(Shown { name: entry.name, info })
            },
            None => FillStep::Finalize,
        }
    }

    /// What is done with the buffer of Windows after an entry was put into it.
    pub fn after(&mut self, outcome: AppendOutcome) -> (step: FillStep<&'a str>)
        requires
            outcome is Appended ==> old(self).wf(),
        ensures
            step@ == fill_after(old(self)@, outcome),
            final(self)@ == (if outcome is Appended {
                left_after(old(self)@)
            } else {
                old(self)@
            }),
    {
        match outcome {
            AppendOutcome::Appended => self.next(),
            AppendOutcome::Full => FillStep::Finalize,
            AppendOutcome::Rejected(err) => FillStep::Fail(err),
        }
    }
}

impl WinFsContext {
    /// Begins to list a directory after a marker, the name that was listed last.
    pub fn read_directory<'a>(
        &self,
        context: &WinFileContext<String>,
        marker: Option<&[u16]>,
    ) -> (step: ReadDirectoryStep<FsRequest, String, DirectoryListing<'a>>)
        ensures
            step@ == read_directory_start(
                context@,
                match marker {
                    Some(units) => Some(decode_utf16_lossy(units@)),
                    None => None,
                },
            ),
            step matches Step::Call(call, state) ==> state.awaits() == call.reply_kind(),
    {
        if context.kind != FileType::Directory {
            return Step::Done(Err(FspError::WIN32(ERROR_DIRECTORY)));
        }
        let marker: Option<String> = match marker {
            Some(units) => Some(string_from_utf16_lossy(units)),
            None => None,
        };
        Step::Call(FsCall::ReadDirPlus { ino: context.ino }, ReadDirectory { marker })
    }
}

/// The names of some listed entries strictly increase.
pub open spec fn strictly_sorted(entries: Seq<Listed<Seq<char>>>) -> bool {
    forall|i: int, j: int|
        0 <= i < j < entries.len() ==> name_before(
            (#[trigger] entries[i]).name,
            (#[trigger] entries[j]).name,
        )
}

/// No two entries of a directory have the same name.
pub open spec fn distinct_names(entries: Seq<DirectoryEntryPlus>) -> bool {
    entry_names(entries).no_duplicates()
}

proof fn filter_of_filter<A>(s: Seq<A>, outer: spec_fn(A) -> bool, inner: spec_fn(A) -> bool)
    requires
        forall|x: A| #[trigger] inner(x) ==> outer(x),
    ensures
        s.filter(outer).filter(inner) == s.filter(inner),
    decreases s.len(),
{
    reveal(Seq::filter);
    if s.len() > 0 {
        filter_of_filter(s.drop_last(), outer, inner);
        assert(s =~= s.drop_last().push(s.last()));
        s.drop_last().lemma_filter_push(s.last(), outer);
        s.drop_last().lemma_filter_push(s.last(), inner);
        if outer(s.last()) {
            s.drop_last().filter(outer).lemma_filter_push(s.last(), inner);
        }
    }
}

proof fn filter_of_all<A>(s: Seq<A>, keep: spec_fn(A) -> bool)
    requires
        forall|i: int| 0 <= i < s.len() ==> keep(#[trigger] s[i]),
    ensures
        s.filter(keep) == s,
    decreases s.len(),
{
    reveal(Seq::filter);
    if s.len() > 0 {
        filter_of_all(s.drop_last(), keep);
        assert(s =~= s.drop_last().push(s.last()));
    } else {
        assert(s.filter(keep) =~= s);
    }
}

proof fn filter_of_none<A>(s: Seq<A>, keep: spec_fn(A) -> bool)
    requires
        forall|i: int| 0 <= i < s.len() ==> !keep(#[trigger] s[i]),
    ensures
        s.filter(keep) == Seq::<A>::empty(),
    decreases s.len(),
{
    reveal(Seq::filter);
    if s.len() > 0 {
        filter_of_none(s.drop_last(), keep);
    }
}

proof fn filter_keeps_order(
    entries: Seq<Listed<Seq<char>>>,
    keep: spec_fn(Listed<Seq<char>>) -> bool,
)
    requires
        strictly_sorted(entries),
    ensures
        strictly_sorted(entries.filter(keep)),
    decreases entries.len(),
{
    reveal(Seq::filter);
    if entries.len() > 0 {
        let rest = entries.drop_last();
        let kept = rest.filter(keep);
        filter_keeps_order(rest, keep);
        assert(entries =~= rest.push(entries.last()));
        rest.lemma_filter_push(entries.last(), keep);
        assert forall|i: int| 0 <= i < kept.len() implies name_before(
            (#[trigger] kept[i]).name,
            entries.last().name,
        ) by {
            assert(kept.contains(kept[i]));
            rest.lemma_filter_contains_rev(keep, kept[i]);
            let k = choose|k: int| 0 <= k < rest.len() && rest[k] == kept[i];
            assert(entries[k] == kept[i]);
        }
    }
}

proof fn sorted_listing_is_strict(entries: Seq<DirectoryEntryPlus>)
    requires
        distinct_names(entries),
    ensures
        strictly_sorted(sorted_listing(entries)),
{
    let names = entry_names(entries);
    let order = listing_order(names);
    listing_order_exists(names);
    let sorted = sorted_listing(entries);
    assert forall|i: int, j: int| 0 <= i < j < sorted.len() implies name_before(
        (#[trigger] sorted[i]).name,
        (#[trigger] sorted[j]).name,
    ) by {
        assert(listed_before(names, order[i], order[j]));
        assert(0 <= order[i] < names.len());
        assert(0 <= order[j] < names.len());
        assert(sorted[i].name == names[order[i]]);
        assert(sorted[j].name == names[order[j]]);
    }
}

/// Without a marker every entry of the directory is listed exactly once, in the order of the names
/// and, among entries of the same name, in the order in which the file system gave them.
pub proof fn full_listing_is_complete(entries: Seq<DirectoryEntryPlus>, i: int)
    requires
        0 <= i < entries.len(),
    ensures
        listing(entries, None) == sorted_listing(entries),
        listing(entries, None).len() == entries.len(),
        is_listing_order(entry_names(entries), listing_order(entry_names(entries))),
        listing_order(entry_names(entries)).contains(i),
        listing(entries, None).contains(listed(entries[i])),
{
    let names = entry_names(entries);
    let order = listing_order(names);
    let sorted = sorted_listing(entries);
    let none: Option<Seq<char>> = None;
    let keep = |entry: Listed<Seq<char>>| is_after(none, entry.name);
    listing_order_exists(names);
    filter_of_all(sorted, keep);
    listing_order_covers_all(names, order, i);
    let k = choose|k: int| 0 <= k < order.len() && order[k] == i;
    assert(sorted[k] == listed(entries[i]));
}

/// An entry is still to be listed exactly if it comes after the marker.
pub proof fn listing_holds_what_comes_after_marker(
    entries: Seq<DirectoryEntryPlus>,
    marker: Option<Seq<char>>,
    i: int,
)
    requires
        0 <= i < entries.len(),
    ensures
        listing(entries, marker).contains(listed(entries[i])) <==> is_after(
            marker,
            entries[i].name@,
        ),
{
    let sorted = sorted_listing(entries);
    let keep = |entry: Listed<Seq<char>>| is_after(marker, entry.name);
    let entry = listed(entries[i]);
    full_listing_is_complete(entries, i);
    if is_after(marker, entries[i].name@) {
        let k = choose|k: int| 0 <= k < sorted.len() && sorted[k] == entry;
        assert(keep(sorted[k]));
        sorted.lemma_filter_contains(keep, k);
    }
    if listing(entries, marker).contains(entry) {
        let all = sorted.filter(keep);
        let k = choose|k: int| 0 <= k < all.len() && all[k] == entry;
        sorted.lemma_filter_pred(keep, k);
    }
}

/// Entries are listed in the order of their names.
pub proof fn listing_is_sorted(entries: Seq<DirectoryEntryPlus>, marker: Option<Seq<char>>)
    requires
        distinct_names(entries),
    ensures
        strictly_sorted(listing(entries, marker)),
{
    sorted_listing_is_strict(entries);
    filter_keeps_order(
        sorted_listing(entries),
        |entry: Listed<Seq<char>>| is_after(marker, entry.name),
    );
}

/// A listing that was cut off after some entries goes on, with the last of them as the marker,
/// exactly where it was cut off: no entry is left out and none is listed twice. It makes no
/// difference that Windows hands the marker over in UTF-16.
pub proof fn listing_resumes_where_it_was_cut(
    entries: Seq<DirectoryEntryPlus>,
    marker: Option<Seq<char>>,
    taken: int,
)
    requires
        distinct_names(entries),
        0 < taken <= listing(entries, marker).len(),
    ensures
        listing(entries, Some(listing(entries, marker)[taken - 1].name)) == listing(
            entries,
            marker,
        ).skip(taken),
        listing(
            entries,
            Some(decode_utf16_lossy(encode_utf16(listing(entries, marker)[taken - 1].name))),
        ) == listing(entries, marker).skip(taken),
{
    utf16_round_trip(listing(entries, marker)[taken - 1].name);
    let sorted = sorted_listing(entries);
    let whole = listing(entries, marker);
    let last = whole[taken - 1].name;
    let outer = |entry: Listed<Seq<char>>| is_after(marker, entry.name);
    let inner = |entry: Listed<Seq<char>>| is_after(Some(last), entry.name);
    listing_is_sorted(entries, marker);
    sorted.lemma_filter_pred(outer, taken - 1);
    assert forall|entry: Listed<Seq<char>>| #[trigger] inner(entry) implies outer(entry) by {
        if let Some(first) = marker {
            name_order_is_transitive(first, last, entry.name);
        }
    }
    filter_of_filter(sorted, outer, inner);
    let head = whole.take(taken);
    let tail = whole.skip(taken);
    assert forall|i: int| 0 <= i < head.len() implies !inner(#[trigger] head[i]) by {
        assert(head[i] == whole[i]);
        name_order_is_total(whole[i].name, last);
        if i < taken - 1 {
            assert(name_before(whole[i].name, whole[taken - 1].name));
        }
    }
    assert forall|i: int| 0 <= i < tail.len() implies inner(#[trigger] tail[i]) by {
        assert(tail[i] == whole[taken + i]);
        assert(name_before(whole[taken - 1].name, whole[taken + i].name));
    }
    filter_of_none(head, inner);
    filter_of_all(tail, inner);
    assert(whole =~= head + tail);
    Seq::filter_distributes_over_add(head, tail, inner);
    assert(Seq::<Listed<Seq<char>>>::empty() + tail =~= tail);
}

/// The pages that Windows gets of a directory after a marker. Each page holds the first entries
/// that are still to be listed; the next one is asked for with the last name of it as the marker.
/// Every page but the last holds an entry, and nothing is left after the last.
pub open spec fn are_pages(
    entries: Seq<DirectoryEntryPlus>,
    marker: Option<Seq<char>>,
    pages: Seq<Seq<Listed<Seq<char>>>>,
) -> bool
    decreases pages.len(),
{
    &&& pages.len() > 0
    &&& pages[0].is_prefix_of(listing(entries, marker))
    &&& if pages.len() == 1 {
        pages[0].len() == listing(entries, marker).len()
    } else {
        &&& pages[0].len() > 0
        &&& are_pages(entries, Some(pages[0].last().name), pages.skip(1))
    }
}

/// The pages of a directory put together are all entries that were to be listed after the marker,
/// each once and in order.
pub proof fn pages_make_up_listing(
    entries: Seq<DirectoryEntryPlus>,
    marker: Option<Seq<char>>,
    pages: Seq<Seq<Listed<Seq<char>>>>,
)
    requires
        distinct_names(entries),
        are_pages(entries, marker, pages),
    ensures
        pages.flatten() == listing(entries, marker),
    decreases pages.len(),
{
    let all = listing(entries, marker);
    let page = pages[0];
    let taken = page.len() as int;
    assert(pages.drop_first() =~= pages.skip(1));
    assert(page =~= all.take(taken));
    if pages.len() == 1 {
        reveal_with_fuel(Seq::flatten, 2);
        assert(pages.flatten() =~= all);
    } else {
        assert(page.last() == all[taken - 1]);
        listing_resumes_where_it_was_cut(entries, marker, taken);
        pages_make_up_listing(entries, Some(page.last().name), pages.skip(1));
        assert(pages.flatten() == page + pages.skip(1).flatten());
        assert(page + all.skip(taken) =~= all);
    }
}

/// What a buffer that takes `room` more entries is filled with.
pub open spec fn filled(rest: Seq<Listed<Seq<char>>>, room: nat) -> Seq<Shown<Seq<char>>>
    decreases room,
{
    match fill_next(rest) {
        FillStep::Append(entry) => if room == 0 {
            Seq::empty()
        } else {
            seq![entry] + filled(left_after(rest), (room - 1) as nat)
        },
        _ => Seq::empty(),
    }
}

/// A buffer is filled with the first entries of a listing, as many as it has room for.
pub proof fn buffer_holds_first_entries(rest: Seq<Listed<Seq<char>>>, room: nat)
    ensures
        filled(rest, room) == (if room <= rest.len() {
            rest.take(room as int)
        } else {
            rest
        }).map_values(|entry: Listed<Seq<char>>| shown(entry)),
    decreases room,
{
    if rest.len() > 0 && room > 0 {
        buffer_holds_first_entries(rest.skip(1), (room - 1) as nat);
        assert(rest =~= seq![rest[0]] + rest.skip(1));
    }
    assert(filled(rest, room) =~= (if room <= rest.len() {
        rest.take(room as int)
    } else {
        rest
    }).map_values(|entry: Listed<Seq<char>>| shown(entry)));
}

/// Listing asks for the entries of the handle's own directory, once, and takes the marker as it is.
/// A file is refused before anything is asked.
pub proof fn listing_asks_for_own_directory(
    context: WinFileContext<Seq<char>>,
    marker: Option<Seq<char>>,
    err: FsError,
)
    ensures
        context.kind is RegularFile ==> (read_directory_start(context, marker) matches Step::Done(
            Err(FspError::WIN32(code)),
        ) && code == 267),
        context.kind is Directory ==> (read_directory_start(context, marker) matches Step::Call(
            FsCall::ReadDirPlus { ino },
            state,
        ) && ino == context.ino && state.marker == marker),
        read_directory_step(
            ReadDirectory { marker },
            FsReply::Entries(Err(err)),
        ) matches Step::Done(Err(e)) && e == reported(err),
{
}

/// Where no entry of an answer is an error, what is gathered from it is the answer: as many entries
/// as it has, and at each position the entry that it has there, whatever its kind, size or name.
pub proof fn gathered_is_the_answer(answer: Seq<FsResult<DirectoryEntryPlus>>)
    requires
        forall|i: int| 0 <= i < answer.len() ==> (#[trigger] answer[i]) is Ok,
    ensures
        collected(answer) matches Ok(all) && all.len() == answer.len() && forall|i: int|
            0 <= i < answer.len() ==> answer[i]->Ok_0 == #[trigger] all[i],
    decreases answer.len(),
{
    if answer.len() > 0 {
        assert forall|i: int| 0 <= i < answer.drop_last().len() implies (
        #[trigger] answer.drop_last()[i]) is Ok by {
            assert(answer.drop_last()[i] == answer[i]);
        }
        gathered_is_the_answer(answer.drop_last());
        assert(answer[answer.len() - 1] is Ok);
        let before = collected(answer.drop_last())->Ok_0;
        let all = before.push(answer.last()->Ok_0);
        assert forall|i: int| 0 <= i < answer.len() implies answer[i]->Ok_0
            == #[trigger] all[i] by {
            if i < answer.len() - 1 {
                assert(answer.drop_last()[i] == answer[i]);
                assert(before[i] == answer.drop_last()[i]->Ok_0);
            }
        }
    }
}

/// Where some entry of an answer is an error, the first one is what Windows is told.
pub proof fn first_error_of_answer_is_told(
    answer: Vec<FsResult<DirectoryEntryPlus>>,
    marker: Option<Seq<char>>,
    k: int,
    err: FsError,
)
    requires
        0 <= k < answer@.len(),
        forall|i: int| 0 <= i < k ==> (#[trigger] answer@[i]) is Ok,
        answer@[k] == Err::<DirectoryEntryPlus, FsError>(err),
    ensures
        read_directory_step(
            ReadDirectory { marker },
            FsReply::Entries(Ok(answer)),
        ) matches Step::Done(Err(e)) && e == reported(err),
{
    let before = answer@.take(k);
    assert forall|i: int| 0 <= i < before.len() implies (#[trigger] before[i]) is Ok by {
        assert(before[i] == answer@[i]);
    }
    gathered_is_the_answer(before);
    assert(answer@.take(k + 1).drop_last() =~= before);
    assert(answer@.take(k + 1).last() == answer@[k]);
    first_error_stays(answer@, k + 1);
}

/// Without a marker, the listing of an answer without errors holds each of its entries exactly
/// once, with its own name and attributes, directories as well as files. It goes by the names, and,
/// where names are the same, by the positions in the answer.
pub proof fn listing_holds_every_entry_of_answer(answer: Vec<FsResult<DirectoryEntryPlus>>)
    requires
        forall|i: int| 0 <= i < answer@.len() ==> (#[trigger] answer@[i]) is Ok,
    ensures
        read_directory_step(
            ReadDirectory { marker: None },
            FsReply::Entries(Ok(answer)),
        ) matches Step::Done(Ok(list)) && exists|order: Seq<int>|
            {
                &&& order.len() == answer@.len()
                &&& list.len() == answer@.len()
                &&& #[trigger] order.no_duplicates()
                &&& forall|k: int|
                    0 <= k < list.len() ==> {
                        &&& 0 <= #[trigger] order[k] < answer@.len()
                        &&& list[k].name == answer@[order[k]]->Ok_0.name@
                        &&& list[k].attr == answer@[order[k]]->Ok_0.attr
                    }
                &&& forall|k: int, l: int|
                    0 <= k < l < list.len() ==> {
                        ||| name_before((#[trigger] list[k]).name, (#[trigger] list[l]).name)
                        ||| list[k].name == list[l].name && order[k] < order[l]
                    }
            },
{
    gathered_is_the_answer(answer@);
    let all = collected(answer@)->Ok_0;
    let names = entry_names(all);
    let order = listing_order(names);
    let sorted = sorted_listing(all);
    let list = listing(all, None);
    let none: Option<Seq<char>> = None;
    listing_order_exists(names);
    listing_order_goes_by_name(all, order, Seq::empty());
    filter_of_all(sorted, |entry: Listed<Seq<char>>| is_after(none, entry.name));
    assert(list == sorted);
    assert forall|k: int| 0 <= k < list.len() implies {
        &&& 0 <= #[trigger] order[k] < answer@.len()
        &&& list[k].name == answer@[order[k]]->Ok_0.name@
        &&& list[k].attr == answer@[order[k]]->Ok_0.attr
    } by {
        assert(answer@[order[k]]->Ok_0 == all[order[k]]);
    }
    assert forall|k: int, l: int| 0 <= k < l < list.len() implies {
        ||| name_before((#[trigger] list[k]).name, (#[trigger] list[l]).name)
        ||| list[k].name == list[l].name && order[k] < order[l]
    } by {
        assert(names[order[k]] == all[order[k]].name@);
        assert(names[order[l]] == all[order[l]].name@);
        assert(sorted[k].name == names[order[k]]);
        assert(sorted[l].name == names[order[l]]);
    }
    assert(order.no_duplicates());
}

/// With a marker, the listing of an answer without errors is what the listing without one holds
/// after the marker: the entries whose names come after it in the order of names, in the same
/// order, and no others.
pub proof fn marker_leaves_out_what_was_listed(
    answer: Vec<FsResult<DirectoryEntryPlus>>,
    marker: Seq<char>,
)
    requires
        forall|i: int| 0 <= i < answer@.len() ==> (#[trigger] answer@[i]) is Ok,
    ensures
        match (
            read_directory_step(ReadDirectory { marker: None }, FsReply::Entries(Ok(answer))),
            read_directory_step(
                ReadDirectory { marker: Some(marker) },
                FsReply::Entries(Ok(answer)),
            ),
        ) {
            (Step::Done(Ok(whole)), Step::Done(Ok(rest))) => rest == whole.filter(
                |entry: Listed<Seq<char>>| name_before(marker, entry.name),
            ),
            _ => false,
        },
{
    gathered_is_the_answer(answer@);
    let all = collected(answer@)->Ok_0;
    let sorted = sorted_listing(all);
    let none: Option<Seq<char>> = None;
    filter_of_all(sorted, |entry: Listed<Seq<char>>| is_after(none, entry.name));
    let keep = |entry: Listed<Seq<char>>| is_after(Some(marker), entry.name);
    assert(keep =~= (|entry: Listed<Seq<char>>| name_before(marker, entry.name)));
}

/// The buffer of Windows is filled with the entries of a listing in turn, each with its own name
/// and the record of its own attributes, until none is left or one does not fit. An entry that is
/// rejected ends the listing with that error.
pub proof fn buffer_is_filled_in_turn(rest: Seq<Listed<Seq<char>>>, err: FspError)
    ensures
        rest.len() == 0 ==> fill_next(rest) is Finalize && left_after(rest).len() == 0,
        rest.len() > 0 ==> (fill_next(rest) matches FillStep::Append(entry) && entry.name
            == rest[0].name && entry.info == file_info_of(rest[0].attr) && left_after(rest)
            == rest.skip(1)),
        rest.len() == 0 ==> fill_after(rest, AppendOutcome::Appended) is Finalize,
        rest.len() > 0 ==> (fill_after(rest, AppendOutcome::Appended) matches FillStep::Append(
            entry,
        ) && entry.name == rest[0].name && entry.info == file_info_of(rest[0].attr)),
        fill_after(rest, AppendOutcome::Full) is Finalize,
        fill_after(rest, AppendOutcome::Rejected(err)) matches FillStep::Fail(e) && e == err,
{
}

/// What is said of a marker, or of what is to be done with the buffer, is said of it as it is.
pub proof fn filling_is_seen_as_it_is(marker: String, entry: Shown<&str>, err: FspError)
    ensures
        marker_view(Some(marker)) == Some(marker@),
        marker_view(None) is None,
        FillStep::Append(entry)@ matches FillStep::Append(shown) && shown.name == entry.name@
            && shown.info == entry.info,
        FillStep::<&str>::Finalize@ is Finalize,
        FillStep::<&str>::Fail(err)@ matches FillStep::Fail(e) && e == err,
{
}

/// What is said of a step of listing is said of its own call and outcome.
pub proof fn listing_step_is_seen_as_it_is(
    step: ReadDirectoryStep<FsRequest, String, DirectoryListing>,
)
    ensures
        match step {
            Step::Call(call, state) => step@ matches Step::Call(c, s) && c == call@ && s == state@,
            Step::Done(outcome) => match outcome {
                Ok(listing) => step@ matches Step::Done(Ok(l)) && l == listing@,
                Err(err) => step@ matches Step::Done(Err(e)) && e == err,
            },
        },
{
}

/// A listing can go on exactly if nothing is left or Windows can be told of its next entry.
pub proof fn listing_goes_on_with_next_entry(listing: DirectoryListing)
    ensures
        listing.wf() <==> listing@.len() == 0 || listing@[0].attr.wf(),
{
}

} // verus!
