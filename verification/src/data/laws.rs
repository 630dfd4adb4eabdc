//! What holds of every directory that is built, whatever was found.

use crate::data::directory::build_log;
use crate::data::directory::built;
use crate::data::directory::built_entries;
use crate::data::directory::built_entry;
use crate::data::directory::bytes_under;
use crate::data::directory::file_bytes;
use crate::data::directory::lemma_built_entries_concat;
use crate::data::directory::lemma_listing_log_concat;
use crate::data::directory::lemma_single_listed;
use crate::data::directory::listed_log;
use crate::data::directory::listing_log;
use crate::data::directory::sum_sizes;
use crate::data::directory::DirProbe;
use crate::data::directory::DirProbeView;
use crate::data::directory::DirView;
use crate::data::directory::EntryView;
use crate::data::directory::FoundView;
use crate::data::directory::ListedView;
use crate::diagnostic::warning_count;
use crate::diagnostic::DiagnosticView;
use vstd::prelude::*;

verus! {

broadcast use vstd::seq::group_seq_axioms;

/// Whether every directory among the entries is well formed.
pub open spec fn all_wf(entries: Seq<EntryView>) -> bool {
    forall|i: int|
        0 <= i < entries.len() ==> match #[trigger] entries[i] {
            EntryView::File(_) => true,
            EntryView::Dir(dir) => dir.wf(),
        }
}

/// The sizes of entries whose directories are well formed add up to the
/// sizes of the files among them and below them.
pub proof fn lemma_sizes_are_file_bytes(entries: Seq<EntryView>)
    requires
        all_wf(entries),
    ensures
        sum_sizes(entries) == file_bytes(entries),
    decreases entries,
{
    if entries.len() > 0 {
        let front = entries.drop_last();
        assert(all_wf(front)) by {
            assert forall|i: int| 0 <= i < front.len() implies match #[trigger] front[i] {
                EntryView::File(_) => true,
                EntryView::Dir(dir) => dir.wf(),
            } by {}
        }
        lemma_sizes_are_file_bytes(front);
        match entries.last() {
            EntryView::File(_) => {},
            EntryView::Dir(dir) => {
                lemma_size_is_file_bytes(dir);
            },
        }
    }
}

/// The size of a well-formed directory is the sum of the sizes of the
/// files that are reached through its entries, at any depth.
pub proof fn lemma_size_is_file_bytes(dir: DirView)
    requires
        dir.wf(),
    ensures
        dir.size == file_bytes(dir.entries),
    decreases dir,
{
    lemma_sizes_are_file_bytes(dir.entries);
}

/// The entries built from a listing hold well-formed directories only.
pub proof fn lemma_built_entries_wf(listing: Seq<ListedView>)
    ensures
        all_wf(built_entries(listing)),
    decreases listing,
{
    if listing.len() > 0 {
        lemma_built_entries_wf(listing.drop_last());
        match listing.last() {
            ListedView::Entry { path, found: FoundView::Directory(probe) } => {
                lemma_built_is_wf(path, probe);
            },
            _ => {},
        }
        let front = built_entries(listing.drop_last());
        let whole = built_entries(listing);
        assert forall|i: int| 0 <= i < whole.len() implies match #[trigger] whole[i] {
            EntryView::File(_) => true,
            EntryView::Dir(dir) => dir.wf(),
        } by {
            if i >= front.len() {
                assert(built_entry(listing.last()) == Some(whole[i]));
            }
        }
    }
}

/// A directory that is built is well formed: at every level the size is
/// the sum of the sizes of the entries.
pub proof fn lemma_built_is_wf(path: Seq<char>, probe: DirProbeView)
    ensures
        built(path, probe) matches Some(dir) ==> dir.wf(),
    decreases probe,
{
    match probe {
        DirProbeView::Opened(listing) => {
            lemma_built_entries_wf(listing);
        },
        DirProbeView::Unreadable { .. } => {},
    }
}

/// The size of a directory that is built is the sum of the sizes of the
/// files that were resolved below it, through the directories that could be
/// listed; what could not be read adds nothing.
pub proof fn lemma_built_size_is_file_bytes(path: Seq<char>, probe: DirProbeView)
    ensures
        built(path, probe) matches Some(dir) ==> dir.size == file_bytes(dir.entries),
{
    lemma_built_is_wf(path, probe);
    if let Some(dir) = built(path, probe) {
        lemma_size_is_file_bytes(dir);
    }
}

/// Whether an entry of a listing cannot be read: the listing could not
/// give it, or it is a file without metadata or a directory that cannot be
/// listed.
pub open spec fn is_unreadable(listed: ListedView) -> bool {
    match listed {
        ListedView::Failed { .. } => true,
        ListedView::Entry { found: FoundView::File(probe), .. } => probe.metadata is Err,
        ListedView::Entry { found: FoundView::Directory(probe), .. } => probe is Unreadable,
        ListedView::Entry { found: FoundView::Other, .. } => false,
    }
}

/// How many entries that cannot be read a listing holds, in itself and in
/// the directories below that can be listed.
pub open spec fn unreadable_in(listing: Seq<ListedView>) -> nat
    decreases listing,
{
    if listing.len() == 0 {
        0
    } else {
        unreadable_in(listing.drop_last()) + unreadable_at(listing.last())
    }
}

/// How many entries that cannot be read an entry stands for: itself, or
/// those of its listing where it is a directory that can be listed.
pub open spec fn unreadable_at(listed: ListedView) -> nat
    decreases listed,
{
    match listed {
        ListedView::Entry { found: FoundView::Directory(DirProbeView::Opened(below)), .. } =>
            unreadable_in(below),
        _ => if is_unreadable(listed) {
            1
        } else {
            0
        },
    }
}

/// The warnings of two logs in a row are those of the first and those of
/// the second.
pub proof fn lemma_warning_count_concat(first: Seq<DiagnosticView>, second: Seq<DiagnosticView>)
    ensures
        warning_count(first + second) == warning_count(first) + warning_count(second),
    decreases second.len(),
{
    if second.len() > 0 {
        assert((first + second).drop_last() =~= first + second.drop_last());
        lemma_warning_count_concat(first, second.drop_last());
    }
}

/// A log of one line holds one warning or none.
pub proof fn lemma_warning_count_one(line: DiagnosticView)
    ensures
        warning_count(seq![line]) == if line.is_warning() {
            1nat
        } else {
            0nat
        },
        warning_count(Seq::<DiagnosticView>::empty()) == 0,
{
    assert(seq![line].drop_last() =~= Seq::<DiagnosticView>::empty());
    assert(warning_count(Seq::<DiagnosticView>::empty()) == 0);
}

/// Taking in one entry logs as many warnings as it stands for entries that
/// cannot be read.
pub proof fn lemma_warnings_of_entry(listed: ListedView)
    ensures
        warning_count(listed_log(listed)) == unreadable_at(listed),
    decreases listed,
{
    match listed {
        ListedView::Failed { cause } => {
            lemma_warning_count_one(DiagnosticView::EntryUnreadable { cause });
        },
        ListedView::Entry { path, found: FoundView::File(probe) } => {
            if let Err(cause) = probe.metadata {
                lemma_warning_count_one(DiagnosticView::FileUnreadable { path, cause });
                lemma_warning_count_one(DiagnosticView::FileSkipped { path });
                lemma_warning_count_concat(
                    seq![DiagnosticView::FileUnreadable { path, cause }],
                    seq![DiagnosticView::FileSkipped { path }],
                );
            }
        },
        ListedView::Entry { path, found: FoundView::Directory(probe) } => {
            match probe {
                DirProbeView::Unreadable { cause } => {
                    lemma_warning_count_one(DiagnosticView::DirectoryUnreadable { path, cause });
                    lemma_warning_count_one(DiagnosticView::SubdirectorySkipped { path });
                    lemma_warning_count_concat(
                        seq![DiagnosticView::DirectoryUnreadable { path, cause }],
                        seq![DiagnosticView::SubdirectorySkipped { path }],
                    );
                },
                DirProbeView::Opened(below) => {
                    lemma_warnings_of_listing(below);
                },
            }
        },
        ListedView::Entry { found: FoundView::Other, .. } => {},
    }
}

/// Taking in a listing logs one warning for each entry that cannot be
/// read, in the listing and below.
pub proof fn lemma_warnings_of_listing(listing: Seq<ListedView>)
    ensures
        warning_count(listing_log(listing)) == unreadable_in(listing),
    decreases listing,
{
    if listing.len() > 0 {
        lemma_warnings_of_listing(listing.drop_last());
        lemma_warnings_of_entry(listing.last());
        lemma_warning_count_concat(listing_log(listing.drop_last()), listed_log(listing.last()));
    }
}

/// Building a directory that can be listed logs exactly one warning for
/// each entry that cannot be read, at any depth, and no other.
pub proof fn lemma_one_warning_per_unreadable_entry(path: Seq<char>, listing: Seq<ListedView>)
    ensures
        warning_count(build_log(path, DirProbeView::Opened(listing))) == unreadable_in(listing),
{
    lemma_warnings_of_listing(listing);
}

/// A listing with one entry replaced gives what its parts give: what
/// stands before, the new entry, what stands after.
proof fn lemma_split_at(listing: Seq<ListedView>, at: int, entry: ListedView)
    requires
        0 <= at < listing.len(),
    ensures
        built_entries(listing.update(at, entry)) == built_entries(listing.take(at)) + built_entries(
            seq![entry],
        ) + built_entries(listing.skip(at + 1)),
        listing_log(listing.update(at, entry)) == listing_log(listing.take(at)) + listed_log(entry)
            + listing_log(listing.skip(at + 1)),
{
    let front = listing.take(at);
    let back = listing.skip(at + 1);
    assert(listing.update(at, entry) =~= front + seq![entry] + back);
    lemma_built_entries_concat(front + seq![entry], back);
    lemma_built_entries_concat(front, seq![entry]);
    lemma_listing_log_concat(front + seq![entry], back);
    lemma_listing_log_concat(front, seq![entry]);
    lemma_single_listed(entry);
}

/// An entry that cannot be read, put into a listing at any place, leaves
/// the entries that are built as they were, and so their sizes, and adds
/// exactly one warning to the log.
pub proof fn lemma_unreadable_entry_adds_nothing(
    listing: Seq<ListedView>,
    at: int,
    entry: ListedView,
)
    requires
        0 <= at <= listing.len(),
        is_unreadable(entry),
    ensures
        built_entries(listing.insert(at, entry)) == built_entries(listing),
        sum_sizes(built_entries(listing.insert(at, entry))) == sum_sizes(built_entries(listing)),
        warning_count(listing_log(listing.insert(at, entry))) == warning_count(
            listing_log(listing),
        ) + 1,
{
    let front = listing.take(at);
    let back = listing.skip(at);
    assert(listing =~= front + back);
    assert(listing.insert(at, entry) =~= front + seq![entry] + back);
    lemma_built_entries_concat(front, back);
    lemma_built_entries_concat(front + seq![entry], back);
    lemma_built_entries_concat(front, seq![entry]);
    lemma_listing_log_concat(front, back);
    lemma_listing_log_concat(front + seq![entry], back);
    lemma_listing_log_concat(front, seq![entry]);
    lemma_single_listed(entry);
    lemma_warnings_of_entry(entry);
    lemma_warning_count_concat(listing_log(front), listing_log(back));
    lemma_warning_count_concat(listing_log(front) + listed_log(entry), listing_log(back));
    lemma_warning_count_concat(listing_log(front), listed_log(entry));
}

/// Whether a route leads to a directory that can be listed and `at` is a
/// place in its listing. A route names, level by level, the position of
/// the directory to go down into.
pub open spec fn lands(probe: DirProbeView, route: Seq<int>, at: int) -> bool
    decreases route.len(),
{
    match probe {
        DirProbeView::Unreadable { .. } => false,
        DirProbeView::Opened(listing) => if route.len() == 0 {
            0 <= at <= listing.len()
        } else {
            &&& 0 <= route[0] < listing.len()
            &&& listing[route[0]] matches ListedView::Entry {
                found: FoundView::Directory(below),
                ..
            }
            &&& lands(below, route.drop_first(), at)
        },
    }
}

/// What was found, with one more entry in the listing of the directory
/// that the route leads to, at the place `at`.
pub open spec fn injected(
    probe: DirProbeView,
    route: Seq<int>,
    at: int,
    entry: ListedView,
) -> DirProbeView
    recommends
        lands(probe, route, at),
    decreases route.len(),
{
    match probe {
        DirProbeView::Unreadable { .. } => probe,
        DirProbeView::Opened(listing) => if route.len() == 0 {
            DirProbeView::Opened(listing.insert(at, entry))
        } else {
            match listing[route[0]] {
                ListedView::Entry { path, found: FoundView::Directory(below) } => DirProbeView::Opened(
                    listing.update(
                        route[0],
                        ListedView::Entry {
                            path,
                            found: FoundView::Directory(
                                injected(below, route.drop_first(), at, entry),
                            ),
                        },
                    ),
                ),
                _ => probe,
            }
        },
    }
}

/// An entry that cannot be read, put into the listing of a directory at
/// any depth, changes nothing of the tree that is built: the directory it
/// is put into and every directory above keep their entries and their size.
/// The log gains exactly one warning.
pub proof fn lemma_injection_leaves_tree(
    path: Seq<char>,
    probe: DirProbeView,
    route: Seq<int>,
    at: int,
    entry: ListedView,
)
    requires
        lands(probe, route, at),
        is_unreadable(entry),
    ensures
        built(path, injected(probe, route, at, entry)) == built(path, probe),
        bytes_under(injected(probe, route, at, entry)) == bytes_under(probe),
        warning_count(build_log(path, injected(probe, route, at, entry))) == warning_count(
            build_log(path, probe),
        ) + 1,
    decreases route.len(),
{
    let listing = probe->Opened_0;
    if route.len() == 0 {
        lemma_unreadable_entry_adds_nothing(listing, at, entry);
    } else {
        let k = route[0];
        let old_entry = listing[k];
        let sub_path = old_entry->Entry_path;
        let below = old_entry->Entry_found->Directory_0;
        let grafted = injected(below, route.drop_first(), at, entry);
        let new_entry = ListedView::Entry { path: sub_path, found: FoundView::Directory(grafted) };
        lemma_injection_leaves_tree(sub_path, below, route.drop_first(), at, entry);
        assert(listing.update(k, old_entry) =~= listing);
        lemma_split_at(listing, k, old_entry);
        lemma_split_at(listing, k, new_entry);
        lemma_single_listed(old_entry);
        lemma_single_listed(new_entry);
        let before = listing_log(listing.take(k));
        let after = listing_log(listing.skip(k + 1));
        lemma_warning_count_concat(before + listed_log(old_entry), after);
        lemma_warning_count_concat(before, listed_log(old_entry));
        lemma_warning_count_concat(before + listed_log(new_entry), after);
        lemma_warning_count_concat(before, listed_log(new_entry));
    }
}

/// Two readings that found the same give, for the same path, the same
/// directory, entry for entry and in the same order, and the same log.
pub proof fn lemma_same_findings_same_tree(path: Seq<char>, first: DirProbe, second: DirProbe)
    requires
        first@ == second@,
    ensures
        built(path, first@) == built(path, second@),
        build_log(path, first@) == build_log(path, second@),
{
}

/// The entries built from the start of a listing stand, in their order, at
/// the start of the entries built from all of it: an entry that was found
/// earlier comes earlier.
pub proof fn lemma_entries_keep_listing_order(listing: Seq<ListedView>, upto: int)
    requires
        0 <= upto <= listing.len(),
    ensures
        built_entries(listing.take(upto)).is_prefix_of(built_entries(listing)),
{
    assert(listing =~= listing.take(upto) + listing.skip(upto));
    lemma_built_entries_concat(listing.take(upto), listing.skip(upto));
}

} // verus!
