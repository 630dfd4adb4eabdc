//! Directories: what a listing found, the tree built from it bottom-up, and
//! the lines that report the tree.

use crate::data::file::resolve_log;
use crate::data::file::resolved;
use crate::data::file::FileProbe;
use crate::data::file::FileProbeView;
use crate::data::file::FileType;
use crate::data::file::FileView;
use crate::diagnostic::Diagnostic;
use crate::diagnostic::DiagnosticView;
use crate::render::bold_piece;
use crate::render::decimal;
use crate::render::decimal_text;
use crate::render::lines_render;
use crate::render::plain_piece;
use crate::render::push_plain;
use crate::render::push_size;
use crate::render::render;
use crate::render::renders_as;
use crate::render::size_pieces;
use crate::render::tinted_piece;
use crate::render::Piece;
use crate::render::PieceView;
use crate::render::Tint;
use vstd::prelude::*;

verus! {

broadcast use {vstd::seq::group_seq_axioms, vstd::std_specs::vec::group_vec_axioms};

/// What the path of a listed entry turned out to be.
#[derive(Debug, PartialEq, Eq)]
pub enum Found {
    /// A file, with what was found of it.
    File(FileProbe),
    /// A directory, with what its own listing found.
    Directory(DirProbe),
    /// Neither of the two.
    Other,
}

/// One entry as a listing gave it.
#[derive(Debug, PartialEq, Eq)]
pub enum Listed {
    /// An entry, by its path.
    Entry { path: String, found: Found },
    /// An entry that the listing could not give, by the cause.
    Failed { cause: String },
}

/// What the file system gave for a path taken as a directory: its entries
/// in the order of the listing, or why it could not be listed.
#[derive(Debug, PartialEq, Eq)]
pub enum DirProbe {
    Opened(Vec<Listed>),
    Unreadable { cause: String },
}

/// A `Found` as plain values.
pub enum FoundView {
    File(FileProbeView),
    Directory(DirProbeView),
    Other,
}

/// A `Listed` as plain values.
pub enum ListedView {
    Entry { path: Seq<char>, found: FoundView },
    Failed { cause: Seq<char> },
}

/// A `DirProbe` as plain values.
pub enum DirProbeView {
    Opened(Seq<ListedView>),
    Unreadable { cause: Seq<char> },
}

/// The plain values of a `Found`.
pub open spec fn found_view(found: Found) -> FoundView
    decreases found,
{
    match found {
        Found::File(probe) => FoundView::File(probe@),
        Found::Directory(probe) => FoundView::Directory(dir_probe_view(probe)),
        Found::Other => FoundView::Other,
    }
}

/// The plain values of a `Listed`.
pub open spec fn listed_view(listed: Listed) -> ListedView
    decreases listed,
{
    match listed {
        Listed::Entry { path, found } => ListedView::Entry { path: path@, found: found_view(found) },
        Listed::Failed { cause } => ListedView::Failed { cause: cause@ },
    }
}

/// The plain values of a `DirProbe`.
pub open spec fn dir_probe_view(probe: DirProbe) -> DirProbeView
    decreases probe,
{
    match probe {
        DirProbe::Opened(listing) => DirProbeView::Opened(
            Seq::new(
                listing.len() as nat,
                |i: int|
                    if 0 <= i < listing.len() {
                        listed_view(listing[i])
                    } else {
                        ListedView::Failed { cause: Seq::empty() }
                    },
            ),
        ),
        DirProbe::Unreadable { cause } => DirProbeView::Unreadable { cause: cause@ },
    }
}

impl View for Found {
    type V = FoundView;

    open spec fn view(&self) -> FoundView {
        found_view(*self)
    }
}

impl View for Listed {
    type V = ListedView;

    open spec fn view(&self) -> ListedView {
        listed_view(*self)
    }
}

impl View for DirProbe {
    type V = DirProbeView;

    open spec fn view(&self) -> DirProbeView {
        dir_probe_view(*self)
    }
}

/// An entry of a directory, as plain values.
pub enum EntryView {
    File(FileView),
    Dir(DirView),
}

/// A directory as plain values: its path, its size, and its entries in the
/// order they were found.
pub struct DirView {
    pub path: Seq<char>,
    pub size: nat,
    pub entries: Seq<EntryView>,
}

impl EntryView {
    /// The size of the entry.
    pub open spec fn size(self) -> nat {
        match self {
            EntryView::File(file) => file.size,
            EntryView::Dir(dir) => dir.size,
        }
    }
}

/// The sizes of entries, added up.
pub open spec fn sum_sizes(entries: Seq<EntryView>) -> nat
    decreases entries.len(),
{
    if entries.len() == 0 {
        0
    } else {
        sum_sizes(entries.drop_last()) + entries.last().size()
    }
}

/// The sizes of the files among the entries and, through the directories
/// among them, below.
pub open spec fn file_bytes(entries: Seq<EntryView>) -> nat
    decreases entries,
{
    if entries.len() == 0 {
        0
    } else {
        file_bytes(entries.drop_last()) + match entries.last() {
            EntryView::File(file) => file.size,
            EntryView::Dir(dir) => file_bytes(dir.entries),
        }
    }
}

impl DirView {
    /// Whether every directory of the tree, this one included, has the
    /// sizes of its entries as its size.
    pub open spec fn wf(self) -> bool
        decreases self,
    {
        &&& self.size == sum_sizes(self.entries)
        &&& forall|i: int|
            0 <= i < self.entries.len() ==> match #[trigger] self.entries[i] {
                EntryView::File(_) => true,
                EntryView::Dir(dir) => dir.wf(),
            }
    }
}

/// The start of a line about a directory: the sign, the word and the path.
pub open spec fn dir_heading(path: Seq<char>) -> Seq<PieceView> {
    seq![
        tinted_piece("📁"@, Tint::BrightYellow),
        plain_piece(" "@),
        tinted_piece("Directory:"@, Tint::Yellow),
        plain_piece(" "@),
        bold_piece(path, Tint::Blue),
    ]
}

impl DirView {
    /// The line that sums a directory up: its path, its size and the number
    /// of its entries.
    pub open spec fn simple_pieces(self) -> Seq<PieceView> {
        dir_heading(self.path) + seq![plain_piece(" "@)] + size_pieces(self.size) + seq![
            plain_piece(", "@),
            plain_piece(decimal(self.entries.len())),
            plain_piece(" Entries"@),
        ]
    }

    /// The lines that report a tree, depth first: the line of the
    /// directory itself where `is_main` asks for it, then what its entries
    /// give, in their order.
    pub open spec fn report(self, is_main: bool) -> Seq<Seq<PieceView>>
        decreases self,
    {
        (if is_main {
            seq![self.simple_pieces()]
        } else {
            Seq::empty()
        }) + entries_report(self.entries)
    }
}

/// The lines that an entry gives: a file its line; a directory its line,
/// then what its own entries give.
pub open spec fn entry_report(entry: EntryView) -> Seq<Seq<PieceView>>
    decreases entry,
{
    match entry {
        EntryView::File(file) => seq![file.info_pieces()],
        EntryView::Dir(dir) => seq![dir.simple_pieces()] + dir.report(false),
    }
}

/// The lines that entries give, one entry after the other.
pub open spec fn entries_report(entries: Seq<EntryView>) -> Seq<Seq<PieceView>>
    decreases entries,
{
    if entries.len() == 0 {
        Seq::empty()
    } else {
        entries_report(entries.drop_last()) + entry_report(entries.last())
    }
}

/// What an entry of a listing becomes in the directory: the file it
/// resolves to, the directory built from it, or nothing, where it could not
/// be read or is neither.
pub open spec fn built_entry(listed: ListedView) -> Option<EntryView>
    decreases listed,
{
    match listed {
        ListedView::Entry { path, found: FoundView::File(probe) } => match resolved(
            path,
            false,
            probe,
        ) {
            Some(file) => Some(EntryView::File(file)),
            None => None,
        },
        ListedView::Entry { path, found: FoundView::Directory(probe) } => match built(path, probe) {
            Some(dir) => Some(EntryView::Dir(dir)),
            None => None,
        },
        _ => None,
    }
}

/// The entries of the directory that a listing gives: what each entry
/// becomes, in the order of the listing.
pub open spec fn built_entries(listing: Seq<ListedView>) -> Seq<EntryView>
    decreases listing,
{
    if listing.len() == 0 {
        Seq::empty()
    } else {
        built_entries(listing.drop_last()) + match built_entry(listing.last()) {
            Some(entry) => seq![entry],
            None => Seq::empty(),
        }
    }
}

/// The directory built for `path` from what was found there: none where it
/// could not be listed.
pub open spec fn built(path: Seq<char>, probe: DirProbeView) -> Option<DirView>
    decreases probe,
{
    match probe {
        DirProbeView::Opened(listing) => Some(
            DirView {
                path,
                size: sum_sizes(built_entries(listing)),
                entries: built_entries(listing),
            },
        ),
        DirProbeView::Unreadable { .. } => None,
    }
}

/// The bytes of the files that can be read below a directory, through the
/// directories that can be listed.
pub open spec fn bytes_under(probe: DirProbeView) -> nat {
    match probe {
        DirProbeView::Opened(listing) => sum_sizes(built_entries(listing)),
        DirProbeView::Unreadable { .. } => 0,
    }
}

/// What is reported while one entry of a listing is taken in: the cause
/// where it cannot be read, then the warning that it is left out.
pub open spec fn listed_log(listed: ListedView) -> Seq<DiagnosticView>
    decreases listed,
{
    match listed {
        ListedView::Failed { cause } => seq![DiagnosticView::EntryUnreadable { cause }],
        ListedView::Entry { path, found: FoundView::File(probe) } => resolve_log(path, probe) + (
        if probe.metadata is Err {
            seq![DiagnosticView::FileSkipped { path }]
        } else {
            Seq::empty()
        }),
        ListedView::Entry { path, found: FoundView::Directory(probe) } => build_log(path, probe)
            + (if probe is Unreadable {
            seq![DiagnosticView::SubdirectorySkipped { path }]
        } else {
            Seq::empty()
        }),
        ListedView::Entry { path, found: FoundView::Other } => Seq::empty(),
    }
}

/// What is reported while the entries of a listing are taken in, one after
/// the other.
pub open spec fn listing_log(listing: Seq<ListedView>) -> Seq<DiagnosticView>
    decreases listing,
{
    if listing.len() == 0 {
        Seq::empty()
    } else {
        listing_log(listing.drop_last()) + listed_log(listing.last())
    }
}

/// What is reported while the directory for `path` is built.
pub open spec fn build_log(path: Seq<char>, probe: DirProbeView) -> Seq<DiagnosticView>
    decreases probe,
{
    match probe {
        DirProbeView::Opened(listing) => listing_log(listing),
        DirProbeView::Unreadable { cause } => seq![DiagnosticView::DirectoryUnreadable { path, cause }],
    }
}

/// An entry of a directory.
#[derive(Debug, PartialEq, Eq)]
pub enum Entry {
    File(FileType),
    Dir(DirectoryType),
}

/// A directory: its path, the sizes of its entries added up, and its
/// entries in the order they were found.
#[derive(Debug, PartialEq, Eq)]
pub struct DirectoryType {
    size: u64,
    entries: Vec<Entry>,
    path: String,
}

/// The plain values of an `Entry`.
pub open spec fn entry_view(entry: Entry) -> EntryView
    decreases entry,
{
    match entry {
        Entry::File(file) => EntryView::File(file@),
        Entry::Dir(dir) => EntryView::Dir(dir_view(dir)),
    }
}

/// The plain values of entries.
pub open spec fn entry_views(entries: Seq<Entry>) -> Seq<EntryView> {
    Seq::new(entries.len(), |i: int| entry_view(entries[i]))
}

/// The plain values of a `DirectoryType`.
pub closed spec fn dir_view(dir: DirectoryType) -> DirView
    decreases dir,
{
    DirView {
        path: dir.path@,
        size: dir.size as nat,
        entries: Seq::new(
            dir.entries.len() as nat,
            |i: int|
                if 0 <= i < dir.entries.len() {
                    entry_view(dir.entries[i])
                } else {
                    EntryView::Dir(DirView { path: Seq::empty(), size: 0, entries: Seq::empty() })
                },
        ),
    }
}

impl View for Entry {
    type V = EntryView;

    open spec fn view(&self) -> EntryView {
        entry_view(*self)
    }
}

impl View for DirectoryType {
    type V = DirView;

    open spec fn view(&self) -> DirView {
        dir_view(*self)
    }
}

/// Adding up the sizes of two runs of entries adds up their sums.
pub proof fn lemma_sum_sizes_concat(front: Seq<EntryView>, back: Seq<EntryView>)
    ensures
        sum_sizes(front + back) == sum_sizes(front) + sum_sizes(back),
    decreases back.len(),
{
    if back.len() > 0 {
        assert((front + back).drop_last() =~= front + back.drop_last());
        lemma_sum_sizes_concat(front, back.drop_last());
    }
}

/// The entries built from two listings in a row are those of the first,
/// then those of the second.
pub proof fn lemma_built_entries_concat(front: Seq<ListedView>, back: Seq<ListedView>)
    ensures
        built_entries(front + back) == built_entries(front) + built_entries(back),
    decreases back.len(),
{
    if back.len() > 0 {
        assert((front + back).drop_last() =~= front + back.drop_last());
        lemma_built_entries_concat(front, back.drop_last());
    }
}

/// What is reported for two listings in a row is what is reported for the
/// first, then for the second.
pub proof fn lemma_listing_log_concat(front: Seq<ListedView>, back: Seq<ListedView>)
    ensures
        listing_log(front + back) == listing_log(front) + listing_log(back),
    decreases back.len(),
{
    if back.len() > 0 {
        assert((front + back).drop_last() =~= front + back.drop_last());
        lemma_listing_log_concat(front, back.drop_last());
    }
}

/// What a single entry of a listing gives.
pub proof fn lemma_single_listed(listed: ListedView)
    ensures
        built_entries(seq![listed]) == match built_entry(listed) {
            Some(entry) => seq![entry],
            None => Seq::<EntryView>::empty(),
        },
        listing_log(seq![listed]) == listed_log(listed),
{
    let one = seq![listed];
    assert(one.drop_last() =~= Seq::<ListedView>::empty());
    assert(built_entries(Seq::<ListedView>::empty()) =~= Seq::<EntryView>::empty());
    assert(listing_log(Seq::<ListedView>::empty()) =~= Seq::<DiagnosticView>::empty());
}

/// The entries listed before a position weigh no more than all of them,
/// and with the one at the position still no more.
pub proof fn lemma_bytes_of_prefix(listing: Seq<ListedView>, upto: int)
    requires
        0 <= upto <= listing.len(),
    ensures
        sum_sizes(built_entries(listing.take(upto))) <= sum_sizes(built_entries(listing)),
{
    assert(listing =~= listing.take(upto) + listing.skip(upto));
    lemma_built_entries_concat(listing.take(upto), listing.skip(upto));
    lemma_sum_sizes_concat(built_entries(listing.take(upto)), built_entries(listing.skip(upto)));
}

/// Taking one more entry of a listing adds what that entry gives.
pub proof fn lemma_take_next(listing: Seq<ListedView>, i: int)
    requires
        0 <= i < listing.len(),
    ensures
        built_entries(listing.take(i + 1)) == built_entries(listing.take(i)) + match built_entry(
            listing[i],
        ) {
            Some(entry) => seq![entry],
            None => Seq::<EntryView>::empty(),
        },
        sum_sizes(built_entries(listing.take(i + 1))) == sum_sizes(built_entries(listing.take(i)))
            + match built_entry(listing[i]) {
            Some(entry) => entry.size(),
            None => 0,
        },
        listing_log(listing.take(i + 1)) == listing_log(listing.take(i)) + listed_log(listing[i]),
{
    assert(listing.take(i + 1) =~= listing.take(i) + seq![listing[i]]);
    lemma_built_entries_concat(listing.take(i), seq![listing[i]]);
    lemma_listing_log_concat(listing.take(i), seq![listing[i]]);
    lemma_single_listed(listing[i]);
    let tail = match built_entry(listing[i]) {
        Some(entry) => seq![entry],
        None => Seq::<EntryView>::empty(),
    };
    lemma_sum_sizes_concat(built_entries(listing.take(i)), tail);
    assert(sum_sizes(Seq::<EntryView>::empty()) == 0);
    if tail.len() > 0 {
        assert(tail.drop_last() =~= Seq::<EntryView>::empty());
    }
}

/// Taking one more entry adds the lines that the entry gives.
pub proof fn lemma_report_next(entries: Seq<EntryView>, i: int)
    requires
        0 <= i < entries.len(),
    ensures
        entries_report(entries.take(i + 1)) == entries_report(entries.take(i)) + entry_report(
            entries[i],
        ),
{
    assert(entries.take(i + 1).drop_last() =~= entries.take(i));
}

/// Appends the start of a line about a directory.
pub fn push_dir_heading(pieces: &mut Vec<Piece>, path: &str)
    ensures
        final(pieces).deep_view() == old(pieces).deep_view() + dir_heading(path@),
{
    pieces.push(Piece::tinted("📁", Tint::BrightYellow));
    pieces.push(Piece::plain(" "));
    pieces.push(Piece::tinted("Directory:", Tint::Yellow));
    pieces.push(Piece::plain(" "));
    pieces.push(Piece::bold(path, Tint::Blue));
}

impl DirectoryType {
    /// Every directory that exists has the sizes of its entries as its
    /// size, and so has each directory below it.
    #[verifier::type_invariant]
    spec fn sizes_add_up(&self) -> bool {
        dir_view(*self).wf()
    }

    /// The directory for `path_str` as its probe shows it. Where the path
    /// could not be listed there is no directory, and the cause goes to the
    /// log. Else each entry of the listing is taken in turn: a directory is
    /// built in the same way, a file is resolved without its text, and
    /// what is neither is passed over. An entry that cannot be read is left
    /// out with a warning in the log; the others make up the entries, in
    /// the order of the listing, and their sizes the size.
    pub fn new(path_str: &String, probe: &DirProbe, log: &mut Vec<Diagnostic>) -> (dir: Option<
        DirectoryType,
    >)
        requires
            bytes_under(probe@) <= u64::MAX,
        ensures
            match dir {
                Some(dir) => built(path_str@, probe@) == Some(dir@) && dir@.wf(),
                None => built(path_str@, probe@) is None,
            },
            final(log).deep_view() == old(log).deep_view() + build_log(path_str@, probe@),
        decreases probe,
    {
        match probe {
            DirProbe::Unreadable { cause } => {
                log.push(
                    Diagnostic::DirectoryUnreadable { path: path_str.clone(), cause: cause.clone() },
                );
                None
            },
            DirProbe::Opened(listing) => {
                let ghost found: Seq<ListedView> = probe@->Opened_0;
                let mut size: u64 = 0;
                let mut entries_list: Vec<Entry> = Vec::new();
                let mut i: usize = 0;
                while i < listing.len()
                    invariant
                        i <= listing.len(),
                        *probe == DirProbe::Opened(*listing),
                        found.len() == listing.len(),
                        forall|k: int| 0 <= k < listing.len() ==> #[trigger] found[k] == listed_view(listing[k]),
                        sum_sizes(built_entries(found)) <= u64::MAX,
                        entry_views(entries_list@) == built_entries(found.take(i as int)),
                        size == sum_sizes(built_entries(found.take(i as int))),
                        forall|k: int|
                            0 <= k < entries_list.len() ==> match #[trigger] entries_list[k] {
                                Entry::File(_) => true,
                                Entry::Dir(dir) => dir_view(dir).wf(),
                            },
                        log.deep_view() == old(log).deep_view() + listing_log(found.take(i as int)),
                    decreases listing.len() - i,
                {
                    let ghost before = log.deep_view();
                    proof {
                        lemma_take_next(found, i as int);
                        lemma_bytes_of_prefix(found, i + 1);
                        assert(*listing == probe->Opened_0);
                    }
                    match &listing[i] {
                        Listed::Entry { path, found: Found::Directory(below) } => {
                            match DirectoryType::new(path, below, log) {
                                Some(entry_dir) => {
                                    size = size + entry_dir.size;
                                    entries_list.push(Entry::Dir(entry_dir));
                                },
                                None => {
                                    let ghost told = log.deep_view();
                                    log.push(Diagnostic::SubdirectorySkipped { path: path.clone() });
                                    assert(log.deep_view() =~= told + seq![
                                        DiagnosticView::SubdirectorySkipped { path: path@ },
                                    ]);
                                },
                            }
                        },
                        Listed::Entry { path, found: Found::File(probe) } => {
                            match FileType::new(path.as_str(), false, probe, log) {
                                Some(entry_file) => {
                                    size = size + entry_file.size;
                                    entries_list.push(Entry::File(entry_file));
                                },
                                None => {
                                    let ghost told = log.deep_view();
                                    log.push(Diagnostic::FileSkipped { path: path.clone() });
                                    assert(log.deep_view() =~= told + seq![
                                        DiagnosticView::FileSkipped { path: path@ },
                                    ]);
                                },
                            }
                        },
                        Listed::Entry { found: Found::Other, .. } => {},
                        Listed::Failed { cause } => {
                            log.push(Diagnostic::EntryUnreadable { cause: cause.clone() });
                            assert(log.deep_view() =~= before + seq![
                                DiagnosticView::EntryUnreadable { cause: cause@ },
                            ]);
                        },
                    }
                    i = i + 1;
                }
                let path: String = path_str.clone();
                proof {
                    assert(found.take(i as int) =~= found);
                    let whole = DirectoryType { size, entries: entries_list, path };
                    assert(dir_view(whole).entries =~= built_entries(found));
                }
                Some(DirectoryType { size, entries: entries_list, path })
            },
        }
    }

    /// The size: the sizes of the entries, added up.
    pub fn size(&self) -> (size: u64)
        ensures
            size == self@.size,
            self@.wf(),
    {
        proof {
            use_type_invariant(self);
        }
        self.size
    }

    /// The path.
    pub fn path(&self) -> (path: &String)
        ensures
            path@ == self@.path,
    {
        &self.path
    }

    /// The entries, in the order they were found.
    pub fn entries(&self) -> (entries: &Vec<Entry>)
        ensures
            entry_views(entries@) == self@.entries,
    {
        &self.entries
    }

    /// The line that sums the directory up: its path, its size and the
    /// number of its entries.
    pub fn print_dir_simple_info(&self) -> (line: String)
        ensures
            renders_as(self@.simple_pieces(), line@),
    {
        let mut pieces: Vec<Piece> = Vec::new();
        push_dir_heading(&mut pieces, self.path.as_str());
        push_plain(&mut pieces, " ");
        push_size(&mut pieces, self.size);
        push_plain(&mut pieces, ", ");
        let count: String = decimal_text(self.entries.len() as u64);
        push_plain(&mut pieces, count.as_str());
        push_plain(&mut pieces, " Entries");
        assert(pieces.deep_view() =~= self@.simple_pieces());
        render(&pieces)
    }

    /// The lines that report the tree, depth first: the line of this
    /// directory where `is_main` asks for it, then for each entry in order
    /// the line of a file, or the line of a directory followed by the lines
    /// of what is below it.
    pub fn print_dir_all_info(&self, is_main: bool) -> (lines: Vec<String>)
        ensures
            lines_render(self@.report(is_main), lines.deep_view()),
        decreases self,
    {
        let mut lines: Vec<String> = Vec::new();
        if is_main {
            let own: String = self.print_dir_simple_info();
            lines.push(own);
        }
        let ghost head: Seq<Seq<PieceView>> = if is_main {
            seq![self@.simple_pieces()]
        } else {
            Seq::empty()
        };
        let ghost listed: Seq<EntryView> = self@.entries;
        let mut i: usize = 0;
        while i < self.entries.len()
            invariant
                i <= self.entries.len(),
                listed == self@.entries,
                listed.len() == self.entries.len(),
                forall|k: int|
                    0 <= k < self.entries.len() ==> #[trigger] listed[k] == entry_view(
                        self.entries[k],
                    ),
                lines_render(head + entries_report(listed.take(i as int)), lines.deep_view()),
            decreases self.entries.len() - i,
        {
            let ghost done = head + entries_report(listed.take(i as int));
            proof {
                lemma_report_next(listed, i as int);
            }
            match &self.entries[i] {
                Entry::Dir(dir) => {
                    let own: String = dir.print_dir_simple_info();
                    let mut below: Vec<String> = dir.print_dir_all_info(false);
                    lines.push(own);
                    lines.append(&mut below);
                },
                Entry::File(file) => {
                    let own: String = file.print_info();
                    lines.push(own);
                },
            }
            assert(head + entries_report(listed.take(i + 1)) =~= done + entry_report(
                listed[i as int],
            ));
            i = i + 1;
        }
        assert(listed.take(i as int) =~= listed);
        lines
    }
}

/// What an entry of a listing is taken for.
#[derive(Clone, Copy, Debug, PartialEq, Eq)]
pub enum EntryKind {
    Directory,
    File,
    Other,
}

/// What a path is taken for, from what the file system says of it: a
/// directory where it says so, else a file where it says that, else
/// neither.
pub fn classify(is_dir: bool, is_file: bool) -> (kind: EntryKind)
    ensures
        kind == if is_dir {
            EntryKind::Directory
        } else if is_file {
            EntryKind::File
        } else {
            EntryKind::Other
        },
{
    if is_dir {
        EntryKind::Directory
    } else if is_file {
        EntryKind::File
    } else {
        EntryKind::Other
    }
}

impl DirProbe {
    /// The bytes of the files that can be read below the directory, or
    /// nothing where they are more than a `u64` holds.
    pub fn weigh(&self) -> (bytes: Option<u64>)
        ensures
            match bytes {
                Some(bytes) => bytes == bytes_under(self@),
                None => bytes_under(self@) > u64::MAX,
            },
        decreases self,
    {
        match self {
            DirProbe::Unreadable { .. } => Some(0),
            DirProbe::Opened(listing) => {
                let ghost found: Seq<ListedView> = self@->Opened_0;
                let mut total: u64 = 0;
                let mut i: usize = 0;
                while i < listing.len()
                    invariant
                        i <= listing.len(),
                        *self == DirProbe::Opened(*listing),
                        self@ == DirProbeView::Opened(found),
                        found.len() == listing.len(),
                        forall|k: int|
                            0 <= k < listing.len() ==> #[trigger] found[k] == listed_view(listing[k]),
                        total == sum_sizes(built_entries(found.take(i as int))),
                    decreases listing.len() - i,
                {
                    proof {
                        lemma_take_next(found, i as int);
                        lemma_bytes_of_prefix(found, i + 1);
                    }
                    let share: Option<u64> = match &listing[i] {
                        Listed::Entry { found: Found::Directory(below), .. } => below.weigh(),
                        Listed::Entry { found: Found::File(probe), .. } => match &probe.metadata {
                            Ok(size) => Some(*size),
                            Err(_) => Some(0),
                        },
                        _ => Some(0),
                    };
                    let sum: Option<u64> = match share {
                        Some(share) => total.checked_add(share),
                        None => None,
                    };
                    match sum {
                        Some(sum) => {
                            total = sum;
                        },
                        None => {
                            return None;
                        },
                    }
                    i = i + 1;
                }
                assert(found.take(i as int) =~= found);
                Some(total)
            },
        }
    }

    /// Whether the bytes of the files below the directory fit the size of a
    /// directory.
    pub fn fits(&self) -> (yes: bool)
        ensures
            yes == (bytes_under(self@) <= u64::MAX),
    {
        self.weigh().is_some()
    }
}

} // verus!
