//! The listing of existing notes, assembled from what reading the note
//! directories gave.

use crate::error::{TinoError, TinoErrorView};
use crate::notes::TinoFileTypes;
use vstd::prelude::*;

verus! {

/// A row of the listing: a note's label and where the note is.
#[derive(Debug, PartialEq, Eq)]
pub struct NoteEntry {
    display_label: String,
    absolute_path: String,
}

/// The mathematical value of a [`NoteEntry`].
pub ghost struct NoteEntryView {
    pub display_label: Seq<char>,
    pub absolute_path: Seq<char>,
}

/// A file found in a note directory: its name and its absolute path.
#[derive(Debug, PartialEq, Eq)]
pub struct FoundFile {
    pub file_name: String,
    pub absolute_path: String,
}

/// What reading one note directory gave: the files found in it, in the
/// order in which the file system gave them, or the cause of the failure.
#[derive(Debug, PartialEq, Eq)]
pub struct DirRead {
    pub kind: TinoFileTypes,
    pub directory: String,
    pub outcome: Result<Vec<FoundFile>, String>,
}

impl View for NoteEntry {
    type V = NoteEntryView;

    closed spec fn view(&self) -> NoteEntryView {
        NoteEntryView { display_label: self.display_label@, absolute_path: self.absolute_path@ }
    }
}

impl NoteEntry {
    /// A row with the given label and path.
    pub fn new(display_label: String, absolute_path: String) -> (entry: Self)
        ensures
            entry@ == (NoteEntryView {
                display_label: display_label@,
                absolute_path: absolute_path@,
            }),
    {
        NoteEntry { display_label, absolute_path }
    }

    /// The label: the tag of the note's kind and the file's name.
    pub fn display_label(&self) -> (label: &str)
        ensures
            label@ == self@.display_label,
    {
        self.display_label.as_str()
    }

    /// The absolute path of the note.
    pub fn absolute_path(&self) -> (path: &str)
        ensures
            path@ == self@.absolute_path,
    {
        self.absolute_path.as_str()
    }
}

impl Clone for NoteEntry {
    fn clone(&self) -> (copy: Self)
        ensures
            copy@ == self@,
    {
        NoteEntry {
            display_label: self.display_label.clone(),
            absolute_path: self.absolute_path.clone(),
        }
    }
}

/// The rows as mathematical values.
pub open spec fn entries_view(entries: Seq<NoteEntry>) -> Seq<NoteEntryView> {
    Seq::new(entries.len(), |i: int| entries[i]@)
}

/// The label of a note of `kind` in the file `file_name`.
pub open spec fn label_of(kind: TinoFileTypes, file_name: Seq<char>) -> Seq<char> {
    kind.tag_text() + " | "@ + file_name
}

/// The row for `file`, a note of `kind`.
pub open spec fn entry_of(kind: TinoFileTypes, file: FoundFile) -> NoteEntryView {
    NoteEntryView {
        display_label: label_of(kind, file.file_name@),
        absolute_path: file.absolute_path@,
    }
}

/// The rows for `files`, notes of `kind`, in the order of `files`.
pub open spec fn entries_of(kind: TinoFileTypes, files: Seq<FoundFile>) -> Seq<NoteEntryView> {
    Seq::new(files.len(), |i: int| entry_of(kind, files[i]))
}

/// The rows of the notes of `kind` that `reads` found, read after read; or
/// the error of the first read of that kind that failed.
pub open spec fn listing_of_kind(reads: Seq<DirRead>, kind: TinoFileTypes) -> Result<
    Seq<NoteEntryView>,
    TinoErrorView,
>
    decreases reads.len(),
{
    if reads.len() == 0 {
        Ok(Seq::empty())
    } else {
        match listing_of_kind(reads.drop_last(), kind) {
            Err(e) => Err(e),
            Ok(before) => {
                let read = reads.last();
                if read.kind != kind {
                    Ok(before)
                } else {
                    match read.outcome {
                        Err(cause) => Err(
                            TinoErrorView::DirCouldNotBeReaded(read.directory@, cause@),
                        ),
                        Ok(files) => Ok(before + entries_of(kind, files@)),
                    }
                }
            },
        }
    }
}

/// The rows of the notes of the given kinds, kind after kind; or the first
/// error met on the way.
pub open spec fn listing_of_kinds(reads: Seq<DirRead>, kinds: Seq<TinoFileTypes>) -> Result<
    Seq<NoteEntryView>,
    TinoErrorView,
>
    decreases kinds.len(),
{
    if kinds.len() == 0 {
        Ok(Seq::empty())
    } else {
        match listing_of_kinds(reads, kinds.drop_last()) {
            Err(e) => Err(e),
            Ok(before) => match listing_of_kind(reads, kinds.last()) {
                Err(e) => Err(e),
                Ok(more) => Ok(before + more),
            },
        }
    }
}

/// The listing that `reads` give: the rows of all notes found, the kinds
/// in their fixed order, within a kind in the order of the reads and of the
/// files in them. One failed read and there is no listing, only the error
/// of the first failure in that order.
pub open spec fn listing(reads: Seq<DirRead>) -> Result<Seq<NoteEntryView>, TinoErrorView> {
    listing_of_kinds(reads, TinoFileTypes::all_kinds())
}

/// Whether `result` is the listing or the error that `expected` names.
pub open spec fn same_listing(
    result: Result<Vec<NoteEntry>, TinoError>,
    expected: Result<Seq<NoteEntryView>, TinoErrorView>,
) -> bool {
    match result {
        Ok(entries) => expected == Ok::<Seq<NoteEntryView>, TinoErrorView>(entries_view(entries@)),
        Err(e) => expected == Err::<Seq<NoteEntryView>, TinoErrorView>(e@),
    }
}

/// The label of a note of kind `tino_file_type` in the file
/// `tino_file_name`: the kind's tag, a bar, the name.
pub fn format_tino_file(tino_file_type: TinoFileTypes, tino_file_name: &str) -> (label: String)
    ensures
        label@ == label_of(tino_file_type, tino_file_name@),
{
    String::from_str(tino_file_type.tag()).concat(" | ").concat(tino_file_name)
}

/// The rows for the files found in one directory of notes of kind
/// `tino_file_type`.
pub fn get_tino_dir_files(files: &Vec<FoundFile>, tino_file_type: TinoFileTypes) -> (tino_files:
    Vec<NoteEntry>)
    ensures
        entries_view(tino_files@) == entries_of(tino_file_type, files@),
{
    let mut tino_files: Vec<NoteEntry> = Vec::new();
    let mut i: usize = 0;
    while i < files.len()
        invariant
            i <= files.len(),
            tino_files.len() == i,
            forall|j: int| 0 <= j < i ==> (#[trigger] tino_files[j])@ == entry_of(
                tino_file_type,
                files[j],
            ),
        decreases files.len() - i,
    {
        let file = &files[i];
        tino_files.push(
            NoteEntry::new(
                format_tino_file(tino_file_type, file.file_name.as_str()),
                file.absolute_path.clone(),
            ),
        );
        i += 1;
    }
    tino_files
}

/// Appends the rows for the reads of `kind` to `tino_files`, or gives the
/// error of the first such read that failed.
fn add_files_of_kind(
    tino_files: &mut Vec<NoteEntry>,
    reads: &Vec<DirRead>,
    kind: TinoFileTypes,
) -> (result: Result<(), TinoError>)
    ensures
        match result {
            Ok(_) => old(tino_files)@.len() <= final(tino_files)@.len() && listing_of_kind(
                reads@,
                kind,
            ) == Ok::<Seq<NoteEntryView>, TinoErrorView>(
                entries_view(final(tino_files)@).skip(old(tino_files)@.len() as int),
            ) && entries_view(final(tino_files)@).take(old(tino_files)@.len() as int)
                == entries_view(old(tino_files)@),
            Err(e) => listing_of_kind(reads@, kind) == Err::<Seq<NoteEntryView>, TinoErrorView>(
                e@,
            ),
        },
{
    let ghost before = tino_files@;
    let mut i: usize = 0;
    proof {
        assert(entries_view(tino_files@).skip(before.len() as int) =~= Seq::<
            NoteEntryView,
        >::empty());
    }
    while i < reads.len()
        invariant
            i <= reads.len(),
            before.len() <= tino_files@.len(),
            entries_view(tino_files@).take(before.len() as int) == entries_view(before),
            listing_of_kind(reads@.take(i as int), kind) == Ok::<Seq<NoteEntryView>, TinoErrorView>(
                entries_view(tino_files@).skip(before.len() as int),
            ),
        decreases reads.len() - i,
    {
        let read = &reads[i];
        proof {
            assert(reads@.take(i + 1).drop_last() =~= reads@.take(i as int));
        }
        if read.kind == kind {
            match &read.outcome {
                Err(cause) => {
                    let error = TinoError::DirCouldNotBeReaded(
                        read.directory.clone(),
                        cause.clone(),
                    );
                    proof {
                        lemma_failure_stays(reads@, (i + 1) as int, kind);
                    }
                    return Err(error);
                },
                Ok(files) => {
                    let mut more = get_tino_dir_files(files, kind);
                    let ghost so_far = tino_files@;
                    tino_files.append(&mut more);
                    proof {
                        assert(entries_view(tino_files@).take(before.len() as int) =~= entries_view(
                            before,
                        ));
                        assert(entries_view(tino_files@).skip(before.len() as int) =~= entries_view(
                            so_far,
                        ).skip(before.len() as int) + entries_of(kind, files@));
                    }
                },
            }
        }
        i += 1;
    }
    proof {
        assert(reads@.take(i as int) =~= reads@);
    }
    Ok(())
}

/// A failure among the first `n` reads is the failure of all reads.
proof fn lemma_failure_stays(reads: Seq<DirRead>, n: int, kind: TinoFileTypes)
    requires
        0 <= n <= reads.len(),
        listing_of_kind(reads.take(n), kind) is Err,
    ensures
        listing_of_kind(reads, kind) == listing_of_kind(reads.take(n), kind),
    decreases reads.len() - n,
{
    if n == reads.len() {
        assert(reads.take(n) =~= reads);
    } else {
        assert(reads.take(n + 1).drop_last() =~= reads.take(n));
        lemma_failure_stays(reads, n + 1, kind);
    }
}

/// Assembles the listing from what reading the note directories gave: the
/// kinds in their fixed order, whatever the order of `reads`. Where a read
/// failed there is no listing, only the error.
pub fn get_tino_files(reads: &Vec<DirRead>) -> (result: Result<Vec<NoteEntry>, TinoError>)
    ensures
        same_listing(result, listing(reads@)),
{
    let kinds = TinoFileTypes::all();
    let mut tino_files: Vec<NoteEntry> = Vec::new();
    let mut k: usize = 0;
    proof {
        assert(entries_view(tino_files@) =~= Seq::<NoteEntryView>::empty());
    }
    while k < kinds.len()
        invariant
            k <= kinds.len(),
            kinds@ == TinoFileTypes::all_kinds(),
            listing_of_kinds(reads@, kinds@.take(k as int)) == Ok::<
                Seq<NoteEntryView>,
                TinoErrorView,
            >(entries_view(tino_files@)),
        decreases kinds.len() - k,
    {
        let ghost so_far = tino_files@;
        proof {
            assert(kinds@.take(k + 1).drop_last() =~= kinds@.take(k as int));
        }
        match add_files_of_kind(&mut tino_files, reads, kinds[k]) {
            Err(e) => {
                proof {
                    lemma_kind_failure_stays(reads@, kinds@, (k + 1) as int);
                }
                return Err(e);
            },
            Ok(_) => {
                proof {
                    let all = entries_view(tino_files@);
                    let n = so_far.len() as int;
                    assert(all =~= all.take(n) + all.skip(n));
                }
            },
        }
        k += 1;
    }
    proof {
        assert(kinds@.take(k as int) =~= kinds@);
    }
    Ok(tino_files)
}

/// A failure among the first `n` kinds is the failure of all kinds.
proof fn lemma_kind_failure_stays(reads: Seq<DirRead>, kinds: Seq<TinoFileTypes>, n: int)
    requires
        0 <= n <= kinds.len(),
        listing_of_kinds(reads, kinds.take(n)) is Err,
    ensures
        listing_of_kinds(reads, kinds) == listing_of_kinds(reads, kinds.take(n)),
    decreases kinds.len() - n,
{
    if n == kinds.len() {
        assert(kinds.take(n) =~= kinds);
    } else {
        assert(kinds.take(n + 1).drop_last() =~= kinds.take(n));
        lemma_kind_failure_stays(reads, kinds, n + 1);
    }
}

/// The number of files that the reads of `kind` found.
pub open spec fn files_of_kind(reads: Seq<DirRead>, kind: TinoFileTypes) -> nat
    decreases reads.len(),
{
    if reads.len() == 0 {
        0
    } else {
        let read = reads.last();
        files_of_kind(reads.drop_last(), kind) + (if read.kind == kind {
            files_found(read)
        } else {
            0
        })
    }
}

/// The number of files that `read` found; 0 where it failed.
pub open spec fn files_found(read: DirRead) -> nat {
    match read.outcome {
        Ok(files) => files@.len(),
        Err(_) => 0,
    }
}

/// The number of files that all `reads` found.
pub open spec fn files_in(reads: Seq<DirRead>) -> nat
    decreases reads.len(),
{
    if reads.len() == 0 {
        0
    } else {
        files_in(reads.drop_last()) + files_found(reads.last())
    }
}

/// A read that failed leaves no listing of its kind.
proof fn lemma_failed_read_fails_kind(reads: Seq<DirRead>, i: int)
    requires
        0 <= i < reads.len(),
        reads[i].outcome is Err,
    ensures
        listing_of_kind(reads, reads[i].kind) is Err,
{
    assert(reads.take(i + 1).last() == reads[i]);
    lemma_failure_stays(reads, i + 1, reads[i].kind);
}

/// No partial listing: where any read failed, whatever its kind and
/// place, there is no listing.
pub proof fn lemma_failed_read_fails_listing(reads: Seq<DirRead>, i: int)
    requires
        0 <= i < reads.len(),
        reads[i].outcome is Err,
    ensures
        listing(reads) is Err,
{
    lemma_failed_read_fails_kind(reads, i);
    let kinds = TinoFileTypes::all_kinds();
    let k = reads[i].kind.rank();
    assert(kinds.take(k + 1).last() == reads[i].kind);
    lemma_kind_failure_stays(reads, kinds, k + 1);
}

/// Where there is a listing, no read failed.
pub proof fn lemma_listing_needs_every_read(reads: Seq<DirRead>)
    requires
        listing(reads) is Ok,
    ensures
        forall|i: int| 0 <= i < reads.len() ==> (#[trigger] reads[i]).outcome is Ok,
{
    assert forall|i: int| 0 <= i < reads.len() implies (#[trigger] reads[i]).outcome is Ok by {
        if reads[i].outcome is Err {
            lemma_failed_read_fails_listing(reads, i);
        }
    }
}

/// The listing of one kind has one row for each file of that kind.
proof fn lemma_kind_listing_length(reads: Seq<DirRead>, kind: TinoFileTypes)
    requires
        listing_of_kind(reads, kind) is Ok,
    ensures
        listing_of_kind(reads, kind)->Ok_0.len() == files_of_kind(reads, kind),
    decreases reads.len(),
{
    if reads.len() > 0 {
        lemma_kind_listing_length(reads.drop_last(), kind);
    }
}

/// Every read has one kind: the files of the four kinds are all files.
proof fn lemma_files_by_kind(reads: Seq<DirRead>)
    ensures
        files_in(reads) == files_of_kind(reads, TinoFileTypes::Todo) + files_of_kind(
            reads,
            TinoFileTypes::Idea,
        ) + files_of_kind(reads, TinoFileTypes::Note) + files_of_kind(
            reads,
            TinoFileTypes::AcademicNote,
        ),
    decreases reads.len(),
{
    if reads.len() > 0 {
        lemma_files_by_kind(reads.drop_last());
    }
}

/// The listing by kinds, written out for the four kinds.
proof fn lemma_listing_unfolded(reads: Seq<DirRead>)
    ensures
        listing(reads) == (match listing_of_kind(reads, TinoFileTypes::Todo) {
            Err(e) => Err(e),
            Ok(todos) => match listing_of_kind(reads, TinoFileTypes::Idea) {
                Err(e) => Err(e),
                Ok(ideas) => match listing_of_kind(reads, TinoFileTypes::Note) {
                    Err(e) => Err(e),
                    Ok(notes) => match listing_of_kind(reads, TinoFileTypes::AcademicNote) {
                        Err(e) => Err(e),
                        Ok(academic) => Ok(todos + ideas + notes + academic),
                    },
                },
            },
        }),
{
    let kinds = TinoFileTypes::all_kinds();
    let three = kinds.drop_last();
    let two = three.drop_last();
    let one = two.drop_last();
    let todos = listing_of_kind(reads, TinoFileTypes::Todo);
    let ideas = listing_of_kind(reads, TinoFileTypes::Idea);
    let notes = listing_of_kind(reads, TinoFileTypes::Note);
    assert(listing_of_kinds(reads, one.drop_last()) == Ok::<Seq<NoteEntryView>, TinoErrorView>(
        Seq::empty(),
    ));
    assert(listing_of_kinds(reads, one) == todos) by {
        if todos is Ok {
            assert(Seq::<NoteEntryView>::empty() + todos->Ok_0 =~= todos->Ok_0);
        }
    }
    if todos is Ok && ideas is Ok {
        assert(listing_of_kinds(reads, two) == Ok::<Seq<NoteEntryView>, TinoErrorView>(
            todos->Ok_0 + ideas->Ok_0,
        ));
        if notes is Ok {
            assert(listing_of_kinds(reads, three) == Ok::<Seq<NoteEntryView>, TinoErrorView>(
                todos->Ok_0 + ideas->Ok_0 + notes->Ok_0,
            ));
        }
    }
}

/// The listing has exactly one row for each file found.
pub proof fn lemma_listing_length(reads: Seq<DirRead>)
    requires
        listing(reads) is Ok,
    ensures
        listing(reads)->Ok_0.len() == files_in(reads),
{
    lemma_listing_unfolded(reads);
    lemma_kind_listing_length(reads, TinoFileTypes::Todo);
    lemma_kind_listing_length(reads, TinoFileTypes::Idea);
    lemma_kind_listing_length(reads, TinoFileTypes::Note);
    lemma_kind_listing_length(reads, TinoFileTypes::AcademicNote);
    lemma_files_by_kind(reads);
}

/// The listing of one kind, where exactly one read, the one at `i`, is of
/// that kind and found `files`: the rows of these files.
proof fn lemma_kind_listing_of_one_read(
    reads: Seq<DirRead>,
    kind: TinoFileTypes,
    i: int,
    files: Vec<FoundFile>,
)
    requires
        0 <= i < reads.len(),
        reads[i].kind == kind,
        reads[i].outcome == Ok::<Vec<FoundFile>, String>(files),
        forall|j: int| 0 <= j < reads.len() && j != i ==> (#[trigger] reads[j]).kind != kind,
    ensures
        listing_of_kind(reads, kind) == Ok::<Seq<NoteEntryView>, TinoErrorView>(
            entries_of(kind, files@),
        ),
    decreases reads.len(),
{
    let before = reads.drop_last();
    if i == reads.len() - 1 {
        lemma_kind_listing_without(before, kind);
        assert(Seq::<NoteEntryView>::empty() + entries_of(kind, files@) =~= entries_of(
            kind,
            files@,
        ));
    } else {
        lemma_kind_listing_of_one_read(before, kind, i, files);
    }
}

/// The listing of a kind of which there is no read: no rows.
proof fn lemma_kind_listing_without(reads: Seq<DirRead>, kind: TinoFileTypes)
    requires
        forall|j: int| 0 <= j < reads.len() ==> (#[trigger] reads[j]).kind != kind,
    ensures
        listing_of_kind(reads, kind) == Ok::<Seq<NoteEntryView>, TinoErrorView>(Seq::empty()),
    decreases reads.len(),
{
    if reads.len() > 0 {
        lemma_kind_listing_without(reads.drop_last(), kind);
    }
}

/// One successful read for each kind, in whatever order they come, gives
/// the rows of the todos, then of the ideas, then of the notes, then of the
/// academic notes, each in the order in which the files were found.
pub proof fn lemma_listing_of_four_reads(
    reads: Seq<DirRead>,
    todos: Vec<FoundFile>,
    ideas: Vec<FoundFile>,
    notes: Vec<FoundFile>,
    academic: Vec<FoundFile>,
)
    requires
        reads.len() == 4,
        exists|i: int|
            0 <= i < 4 && (#[trigger] reads[i]).kind == TinoFileTypes::Todo && reads[i].outcome
                == Ok::<Vec<FoundFile>, String>(todos),
        exists|i: int|
            0 <= i < 4 && (#[trigger] reads[i]).kind == TinoFileTypes::Idea && reads[i].outcome
                == Ok::<Vec<FoundFile>, String>(ideas),
        exists|i: int|
            0 <= i < 4 && (#[trigger] reads[i]).kind == TinoFileTypes::Note && reads[i].outcome
                == Ok::<Vec<FoundFile>, String>(notes),
        exists|i: int|
            0 <= i < 4 && (#[trigger] reads[i]).kind == TinoFileTypes::AcademicNote
                && reads[i].outcome == Ok::<Vec<FoundFile>, String>(academic),
    ensures
        listing(reads) == Ok::<Seq<NoteEntryView>, TinoErrorView>(
            entries_of(TinoFileTypes::Todo, todos@) + entries_of(TinoFileTypes::Idea, ideas@)
                + entries_of(TinoFileTypes::Note, notes@) + entries_of(
                TinoFileTypes::AcademicNote,
                academic@,
            ),
        ),
        listing(reads)->Ok_0.len() == todos@.len() + ideas@.len() + notes@.len()
            + academic@.len(),
{
    let t = choose|i: int|
        0 <= i < 4 && (#[trigger] reads[i]).kind == TinoFileTypes::Todo && reads[i].outcome
            == Ok::<Vec<FoundFile>, String>(todos);
    let d = choose|i: int|
        0 <= i < 4 && (#[trigger] reads[i]).kind == TinoFileTypes::Idea && reads[i].outcome
            == Ok::<Vec<FoundFile>, String>(ideas);
    let n = choose|i: int|
        0 <= i < 4 && (#[trigger] reads[i]).kind == TinoFileTypes::Note && reads[i].outcome
            == Ok::<Vec<FoundFile>, String>(notes);
    let a = choose|i: int|
        0 <= i < 4 && (#[trigger] reads[i]).kind == TinoFileTypes::AcademicNote
            && reads[i].outcome == Ok::<Vec<FoundFile>, String>(academic);
    lemma_kind_listing_of_one_read(reads, TinoFileTypes::Todo, t, todos);
    lemma_kind_listing_of_one_read(reads, TinoFileTypes::Idea, d, ideas);
    lemma_kind_listing_of_one_read(reads, TinoFileTypes::Note, n, notes);
    lemma_kind_listing_of_one_read(reads, TinoFileTypes::AcademicNote, a, academic);
    lemma_listing_unfolded(reads);
}

/// The label of a row begins with the tag of the note's kind, a bar
/// between spaces follows, and the file's name ends it.
pub proof fn lemma_label_shape(kind: TinoFileTypes, file_name: Seq<char>)
    ensures
        label_of(kind, file_name).len() == kind.tag_text().len() + 3 + file_name.len(),
        label_of(kind, file_name).subrange(0, kind.tag_text().len() as int) == kind.tag_text(),
        label_of(kind, file_name).subrange(
            kind.tag_text().len() as int,
            (kind.tag_text().len() + 3) as int,
        ) == seq![' ', '|', ' '],
        label_of(kind, file_name).subrange(
            (kind.tag_text().len() + 3) as int,
            label_of(kind, file_name).len() as int,
        ) == file_name,
{
    reveal_strlit(" | ");
}

} // verus!
