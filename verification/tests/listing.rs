use tino::listing::{
    format_tino_file, get_tino_dir_files, get_tino_files, DirRead, FoundFile, NoteEntry,
};
use tino::{Category, TinoError, TinoFileTypes};

fn file(dir: &str, name: &str) -> FoundFile {
    FoundFile { file_name: String::from(name), absolute_path: format!("{}/{}", dir, name) }
}

fn read(kind: TinoFileTypes, dir: &str, names: &[&str]) -> DirRead {
    DirRead {
        kind,
        directory: String::from(dir),
        outcome: Ok(names.iter().map(|n| file(dir, n)).collect()),
    }
}

fn failed(kind: TinoFileTypes, dir: &str, cause: &str) -> DirRead {
    DirRead { kind, directory: String::from(dir), outcome: Err(String::from(cause)) }
}

fn labels(entries: &[NoteEntry]) -> Vec<String> {
    entries.iter().map(|e| String::from(e.display_label())).collect()
}

#[test]
fn labels_carry_the_tag_of_the_kind() {
    assert_eq!(format_tino_file(TinoFileTypes::Todo, "a.md"), "TODO | a.md");
    assert_eq!(format_tino_file(TinoFileTypes::Idea, "a.md"), "IDEA | a.md");
    assert_eq!(format_tino_file(TinoFileTypes::Note, "a.md"), "NOTE | a.md");
    assert_eq!(format_tino_file(TinoFileTypes::AcademicNote, "a.md"), "ACAD. NOTE | a.md");
    assert_eq!(format_tino_file(TinoFileTypes::Note, ""), "NOTE | ");
}

#[test]
fn kinds_have_labels_tags_and_a_fixed_order() {
    assert_eq!(
        TinoFileTypes::all(),
        vec![
            TinoFileTypes::Todo,
            TinoFileTypes::Idea,
            TinoFileTypes::Note,
            TinoFileTypes::AcademicNote
        ]
    );
    let names: Vec<&str> = TinoFileTypes::all().into_iter().map(|k| k.label()).collect();
    assert_eq!(names, vec!["Todos", "Ideas", "Notes", "Academic notes"]);
    let tags: Vec<&str> = TinoFileTypes::all().into_iter().map(|k| k.tag()).collect();
    assert_eq!(tags, vec!["TODO", "IDEA", "NOTE", "ACAD. NOTE"]);
}

#[test]
fn categories_have_names_and_a_fixed_order() {
    let names: Vec<&str> = Category::all().into_iter().map(|c| c.name()).collect();
    assert_eq!(names, vec!["", "Project", "Area", "Resource", "Archive"]);
    assert_eq!(Category::all()[0], Category::Unfiled);
}

#[test]
fn the_files_of_a_directory_become_rows_in_their_order() {
    let files = vec![file("/n/notes", "b.md"), file("/n/notes", "a.md")];
    let rows = get_tino_dir_files(&files, TinoFileTypes::Note);
    assert_eq!(rows.len(), 2);
    assert_eq!(rows[0].display_label(), "NOTE | b.md");
    assert_eq!(rows[0].absolute_path(), "/n/notes/b.md");
    assert_eq!(rows[1].display_label(), "NOTE | a.md");
    assert_eq!(rows[1].absolute_path(), "/n/notes/a.md");
    assert_eq!(get_tino_dir_files(&Vec::new(), TinoFileTypes::Todo), Vec::new());
}

#[test]
fn four_directories_give_one_listing_in_the_order_of_the_kinds() {
    let reads = vec![
        read(TinoFileTypes::Todo, "/n/todos", &["t.md"]),
        read(TinoFileTypes::Idea, "/n/ideas", &[]),
        read(TinoFileTypes::Note, "/n/notes", &["n2.md", "n1.md"]),
        read(TinoFileTypes::AcademicNote, "/n/academic", &["x.md"]),
    ];
    let listing = get_tino_files(&reads).unwrap();
    assert_eq!(listing.len(), 4);
    assert_eq!(
        labels(&listing),
        vec!["TODO | t.md", "NOTE | n2.md", "NOTE | n1.md", "ACAD. NOTE | x.md"]
    );
    assert_eq!(listing[0].absolute_path(), "/n/todos/t.md");
    assert_eq!(listing[3].absolute_path(), "/n/academic/x.md");
    assert_eq!(
        listing[1],
        NoteEntry::new(String::from("NOTE | n2.md"), String::from("/n/notes/n2.md"))
    );
}

#[test]
fn the_order_of_the_kinds_does_not_depend_on_the_order_of_the_reads() {
    let reads = vec![
        read(TinoFileTypes::AcademicNote, "/n/academic", &["x.md"]),
        read(TinoFileTypes::Note, "/n/notes", &["n.md"]),
        read(TinoFileTypes::Todo, "/n/todos", &["t1.md"]),
        read(TinoFileTypes::Idea, "/n/ideas", &["i.md"]),
        read(TinoFileTypes::Todo, "/n/more", &["t2.md"]),
    ];
    let listing = get_tino_files(&reads).unwrap();
    assert_eq!(
        labels(&listing),
        vec!["TODO | t1.md", "TODO | t2.md", "IDEA | i.md", "NOTE | n.md", "ACAD. NOTE | x.md"]
    );
}

#[test]
fn one_unreadable_directory_fails_the_whole_scan() {
    let reads = vec![
        read(TinoFileTypes::Todo, "/n/todos", &["t.md"]),
        read(TinoFileTypes::Idea, "/n/ideas", &[]),
        failed(TinoFileTypes::Note, "/n/notes", "Permission denied"),
        read(TinoFileTypes::AcademicNote, "/n/academic", &["x.md"]),
    ];
    assert_eq!(
        get_tino_files(&reads),
        Err(TinoError::DirCouldNotBeReaded(
            String::from("/n/notes"),
            String::from("Permission denied")
        ))
    );
}

#[test]
fn the_first_failure_in_the_order_of_the_kinds_is_reported() {
    let reads = vec![
        failed(TinoFileTypes::AcademicNote, "/n/academic", "late"),
        failed(TinoFileTypes::Idea, "/n/ideas", "early"),
        read(TinoFileTypes::Todo, "/n/todos", &["t.md"]),
    ];
    assert_eq!(
        get_tino_files(&reads),
        Err(TinoError::DirCouldNotBeReaded(String::from("/n/ideas"), String::from("early")))
    );
    let reads =
        vec![failed(TinoFileTypes::Todo, "/a", "one"), failed(TinoFileTypes::Todo, "/b", "two")];
    assert_eq!(
        get_tino_files(&reads),
        Err(TinoError::DirCouldNotBeReaded(String::from("/a"), String::from("one")))
    );
}

#[test]
fn no_reads_give_an_empty_listing() {
    assert_eq!(get_tino_files(&Vec::new()), Ok(Vec::new()));
}

#[test]
fn a_row_can_be_copied() {
    let row = NoteEntry::new(String::from("TODO | a.md"), String::from("/n/todos/a.md"));
    let copy = row.clone();
    assert_eq!(copy, row);
    assert_eq!(copy.display_label(), "TODO | a.md");
    assert_eq!(copy.absolute_path(), "/n/todos/a.md");
}
