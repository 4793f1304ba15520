use tino::app::{classify_key, hotkey, App, Effect, KeyAction};
use tino::keys::{
    EditKey, InputEvent, KeyCode, KeyEventKind, KeyInput, ALT, CONTROL, NO_MODIFIERS, SHIFT,
};
use tino::listing::{DirRead, FoundFile, NoteEntry};
use tino::{Category, ConfigFile, FieldId, TinoDirs, TinoError, TinoFileTypes};

const T: &str = "2024-05-17T08:30:00";

fn config() -> ConfigFile {
    ConfigFile {
        tino_dirs: TinoDirs {
            todos_dir: String::from("/n/todos"),
            ideas_dir: String::from("/n/ideas"),
            notes_dir: String::from("/n/notes"),
            academic_notes_dir: String::from("/n/academic"),
        },
    }
}

fn read(kind: TinoFileTypes, dir: &str, names: &[&str]) -> DirRead {
    DirRead {
        kind,
        directory: String::from(dir),
        outcome: Ok(names
            .iter()
            .map(|n| FoundFile {
                file_name: String::from(*n),
                absolute_path: format!("{}/{}", dir, n),
            })
            .collect()),
    }
}

fn reads(notes: &[&str]) -> Vec<DirRead> {
    vec![
        read(TinoFileTypes::Todo, "/n/todos", &["t.md"]),
        read(TinoFileTypes::Idea, "/n/ideas", &[]),
        read(TinoFileTypes::Note, "/n/notes", notes),
        read(TinoFileTypes::AcademicNote, "/n/academic", &["x.md"]),
    ]
}

fn app() -> App {
    App::new(config(), &reads(&["n2.md", "n1.md"])).unwrap()
}

fn press(app: &mut App, code: KeyCode) -> Result<Vec<Effect>, TinoError> {
    app.on_key_event_at(KeyInput::plain(code), T)
}

fn type_text(app: &mut App, text: &str) {
    for c in text.chars() {
        assert_eq!(press(app, KeyCode::Char(c)), Ok(Vec::new()));
    }
}

fn labels(app: &App) -> Vec<String> {
    app.tino_files().items().iter().map(|e| String::from(e.display_label())).collect()
}

#[test]
fn the_application_starts_in_the_name_field() {
    let app = app();
    assert!(app.running());
    assert!(!app.open_editor());
    assert_eq!(app.active_field(), FieldId::NameInput);
    assert_eq!(app.file_name_input().value(), "");
    assert_eq!(app.type_selector().items(), &TinoFileTypes::all());
    assert_eq!(app.type_selector().selected(), Some(0));
    assert_eq!(app.category_selector().items(), &Category::all());
    assert_eq!(app.category_selector().selected(), Some(0));
    assert_eq!(
        labels(&app),
        vec!["TODO | t.md", "NOTE | n2.md", "NOTE | n1.md", "ACAD. NOTE | x.md"]
    );
    assert_eq!(app.tino_files().selected(), Some(0));
    assert_eq!(app.preview().text(), "File preview");
    assert_eq!(app.preview().scroll(), 0);
    assert_eq!(app.config_file(), &config());
    assert_eq!(app.selected_type(), Some(TinoFileTypes::Todo));
    assert_eq!(app.selected_category(), Some(""));
    assert_eq!(app.selected_tino_file(), Some("/n/todos/t.md"));
    app.state_is_well_formed();
}

#[test]
fn the_application_does_not_start_on_a_failed_scan() {
    let mut rs = reads(&[]);
    rs[1].outcome = Err(String::from("No such directory"));
    match App::new(config(), &rs) {
        Err(e) => assert_eq!(
            e,
            TinoError::DirCouldNotBeReaded(
                String::from("/n/ideas"),
                String::from("No such directory")
            )
        ),
        Ok(_) => panic!("started on a failed scan"),
    }
}

#[test]
fn an_empty_listing_selects_no_note() {
    let app = App::new(config(), &Vec::new()).unwrap();
    assert_eq!(app.tino_files().len(), 0);
    assert_eq!(app.tino_files().selected(), None);
    assert_eq!(app.selected_tino_file(), None);
}

#[test]
fn escape_quits_from_every_field() {
    for field in 0..5 {
        let mut app = app();
        app.jump_to(FieldId::from_index(field).unwrap());
        assert_eq!(press(&mut app, KeyCode::Esc), Ok(vec![Effect::Quit]));
        assert!(!app.running());
        assert!(!app.open_editor());
        assert_eq!(app.exit_effects(), Ok(Vec::new()));
    }
}

#[test]
fn tab_moves_the_focus_through_all_fields() {
    let mut app = app();
    let order = [
        FieldId::TypeList,
        FieldId::CategoryList,
        FieldId::FileList,
        FieldId::Preview,
        FieldId::NameInput,
    ];
    for expected in order {
        assert_eq!(press(&mut app, KeyCode::Tab), Ok(Vec::new()));
        assert_eq!(app.active_field(), expected);
    }
    assert_eq!(app.file_name_input().value(), "");
}

#[test]
fn hotkeys_give_their_field_the_focus() {
    let mut app = app();
    let keys = [
        ('t', FieldId::TypeList),
        ('c', FieldId::CategoryList),
        ('l', FieldId::FileList),
        ('p', FieldId::Preview),
        ('n', FieldId::NameInput),
    ];
    for (c, field) in keys {
        assert_eq!(app.on_key_event_at(KeyInput::control(c), T), Ok(Vec::new()));
        assert_eq!(app.active_field(), field);
        assert_eq!(hotkey(c), Some(field));
    }
    assert_eq!(hotkey('x'), None);
    assert_eq!(app.file_name_input().value(), "");
}

#[test]
fn a_hotkey_needs_control_alone() {
    let mut app = app();
    let key = KeyInput { code: KeyCode::Char('t'), modifiers: CONTROL + SHIFT };
    assert_eq!(classify_key(FieldId::NameInput, key), KeyAction::Edit(EditKey::Char('t')));
    assert_eq!(app.on_key_event_at(key, T), Ok(Vec::new()));
    assert_eq!(app.active_field(), FieldId::NameInput);
    let key = KeyInput { code: KeyCode::Char('t'), modifiers: CONTROL + ALT };
    assert_eq!(app.on_key_event_at(key, T), Ok(Vec::new()));
    assert_eq!(app.file_name_input().value(), "t");
}

#[test]
fn down_and_up_cycle_the_list_that_has_the_focus() {
    let mut app = app();
    app.jump_to(FieldId::TypeList);
    press(&mut app, KeyCode::Down).unwrap();
    press(&mut app, KeyCode::Char('j')).unwrap();
    assert_eq!(app.selected_type(), Some(TinoFileTypes::Note));
    press(&mut app, KeyCode::Char('k')).unwrap();
    assert_eq!(app.selected_type(), Some(TinoFileTypes::Idea));
    press(&mut app, KeyCode::Up).unwrap();
    press(&mut app, KeyCode::Up).unwrap();
    assert_eq!(app.selected_type(), Some(TinoFileTypes::AcademicNote));
    assert_eq!(app.category_selector().selected(), Some(0));
    assert_eq!(app.tino_files().selected(), Some(0));

    app.jump_to(FieldId::CategoryList);
    press(&mut app, KeyCode::Up).unwrap();
    assert_eq!(app.selected_category(), Some("Archive"));
    press(&mut app, KeyCode::Down).unwrap();
    assert_eq!(app.selected_category(), Some(""));
    press(&mut app, KeyCode::Down).unwrap();
    assert_eq!(app.selected_category(), Some("Project"));

    app.jump_to(FieldId::FileList);
    for _ in 0..4 {
        press(&mut app, KeyCode::Down).unwrap();
    }
    assert_eq!(app.tino_files().selected(), Some(0));
    press(&mut app, KeyCode::Up).unwrap();
    assert_eq!(app.selected_tino_file(), Some("/n/academic/x.md"));
    assert_eq!(app.selected_type(), Some(TinoFileTypes::AcademicNote));
}

#[test]
fn the_selection_methods_cycle_their_lists() {
    let mut app = app();
    app.type_next();
    assert_eq!(app.type_selector().selected(), Some(1));
    app.type_previous();
    app.type_previous();
    assert_eq!(app.type_selector().selected(), Some(3));
    app.category_previous();
    assert_eq!(app.category_selector().selected(), Some(4));
    app.category_next();
    assert_eq!(app.category_selector().selected(), Some(0));
    app.tino_file_previous();
    assert_eq!(app.tino_files().selected(), Some(3));
    app.tino_file_next();
    assert_eq!(app.tino_files().selected(), Some(0));
}

#[test]
fn down_and_up_scroll_the_preview_and_stop_at_the_top() {
    let mut app = app();
    app.jump_to(FieldId::Preview);
    for _ in 0..3 {
        assert_eq!(press(&mut app, KeyCode::Up), Ok(Vec::new()));
        assert_eq!(app.preview().scroll(), 0);
    }
    press(&mut app, KeyCode::Down).unwrap();
    press(&mut app, KeyCode::Char('j')).unwrap();
    assert_eq!(app.preview().scroll(), 2);
    press(&mut app, KeyCode::Char('k')).unwrap();
    assert_eq!(app.preview().scroll(), 1);
    press(&mut app, KeyCode::Up).unwrap();
    press(&mut app, KeyCode::Up).unwrap();
    assert_eq!(app.preview().scroll(), 0);
    assert_eq!(app.tino_files().selected(), Some(0));
}

#[test]
fn keys_go_to_the_editor_only_in_the_name_field() {
    let mut app = app();
    type_text(&mut app, "jk v");
    assert_eq!(app.file_name_input().value(), "jk v");
    press(&mut app, KeyCode::Up).unwrap();
    press(&mut app, KeyCode::Down).unwrap();
    press(&mut app, KeyCode::Other).unwrap();
    assert_eq!(app.file_name_input().value(), "jk v");
    press(&mut app, KeyCode::Backspace).unwrap();
    assert_eq!(app.file_name_input().value(), "jk ");
    for field in 1..5 {
        app.jump_to(FieldId::from_index(field).unwrap());
        press(&mut app, KeyCode::Char('x')).unwrap();
        press(&mut app, KeyCode::Backspace).unwrap();
        assert_eq!(app.file_name_input().value(), "jk ");
        assert_eq!(app.file_name_input().cursor_position(), 3);
    }
}

#[test]
fn commit_asks_for_the_named_file_and_a_fresh_listing() {
    let mut app = app();
    type_text(&mut app, "hello");
    app.jump_to(FieldId::CategoryList);
    press(&mut app, KeyCode::Up).unwrap();
    assert_eq!(app.selected_category(), Some("Archive"));
    app.jump_to(FieldId::TypeList);
    press(&mut app, KeyCode::Down).unwrap();
    press(&mut app, KeyCode::Down).unwrap();
    assert_eq!(app.selected_type(), Some(TinoFileTypes::Note));
    app.on_key_event_at(KeyInput::control('n'), T).unwrap();
    let effects = press(&mut app, KeyCode::Enter).unwrap();
    assert_eq!(
        effects,
        vec![
            Effect::CreateFile {
                directory: String::from("/n/notes"),
                file_name: String::from("hello 2024-05-17T08:30:00 - Archive.md"),
            },
            Effect::RescanDirectory,
        ]
    );
    assert_eq!(app.file_name_input().value(), "");
    assert_eq!(app.file_name_input().cursor_position(), 0);
    assert!(app.running());
    assert_eq!(app.tino_files().len(), 4);

    let fresh = reads(&["n2.md", "hello 2024-05-17T08:30:00 - Archive.md", "n1.md"]);
    assert_eq!(app.refresh_tino_files(&fresh), Ok(()));
    assert_eq!(app.tino_files().len(), 5);
    assert_eq!(
        labels(&app),
        vec![
            "TODO | t.md",
            "NOTE | n2.md",
            "NOTE | hello 2024-05-17T08:30:00 - Archive.md",
            "NOTE | n1.md",
            "ACAD. NOTE | x.md"
        ]
    );
    assert_eq!(app.tino_files().selected(), Some(0));
}

#[test]
fn commit_names_the_file_in_all_four_ways() {
    let mut app = app();
    let effects = press(&mut app, KeyCode::Enter).unwrap();
    assert_eq!(
        effects[0],
        Effect::CreateFile {
            directory: String::from("/n/todos"),
            file_name: String::from("2024-05-17T08:30:00.md"),
        }
    );
    type_text(&mut app, "  draft ");
    let effects = press(&mut app, KeyCode::Enter).unwrap();
    assert_eq!(
        effects[0],
        Effect::CreateFile {
            directory: String::from("/n/todos"),
            file_name: String::from("draft 2024-05-17T08:30:00.md"),
        }
    );
    app.category_next();
    app.type_previous();
    let effects = press(&mut app, KeyCode::Enter).unwrap();
    assert_eq!(
        effects[0],
        Effect::CreateFile {
            directory: String::from("/n/academic"),
            file_name: String::from("2024-05-17T08:30:00 - Project.md"),
        }
    );
    type_text(&mut app, "draft");
    let effects = press(&mut app, KeyCode::Enter).unwrap();
    assert_eq!(
        effects,
        vec![
            Effect::CreateFile {
                directory: String::from("/n/academic"),
                file_name: String::from("draft 2024-05-17T08:30:00 - Project.md"),
            },
            Effect::RescanDirectory
        ]
    );
}

#[test]
fn commit_without_a_selected_type_does_nothing() {
    let mut app = App::from_parts(config(), Vec::new(), Category::all(), Vec::new());
    assert_eq!(app.selected_type(), None);
    type_text(&mut app, "hello");
    assert_eq!(press(&mut app, KeyCode::Enter), Ok(Vec::new()));
    assert!(app.running());
    assert_eq!(app.file_name_input().value(), "hello");
    assert_eq!(app.active_field(), FieldId::NameInput);
    assert_eq!(app.tino_files().len(), 0);
    assert_eq!(app.on_key_event(KeyInput::plain(KeyCode::Enter)), Ok(Vec::new()));
    assert!(app.running());
    assert_eq!(app.file_name_input().value(), "hello");
}

#[test]
fn commit_without_a_selected_category_fails_and_keeps_the_text() {
    let mut app = App::from_parts(config(), TinoFileTypes::all(), Vec::new(), Vec::new());
    assert_eq!(app.selected_category(), None);
    type_text(&mut app, "hello");
    assert_eq!(press(&mut app, KeyCode::Enter), Err(TinoError::NotSelectedCategory));
    assert_eq!(app.file_name_input().value(), "hello");
    assert_eq!(app.file_name_input().cursor_position(), 5);
    assert!(app.running());
    assert_eq!(app.generate_file_name_at(T), Err(TinoError::NotSelectedCategory));
    assert_eq!(app.generate_file_name(), Err(TinoError::NotSelectedCategory));
    assert_eq!(app.create_tino_file("/n/notes", T), Err(TinoError::NotSelectedCategory));
    assert_eq!(app.file_name_input().value(), "hello");
}

#[test]
fn naming_takes_the_text_of_the_name_field() {
    let mut app = app();
    type_text(&mut app, " idea ");
    app.category_next();
    app.category_next();
    assert_eq!(
        app.generate_file_name_at(T),
        Ok(String::from("idea 2024-05-17T08:30:00 - Area.md"))
    );
    assert_eq!(app.file_name_input().value(), "");
    assert_eq!(app.generate_file_name_at(T), Ok(String::from("2024-05-17T08:30:00 - Area.md")));
}

#[test]
fn naming_by_the_clock_has_the_shape_of_a_name() {
    let mut app = app();
    type_text(&mut app, "now");
    app.category_next();
    let name = app.generate_file_name().unwrap();
    assert!(name.starts_with("now "));
    assert!(name.ends_with(" - Project.md"));
    assert_eq!(name.len(), "now ".len() + 19 + " - Project.md".len());
    assert_eq!(&name[8..9], "-");
    assert_eq!(&name[14..15], "T");
    assert_eq!(app.file_name_input().value(), "");
}

#[test]
fn commit_by_the_clock_asks_for_a_file_in_the_directory_of_the_kind() {
    let mut app = app();
    type_text(&mut app, "x");
    let effects = app.on_key_event(KeyInput::plain(KeyCode::Enter)).unwrap();
    assert_eq!(effects.len(), 2);
    match &effects[0] {
        Effect::CreateFile { directory, file_name } => {
            assert_eq!(directory, "/n/todos");
            assert!(file_name.starts_with("x "));
            assert!(file_name.ends_with(".md"));
            assert_eq!(file_name.len(), 2 + 19 + 3);
        }
        other => panic!("unexpected effect {:?}", other),
    }
    assert_eq!(effects[1], Effect::RescanDirectory);
    assert_eq!(app.file_name_input().value(), "");
}

#[test]
fn asking_for_a_file_names_the_directory_given() {
    let mut app = app();
    type_text(&mut app, "a");
    assert_eq!(
        app.create_tino_file("/elsewhere", T),
        Ok(vec![
            Effect::CreateFile {
                directory: String::from("/elsewhere"),
                file_name: String::from("a 2024-05-17T08:30:00.md"),
            },
            Effect::RescanDirectory
        ])
    );
}

#[test]
fn enter_in_the_file_list_opens_the_editor_on_exit() {
    let mut app = app();
    app.jump_to(FieldId::FileList);
    press(&mut app, KeyCode::Down).unwrap();
    assert_eq!(press(&mut app, KeyCode::Enter), Ok(vec![Effect::Quit]));
    assert!(!app.running());
    assert!(app.open_editor());
    assert_eq!(
        app.exit_effects(),
        Ok(vec![Effect::LaunchEditor { path: String::from("/n/notes/n2.md") }])
    );
}

#[test]
fn opening_the_editor_without_a_note_fails_on_exit() {
    let mut app = App::new(config(), &Vec::new()).unwrap();
    app.jump_to(FieldId::FileList);
    assert_eq!(press(&mut app, KeyCode::Enter), Ok(vec![Effect::Quit]));
    assert!(app.open_editor());
    assert_eq!(app.exit_effects(), Err(TinoError::NotSelectedTinoFile));
}

#[test]
fn enter_elsewhere_does_nothing() {
    for field in [FieldId::TypeList, FieldId::CategoryList, FieldId::Preview] {
        let mut app = app();
        app.jump_to(field);
        assert_eq!(press(&mut app, KeyCode::Enter), Ok(Vec::new()));
        assert!(app.running());
        assert!(!app.open_editor());
        assert_eq!(classify_key(field, KeyInput::plain(KeyCode::Enter)), KeyAction::Ignore);
    }
}

#[test]
fn v_in_the_file_list_asks_for_the_preview() {
    let mut app = app();
    app.jump_to(FieldId::FileList);
    press(&mut app, KeyCode::Up).unwrap();
    assert_eq!(
        press(&mut app, KeyCode::Char('v')),
        Ok(vec![Effect::LoadPreview { path: String::from("/n/academic/x.md") }])
    );
    assert_eq!(app.preview().text(), "File preview");
    assert_eq!(
        app.request_file_content(),
        Ok(vec![Effect::LoadPreview { path: String::from("/n/academic/x.md") }])
    );
}

#[test]
fn the_preview_of_no_note_is_an_error() {
    let mut app = App::new(config(), &Vec::new()).unwrap();
    app.jump_to(FieldId::FileList);
    assert_eq!(press(&mut app, KeyCode::Char('v')), Err(TinoError::NotSelectedTinoFile));
    assert_eq!(app.request_file_content(), Err(TinoError::NotSelectedTinoFile));
    assert!(app.running());
}

#[test]
fn a_loaded_text_goes_on_show_from_the_top() {
    let mut app = app();
    app.jump_to(FieldId::Preview);
    press(&mut app, KeyCode::Down).unwrap();
    press(&mut app, KeyCode::Down).unwrap();
    assert_eq!(app.show_file_content(Ok(String::from("# Note\nbody"))), Ok(()));
    assert_eq!(app.preview().text(), "# Note\nbody");
    assert_eq!(app.preview().scroll(), 0);
}

#[test]
fn a_failed_read_keeps_the_preview() {
    let mut app = app();
    app.show_file_content(Ok(String::from("shown"))).unwrap();
    app.jump_to(FieldId::Preview);
    press(&mut app, KeyCode::Down).unwrap();
    assert_eq!(
        app.show_file_content(Err(String::from("Permission denied"))),
        Err(TinoError::ReadTinoFileFailed(String::from("Permission denied")))
    );
    assert_eq!(app.preview().text(), "shown");
    assert_eq!(app.preview().scroll(), 1);
}

#[test]
fn a_failed_rescan_keeps_the_listing() {
    let mut app = app();
    app.tino_file_next();
    let mut rs = reads(&["n1.md"]);
    rs[3].outcome = Err(String::from("gone"));
    assert_eq!(
        app.refresh_tino_files(&rs),
        Err(TinoError::DirCouldNotBeReaded(String::from("/n/academic"), String::from("gone")))
    );
    assert_eq!(app.tino_files().len(), 4);
    assert_eq!(app.tino_files().selected(), Some(1));
}

#[test]
fn a_rescan_replaces_the_listing_as_a_whole() {
    let mut app = app();
    app.tino_file_previous();
    assert_eq!(app.tino_files().selected(), Some(3));
    assert_eq!(app.refresh_tino_files(&reads(&[])), Ok(()));
    assert_eq!(labels(&app), vec!["TODO | t.md", "ACAD. NOTE | x.md"]);
    assert_eq!(app.tino_files().selected(), Some(0));
    assert_eq!(app.refresh_tino_files(&Vec::new()), Ok(()));
    assert_eq!(app.tino_files().selected(), None);
    assert_eq!(
        app.tino_files().items(),
        &Vec::<NoteEntry>::new()
    );
}

#[test]
fn only_key_presses_are_handled() {
    let mut app = app();
    let key = KeyInput::plain(KeyCode::Esc);
    assert_eq!(app.handle_event(InputEvent::Other), Ok(Vec::new()));
    assert_eq!(
        app.handle_event(InputEvent::Key { key, kind: KeyEventKind::Release }),
        Ok(Vec::new())
    );
    assert_eq!(
        app.handle_event(InputEvent::Key { key, kind: KeyEventKind::Repeat }),
        Ok(Vec::new())
    );
    assert!(app.running());
    assert_eq!(
        app.handle_event(InputEvent::Key { key, kind: KeyEventKind::Press }),
        Ok(vec![Effect::Quit])
    );
    assert!(!app.running());
}

#[test]
fn quit_ends_the_event_loop() {
    let mut app = app();
    app.quit();
    assert!(!app.running());
    assert!(!app.open_editor());
    assert_eq!(press(&mut app, KeyCode::Tab), Ok(Vec::new()));
    assert!(!app.running());
}

#[test]
fn keys_are_classified_in_the_order_of_the_rules() {
    let ctrl_j = KeyInput { code: KeyCode::Char('j'), modifiers: CONTROL };
    assert_eq!(classify_key(FieldId::TypeList, ctrl_j), KeyAction::SelectNext);
    assert_eq!(classify_key(FieldId::Preview, ctrl_j), KeyAction::ScrollDown);
    assert_eq!(classify_key(FieldId::NameInput, ctrl_j), KeyAction::Edit(EditKey::Char('j')));
    let ctrl_l = KeyInput::control('l');
    for field in 0..5 {
        let field = FieldId::from_index(field).unwrap();
        assert_eq!(classify_key(field, ctrl_l), KeyAction::JumpTo(FieldId::FileList));
        let esc = KeyInput { code: KeyCode::Esc, modifiers: SHIFT };
        assert_eq!(classify_key(field, esc), KeyAction::Quit);
        let tab = KeyInput { code: KeyCode::Tab, modifiers: ALT };
        assert_eq!(classify_key(field, tab), KeyAction::CycleFocus);
    }
    let shift_enter = KeyInput { code: KeyCode::Enter, modifiers: SHIFT };
    assert_eq!(classify_key(FieldId::NameInput, shift_enter), KeyAction::Commit);
    assert_eq!(classify_key(FieldId::FileList, shift_enter), KeyAction::OpenEditor);
    let v = KeyInput { code: KeyCode::Char('v'), modifiers: NO_MODIFIERS };
    assert_eq!(classify_key(FieldId::FileList, v), KeyAction::Preview);
    assert_eq!(classify_key(FieldId::TypeList, v), KeyAction::Ignore);
    assert_eq!(classify_key(FieldId::NameInput, v), KeyAction::Edit(EditKey::Char('v')));
    assert_eq!(classify_key(FieldId::NameInput, KeyInput::plain(KeyCode::Up)), KeyAction::Ignore);
    assert_eq!(
        classify_key(FieldId::FileList, KeyInput::plain(KeyCode::Up)),
        KeyAction::SelectPrevious
    );
    assert_eq!(
        classify_key(FieldId::Preview, KeyInput::plain(KeyCode::Char('k'))),
        KeyAction::ScrollUp
    );
}
