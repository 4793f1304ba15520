//! The application's state and what each key does to it.
//!
//! The state changes in one place only, the handling of an input event.
//! What has to happen outside (a file created, the directories read again,
//! a note read for the preview, the editor started) is handed back as a
//! list of effects, and what came of it is handed in again.

use crate::config::ConfigFile;
use crate::error::{same_outcome, TinoError, TinoErrorView};
use crate::focus::FieldId;
use crate::keys::{
    EditKey, InputEvent, KeyCode, KeyEventKind, KeyInput, CONTROL, NO_MODIFIERS, SHIFT,
};
use crate::listing::{
    entries_view, get_tino_files, listing, DirRead, NoteEntry, NoteEntryView,
};
use crate::naming::{file_name, generate, timestamp_now, trimmed};
use crate::notes::{Category, TinoFileTypes};
use crate::preview::{scrolled_down, scrolled_up, PreviewState};
use crate::selection::{
    list_next, list_previous, next_selection, previous_selection, selection_after_replace,
    valid_selection, SelectableList,
};
use crate::text_input::{edited, TextInputState};
use vstd::prelude::*;

verus! {

/// Something that has to happen outside the state.
#[derive(Debug, PartialEq, Eq)]
pub enum Effect {
    /// Create an empty file named `file_name` in `directory`.
    CreateFile { directory: String, file_name: String },
    /// Read the note directories again and hand in what was found.
    RescanDirectory,
    /// Read the note at `path` and hand in its text.
    LoadPreview { path: String },
    /// Start the editor on the note at `path`.
    LaunchEditor { path: String },
    /// Leave the event loop.
    Quit,
}

/// The mathematical value of an [`Effect`].
pub ghost enum EffectView {
    CreateFile { directory: Seq<char>, file_name: Seq<char> },
    RescanDirectory,
    LoadPreview { path: Seq<char> },
    LaunchEditor { path: Seq<char> },
    Quit,
}

impl View for Effect {
    type V = EffectView;

    open spec fn view(&self) -> EffectView {
        match self {
            Effect::CreateFile { directory, file_name } => EffectView::CreateFile {
                directory: directory@,
                file_name: file_name@,
            },
            Effect::RescanDirectory => EffectView::RescanDirectory,
            Effect::LoadPreview { path } => EffectView::LoadPreview { path: path@ },
            Effect::LaunchEditor { path } => EffectView::LaunchEditor { path: path@ },
            Effect::Quit => EffectView::Quit,
        }
    }
}

/// The effects as mathematical values.
pub open spec fn effects_view(effects: Seq<Effect>) -> Seq<EffectView> {
    Seq::new(effects.len(), |i: int| effects[i]@)
}

/// What handling an event gave, as a mathematical value.
pub open spec fn outcome_view(result: Result<Vec<Effect>, TinoError>) -> Result<
    Seq<EffectView>,
    TinoErrorView,
> {
    match result {
        Ok(effects) => Ok(effects_view(effects@)),
        Err(e) => Err(e@),
    }
}

/// No effect and no error.
pub open spec fn nothing_to_do() -> Result<Seq<EffectView>, TinoErrorView> {
    Ok(Seq::empty())
}

/// What a key asks for, given the field that has the focus.
#[derive(Clone, Copy, Debug, PartialEq, Eq, Structural)]
pub enum KeyAction {
    Quit,
    CycleFocus,
    JumpTo(FieldId),
    SelectNext,
    SelectPrevious,
    ScrollDown,
    ScrollUp,
    OpenEditor,
    Commit,
    Preview,
    Edit(EditKey),
    Ignore,
}

/// Whether `code` moves down: the arrow, or `j`.
pub open spec fn moves_down(code: KeyCode) -> bool {
    code == KeyCode::Down || code == KeyCode::Char('j')
}

/// Whether `code` moves up: the arrow, or `k`.
pub open spec fn moves_up(code: KeyCode) -> bool {
    code == KeyCode::Up || code == KeyCode::Char('k')
}

/// Whether `field` is one of the three lists.
pub open spec fn is_list(field: FieldId) -> bool {
    field == FieldId::TypeList || field == FieldId::CategoryList || field == FieldId::FileList
}

/// The field that control with the character `c` gives the focus to.
pub open spec fn hotkey_field(c: char) -> Option<FieldId> {
    if c == 'n' {
        Some(FieldId::NameInput)
    } else if c == 't' {
        Some(FieldId::TypeList)
    } else if c == 'c' {
        Some(FieldId::CategoryList)
    } else if c == 'l' {
        Some(FieldId::FileList)
    } else if c == 'p' {
        Some(FieldId::Preview)
    } else {
        None
    }
}

/// Whether `key` is a hotkey: control alone with one of the five
/// characters.
pub open spec fn is_hotkey(key: KeyInput) -> bool {
    key.modifiers == CONTROL && (key.code matches KeyCode::Char(c) && hotkey_field(c) is Some)
}

/// What `key` asks for while `active_field` has the focus. The rules
/// apply in this order, the first that fits decides:
/// escape quits; tab moves the focus on; a hotkey gives its field the
/// focus; down and up move the selection in a list, and scroll the preview;
/// enter opens the selected note from the file list, and commits the name
/// from the name field; `v` in the file list asks for the preview; any
/// other key goes to the line editor while the name field has the focus,
/// if the editor knows it; and is ignored else.
pub open spec fn key_action(active_field: FieldId, key: KeyInput) -> KeyAction {
    if key.code == KeyCode::Esc {
        KeyAction::Quit
    } else if key.code == KeyCode::Tab {
        KeyAction::CycleFocus
    } else if is_hotkey(key) {
        KeyAction::JumpTo(hotkey_field(key.code->Char_0)->0)
    } else if moves_down(key.code) && is_list(active_field) {
        KeyAction::SelectNext
    } else if moves_up(key.code) && is_list(active_field) {
        KeyAction::SelectPrevious
    } else if moves_down(key.code) && active_field == FieldId::Preview {
        KeyAction::ScrollDown
    } else if moves_up(key.code) && active_field == FieldId::Preview {
        KeyAction::ScrollUp
    } else if key.code == KeyCode::Enter && active_field == FieldId::FileList {
        KeyAction::OpenEditor
    } else if key.code == KeyCode::Enter && active_field == FieldId::NameInput {
        KeyAction::Commit
    } else if key.code == KeyCode::Char('v') && active_field == FieldId::FileList {
        KeyAction::Preview
    } else if active_field == FieldId::NameInput {
        match key.code.edit_key_of() {
            Some(edit_key) => KeyAction::Edit(edit_key),
            None => KeyAction::Ignore,
        }
    } else {
        KeyAction::Ignore
    }
}

/// The state of the application as a mathematical value.
pub ghost struct AppView {
    pub running: bool,
    pub active_field: FieldId,
    pub open_editor: bool,
    pub config_file: ConfigFile,
    pub input_text: Seq<char>,
    pub input_cursor: nat,
    pub types: Seq<TinoFileTypes>,
    pub selected_type: Option<int>,
    pub categories: Seq<Category>,
    pub selected_category: Option<int>,
    pub tino_files: Seq<NoteEntryView>,
    pub selected_tino_file: Option<int>,
    pub preview_text: Seq<char>,
    pub scroll: nat,
}

impl AppView {
    /// Whether each list has a valid selection and the cursor is within
    /// the text. Every state of an [`App`] is so.
    pub open spec fn well_formed(self) -> bool {
        &&& valid_selection(self.types.len(), self.selected_type)
        &&& valid_selection(self.categories.len(), self.selected_category)
        &&& valid_selection(self.tino_files.len(), self.selected_tino_file)
        &&& self.input_cursor <= self.input_text.len()
        &&& self.scroll <= u16::MAX
    }

    /// The selected kind of note.
    pub open spec fn type_selected(self) -> Option<TinoFileTypes> {
        match self.selected_type {
            Some(i) => Some(self.types[i]),
            None => None,
        }
    }

    /// The name of the selected category.
    pub open spec fn category_selected(self) -> Option<Seq<char>> {
        match self.selected_category {
            Some(i) => Some(self.categories[i].name_text()),
            None => None,
        }
    }

    /// The path of the selected note.
    pub open spec fn tino_file_selected(self) -> Option<Seq<char>> {
        match self.selected_tino_file {
            Some(i) => Some(self.tino_files[i].absolute_path),
            None => None,
        }
    }

    /// The state with the name field emptied.
    pub open spec fn with_input_taken(self) -> AppView {
        AppView { input_text: Seq::empty(), input_cursor: 0, ..self }
    }

    /// The state with the selection of the focused list moved by `step`.
    pub open spec fn with_selection_moved(
        self,
        step: spec_fn(nat, Option<int>) -> Option<int>,
    ) -> AppView {
        match self.active_field {
            FieldId::TypeList => AppView {
                selected_type: step(self.types.len(), self.selected_type),
                ..self
            },
            FieldId::CategoryList => AppView {
                selected_category: step(self.categories.len(), self.selected_category),
                ..self
            },
            FieldId::FileList => AppView {
                selected_tino_file: step(self.tino_files.len(), self.selected_tino_file),
                ..self
            },
            _ => self,
        }
    }
}

/// What naming a note does: with a category selected, the name field is
/// emptied and its text, trimmed, enters the name; with none, the state
/// stays and the error is [`TinoError::NotSelectedCategory`].
pub open spec fn name_generated(state: AppView, timestamp: Seq<char>) -> (
    AppView,
    Result<Seq<char>, TinoErrorView>,
) {
    match state.category_selected() {
        Some(category) => (
            state.with_input_taken(),
            Ok(file_name(trimmed(state.input_text), category, timestamp)),
        ),
        None => (state, Err(TinoErrorView::NotSelectedCategory)),
    }
}

/// What asking for a new note in `directory` does: the note is named and
/// two effects ask for the file and for a fresh listing; or the naming
/// fails and nothing changes.
pub open spec fn file_requested(state: AppView, directory: Seq<char>, timestamp: Seq<char>) -> (
    AppView,
    Result<Seq<EffectView>, TinoErrorView>,
) {
    match name_generated(state, timestamp).1 {
        Ok(name) => (
            name_generated(state, timestamp).0,
            Ok(
                seq![
                    EffectView::CreateFile { directory, file_name: name },
                    EffectView::RescanDirectory,
                ],
            ),
        ),
        Err(e) => (state, Err(e)),
    }
}

/// What committing the name field does: nothing while no kind of note is
/// selected; else a note is asked for in the directory of the selected
/// kind.
pub open spec fn committed(state: AppView, timestamp: Seq<char>) -> (
    AppView,
    Result<Seq<EffectView>, TinoErrorView>,
) {
    match state.type_selected() {
        Some(kind) => file_requested(
            state,
            state.config_file.tino_dirs.directory_of(kind),
            timestamp,
        ),
        None => (state, nothing_to_do()),
    }
}

/// What asking for the preview does: an effect asks for the text of the
/// selected note; without a selected note it is an error.
pub open spec fn preview_requested(state: AppView) -> Result<Seq<EffectView>, TinoErrorView> {
    match state.tino_file_selected() {
        Some(path) => Ok(seq![EffectView::LoadPreview { path }]),
        None => Err(TinoErrorView::NotSelectedTinoFile),
    }
}

/// The state and the outcome after `action`, for every action but an
/// edit, whose outcome is the line editor's.
pub open spec fn after_action(state: AppView, action: KeyAction, timestamp: Seq<char>) -> (
    AppView,
    Result<Seq<EffectView>, TinoErrorView>,
) {
    match action {
        KeyAction::Quit => (AppView { running: false, ..state }, Ok(seq![EffectView::Quit])),
        KeyAction::CycleFocus => (
            AppView { active_field: state.active_field.successor_of(), ..state },
            nothing_to_do(),
        ),
        KeyAction::JumpTo(field) => (AppView { active_field: field, ..state }, nothing_to_do()),
        KeyAction::SelectNext => (
            state.with_selection_moved(
                |len: nat, selected: Option<int>| next_selection(len, selected),
            ),
            nothing_to_do(),
        ),
        KeyAction::SelectPrevious => (
            state.with_selection_moved(
                |len: nat, selected: Option<int>| previous_selection(len, selected),
            ),
            nothing_to_do(),
        ),
        KeyAction::ScrollDown => (
            AppView { scroll: scrolled_down(state.scroll), ..state },
            nothing_to_do(),
        ),
        KeyAction::ScrollUp => (
            AppView { scroll: scrolled_up(state.scroll), ..state },
            nothing_to_do(),
        ),
        KeyAction::OpenEditor => (
            AppView { open_editor: true, running: false, ..state },
            Ok(seq![EffectView::Quit]),
        ),
        KeyAction::Commit => committed(state, timestamp),
        KeyAction::Preview => (state, preview_requested(state)),
        KeyAction::Edit(_) => (state, nothing_to_do()),
        KeyAction::Ignore => (state, nothing_to_do()),
    }
}

/// Whether the press of `key` at the time `timestamp` can take the state
/// `before` to the state `after` with `outcome`. But for an edit, state
/// and outcome are determined; an edit changes the name field only, as
/// [`edited`] says.
pub open spec fn transition(
    before: AppView,
    key: KeyInput,
    timestamp: Seq<char>,
    after: AppView,
    outcome: Result<Seq<EffectView>, TinoErrorView>,
) -> bool {
    match key_action(before.active_field, key) {
        KeyAction::Edit(edit_key) => {
            &&& outcome == nothing_to_do()
            &&& after == AppView {
                input_text: after.input_text,
                input_cursor: after.input_cursor,
                ..before
            }
            &&& edited(
                before.input_text,
                before.input_cursor,
                edit_key,
                key.modifiers,
                after.input_text,
                after.input_cursor,
            )
        },
        action => (after, outcome) == after_action(before, action, timestamp),
    }
}

/// What has to happen when the event loop has ended: the editor is started
/// on the selected note where that was asked for, which is an error where
/// no note is selected then.
pub open spec fn exit_outcome(state: AppView) -> Result<Seq<EffectView>, TinoErrorView> {
    if state.open_editor {
        match state.tino_file_selected() {
            Some(path) => Ok(seq![EffectView::LaunchEditor { path }]),
            None => Err(TinoErrorView::NotSelectedTinoFile),
        }
    } else {
        nothing_to_do()
    }
}

/// The state in which the application starts.
pub open spec fn initial_view(config_file: ConfigFile, tino_files: Seq<NoteEntryView>) -> AppView {
    AppView {
        running: true,
        active_field: FieldId::NameInput,
        open_editor: false,
        config_file,
        input_text: Seq::empty(),
        input_cursor: 0,
        types: TinoFileTypes::all_kinds(),
        selected_type: Some(0),
        categories: Category::all_categories(),
        selected_category: Some(0),
        tino_files,
        selected_tino_file: if tino_files.len() == 0 {
            None
        } else {
            Some(0)
        },
        preview_text: "File preview"@,
        scroll: 0,
    }
}

/// The application: the form, the listing of notes and the preview.
pub struct App {
    running: bool,
    active_field: FieldId,
    open_editor: bool,
    config_file: ConfigFile,
    file_name_input: TextInputState,
    type_selector: SelectableList<TinoFileTypes>,
    category_selector: SelectableList<Category>,
    tino_files: SelectableList<NoteEntry>,
    preview: PreviewState,
}

impl View for App {
    type V = AppView;

    closed spec fn view(&self) -> AppView {
        AppView {
            running: self.running,
            active_field: self.active_field,
            open_editor: self.open_editor,
            config_file: self.config_file,
            input_text: self.file_name_input.text(),
            input_cursor: self.file_name_input.cursor(),
            types: self.type_selector.items_view(),
            selected_type: self.type_selector.selected_view(),
            categories: self.category_selector.items_view(),
            selected_category: self.category_selector.selected_view(),
            tino_files: entries_view(self.tino_files.items_view()),
            selected_tino_file: self.tino_files.selected_view(),
            preview_text: self.preview.text_view(),
            scroll: self.preview.scroll_view(),
        }
    }
}

/// The text of an optional string slice.
pub open spec fn text_of_str(s: Option<&str>) -> Option<Seq<char>> {
    match s {
        Some(s) => Some(s@),
        None => None,
    }
}

/// The selection of a fresh list of `len` items: the first item, if any.
pub open spec fn first_selected(len: nat) -> Option<int> {
    if len == 0 {
        None
    } else {
        Some(0)
    }
}

/// The field that control with the character `c` gives the focus to.
pub fn hotkey(c: char) -> (field: Option<FieldId>)
    ensures
        field == hotkey_field(c),
{
    if c == 'n' {
        Some(FieldId::NameInput)
    } else if c == 't' {
        Some(FieldId::TypeList)
    } else if c == 'c' {
        Some(FieldId::CategoryList)
    } else if c == 'l' {
        Some(FieldId::FileList)
    } else if c == 'p' {
        Some(FieldId::Preview)
    } else {
        None
    }
}

/// What `key` asks for while `active_field` has the focus.
pub fn classify_key(active_field: FieldId, key: KeyInput) -> (action: KeyAction)
    ensures
        action == key_action(active_field, key),
{
    match key.code {
        KeyCode::Esc => {
            return KeyAction::Quit;
        },
        KeyCode::Tab => {
            return KeyAction::CycleFocus;
        },
        KeyCode::Char(c) => {
            if key.modifiers == CONTROL {
                match hotkey(c) {
                    Some(field) => {
                        return KeyAction::JumpTo(field);
                    },
                    None => {},
                }
            }
        },
        _ => {},
    }
    let down = match key.code {
        KeyCode::Down => true,
        KeyCode::Char(c) => c == 'j',
        _ => false,
    };
    let up = match key.code {
        KeyCode::Up => true,
        KeyCode::Char(c) => c == 'k',
        _ => false,
    };
    let enter = match key.code {
        KeyCode::Enter => true,
        _ => false,
    };
    let preview = match key.code {
        KeyCode::Char(c) => c == 'v',
        _ => false,
    };
    match active_field {
        FieldId::NameInput => {
            if enter {
                KeyAction::Commit
            } else {
                match key.code.edit_key() {
                    Some(edit_key) => KeyAction::Edit(edit_key),
                    None => KeyAction::Ignore,
                }
            }
        },
        FieldId::TypeList | FieldId::CategoryList => {
            if down {
                KeyAction::SelectNext
            } else if up {
                KeyAction::SelectPrevious
            } else {
                KeyAction::Ignore
            }
        },
        FieldId::FileList => {
            if down {
                KeyAction::SelectNext
            } else if up {
                KeyAction::SelectPrevious
            } else if enter {
                KeyAction::OpenEditor
            } else if preview {
                KeyAction::Preview
            } else {
                KeyAction::Ignore
            }
        },
        FieldId::Preview => {
            if down {
                KeyAction::ScrollDown
            } else if up {
                KeyAction::ScrollUp
            } else {
                KeyAction::Ignore
            }
        },
    }
}

impl App {
    /// The application as it starts, with the listing that `reads` give.
    /// Where a read failed the application does not start.
    pub fn new(config_file: ConfigFile, reads: &Vec<DirRead>) -> (result: Result<App, TinoError>)
        ensures
            match result {
                Ok(app) => listing(reads@) == Ok::<Seq<NoteEntryView>, TinoErrorView>(
                    app@.tino_files,
                ) && app@ == initial_view(config_file, app@.tino_files),
                Err(e) => listing(reads@) == Err::<Seq<NoteEntryView>, TinoErrorView>(e@),
            },
    {
        match get_tino_files(reads) {
            Ok(tino_files) => Ok(
                Self::from_parts(config_file, TinoFileTypes::all(), Category::all(), tino_files),
            ),
            Err(e) => Err(e),
        }
    }

    /// The application as it starts, with the given kinds and categories
    /// on offer and the given listing.
    pub fn from_parts(
        config_file: ConfigFile,
        types: Vec<TinoFileTypes>,
        categories: Vec<Category>,
        tino_files: Vec<NoteEntry>,
    ) -> (app: App)
        ensures
            app@ == (AppView {
                types: types@,
                selected_type: first_selected(types@.len()),
                categories: categories@,
                selected_category: first_selected(categories@.len()),
                ..initial_view(config_file, entries_view(tino_files@))
            }),
    {
        App {
            running: true,
            active_field: FieldId::NameInput,
            open_editor: false,
            config_file,
            file_name_input: TextInputState::new(),
            type_selector: SelectableList::new(types),
            category_selector: SelectableList::new(categories),
            tino_files: SelectableList::new(tino_files),
            preview: PreviewState::new(String::from_str("File preview")),
        }
    }

    /// Whether the event loop goes on.
    pub fn running(&self) -> (running: bool)
        ensures
            running == self@.running,
    {
        self.running
    }

    /// The field that has the focus.
    pub fn active_field(&self) -> (field: FieldId)
        ensures
            field == self@.active_field,
    {
        self.active_field
    }

    /// Whether the editor is to be started when the event loop has ended.
    pub fn open_editor(&self) -> (open: bool)
        ensures
            open == self@.open_editor,
    {
        self.open_editor
    }

    /// The settings.
    pub fn config_file(&self) -> (config_file: &ConfigFile)
        ensures
            *config_file == self@.config_file,
    {
        &self.config_file
    }

    /// The name field.
    pub fn file_name_input(&self) -> (input: &TextInputState)
        ensures
            input.text() == self@.input_text,
            input.cursor() == self@.input_cursor,
    {
        &self.file_name_input
    }

    /// The list of kinds.
    pub fn type_selector(&self) -> (list: &SelectableList<TinoFileTypes>)
        ensures
            list.items_view() == self@.types,
            list.selected_view() == self@.selected_type,
    {
        &self.type_selector
    }

    /// The list of categories.
    pub fn category_selector(&self) -> (list: &SelectableList<Category>)
        ensures
            list.items_view() == self@.categories,
            list.selected_view() == self@.selected_category,
    {
        &self.category_selector
    }

    /// The listing of notes.
    pub fn tino_files(&self) -> (list: &SelectableList<NoteEntry>)
        ensures
            entries_view(list.items_view()) == self@.tino_files,
            list.selected_view() == self@.selected_tino_file,
    {
        &self.tino_files
    }

    /// The preview pane.
    pub fn preview(&self) -> (preview: &PreviewState)
        ensures
            preview.text_view() == self@.preview_text,
            preview.scroll_view() == self@.scroll,
    {
        &self.preview
    }

    /// Shows that the state is well formed, as every state is: each list has
    /// a valid selection and the cursor is within the text.
    pub fn state_is_well_formed(&self)
        ensures
            self@.well_formed(),
    {
        self.type_selector.selected();
        self.category_selector.selected();
        self.tino_files.selected();
        self.file_name_input.cursor_position();
        self.preview.scroll();
        assert(entries_view(self.tino_files.items_view()).len()
            == self.tino_files.items_view().len());
    }

    /// Ends the event loop.
    pub fn quit(&mut self)
        ensures
            final(self)@ == (AppView { running: false, ..old(self)@ }),
    {
        self.running = false;
    }

    /// Gives `field` the focus.
    pub fn jump_to(&mut self, field: FieldId)
        ensures
            final(self)@ == (AppView { active_field: field, ..old(self)@ }),
    {
        self.active_field = field;
    }

    /// The selected kind of note.
    pub fn selected_type(&self) -> (kind: Option<TinoFileTypes>)
        ensures
            kind == self@.type_selected(),
    {
        match self.type_selector.selected_item() {
            Some(kind) => Some(*kind),
            None => None,
        }
    }

    /// The name of the selected category.
    pub fn selected_category(&self) -> (name: Option<&'static str>)
        ensures
            text_of_str(name) == self@.category_selected(),
    {
        match self.category_selector.selected_item() {
            Some(category) => Some(category.name()),
            None => None,
        }
    }

    /// The path of the selected note.
    pub fn selected_tino_file(&self) -> (path: Option<&str>)
        ensures
            text_of_str(path) == self@.tino_file_selected(),
    {
        match self.tino_files.selected_item() {
            Some(entry) => Some(entry.absolute_path()),
            None => None,
        }
    }

    /// Selects the next kind.
    pub fn type_next(&mut self)
        ensures
            final(self)@ == (AppView {
                selected_type: next_selection(old(self)@.types.len(), old(self)@.selected_type),
                ..old(self)@
            }),
    {
        list_next(&mut self.type_selector);
    }

    /// Selects the kind before.
    pub fn type_previous(&mut self)
        ensures
            final(self)@ == (AppView {
                selected_type: previous_selection(
                    old(self)@.types.len(),
                    old(self)@.selected_type,
                ),
                ..old(self)@
            }),
    {
        list_previous(&mut self.type_selector);
    }

    /// Selects the next category.
    pub fn category_next(&mut self)
        ensures
            final(self)@ == (AppView {
                selected_category: next_selection(
                    old(self)@.categories.len(),
                    old(self)@.selected_category,
                ),
                ..old(self)@
            }),
    {
        list_next(&mut self.category_selector);
    }

    /// Selects the category before.
    pub fn category_previous(&mut self)
        ensures
            final(self)@ == (AppView {
                selected_category: previous_selection(
                    old(self)@.categories.len(),
                    old(self)@.selected_category,
                ),
                ..old(self)@
            }),
    {
        list_previous(&mut self.category_selector);
    }

    /// Selects the next note.
    pub fn tino_file_next(&mut self)
        ensures
            final(self)@ == (AppView {
                selected_tino_file: next_selection(
                    old(self)@.tino_files.len(),
                    old(self)@.selected_tino_file,
                ),
                ..old(self)@
            }),
    {
        list_next(&mut self.tino_files);
    }

    /// Selects the note before.
    pub fn tino_file_previous(&mut self)
        ensures
            final(self)@ == (AppView {
                selected_tino_file: previous_selection(
                    old(self)@.tino_files.len(),
                    old(self)@.selected_tino_file,
                ),
                ..old(self)@
            }),
    {
        list_previous(&mut self.tino_files);
    }

    /// Names a new note at the time `timestamp`: takes the text of the
    /// name field, which is left empty, and puts the name together. Without
    /// a selected category nothing is taken and the naming fails.
    pub fn generate_file_name_at(&mut self, timestamp: &str) -> (result: Result<String, TinoError>)
        ensures
            final(self)@ == name_generated(old(self)@, timestamp@).0,
            same_outcome(result, name_generated(old(self)@, timestamp@).1),
    {
        match self.selected_category() {
            Some(category) => {
                let user_input = self.file_name_input.value_and_reset();
                generate(user_input.as_str(), Some(category), timestamp)
            },
            None => Err(TinoError::NotSelectedCategory),
        }
    }

    /// Names a new note at the current time. The clock decides the
    /// timestamp; all else is as [`App::generate_file_name_at`] says.
    pub fn generate_file_name(&mut self) -> (result: Result<String, TinoError>)
        ensures
            exists|timestamp: Seq<char>|
                final(self)@ == (#[trigger] name_generated(old(self)@, timestamp)).0
                    && same_outcome(result, name_generated(old(self)@, timestamp).1),
    {
        let timestamp = timestamp_now();
        self.generate_file_name_at(timestamp.as_str())
    }

    /// Asks for a new note in `tino_dir`, named at the time `timestamp`:
    /// the effects ask for the file and then for a fresh listing. Where the
    /// naming fails nothing is asked for and nothing changes.
    pub fn create_tino_file(&mut self, tino_dir: &str, timestamp: &str) -> (result: Result<
        Vec<Effect>,
        TinoError,
    >)
        ensures
            final(self)@ == file_requested(old(self)@, tino_dir@, timestamp@).0,
            outcome_view(result) == file_requested(old(self)@, tino_dir@, timestamp@).1,
    {
        match self.generate_file_name_at(timestamp) {
            Ok(file_name) => {
                let mut effects: Vec<Effect> = Vec::new();
                effects.push(
                    Effect::CreateFile { directory: String::from_str(tino_dir), file_name },
                );
                effects.push(Effect::RescanDirectory);
                assert(effects_view(effects@) =~= seq![
                    EffectView::CreateFile { directory: tino_dir@, file_name: file_name@ },
                    EffectView::RescanDirectory,
                ]);
                Ok(effects)
            },
            Err(e) => Err(e),
        }
    }

    /// Asks for the text of the selected note, to show it in the preview.
    /// Without a selected note it is an error.
    pub fn request_file_content(&self) -> (result: Result<Vec<Effect>, TinoError>)
        ensures
            outcome_view(result) == preview_requested(self@),
    {
        match self.selected_tino_file() {
            Some(path) => {
                let mut effects: Vec<Effect> = Vec::new();
                effects.push(Effect::LoadPreview { path: String::from_str(path) });
                assert(effects_view(effects@) =~= seq![EffectView::LoadPreview { path: path@ }]);
                Ok(effects)
            },
            None => Err(TinoError::NotSelectedTinoFile),
        }
    }

    /// Takes what reading a note gave: its text goes on show in the
    /// preview, from the first line; the cause of a failure becomes an
    /// error and the preview stays.
    pub fn show_file_content(&mut self, content: Result<String, String>) -> (result: Result<
        (),
        TinoError,
    >)
        ensures
            match content {
                Ok(text) => result is Ok && final(self)@ == (AppView {
                    preview_text: text@,
                    scroll: 0,
                    ..old(self)@
                }),
                Err(cause) => result matches Err(e) && e@ == TinoErrorView::ReadTinoFileFailed(
                    cause@,
                ) && final(self)@ == old(self)@,
            },
    {
        match content {
            Ok(text) => {
                self.preview.show(text);
                Ok(())
            },
            Err(cause) => Err(TinoError::ReadTinoFileFailed(cause)),
        }
    }

    /// Takes what reading the note directories gave: the listing is
    /// replaced as a whole, and the selected index stays where it still
    /// names a note. Where a read failed the listing stays as it was.
    pub fn refresh_tino_files(&mut self, reads: &Vec<DirRead>) -> (result: Result<(), TinoError>)
        ensures
            match listing(reads@) {
                Ok(entries) => result is Ok && final(self)@ == (AppView {
                    tino_files: entries,
                    selected_tino_file: selection_after_replace(
                        entries.len(),
                        old(self)@.selected_tino_file,
                    ),
                    ..old(self)@
                }),
                Err(error) => result matches Err(e) && e@ == error && final(self)@ == old(self)@,
            },
    {
        match get_tino_files(reads) {
            Ok(tino_files) => {
                self.tino_files.replace_items(tino_files);
                Ok(())
            },
            Err(e) => Err(e),
        }
    }

    /// Handles the press of `key` at the time `timestamp`.
    pub fn on_key_event_at(&mut self, key: KeyInput, timestamp: &str) -> (result: Result<
        Vec<Effect>,
        TinoError,
    >)
        ensures
            transition(old(self)@, key, timestamp@, final(self)@, outcome_view(result)),
    {
        match classify_key(self.active_field, key) {
            KeyAction::Quit => {
                self.quit();
                Ok(Self::quit_effect())
            },
            KeyAction::CycleFocus => {
                self.active_field = self.active_field.successor();
                Ok(Self::no_effect())
            },
            KeyAction::JumpTo(field) => {
                self.jump_to(field);
                Ok(Self::no_effect())
            },
            KeyAction::SelectNext => {
                match self.active_field {
                    FieldId::TypeList => self.type_next(),
                    FieldId::CategoryList => self.category_next(),
                    FieldId::FileList => self.tino_file_next(),
                    _ => {},
                }
                Ok(Self::no_effect())
            },
            KeyAction::SelectPrevious => {
                match self.active_field {
                    FieldId::TypeList => self.type_previous(),
                    FieldId::CategoryList => self.category_previous(),
                    FieldId::FileList => self.tino_file_previous(),
                    _ => {},
                }
                Ok(Self::no_effect())
            },
            KeyAction::ScrollDown => {
                self.preview.scroll_down();
                Ok(Self::no_effect())
            },
            KeyAction::ScrollUp => {
                self.preview.scroll_up();
                Ok(Self::no_effect())
            },
            KeyAction::OpenEditor => {
                self.open_editor = true;
                self.running = false;
                Ok(Self::quit_effect())
            },
            KeyAction::Commit => {
                match self.selected_type() {
                    Some(kind) => {
                        let tino_dir = String::from_str(self.config_file.tino_dirs.directory(kind));
                        self.create_tino_file(tino_dir.as_str(), timestamp)
                    },
                    None => Ok(Self::no_effect()),
                }
            },
            KeyAction::Preview => self.request_file_content(),
            KeyAction::Edit(edit_key) => {
                self.file_name_input.handle_key(edit_key, key.modifiers);
                Ok(Self::no_effect())
            },
            KeyAction::Ignore => Ok(Self::no_effect()),
        }
    }

    /// Handles the press of `key` now. Where the key commits the name
    /// field, the clock decides the timestamp; all else is as
    /// [`App::on_key_event_at`] says.
    pub fn on_key_event(&mut self, key: KeyInput) -> (result: Result<Vec<Effect>, TinoError>)
        ensures
            exists|timestamp: Seq<char>| #[trigger]
                transition(old(self)@, key, timestamp, final(self)@, outcome_view(result)),
    {
        let timestamp = match classify_key(self.active_field, key) {
            KeyAction::Commit => timestamp_now(),
            _ => String::new(),
        };
        self.on_key_event_at(key, timestamp.as_str())
    }

    /// Handles what the terminal reports: the press of a key as
    /// [`App::on_key_event`] says; anything else changes nothing.
    pub fn handle_event(&mut self, event: InputEvent) -> (result: Result<Vec<Effect>, TinoError>)
        ensures
            match event {
                InputEvent::Key { key, kind: KeyEventKind::Press } => exists|timestamp: Seq<char>|
                 #[trigger]
                    transition(old(self)@, key, timestamp, final(self)@, outcome_view(result)),
                _ => final(self)@ == old(self)@ && outcome_view(result) == nothing_to_do(),
            },
    {
        match event {
            InputEvent::Key { key, kind: KeyEventKind::Press } => self.on_key_event(key),
            _ => Ok(Self::no_effect()),
        }
    }

    /// What has to happen when the event loop has ended.
    pub fn exit_effects(&self) -> (result: Result<Vec<Effect>, TinoError>)
        ensures
            outcome_view(result) == exit_outcome(self@),
    {
        if self.open_editor {
            match self.selected_tino_file() {
                Some(path) => {
                    let mut effects: Vec<Effect> = Vec::new();
                    effects.push(Effect::LaunchEditor { path: String::from_str(path) });
                    assert(effects_view(effects@) =~= seq![
                        EffectView::LaunchEditor { path: path@ },
                    ]);
                    Ok(effects)
                },
                None => Err(TinoError::NotSelectedTinoFile),
            }
        } else {
            Ok(Self::no_effect())
        }
    }

    fn no_effect() -> (effects: Vec<Effect>)
        ensures
            effects_view(effects@) == Seq::<EffectView>::empty(),
    {
        let effects: Vec<Effect> = Vec::new();
        effects
    }

    fn quit_effect() -> (effects: Vec<Effect>)
        ensures
            effects_view(effects@) == seq![EffectView::Quit],
    {
        let mut effects: Vec<Effect> = Vec::new();
        effects.push(Effect::Quit);
        effects
    }
}

/// Every key leaves a well-formed state well formed.
pub proof fn lemma_transition_keeps_well_formed(
    before: AppView,
    key: KeyInput,
    timestamp: Seq<char>,
    after: AppView,
    outcome: Result<Seq<EffectView>, TinoErrorView>,
)
    requires
        before.well_formed(),
        transition(before, key, timestamp, after, outcome),
    ensures
        after.well_formed(),
{
}

/// Committing the name field while no kind of note is selected does
/// nothing: the state stays as it is, the event loop goes on as before, and
/// nothing is asked for.
pub proof fn lemma_commit_without_type_does_nothing(
    before: AppView,
    key: KeyInput,
    timestamp: Seq<char>,
    after: AppView,
    outcome: Result<Seq<EffectView>, TinoErrorView>,
)
    requires
        key_action(before.active_field, key) == KeyAction::Commit,
        before.selected_type is None,
        transition(before, key, timestamp, after, outcome),
    ensures
        after == before,
        outcome == nothing_to_do(),
{
}

/// Committing the name field with a kind and a category selected asks
/// for exactly one file, in the directory of the kind, named after the
/// trimmed text, the timestamp and the category, and then for a fresh
/// listing; the name field is empty afterwards and nothing else changes.
pub proof fn lemma_commit_asks_for_the_note(
    before: AppView,
    key: KeyInput,
    timestamp: Seq<char>,
    after: AppView,
    outcome: Result<Seq<EffectView>, TinoErrorView>,
)
    requires
        key_action(before.active_field, key) == KeyAction::Commit,
        before.type_selected() is Some,
        before.category_selected() is Some,
        transition(before, key, timestamp, after, outcome),
    ensures
        after == before.with_input_taken(),
        outcome == Ok::<Seq<EffectView>, TinoErrorView>(
            seq![
                EffectView::CreateFile {
                    directory: before.config_file.tino_dirs.directory_of(
                        before.type_selected()->0,
                    ),
                    file_name: file_name(
                        trimmed(before.input_text),
                        before.category_selected()->0,
                        timestamp,
                    ),
                },
                EffectView::RescanDirectory,
            ],
        ),
{
}

/// Enter commits the name field exactly when the name field has the
/// focus, whatever modifiers are held.
pub proof fn lemma_enter_commits_in_name_field(active_field: FieldId, key: KeyInput)
    requires
        key.code == KeyCode::Enter,
    ensures
        key_action(active_field, key) == KeyAction::Commit <==> active_field == FieldId::NameInput,
{
}

/// Scrolling up at the first line changes nothing.
pub proof fn lemma_scroll_up_at_top_does_nothing(
    before: AppView,
    key: KeyInput,
    timestamp: Seq<char>,
    after: AppView,
    outcome: Result<Seq<EffectView>, TinoErrorView>,
)
    requires
        key_action(before.active_field, key) == KeyAction::ScrollUp,
        before.scroll == 0,
        transition(before, key, timestamp, after, outcome),
    ensures
        after == before,
        outcome == nothing_to_do(),
{
}

/// The text of the name field changes only while the name field has the
/// focus.
pub proof fn lemma_text_changes_in_name_field_only(
    before: AppView,
    key: KeyInput,
    timestamp: Seq<char>,
    after: AppView,
    outcome: Result<Seq<EffectView>, TinoErrorView>,
)
    requires
        before.active_field != FieldId::NameInput,
        transition(before, key, timestamp, after, outcome),
    ensures
        after.input_text == before.input_text,
        after.input_cursor == before.input_cursor,
{
}

/// A character typed into the name field with no modifier held, or with
/// shift, goes into the text at the cursor, and nothing else changes.
pub proof fn lemma_typed_character_enters_text(
    before: AppView,
    c: char,
    modifiers: u8,
    timestamp: Seq<char>,
    after: AppView,
    outcome: Result<Seq<EffectView>, TinoErrorView>,
)
    requires
        before.active_field == FieldId::NameInput,
        modifiers == NO_MODIFIERS || modifiers == SHIFT,
        transition(
            before,
            KeyInput { code: KeyCode::Char(c), modifiers },
            timestamp,
            after,
            outcome,
        ),
    ensures
        after == (AppView {
            input_text: before.input_text.insert(before.input_cursor as int, c),
            input_cursor: before.input_cursor + 1,
            ..before
        }),
        outcome == nothing_to_do(),
{
}

/// A key that ends in an error changes nothing.
pub proof fn lemma_error_changes_nothing(
    before: AppView,
    key: KeyInput,
    timestamp: Seq<char>,
    after: AppView,
    outcome: Result<Seq<EffectView>, TinoErrorView>,
)
    requires
        transition(before, key, timestamp, after, outcome),
        outcome is Err,
    ensures
        after == before,
{
}

/// No key starts the event loop again once it has been ended, and the
/// event loop ends exactly with the effect that says so.
pub proof fn lemma_quit_is_final(
    before: AppView,
    key: KeyInput,
    timestamp: Seq<char>,
    after: AppView,
    outcome: Result<Seq<EffectView>, TinoErrorView>,
)
    requires
        transition(before, key, timestamp, after, outcome),
    ensures
        !before.running ==> !after.running,
        before.running && !after.running ==> outcome == Ok::<Seq<EffectView>, TinoErrorView>(
            seq![EffectView::Quit],
        ),
        after.open_editor ==> before.open_editor || !after.running,
{
}

/// Escape ends the event loop from every field, and tab moves the focus
/// on from every field, whatever modifiers are held.
pub proof fn lemma_escape_and_tab_work_everywhere(active_field: FieldId, modifiers: u8)
    ensures
        key_action(active_field, KeyInput { code: KeyCode::Esc, modifiers }) == KeyAction::Quit,
        key_action(active_field, KeyInput { code: KeyCode::Tab, modifiers })
            == KeyAction::CycleFocus,
{
}

} // verus!
