//! The kinds of note and the PARA categories.

use vstd::prelude::*;

verus! {

/// The kind of a note. Each kind has a directory of its own.
#[derive(Clone, Copy, Debug, PartialEq, Eq, Structural)]
pub enum TinoFileTypes {
    Todo,
    Idea,
    Note,
    AcademicNote,
}

impl TinoFileTypes {
    /// The name under which the kind is offered in the type list.
    pub open spec fn label_text(self) -> Seq<char> {
        match self {
            TinoFileTypes::Todo => "Todos"@,
            TinoFileTypes::Idea => "Ideas"@,
            TinoFileTypes::Note => "Notes"@,
            TinoFileTypes::AcademicNote => "Academic notes"@,
        }
    }

    /// The tag that marks a note of this kind in the listing.
    pub open spec fn tag_text(self) -> Seq<char> {
        match self {
            TinoFileTypes::Todo => "TODO"@,
            TinoFileTypes::Idea => "IDEA"@,
            TinoFileTypes::Note => "NOTE"@,
            TinoFileTypes::AcademicNote => "ACAD. NOTE"@,
        }
    }

    /// The place of the kind in the fixed order Todo, Idea, Note,
    /// AcademicNote.
    pub open spec fn rank(self) -> int {
        match self {
            TinoFileTypes::Todo => 0,
            TinoFileTypes::Idea => 1,
            TinoFileTypes::Note => 2,
            TinoFileTypes::AcademicNote => 3,
        }
    }

    /// The four kinds in their fixed order.
    pub open spec fn all_kinds() -> Seq<TinoFileTypes> {
        seq![
            TinoFileTypes::Todo,
            TinoFileTypes::Idea,
            TinoFileTypes::Note,
            TinoFileTypes::AcademicNote,
        ]
    }

    /// The name under which the kind is offered in the type list.
    pub fn label(self) -> (name: &'static str)
        ensures
            name@ == self.label_text(),
    {
        match self {
            TinoFileTypes::Todo => "Todos",
            TinoFileTypes::Idea => "Ideas",
            TinoFileTypes::Note => "Notes",
            TinoFileTypes::AcademicNote => "Academic notes",
        }
    }

    /// The tag that marks a note of this kind in the listing.
    pub fn tag(self) -> (tag: &'static str)
        ensures
            tag@ == self.tag_text(),
    {
        match self {
            TinoFileTypes::Todo => "TODO",
            TinoFileTypes::Idea => "IDEA",
            TinoFileTypes::Note => "NOTE",
            TinoFileTypes::AcademicNote => "ACAD. NOTE",
        }
    }

    /// The four kinds in their fixed order.
    pub fn all() -> (kinds: Vec<TinoFileTypes>)
        ensures
            kinds@ == Self::all_kinds(),
    {
        let mut kinds: Vec<TinoFileTypes> = Vec::new();
        kinds.push(TinoFileTypes::Todo);
        kinds.push(TinoFileTypes::Idea);
        kinds.push(TinoFileTypes::Note);
        kinds.push(TinoFileTypes::AcademicNote);
        kinds
    }
}

/// A PARA category. `Unfiled` is a category of its own: a note filed under
/// it carries no category in its name.
#[derive(Clone, Copy, Debug, PartialEq, Eq, Structural)]
pub enum Category {
    Unfiled,
    Project,
    Area,
    Resource,
    Archive,
}

impl Category {
    /// The category's name as it enters a file name; empty for `Unfiled`.
    pub open spec fn name_text(self) -> Seq<char> {
        match self {
            Category::Unfiled => ""@,
            Category::Project => "Project"@,
            Category::Area => "Area"@,
            Category::Resource => "Resource"@,
            Category::Archive => "Archive"@,
        }
    }

    /// The five categories in the order in which they are offered.
    pub open spec fn all_categories() -> Seq<Category> {
        seq![
            Category::Unfiled,
            Category::Project,
            Category::Area,
            Category::Resource,
            Category::Archive,
        ]
    }

    /// The category's name as it enters a file name; empty for `Unfiled`.
    pub fn name(self) -> (name: &'static str)
        ensures
            name@ == self.name_text(),
    {
        match self {
            Category::Unfiled => "",
            Category::Project => "Project",
            Category::Area => "Area",
            Category::Resource => "Resource",
            Category::Archive => "Archive",
        }
    }

    /// The five categories in the order in which they are offered.
    pub fn all() -> (categories: Vec<Category>)
        ensures
            categories@ == Self::all_categories(),
    {
        let mut categories: Vec<Category> = Vec::new();
        categories.push(Category::Unfiled);
        categories.push(Category::Project);
        categories.push(Category::Area);
        categories.push(Category::Resource);
        categories.push(Category::Archive);
        categories
    }
}

} // verus!
