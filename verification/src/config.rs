//! The settings: one directory for each kind of note, and where the
//! settings file is looked for.

use crate::error::{same_outcome, TinoError, TinoErrorView};
use crate::notes::TinoFileTypes;
use vstd::prelude::*;

verus! {

/// The directories in which notes are kept, one for each kind.
#[derive(Debug, PartialEq, Eq)]
pub struct TinoDirs {
    pub todos_dir: String,
    pub ideas_dir: String,
    pub notes_dir: String,
    pub academic_notes_dir: String,
}

/// The settings of the application.
#[derive(Debug, PartialEq, Eq)]
pub struct ConfigFile {
    pub tino_dirs: TinoDirs,
}

impl TinoDirs {
    /// The directory of the notes of `kind`.
    pub open spec fn directory_of(&self, kind: TinoFileTypes) -> Seq<char> {
        match kind {
            TinoFileTypes::Todo => self.todos_dir@,
            TinoFileTypes::Idea => self.ideas_dir@,
            TinoFileTypes::Note => self.notes_dir@,
            TinoFileTypes::AcademicNote => self.academic_notes_dir@,
        }
    }

    /// The directory of the notes of `kind`.
    pub fn directory(&self, kind: TinoFileTypes) -> (directory: &str)
        ensures
            directory@ == self.directory_of(kind),
    {
        match kind {
            TinoFileTypes::Todo => self.todos_dir.as_str(),
            TinoFileTypes::Idea => self.ideas_dir.as_str(),
            TinoFileTypes::Note => self.notes_dir.as_str(),
            TinoFileTypes::AcademicNote => self.academic_notes_dir.as_str(),
        }
    }
}

impl Clone for TinoDirs {
    fn clone(&self) -> (copy: Self)
        ensures
            copy == *self,
    {
        TinoDirs {
            todos_dir: self.todos_dir.clone(),
            ideas_dir: self.ideas_dir.clone(),
            notes_dir: self.notes_dir.clone(),
            academic_notes_dir: self.academic_notes_dir.clone(),
        }
    }
}

impl Default for TinoDirs {
    fn default() -> (dirs: Self)
        ensures
            forall|kind: TinoFileTypes| #[trigger] dirs.directory_of(kind) == Seq::<char>::empty(),
    {
        TinoDirs {
            todos_dir: String::new(),
            ideas_dir: String::new(),
            notes_dir: String::new(),
            academic_notes_dir: String::new(),
        }
    }
}

impl Clone for ConfigFile {
    fn clone(&self) -> (copy: Self)
        ensures
            copy == *self,
    {
        ConfigFile { tino_dirs: self.tino_dirs.clone() }
    }
}

impl Default for ConfigFile {
    fn default() -> (config: Self)
        ensures
            forall|kind: TinoFileTypes| #[trigger]
                config.tino_dirs.directory_of(kind) == Seq::<char>::empty(),
    {
        ConfigFile { tino_dirs: TinoDirs::default() }
    }
}

/// The path of the settings file in the configuration directory
/// `config_dir`.
pub open spec fn config_file_path(config_dir: Option<Seq<char>>) -> Result<
    Seq<char>,
    TinoErrorView,
> {
    match config_dir {
        Some(dir) => Ok(dir + "/.tino.toml"@),
        None => Err(TinoErrorView::ConfigDirNotFound),
    }
}

/// Where the settings file is looked for. Without a home directory
/// nothing is looked for. A test run reads the file kept with the tests
/// under the home directory; any other run reads the one in the platform's
/// configuration directory.
pub open spec fn config_file_location(
    test: bool,
    home_dir: Option<Seq<char>>,
    config_dir: Option<Seq<char>>,
) -> Result<Seq<char>, TinoErrorView> {
    match home_dir {
        None => Err(TinoErrorView::HomeDirNotFound),
        Some(home) => if test {
            config_file_path(Some(home + "/dev/tino/src/tests"@))
        } else {
            config_file_path(config_dir)
        },
    }
}

/// The text of an optional string.
pub open spec fn text_of(s: Option<String>) -> Option<Seq<char>> {
    match s {
        Some(s) => Some(s@),
        None => None,
    }
}

impl ConfigFile {
    /// The path of the settings file in the configuration directory
    /// `config_dir_path`; an error where there is no such directory.
    pub fn get_config_file_path(config_dir_path: Option<String>) -> (path: Result<
        String,
        TinoError,
    >)
        ensures
            same_outcome(path, config_file_path(text_of(config_dir_path))),
    {
        match config_dir_path {
            Some(dir) => Ok(dir.concat("/.tino.toml")),
            None => Err(TinoError::ConfigDirNotFound),
        }
    }

    /// Where the settings file is looked for, given the home directory and
    /// the configuration directory that the platform names.
    pub fn locate(test: bool, home_dir: Option<String>, config_dir: Option<String>) -> (path:
        Result<String, TinoError>)
        ensures
            same_outcome(path, config_file_location(test, text_of(home_dir), text_of(config_dir))),
    {
        match home_dir {
            None => Err(TinoError::HomeDirNotFound),
            Some(home) => {
                if test {
                    Self::get_config_file_path(Some(home.concat("/dev/tino/src/tests")))
                } else {
                    Self::get_config_file_path(config_dir)
                }
            },
        }
    }
}

} // verus!
