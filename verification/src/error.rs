//! The errors that the application can show to its user.

use vstd::prelude::*;

verus! {

/// What can go wrong while the application starts or runs.
///
/// Where a failure has a cause outside this crate (the file system, the
/// settings parser), the variant carries the cause's text.
#[derive(Debug, PartialEq, Eq)]
pub enum TinoError {
    /// The platform names no configuration directory.
    ConfigDirNotFound,
    /// The platform names no home directory.
    HomeDirNotFound,
    /// The settings file could not be read.
    ReadConfigFileFailed(String),
    /// The settings file is not valid.
    DeserializeConfigFileContentFailed(String),
    /// A note was to be named while no category was selected.
    NotSelectedCategory,
    /// A note directory (first field) could not be listed (second: the cause).
    DirCouldNotBeReaded(String, String),
    /// A note could not be read for the preview.
    ReadTinoFileFailed(String),
    /// A note was needed while none was selected.
    NotSelectedTinoFile,
}

/// The mathematical value of a [`TinoError`]: each text as a sequence of
/// characters.
pub ghost enum TinoErrorView {
    ConfigDirNotFound,
    HomeDirNotFound,
    ReadConfigFileFailed(Seq<char>),
    DeserializeConfigFileContentFailed(Seq<char>),
    NotSelectedCategory,
    DirCouldNotBeReaded(Seq<char>, Seq<char>),
    ReadTinoFileFailed(Seq<char>),
    NotSelectedTinoFile,
}

impl View for TinoError {
    type V = TinoErrorView;

    open spec fn view(&self) -> TinoErrorView {
        match self {
            TinoError::ConfigDirNotFound => TinoErrorView::ConfigDirNotFound,
            TinoError::HomeDirNotFound => TinoErrorView::HomeDirNotFound,
            TinoError::ReadConfigFileFailed(cause) => TinoErrorView::ReadConfigFileFailed(cause@),
            TinoError::DeserializeConfigFileContentFailed(cause) =>
                TinoErrorView::DeserializeConfigFileContentFailed(cause@),
            TinoError::NotSelectedCategory => TinoErrorView::NotSelectedCategory,
            TinoError::DirCouldNotBeReaded(directory, cause) =>
                TinoErrorView::DirCouldNotBeReaded(directory@, cause@),
            TinoError::ReadTinoFileFailed(cause) => TinoErrorView::ReadTinoFileFailed(cause@),
            TinoError::NotSelectedTinoFile => TinoErrorView::NotSelectedTinoFile,
        }
    }
}

impl TinoErrorView {
    /// The sentence shown to the user for this error.
    pub open spec fn message(self) -> Seq<char> {
        match self {
            TinoErrorView::ConfigDirNotFound => "Configuration directory not found."@,
            TinoErrorView::HomeDirNotFound => "Home directory not found."@,
            TinoErrorView::ReadConfigFileFailed(cause) =>
                "Error while reading config file: "@ + cause,
            TinoErrorView::DeserializeConfigFileContentFailed(cause) =>
                "Error while deserializing config file content: "@ + cause,
            TinoErrorView::NotSelectedCategory => "A valid category haven't be selected."@,
            TinoErrorView::DirCouldNotBeReaded(directory, cause) =>
                "Error while trying to read "@ + directory + " directory: "@ + cause,
            TinoErrorView::ReadTinoFileFailed(cause) =>
                "Error while reading tino file content: "@ + cause,
            TinoErrorView::NotSelectedTinoFile => "A file haven't be selected."@,
        }
    }
}

impl TinoError {
    /// The sentence shown to the user for this error.
    pub fn message(&self) -> (text: String)
        ensures
            text@ == self@.message(),
    {
        match self {
            TinoError::ConfigDirNotFound => String::from_str("Configuration directory not found."),
            TinoError::HomeDirNotFound => String::from_str("Home directory not found."),
            TinoError::ReadConfigFileFailed(cause) => {
                String::from_str("Error while reading config file: ").concat(cause.as_str())
            },
            TinoError::DeserializeConfigFileContentFailed(cause) => {
                String::from_str("Error while deserializing config file content: ").concat(
                    cause.as_str(),
                )
            },
            TinoError::NotSelectedCategory => {
                String::from_str("A valid category haven't be selected.")
            },
            TinoError::DirCouldNotBeReaded(directory, cause) => {
                String::from_str("Error while trying to read ").concat(directory.as_str()).concat(
                    " directory: ",
                ).concat(cause.as_str())
            },
            TinoError::ReadTinoFileFailed(cause) => {
                String::from_str("Error while reading tino file content: ").concat(cause.as_str())
            },
            TinoError::NotSelectedTinoFile => String::from_str("A file haven't be selected."),
        }
    }
}

/// Whether `result` is the text or the error that `expected` names.
pub open spec fn same_outcome(
    result: Result<String, TinoError>,
    expected: Result<Seq<char>, TinoErrorView>,
) -> bool {
    match result {
        Ok(name) => expected == Ok::<Seq<char>, TinoErrorView>(name@),
        Err(e) => expected == Err::<Seq<char>, TinoErrorView>(e@),
    }
}

} // verus!
