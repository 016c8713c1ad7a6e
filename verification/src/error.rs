//! The failures that locating and loading the persisted documents can end
//! in.

use vstd::prelude::*;
use vstd::string::*;

verus! {

/// Why a settings or catalog operation failed. Each variant carries the
/// text shown to the user.
#[derive(Debug, PartialEq, Eq)]
pub enum SettingsError {
    /// A directory, a settings or catalog file, or a bundled resource is
    /// absent.
    NotFound(String),
    /// A persisted document is not well-formed.
    Parse(String),
    /// Any other failure of the file system.
    Io(String),
}

/// View of a [`SettingsError`].
pub enum SettingsErrorView {
    NotFound(Seq<char>),
    Parse(Seq<char>),
    Io(Seq<char>),
}

impl View for SettingsError {
    type V = SettingsErrorView;

    open spec fn view(&self) -> SettingsErrorView {
        match self {
            SettingsError::NotFound(m) => SettingsErrorView::NotFound(m@),
            SettingsError::Parse(m) => SettingsErrorView::Parse(m@),
            SettingsError::Io(m) => SettingsErrorView::Io(m@),
        }
    }
}

impl DeepView for SettingsError {
    type V = SettingsErrorView;

    open spec fn deep_view(&self) -> SettingsErrorView {
        self.view()
    }
}

/// View of the outcome of an operation that gives a text.
pub open spec fn outcome_view(r: Result<String, SettingsError>) -> Result<
    Seq<char>,
    SettingsErrorView,
> {
    match r {
        Ok(text) => Ok(text@),
        Err(e) => Err(e@),
    }
}

impl SettingsError {
    /// The text of the error.
    pub fn message(&self) -> (text: String)
        ensures
            text@ == match self@ {
                SettingsErrorView::NotFound(m) => m,
                SettingsErrorView::Parse(m) => m,
                SettingsErrorView::Io(m) => m,
            },
    {
        match self {
            SettingsError::NotFound(m) => m.clone(),
            SettingsError::Parse(m) => m.clone(),
            SettingsError::Io(m) => m.clone(),
        }
    }
}

} // verus!
