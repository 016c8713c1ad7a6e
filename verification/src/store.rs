//! What loading a persisted document results in, given what was found on
//! disk. Reading, parsing and writing are the caller's.

use vstd::prelude::*;
use vstd::string::*;
use crate::bootstrap::missing_message;
use crate::error::{SettingsError, SettingsErrorView};
use crate::settings::{default_settings, EndpointFile, SettingsFile};

verus! {

/// What was found where a document is persisted.
#[derive(Debug, PartialEq, Eq)]
pub enum Stored<T> {
    /// There is no file.
    Missing,
    /// The file cannot be read; the text says why.
    Unreadable(String),
    /// The file holds no well-formed document; the text says why.
    Malformed(String),
    /// The file holds this document.
    Document(T),
}

/// The settings that a load results in.
#[derive(Debug, PartialEq, Eq)]
pub struct LoadedSettings {
    pub settings: SettingsFile,
    /// Whether the settings are new and have to be saved.
    pub created: bool,
}

/// Loads the settings: the persisted document, or a default document that
/// is to be saved where none exists. A file that cannot be read or holds no
/// well-formed document is an error, never a reason to fall back on defaults.
pub fn load_settings(stored: Stored<SettingsFile>) -> (r: Result<LoadedSettings, SettingsError>)
    ensures
        match stored {
            Stored::Missing => r matches Ok(loaded) && loaded.created && loaded.settings@
                == default_settings(),
            Stored::Unreadable(reason) => r matches Err(e) && e@ == SettingsErrorView::Io(reason@),
            Stored::Malformed(reason) => r matches Err(e) && e@ == SettingsErrorView::Parse(
                reason@,
            ),
            Stored::Document(settings) => r == Ok::<LoadedSettings, SettingsError>(
                LoadedSettings { settings, created: false },
            ),
        },
{
    match stored {
        Stored::Missing => Ok(LoadedSettings { settings: SettingsFile::default(), created: true }),
        Stored::Unreadable(reason) => Err(SettingsError::Io(reason)),
        Stored::Malformed(reason) => Err(SettingsError::Parse(reason)),
        Stored::Document(settings) => Ok(LoadedSettings { settings, created: false }),
    }
}

/// Loads a catalog from `path`, the file that the bootstrap of the
/// catalog ended with. A catalog is never made up: without a file the load
/// fails.
pub fn read_endpoint_file(path: &str, stored: Stored<EndpointFile>) -> (r: Result<
    EndpointFile,
    SettingsError,
>)
    ensures
        match stored {
            Stored::Missing => r matches Err(e) && e@ == SettingsErrorView::NotFound(
                missing_message(path@),
            ),
            Stored::Unreadable(reason) => r matches Err(e) && e@ == SettingsErrorView::Io(reason@),
            Stored::Malformed(reason) => r matches Err(e) && e@ == SettingsErrorView::Parse(
                reason@,
            ),
            Stored::Document(catalog) => r == Ok::<EndpointFile, SettingsError>(catalog),
        },
{
    match stored {
        Stored::Missing => {
            let mut message = "Endpoint file not found: ".to_string();
            message.append(path);
            Err(SettingsError::NotFound(message))
        },
        Stored::Unreadable(reason) => Err(SettingsError::Io(reason)),
        Stored::Malformed(reason) => Err(SettingsError::Parse(reason)),
        Stored::Document(catalog) => Ok(catalog),
    }
}

} // verus!
