//! Start of the monitor at logon, which only Windows offers: what is to
//! be written to the registry, and what a lookup there means.

use vstd::prelude::*;
use vstd::string::*;
use crate::paths::Platform;

verus! {

/// Name of the registry value of the monitor.
pub const APP_NAME: &'static str = "AVDHealthMonitor";

/// Registry key, under the current user, of the programs started at
/// logon.
pub const RUN_KEY: &'static str = "Software\\Microsoft\\Windows\\CurrentVersion\\Run";

/// Text of the error on a platform without start at logon.
pub const UNSUPPORTED: &'static str = "Auto-start is only supported on Windows";

/// A change to the registry value of the monitor under the run key.
#[derive(Debug, PartialEq, Eq)]
pub enum RegistryChange {
    /// Set the value to this path of the executable.
    SetValue(String),
    /// Delete the value.
    DeleteValue,
}

/// View of a [`RegistryChange`].
pub enum RegistryChangeView {
    SetValue(Seq<char>),
    DeleteValue,
}

impl View for RegistryChange {
    type V = RegistryChangeView;

    open spec fn view(&self) -> RegistryChangeView {
        match self {
            RegistryChange::SetValue(path) => RegistryChangeView::SetValue(path@),
            RegistryChange::DeleteValue => RegistryChangeView::DeleteValue,
        }
    }
}

/// The change that switches start at logon on for the executable at
/// `exe_path`; an error where the platform has none.
pub fn enable_autostart(platform: Platform, exe_path: &str) -> (r: Result<RegistryChange, String>)
    ensures
        match r {
            Ok(change) => platform == Platform::Windows && change@ == RegistryChangeView::SetValue(
                exe_path@,
            ),
            Err(text) => platform != Platform::Windows && text@ == UNSUPPORTED@,
        },
{
    match platform {
        Platform::Windows => Ok(RegistryChange::SetValue(exe_path.to_owned())),
        _ => Err(UNSUPPORTED.to_string()),
    }
}

/// The change that switches start at logon off; an error where the
/// platform has none.
pub fn disable_autostart(platform: Platform) -> (r: Result<RegistryChange, String>)
    ensures
        match r {
            Ok(change) => platform == Platform::Windows && change@
                == RegistryChangeView::DeleteValue,
            Err(text) => platform != Platform::Windows && text@ == UNSUPPORTED@,
        },
{
    match platform {
        Platform::Windows => Ok(RegistryChange::DeleteValue),
        _ => Err(UNSUPPORTED.to_string()),
    }
}

/// The change that sets start at logon to `enabled`.
pub fn set_autostart(platform: Platform, enabled: bool, app_path: &str) -> (r: Result<
    RegistryChange,
    String,
>)
    ensures
        match r {
            Ok(change) => platform == Platform::Windows && change@ == if enabled {
                RegistryChangeView::SetValue(app_path@)
            } else {
                RegistryChangeView::DeleteValue
            },
            Err(text) => platform != Platform::Windows && text@ == UNSUPPORTED@,
        },
{
    if enabled {
        enable_autostart(platform, app_path)
    } else {
        disable_autostart(platform)
    }
}

/// What looking up the registry value of the monitor came to.
#[derive(Debug, PartialEq, Eq)]
pub enum RegistryLookup {
    /// The value is there.
    Found,
    /// There is no such value.
    NotFound,
    /// The run key cannot be opened; the text says why.
    KeyUnavailable(String),
    /// The value cannot be read; the text says why.
    Unreadable(String),
}

/// What a lookup says of start at logon.
pub open spec fn autostart_state(lookup: RegistryLookup) -> Result<bool, Seq<char>> {
    match lookup {
        RegistryLookup::Found => Ok(true),
        RegistryLookup::NotFound => Ok(false),
        RegistryLookup::KeyUnavailable(reason) => Err("Failed to open registry key: "@ + reason@),
        RegistryLookup::Unreadable(reason) => Err("Failed to read registry value: "@ + reason@),
    }
}

/// Whether the monitor starts at logon. On Windows `lookup` is what
/// looking up the registry value came to; elsewhere nothing is looked up and
/// the answer is no.
pub fn is_autostart_enabled(platform: Platform, lookup: Option<RegistryLookup>) -> (r: Result<
    bool,
    String,
>)
    ensures
        match r {
            Ok(enabled) => if platform == Platform::Windows && lookup is Some {
                autostart_state(lookup->0) == Ok::<bool, Seq<char>>(enabled)
            } else {
                !enabled
            },
            Err(text) => platform == Platform::Windows && lookup is Some && autostart_state(
                lookup->0,
            ) == Err::<bool, Seq<char>>(text@),
        },
{
    match platform {
        Platform::Windows => match lookup {
            Some(RegistryLookup::Found) => Ok(true),
            Some(RegistryLookup::NotFound) => Ok(false),
            Some(RegistryLookup::KeyUnavailable(reason)) => {
                let mut text = "Failed to open registry key: ".to_string();
                text.append(reason.as_str());
                Err(text)
            },
            Some(RegistryLookup::Unreadable(reason)) => {
                let mut text = "Failed to read registry value: ".to_string();
                text.append(reason.as_str());
                Err(text)
            },
            None => Ok(false),
        },
        _ => Ok(false),
    }
}

} // verus!
