//! Where the persisted documents live: the settings directory of a
//! portable or an installed copy, and the files in it.

use vstd::prelude::*;
use vstd::string::*;
use crate::error::{outcome_view, SettingsError, SettingsErrorView};
use crate::settings::AppMode;
use crate::text::{contains, has_substring, lowercase, text_view, to_lowercase};

verus! {

/// Name of the settings document.
pub const SETTINGS_FILENAME: &'static str = "settings.json";

/// Name of the catalog of session-host mode.
pub const SESSIONHOST_ENDPOINTS_FILENAME: &'static str = "sessionhost-endpoints.json";

/// Name of the catalog of end-user mode.
pub const ENDUSER_ENDPOINTS_FILENAME: &'static str = "enduser-endpoints.json";

/// Name of the file that the write probe of a portable copy creates.
pub const PORTABLE_PROBE_FILENAME: &'static str = ".portable_test";

/// The path that `Path::join` gives for a base path and a relative name,
/// both as text.
pub uninterp spec fn joined_path(base: Seq<char>, name: Seq<char>) -> Seq<char>;

/// Calls std's `Path::join` on the two texts and hands the joined path
/// back as text. The contract only names the result; how the two are joined
/// (the separator, an absolute `name` replacing `base`) is the platform's.
#[verifier::external_body]
pub(crate) fn join_path(base: &str, name: &str) -> (joined: String)
    ensures
        joined@ == joined_path(base@, name@),
{
    std::path::Path::new(base).join(name).to_string_lossy().into_owned()
}

/// Name of the catalog file of a mode.
pub open spec fn endpoints_filename(mode: AppMode) -> Seq<char> {
    match mode {
        AppMode::SessionHost => SESSIONHOST_ENDPOINTS_FILENAME@,
        AppMode::EndUser => ENDUSER_ENDPOINTS_FILENAME@,
    }
}

/// Name of the catalog file of `mode`.
pub fn endpoint_filename(mode: &AppMode) -> (name: &'static str)
    ensures
        name@ == endpoints_filename(*mode),
{
    match mode {
        AppMode::SessionHost => SESSIONHOST_ENDPOINTS_FILENAME,
        AppMode::EndUser => ENDUSER_ENDPOINTS_FILENAME,
    }
}

/// Path of the settings document in `settings_dir`.
pub fn get_settings_path(settings_dir: &str) -> (path: String)
    ensures
        path@ == joined_path(settings_dir@, SETTINGS_FILENAME@),
{
    join_path(settings_dir, SETTINGS_FILENAME)
}

/// Path of the catalog file of `mode` in `settings_dir`.
pub fn get_endpoint_file_path(mode: &AppMode, settings_dir: &str) -> (path: String)
    ensures
        path@ == joined_path(settings_dir@, endpoints_filename(*mode)),
{
    join_path(settings_dir, endpoint_filename(mode))
}

/// The family of the operating system; it decides where an installed copy
/// keeps its settings.
#[derive(Debug, Clone, Copy, PartialEq, Eq, Structural)]
pub enum Platform {
    Windows,
    MacOs,
    Linux,
    /// Any other system.
    Other,
}

/// Marker of an install root in a lower-case directory text.
pub const INSTALL_ROOT_MARKER: &'static str = "program files";

/// Whether a directory lies under an install root: its lower-case form
/// holds the marker.
pub open spec fn under_install_root(dir: Seq<char>) -> bool {
    has_substring(lowercase(dir), INSTALL_ROOT_MARKER@)
}

/// Tests whether `dir` lies under an install root.
pub fn has_install_marker(dir: &str) -> (marked: bool)
    ensures
        marked == under_install_root(dir@),
{
    let lowered = to_lowercase(dir);
    contains(lowered.as_str(), INSTALL_ROOT_MARKER)
}

/// Whether a copy whose executable lies in `exe_dir` is portable: a
/// settings document lies beside the executable, or the directory is not
/// under an install root and can be written to. Without a directory of the
/// executable the copy is not portable.
pub open spec fn portable_copy(
    exe_dir: Option<Seq<char>>,
    settings_present: bool,
    writable: bool,
) -> bool {
    exe_dir matches Some(dir) && (settings_present || (!under_install_root(dir) && writable))
}

/// What is known of a copy once the settings document has been looked for
/// beside the executable.
#[derive(Debug, PartialEq, Eq)]
pub enum Portability {
    /// The copy is portable.
    Portable,
    /// The copy is installed.
    Installed,
    /// The copy is portable if and only if this file can be written.
    Probe(String),
}

/// View of a [`Portability`].
pub enum PortabilityView {
    Portable,
    Installed,
    Probe(Seq<char>),
}

impl View for Portability {
    type V = PortabilityView;

    open spec fn view(&self) -> PortabilityView {
        match self {
            Portability::Portable => PortabilityView::Portable,
            Portability::Installed => PortabilityView::Installed,
            Portability::Probe(path) => PortabilityView::Probe(path@),
        }
    }
}

/// What `portability` answers.
pub open spec fn portability_of(exe_dir: Seq<char>, settings_present: bool) -> PortabilityView {
    if settings_present {
        PortabilityView::Portable
    } else if under_install_root(exe_dir) {
        PortabilityView::Installed
    } else {
        PortabilityView::Probe(joined_path(exe_dir, PORTABLE_PROBE_FILENAME@))
    }
}

/// Decides as far as possible without writing whether the copy in
/// `exe_dir` is portable. `settings_present` says whether the settings
/// document lies in `exe_dir`. Where the answer is `Probe`, the caller tries
/// to write the file named and removes it again.
pub fn portability(exe_dir: &str, settings_present: bool) -> (p: Portability)
    ensures
        p@ == portability_of(exe_dir@, settings_present),
{
    if settings_present {
        Portability::Portable
    } else if has_install_marker(exe_dir) {
        Portability::Installed
    } else {
        Portability::Probe(join_path(exe_dir, PORTABLE_PROBE_FILENAME))
    }
}

/// Whether the copy is portable, from everything that can be found out:
/// the directory of the executable, whether the settings document lies in
/// it, and whether a file can be written there.
pub fn is_portable(exe_dir: Option<&str>, settings_present: bool, writable: bool) -> (portable:
    bool)
    ensures
        portable == portable_copy(text_view(exe_dir), settings_present, writable),
{
    match exe_dir {
        None => false,
        Some(dir) => match portability(dir, settings_present) {
            Portability::Portable => true,
            Portability::Installed => false,
            Portability::Probe(_) => writable,
        },
    }
}

/// The staged answer and the full answer agree: a copy is portable if and
/// only if `portability` says so outright, or asks for the write probe and
/// the probe succeeds.
pub proof fn lemma_portability_agrees(exe_dir: Seq<char>, settings_present: bool, writable: bool)
    ensures
        portable_copy(Some(exe_dir), settings_present, writable) == match portability_of(
            exe_dir,
            settings_present,
        ) {
            PortabilityView::Portable => true,
            PortabilityView::Installed => false,
            PortabilityView::Probe(_) => writable,
        },
{
}

/// Text of the error for an executable without a directory.
pub const NO_EXE_DIR: &'static str = "Could not find exe directory";

/// Text of the error for a missing configuration root.
pub const NO_CONFIG_ROOT: &'static str = "environment variable not found";

/// The directory of the executable, or the error for its absence.
pub fn get_exe_dir(exe_dir: Option<String>) -> (dir: Result<String, SettingsError>)
    ensures
        outcome_view(dir) == match exe_dir.deep_view() {
            Some(d) => Ok::<Seq<char>, SettingsErrorView>(d),
            None => Err(SettingsErrorView::NotFound(NO_EXE_DIR@)),
        },
{
    match exe_dir {
        Some(d) => Ok(d),
        None => Err(SettingsError::NotFound(NO_EXE_DIR.to_string())),
    }
}

/// Name of the environment variable that holds the configuration root.
pub fn config_root_variable(platform: Platform) -> (name: &'static str)
    ensures
        name@ == match platform {
            Platform::Windows => "APPDATA"@,
            _ => "HOME"@,
        },
{
    match platform {
        Platform::Windows => "APPDATA",
        _ => "HOME",
    }
}

/// The settings directory of an installed copy under a configuration
/// root: `AVDHealthMonitor` under the root on Windows,
/// `.config/avd-health-monitor` under it elsewhere.
pub open spec fn appdata_settings_dir(platform: Platform, root: Seq<char>) -> Seq<char> {
    match platform {
        Platform::Windows => joined_path(root, "AVDHealthMonitor"@),
        _ => joined_path(joined_path(root, ".config"@), "avd-health-monitor"@),
    }
}

/// The settings directory of an installed copy. `config_root` is the value
/// of the variable that `config_root_variable` names, if it is set.
pub fn get_appdata_settings_dir(platform: Platform, config_root: Option<&str>) -> (dir: Result<
    String,
    SettingsError,
>)
    ensures
        outcome_view(dir) == match config_root {
            Some(root) => Ok::<Seq<char>, SettingsErrorView>(appdata_settings_dir(platform, root@)),
            None => Err(SettingsErrorView::NotFound(NO_CONFIG_ROOT@)),
        },
{
    match config_root {
        None => Err(SettingsError::NotFound(NO_CONFIG_ROOT.to_string())),
        Some(root) => match platform {
            Platform::Windows => Ok(join_path(root, "AVDHealthMonitor")),
            _ => {
                let config = join_path(root, ".config");
                Ok(join_path(config.as_str(), "avd-health-monitor"))
            },
        },
    }
}

/// The settings directory: the directory of the executable for a portable
/// copy, else the directory under the configuration root.
pub fn get_settings_dir(
    portable: bool,
    exe_dir: Option<String>,
    platform: Platform,
    config_root: Option<&str>,
) -> (dir: Result<String, SettingsError>)
    ensures
        outcome_view(dir) == if portable {
            match exe_dir.deep_view() {
                Some(d) => Ok::<Seq<char>, SettingsErrorView>(d),
                None => Err(SettingsErrorView::NotFound(NO_EXE_DIR@)),
            }
        } else {
            match config_root {
                Some(root) => Ok(appdata_settings_dir(platform, root@)),
                None => Err(SettingsErrorView::NotFound(NO_CONFIG_ROOT@)),
            }
        },
{
    if portable {
        get_exe_dir(exe_dir)
    } else {
        get_appdata_settings_dir(platform, config_root)
    }
}

} // verus!
