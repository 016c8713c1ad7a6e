//! Containment of a path in an allowed base directory, decided on the
//! canonical forms of both so that `..` and links cannot lead outside.

use vstd::prelude::*;
use vstd::string::*;
use crate::bootstrap::RESOURCES_SUBDIR;
use crate::paths::{join_path, joined_path, Platform};

verus! {

/// Whether `base` is a prefix of `path` by whole path components, as
/// `Path::starts_with` decides it on the two texts.
pub uninterp spec fn path_within(path: Seq<char>, base: Seq<char>) -> bool;

/// Calls std's `Path::starts_with` on the two texts. The contract only
/// names the answer: what a component is depends on the platform.
#[verifier::external_body]
pub(crate) fn path_starts_with(path: &str, base: &str) -> (within: bool)
    ensures
        within == path_within(path@, base@),
{
    std::path::Path::new(path).starts_with(std::path::Path::new(base))
}

/// A path as it was given, with the outcome of resolving it to its
/// canonical form: the canonical path, or the text of the failure.
#[derive(Debug, PartialEq, Eq)]
pub struct ResolvedPath {
    pub given: String,
    pub canonical: Result<String, String>,
}

/// View of a [`ResolvedPath`].
pub struct ResolvedPathView {
    pub given: Seq<char>,
    pub canonical: Result<Seq<char>, Seq<char>>,
}

/// View of an outcome that is a text either way.
pub open spec fn text_outcome(r: Result<String, String>) -> Result<Seq<char>, Seq<char>> {
    match r {
        Ok(text) => Ok(text@),
        Err(text) => Err(text@),
    }
}

impl View for ResolvedPath {
    type V = ResolvedPathView;

    open spec fn view(&self) -> ResolvedPathView {
        ResolvedPathView { given: self.given@, canonical: text_outcome(self.canonical) }
    }
}

/// Text of the error for a path that cannot be resolved.
pub open spec fn unresolved_path_message(given: Seq<char>, failure: Seq<char>) -> Seq<char> {
    "Cannot resolve path '"@ + given + "': "@ + failure
}

/// Text of the error for a base directory that cannot be resolved.
pub open spec fn unresolved_base_message(given: Seq<char>, failure: Seq<char>) -> Seq<char> {
    "Cannot resolve base path '"@ + given + "': "@ + failure
}

/// Text of the error for a path outside the base directory.
pub open spec fn traversal_message(path: Seq<char>, base: Seq<char>) -> Seq<char> {
    "Path traversal blocked: '"@ + path + "' is not within '"@ + base + "'"@
}

/// The verdict on two canonical paths of which it is known whether the
/// first lies within the second.
pub open spec fn containment(path: Seq<char>, base: Seq<char>, within: bool) -> Result<
    Seq<char>,
    Seq<char>,
> {
    if within {
        Ok(path)
    } else {
        Err(traversal_message(path, base))
    }
}

/// The verdict on a path and a base directory: the canonical path where
/// both resolve and the path lies within the base; else the error of the
/// first thing that went wrong, the path being looked at first.
pub open spec fn verdict(path: ResolvedPathView, base: ResolvedPathView) -> Result<
    Seq<char>,
    Seq<char>,
> {
    match path.canonical {
        Err(failure) => Err(unresolved_path_message(path.given, failure)),
        Ok(canonical_path) => match base.canonical {
            Err(failure) => Err(unresolved_base_message(base.given, failure)),
            Ok(canonical_base) => containment(
                canonical_path,
                canonical_base,
                path_within(canonical_path, canonical_base),
            ),
        },
    }
}

/// The verdict on two canonical paths, given whether the first lies
/// within the second.
pub fn containment_verdict(canonical_path: &str, canonical_base: &str, within: bool) -> (r: Result<
    String,
    String,
>)
    ensures
        text_outcome(r) == containment(canonical_path@, canonical_base@, within),
{
    if within {
        Ok(canonical_path.to_owned())
    } else {
        let mut message = "Path traversal blocked: '".to_string();
        message.append(canonical_path);
        message.append("' is not within '");
        message.append(canonical_base);
        message.append("'");
        Err(message)
    }
}

/// Validates that `path` lies within `allowed_base`. Both come with the
/// outcome of their resolution; the canonical path is handed back where it
/// lies within the canonical base, and nothing else is accepted.
pub fn validate_path_in_dir(path: &ResolvedPath, allowed_base: &ResolvedPath) -> (r: Result<
    String,
    String,
>)
    ensures
        text_outcome(r) == verdict(path@, allowed_base@),
{
    match &path.canonical {
        Err(failure) => {
            let mut message = "Cannot resolve path '".to_string();
            message.append(path.given.as_str());
            message.append("': ");
            message.append(failure.as_str());
            Err(message)
        },
        Ok(canonical_path) => match &allowed_base.canonical {
            Err(failure) => {
                let mut message = "Cannot resolve base path '".to_string();
                message.append(allowed_base.given.as_str());
                message.append("': ");
                message.append(failure.as_str());
                Err(message)
            },
            Ok(canonical_base) => {
                let within = path_starts_with(canonical_path.as_str(), canonical_base.as_str());
                containment_verdict(canonical_path.as_str(), canonical_base.as_str(), within)
            },
        },
    }
}

/// Whatever the two paths are, a path that is accepted is the canonical
/// form of the one given and lies within the canonical base.
pub proof fn lemma_accepted_is_contained(path: ResolvedPathView, base: ResolvedPathView)
    ensures
        verdict(path, base) matches Ok(accepted) ==> {
            &&& path.canonical == Ok::<Seq<char>, Seq<char>>(accepted)
            &&& base.canonical matches Ok(canonical_base) && path_within(accepted, canonical_base)
        },
{
}

/// A program to start, with its arguments.
#[derive(Debug, PartialEq, Eq)]
pub struct Launch {
    pub program: String,
    pub args: Vec<String>,
}

/// View of a [`Launch`].
pub struct LaunchView {
    pub program: Seq<char>,
    pub args: Seq<Seq<char>>,
}

impl View for Launch {
    type V = LaunchView;

    open spec fn view(&self) -> LaunchView {
        LaunchView { program: self.program@, args: self.args.deep_view() }
    }
}

impl DeepView for Launch {
    type V = LaunchView;

    open spec fn deep_view(&self) -> LaunchView {
        self.view()
    }
}

/// The program that opens a text file for editing, where the platform has
/// one.
pub open spec fn editor(platform: Platform, path: Seq<char>) -> Option<LaunchView> {
    match platform {
        Platform::Windows => Some(LaunchView { program: "notepad"@, args: seq![path] }),
        Platform::MacOs => Some(LaunchView { program: "open"@, args: seq!["-t"@, path] }),
        Platform::Linux => Some(LaunchView { program: "xdg-open"@, args: seq![path] }),
        Platform::Other => None,
    }
}

/// The program that opens the file at `path` for editing.
pub fn editor_command(platform: Platform, path: &str) -> (launch: Option<Launch>)
    ensures
        launch.deep_view() == editor(platform, path@),
{
    let mut args: Vec<String> = Vec::new();
    let program = match platform {
        Platform::Windows => "notepad",
        Platform::MacOs => {
            args.push("-t".to_string());
            "open"
        },
        Platform::Linux => "xdg-open",
        Platform::Other => {
            return None;
        },
    };
    args.push(path.to_owned());
    let launch = Launch { program: program.to_owned(), args };
    proof {
        assert(launch.args.deep_view() =~= editor(platform, path@)->0.args);
    }
    Some(launch)
}

/// Path of a bundled file under the packaged resource directory.
pub fn resource_file_path(resource_base: &str, filename: &str) -> (path: String)
    ensures
        path@ == joined_path(joined_path(resource_base@, RESOURCES_SUBDIR@), filename@),
{
    let resources = join_path(resource_base, RESOURCES_SUBDIR);
    join_path(resources.as_str(), filename)
}

/// What opening a file for editing comes to: the error of the validation
/// for a path that is not accepted, else the editor on the canonical path.
pub open spec fn opening(
    platform: Platform,
    path: ResolvedPathView,
    base: ResolvedPathView,
) -> Result<Option<LaunchView>, Seq<char>> {
    match verdict(path, base) {
        Ok(accepted) => Ok(editor(platform, accepted)),
        Err(message) => Err(message),
    }
}

/// Plans the opening of a file for editing. No program is started on a
/// path that does not lie within `allowed_base`.
pub fn open_file(
    platform: Platform,
    path: &ResolvedPath,
    allowed_base: &ResolvedPath,
) -> (r: Result<Option<Launch>, String>)
    ensures
        match r {
            Ok(launch) => opening(platform, path@, allowed_base@) == Ok::<
                Option<LaunchView>,
                Seq<char>,
            >(launch.deep_view()),
            Err(message) => opening(platform, path@, allowed_base@) == Err::<
                Option<LaunchView>,
                Seq<char>,
            >(message@),
        },
{
    match validate_path_in_dir(path, allowed_base) {
        Ok(accepted) => Ok(editor_command(platform, accepted.as_str())),
        Err(message) => Err(message),
    }
}

} // verus!
