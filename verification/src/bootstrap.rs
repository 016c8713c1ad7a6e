//! First-run bootstrap: the bundled catalog files are looked for in an
//! ordered list of candidate directories and the first one found is copied
//! into the settings directory. The library decides what to try next; the
//! caller performs the copy and reports how it went.

use vstd::prelude::*;
use vstd::string::*;
use crate::error::{SettingsError, SettingsErrorView};
use crate::paths::{
    endpoint_filename, endpoints_filename, get_endpoint_file_path, get_settings_path, join_path,
    joined_path, SETTINGS_FILENAME,
};
use crate::settings::{AppMode, SettingsFile, SettingsFileView};
use crate::text::text_view;

verus! {

/// Name of the subdirectory in which packaging may place bundled files.
pub const RESOURCES_SUBDIR: &'static str = "resources";

/// The directories searched for bundled files, in order: the packaged
/// resource directory and its `resources` subdirectory, then the directory
/// of the executable and its `resources` subdirectory. A directory that is
/// not known contributes nothing.
pub open spec fn resource_dirs(resource_dir: Option<Seq<char>>, exe_dir: Option<Seq<char>>) -> Seq<
    Seq<char>,
> {
    let packaged = match resource_dir {
        Some(dir) => seq![dir, joined_path(dir, RESOURCES_SUBDIR@)],
        None => Seq::empty(),
    };
    let beside = match exe_dir {
        Some(dir) => seq![dir, joined_path(dir, RESOURCES_SUBDIR@)],
        None => Seq::empty(),
    };
    packaged + beside
}

/// The file `filename` in each of `dirs`, in order.
pub open spec fn sources_in(dirs: Seq<Seq<char>>, filename: Seq<char>) -> Seq<Seq<char>> {
    Seq::new(dirs.len(), |i: int| joined_path(dirs[i], filename))
}

/// The directories searched for bundled files, in order.
pub fn resource_candidates(resource_dir: Option<&str>, exe_dir: Option<&str>) -> (dirs: Vec<String>)
    ensures
        dirs.deep_view() == resource_dirs(text_view(resource_dir), text_view(exe_dir)),
{
    let mut dirs: Vec<String> = Vec::new();
    if let Some(dir) = resource_dir {
        dirs.push(dir.to_owned());
        dirs.push(join_path(dir, RESOURCES_SUBDIR));
    }
    if let Some(dir) = exe_dir {
        dirs.push(dir.to_owned());
        dirs.push(join_path(dir, RESOURCES_SUBDIR));
    }
    proof {
        assert(dirs.deep_view() =~= resource_dirs(text_view(resource_dir), text_view(exe_dir)));
    }
    dirs
}

/// How the attempt to copy one candidate went.
#[derive(Debug, Clone, Copy, PartialEq, Eq, Structural)]
pub enum CopyOutcome {
    /// The candidate does not exist.
    Missing,
    /// The candidate exists and could not be copied.
    Failed,
    /// The candidate was copied to the target.
    Copied,
}

/// The search for one bundled file.
#[derive(Debug, PartialEq, Eq)]
pub struct Bootstrap {
    target: String,
    sources: Vec<String>,
    next: usize,
    present: bool,
}

/// View of a [`Bootstrap`].
pub struct BootstrapView {
    /// Where the file belongs.
    pub target: Seq<char>,
    /// The candidates, in the order in which they are tried.
    pub sources: Seq<Seq<char>>,
    /// How many candidates have been tried.
    pub next: nat,
    /// Whether the target exists: it did at the start, or a candidate was
    /// copied.
    pub present: bool,
}

/// Whether nothing is left to try: the target exists or every candidate
/// has been tried.
pub open spec fn finished(s: BootstrapView) -> bool {
    s.present || s.next >= s.sources.len()
}

/// The search after the outcome of the candidate in turn. A finished
/// search stays as it is.
pub open spec fn after_outcome(s: BootstrapView, outcome: CopyOutcome) -> BootstrapView {
    if finished(s) {
        s
    } else {
        BootstrapView { next: s.next + 1, present: outcome == CopyOutcome::Copied, ..s }
    }
}

/// The search after a run of outcomes, one per candidate tried.
pub open spec fn after_outcomes(s: BootstrapView, outcomes: Seq<CopyOutcome>) -> BootstrapView
    decreases outcomes.len(),
{
    if outcomes.len() == 0 {
        s
    } else {
        after_outcome(after_outcomes(s, outcomes.drop_last()), outcomes.last())
    }
}

/// Text of the error for a catalog that is neither in the settings
/// directory nor among the candidates.
pub open spec fn missing_message(target: Seq<char>) -> Seq<char> {
    "Endpoint file not found: "@ + target
}

/// Position of the first `Copied` in a run of outcomes, if there is one.
pub open spec fn first_copied(outcomes: Seq<CopyOutcome>) -> Option<int>
    decreases outcomes.len(),
{
    if outcomes.len() == 0 {
        None
    } else {
        match first_copied(outcomes.drop_last()) {
            Some(i) => Some(i),
            None => if outcomes.last() == CopyOutcome::Copied {
                Some(outcomes.len() - 1)
            } else {
                None
            },
        }
    }
}

/// A search for a missing file, before anything has been tried.
pub open spec fn fresh_search(target: Seq<char>, sources: Seq<Seq<char>>) -> BootstrapView {
    BootstrapView { target, sources, next: 0, present: false }
}

/// The candidates are tried in order and the search stops at the first
/// one that is copied: after the outcomes of the first `outcomes.len()`
/// candidates, the target exists if and only if one of them was copied, and
/// then exactly the candidates up to the first such one have been tried;
/// otherwise all of them have been tried.
pub proof fn lemma_first_success_wins(
    target: Seq<char>,
    sources: Seq<Seq<char>>,
    outcomes: Seq<CopyOutcome>,
)
    requires
        outcomes.len() <= sources.len(),
    ensures
        ({
            let end = after_outcomes(fresh_search(target, sources), outcomes);
            &&& end.target == target
            &&& end.sources == sources
            &&& match first_copied(outcomes) {
                Some(i) => end.present && end.next == i + 1 && 0 <= i < outcomes.len()
                    && outcomes[i] == CopyOutcome::Copied,
                None => !end.present && end.next == outcomes.len(),
            }
        }),
    decreases outcomes.len(),
{
    if outcomes.len() > 0 {
        lemma_first_success_wins(target, sources, outcomes.drop_last());
    }
}

/// With one outcome per candidate the search is finished, and it ends
/// without the file if and only if no candidate was copied.
pub proof fn lemma_search_exhausts(
    target: Seq<char>,
    sources: Seq<Seq<char>>,
    outcomes: Seq<CopyOutcome>,
)
    requires
        outcomes.len() == sources.len(),
    ensures
        finished(after_outcomes(fresh_search(target, sources), outcomes)),
        !after_outcomes(fresh_search(target, sources), outcomes).present <==> first_copied(
            outcomes,
        ) is None,
{
    lemma_first_success_wins(target, sources, outcomes);
}

/// A file that is in place is left alone: whatever is reported, no
/// candidate is tried.
pub proof fn lemma_present_target_untouched(s: BootstrapView, outcomes: Seq<CopyOutcome>)
    requires
        s.present,
    ensures
        after_outcomes(s, outcomes) == s,
    decreases outcomes.len(),
{
    if outcomes.len() > 0 {
        lemma_present_target_untouched(s, outcomes.drop_last());
    }
}

/// The search for the catalog of a mode: the file belongs in the settings
/// directory, and the candidates are the files of its name in the resource
/// directories.
pub open spec fn catalog_search(
    mode: AppMode,
    settings_dir: Seq<char>,
    target_exists: bool,
    resource_dir: Option<Seq<char>>,
    exe_dir: Option<Seq<char>>,
) -> BootstrapView {
    BootstrapView {
        target: joined_path(settings_dir, endpoints_filename(mode)),
        sources: sources_in(resource_dirs(resource_dir, exe_dir), endpoints_filename(mode)),
        next: 0,
        present: target_exists,
    }
}

impl View for Bootstrap {
    type V = BootstrapView;

    closed spec fn view(&self) -> BootstrapView {
        BootstrapView {
            target: self.target@,
            sources: self.sources.deep_view(),
            next: self.next as nat,
            present: self.present,
        }
    }
}

impl Bootstrap {
    /// A search has tried no more candidates than it has.
    #[verifier::type_invariant]
    spec fn well_formed(&self) -> bool {
        self.next <= self.sources.len()
    }

    /// Starts a search. `target_exists` says whether the file is already
    /// where it belongs; the search is then finished at once.
    pub fn new(target: String, target_exists: bool, sources: Vec<String>) -> (search: Bootstrap)
        ensures
            search@ == (BootstrapView {
                target: target@,
                sources: sources.deep_view(),
                next: 0,
                present: target_exists,
            }),
    {
        Bootstrap { target, sources, next: 0, present: target_exists }
    }

    /// The candidate to copy next, or `None` when the search is finished.
    pub fn next_source(&self) -> (source: Option<String>)
        ensures
            source.deep_view() == if finished(self@) {
                None::<Seq<char>>
            } else {
                Some(self@.sources[self@.next as int])
            },
    {
        proof {
            use_type_invariant(self);
        }
        if self.present || self.next >= self.sources.len() {
            None
        } else {
            Some(self.sources[self.next].clone())
        }
    }

    /// Where the file belongs.
    pub fn target(&self) -> (target: String)
        ensures
            target@ == self@.target,
    {
        self.target.clone()
    }

    /// Whether the target exists.
    pub fn is_present(&self) -> (present: bool)
        ensures
            present == self@.present,
    {
        self.present
    }

    /// Takes note of how copying the candidate in turn went. After
    /// `Copied` the search is finished; after `Missing` or `Failed` the
    /// next candidate is in turn.
    pub fn record(&mut self, outcome: CopyOutcome)
        ensures
            final(self)@ == after_outcome(old(self)@, outcome),
    {
        proof {
            use_type_invariant(&*self);
        }
        if !self.present && self.next < self.sources.len() {
            self.next = self.next + 1;
            self.present = matches!(outcome, CopyOutcome::Copied);
        }
    }

    /// The path to read the file from, or the error for a file that is
    /// neither in place nor among the candidates.
    pub fn finish(&self) -> (path: Result<String, SettingsError>)
        ensures
            crate::error::outcome_view(path) == if self@.present {
                Ok::<Seq<char>, SettingsErrorView>(self@.target)
            } else {
                Err(SettingsErrorView::NotFound(missing_message(self@.target)))
            },
    {
        if self.present {
            Ok(self.target.clone())
        } else {
            let mut message = "Endpoint file not found: ".to_string();
            message.append(self.target.as_str());
            Err(SettingsError::NotFound(message))
        }
    }
}

impl DeepView for Bootstrap {
    type V = BootstrapView;

    open spec fn deep_view(&self) -> BootstrapView {
        self.view()
    }
}

/// The file `filename` in each of `dirs`, in order.
pub fn sources_for(dirs: &Vec<String>, filename: &str) -> (sources: Vec<String>)
    ensures
        sources.deep_view() == sources_in(dirs.deep_view(), filename@),
{
    let mut sources: Vec<String> = Vec::new();
    let mut i: usize = 0;
    while i < dirs.len()
        invariant
            i <= dirs.len(),
            sources.deep_view() == sources_in(dirs.deep_view().take(i as int), filename@),
        decreases dirs.len() - i,
    {
        let source = join_path(dirs[i].as_str(), filename);
        let ghost prev = sources.deep_view();
        sources.push(source);
        proof {
            assert(sources.deep_view() =~= prev.push(source@));
            assert(sources.deep_view() =~= sources_in(
                dirs.deep_view().take(i + 1),
                filename@,
            ));
        }
        i += 1;
    }
    proof {
        assert(dirs.deep_view().take(i as int) =~= dirs.deep_view());
    }
    sources
}

/// Starts loading the catalog of `mode` from `settings_dir`.
/// `target_exists` says whether the catalog file is already there. The
/// search that comes back says which bundled file to copy first, if any;
/// once it is finished, `Bootstrap::finish` names the file to read.
pub fn load_endpoint_file(
    mode: &AppMode,
    settings_dir: &str,
    target_exists: bool,
    resource_dir: Option<&str>,
    exe_dir: Option<&str>,
) -> (search: Bootstrap)
    ensures
        search@ == catalog_search(
            *mode,
            settings_dir@,
            target_exists,
            text_view(resource_dir),
            text_view(exe_dir),
        ),
{
    let dirs = resource_candidates(resource_dir, exe_dir);
    let sources = sources_for(&dirs, endpoint_filename(mode));
    Bootstrap::new(get_endpoint_file_path(mode, settings_dir), target_exists, sources)
}

/// What the first run has to do.
#[derive(Debug, PartialEq, Eq)]
pub struct Initialization {
    /// Where the settings document lives.
    pub settings_path: String,
    /// The document to save there, where none exists yet.
    pub default_settings: Option<SettingsFile>,
    /// The searches for the catalogs, session host first. A search that
    /// ends without its file is no failure of the first run.
    pub catalogs: Vec<Bootstrap>,
}

/// View of an [`Initialization`].
pub struct InitializationView {
    pub settings_path: Seq<char>,
    pub default_settings: Option<SettingsFileView>,
    pub catalogs: Seq<BootstrapView>,
}

impl View for Initialization {
    type V = InitializationView;

    open spec fn view(&self) -> InitializationView {
        InitializationView {
            settings_path: self.settings_path@,
            default_settings: self.default_settings.deep_view(),
            catalogs: self.catalogs.deep_view(),
        }
    }
}

/// What the first run has to do in a settings directory.
pub open spec fn initialization(
    settings_dir: Seq<char>,
    settings_exists: bool,
    sessionhost_exists: bool,
    enduser_exists: bool,
    resource_dir: Option<Seq<char>>,
    exe_dir: Option<Seq<char>>,
) -> InitializationView {
    InitializationView {
        settings_path: joined_path(settings_dir, SETTINGS_FILENAME@),
        default_settings: if settings_exists {
            None
        } else {
            Some(crate::settings::default_settings())
        },
        catalogs: seq![
            catalog_search(
                AppMode::SessionHost,
                settings_dir,
                sessionhost_exists,
                resource_dir,
                exe_dir,
            ),
            catalog_search(AppMode::EndUser, settings_dir, enduser_exists, resource_dir, exe_dir),
        ],
    }
}

/// Plans the first run: a default settings document is created where none
/// exists, and each catalog that is not yet in the settings directory is
/// searched for among the bundled files.
pub fn initialize_settings(
    settings_dir: &str,
    settings_exists: bool,
    sessionhost_exists: bool,
    enduser_exists: bool,
    resource_dir: Option<&str>,
    exe_dir: Option<&str>,
) -> (plan: Initialization)
    ensures
        plan@ == initialization(
            settings_dir@,
            settings_exists,
            sessionhost_exists,
            enduser_exists,
            text_view(resource_dir),
            text_view(exe_dir),
        ),
{
    let default_settings = if settings_exists {
        None
    } else {
        Some(SettingsFile::default())
    };
    let mut catalogs: Vec<Bootstrap> = Vec::new();
    catalogs.push(
        load_endpoint_file(
            &AppMode::SessionHost,
            settings_dir,
            sessionhost_exists,
            resource_dir,
            exe_dir,
        ),
    );
    catalogs.push(
        load_endpoint_file(&AppMode::EndUser, settings_dir, enduser_exists, resource_dir, exe_dir),
    );
    let plan = Initialization {
        settings_path: get_settings_path(settings_dir),
        default_settings,
        catalogs,
    };
    proof {
        assert(plan@.catalogs =~= initialization(
            settings_dir@,
            settings_exists,
            sessionhost_exists,
            enduser_exists,
            text_view(resource_dir),
            text_view(exe_dir),
        ).catalogs);
    }
    plan
}

} // verus!
