//! FSLogix profile storage: the network paths that the containers are
//! configured with, and their persisted mute flags.

use vstd::prelude::*;
use vstd::string::*;
use crate::settings::{FSLogixPathState, FSLogixPathStateView, SettingsFile, SettingsFileView};
use crate::text::{
    decimal, first_segment, lemma_split_first, split, split_on, starts_with, strip_leading,
    to_decimal, trim, trimmed, without_leading,
};

verus! {

/// Registry key, under the local machine, of the profile containers.
pub const PROFILES_KEY: &'static str = "SOFTWARE\\FSLogix\\Profiles";

/// Registry key, under the local machine, of the Office containers.
pub const ODFC_KEY: &'static str = "SOFTWARE\\Policies\\FSLogix\\ODFC";

/// Name of the registry value that lists the storage locations.
pub const VHD_LOCATIONS_VALUE: &'static str = "VHDLocations";

/// The port of the file sharing protocol, on which a storage host is
/// probed.
pub const SMB_PORT: u16 = 445;

/// One configured storage path.
#[derive(Debug, PartialEq, Eq)]
pub struct FSLogixPath {
    /// `fslogix-`, the container type, a hyphen and the position of the
    /// path in its list.
    pub id: String,
    /// Container type: `profile` or `odfc`.
    pub path_type: String,
    /// The full network path, such as `\\host\share`.
    pub path: String,
    /// The host of the path.
    pub hostname: String,
    pub port: u16,
    /// Whether alerts for the path are suppressed, where that is known.
    pub muted: Option<bool>,
}

/// View of an [`FSLogixPath`].
pub struct FSLogixPathView {
    pub id: Seq<char>,
    pub path_type: Seq<char>,
    pub path: Seq<char>,
    pub hostname: Seq<char>,
    pub port: u16,
    pub muted: Option<bool>,
}

impl View for FSLogixPath {
    type V = FSLogixPathView;

    open spec fn view(&self) -> FSLogixPathView {
        FSLogixPathView {
            id: self.id@,
            path_type: self.path_type@,
            path: self.path@,
            hostname: self.hostname@,
            port: self.port,
            muted: self.muted,
        }
    }
}

impl DeepView for FSLogixPath {
    type V = FSLogixPathView;

    open spec fn deep_view(&self) -> FSLogixPathView {
        self.view()
    }
}

impl Clone for FSLogixPath {
    fn clone(&self) -> (r: Self)
        ensures
            r@ == self@,
    {
        FSLogixPath {
            id: self.id.clone(),
            path_type: self.path_type.clone(),
            path: self.path.clone(),
            hostname: self.hostname.clone(),
            port: self.port,
            muted: self.muted,
        }
    }
}

/// The host of a network path: what stands between the leading
/// backslashes and the next backslash, if that is not empty.
pub open spec fn hostname_of(unc_path: Seq<char>) -> Option<Seq<char>> {
    let host = first_segment(without_leading(unc_path, "\\"@), '\\');
    if host.len() == 0 {
        None
    } else {
        Some(host)
    }
}

/// Extracts the host from a network path such as `\\host\share` or
/// `\\host\share\folder`.
pub fn extract_hostname(unc_path: &str) -> (hostname: Option<String>)
    ensures
        hostname.deep_view() == hostname_of(unc_path@),
{
    let trimmed = strip_leading(unc_path, "\\");
    let pieces = split_on(trimmed.as_str(), '\\');
    proof {
        lemma_split_first(trimmed@, '\\');
        assert(pieces.deep_view().len() == pieces.len());
        assert(pieces.deep_view()[0] == pieces[0]@);
    }
    if pieces[0].as_str().unicode_len() == 0 {
        None
    } else {
        Some(pieces[0].clone())
    }
}

/// Whether a text is a network path: it begins with two backslashes.
pub open spec fn is_unc(s: Seq<char>) -> bool {
    "\\\\"@.is_prefix_of(s)
}

/// Of a run of pieces, those that are network paths once trimmed, in
/// order and trimmed.
pub open spec fn unc_paths(pieces: Seq<Seq<char>>) -> Seq<Seq<char>>
    decreases pieces.len(),
{
    if pieces.len() == 0 {
        Seq::empty()
    } else {
        let front = unc_paths(pieces.drop_last());
        let piece = trimmed(pieces.last());
        if piece.len() > 0 && is_unc(piece) {
            front.push(piece)
        } else {
            front
        }
    }
}

/// The storage locations in the text of a registry value: its pieces
/// between semicolons, trimmed, of which only network paths count.
pub open spec fn vhd_locations(value: Seq<char>) -> Seq<Seq<char>> {
    unc_paths(split(value, ';'))
}

/// Parses the text of a registry value that lists storage locations
/// separated by semicolons.
pub fn parse_vhd_locations(value: &str) -> (locations: Vec<String>)
    ensures
        locations.deep_view() == vhd_locations(value@),
{
    let pieces = split_on(value, ';');
    let mut locations: Vec<String> = Vec::new();
    let mut i: usize = 0;
    assert(locations.deep_view() =~= Seq::empty());
    assert(pieces.deep_view().take(0) =~= Seq::empty());
    while i < pieces.len()
        invariant
            i <= pieces.len(),
            locations.deep_view() == unc_paths(pieces.deep_view().take(i as int)),
        decreases pieces.len() - i,
    {
        let piece = trim(pieces[i].as_str());
        proof {
            let next = pieces.deep_view().take(i + 1);
            assert(next.drop_last() =~= pieces.deep_view().take(i as int));
            assert(next.last() == pieces[i as int]@);
        }
        if piece.as_str().unicode_len() > 0 && starts_with(piece.as_str(), "\\\\") {
            let ghost before = locations.deep_view();
            locations.push(piece);
            proof {
                assert(locations.deep_view() =~= before.push(piece@));
            }
        }
        i += 1;
    }
    proof {
        assert(pieces.deep_view().take(i as int) =~= pieces.deep_view());
    }
    locations
}

/// What the registry holds under the name of the storage locations.
#[derive(Debug, PartialEq, Eq)]
pub enum RegistryValue {
    /// The key or the value is absent, or the value is of another kind.
    Absent,
    /// A single text.
    Text(String),
    /// A list of texts.
    Multi(Vec<String>),
}

/// View of a [`RegistryValue`].
pub enum RegistryValueView {
    Absent,
    Text(Seq<char>),
    Multi(Seq<Seq<char>>),
}

impl View for RegistryValue {
    type V = RegistryValueView;

    open spec fn view(&self) -> RegistryValueView {
        match self {
            RegistryValue::Absent => RegistryValueView::Absent,
            RegistryValue::Text(t) => RegistryValueView::Text(t@),
            RegistryValue::Multi(ts) => RegistryValueView::Multi(ts.deep_view()),
        }
    }
}

/// The storage locations in a run of texts: those of each text, in order.
pub open spec fn all_vhd_locations(values: Seq<Seq<char>>) -> Seq<Seq<char>>
    decreases values.len(),
{
    if values.len() == 0 {
        Seq::empty()
    } else {
        all_vhd_locations(values.drop_last()) + vhd_locations(values.last())
    }
}

/// The storage locations that a registry value lists.
pub open spec fn value_locations(value: RegistryValueView) -> Seq<Seq<char>> {
    match value {
        RegistryValueView::Absent => Seq::empty(),
        RegistryValueView::Text(t) => vhd_locations(t),
        RegistryValueView::Multi(ts) => all_vhd_locations(ts),
    }
}

/// The storage locations that a registry value lists.
pub fn read_vhd_locations(value: &RegistryValue) -> (locations: Vec<String>)
    ensures
        locations.deep_view() == value_locations(value@),
{
    match value {
        RegistryValue::Absent => {
            let locations: Vec<String> = Vec::new();
            assert(locations.deep_view() =~= Seq::empty());
            locations
        },
        RegistryValue::Text(t) => parse_vhd_locations(t.as_str()),
        RegistryValue::Multi(ts) => {
            let mut locations: Vec<String> = Vec::new();
            let mut i: usize = 0;
            assert(locations.deep_view() =~= Seq::empty());
            assert(ts.deep_view().take(0) =~= Seq::empty());
            while i < ts.len()
                invariant
                    i <= ts.len(),
                    locations.deep_view() == all_vhd_locations(ts.deep_view().take(i as int)),
                decreases ts.len() - i,
            {
                let mut found = parse_vhd_locations(ts[i].as_str());
                let ghost before = locations.deep_view();
                let ghost added = found.deep_view();
                proof {
                    let next = ts.deep_view().take(i + 1);
                    assert(next.drop_last() =~= ts.deep_view().take(i as int));
                    assert(next.last() == ts[i as int]@);
                }
                locations.append(&mut found);
                proof {
                    assert(locations.deep_view() =~= before + added);
                }
                i += 1;
            }
            proof {
                assert(ts.deep_view().take(i as int) =~= ts.deep_view());
            }
            locations
        },
    }
}

/// The id of the path at position `index` of the list of a container
/// type.
pub open spec fn path_id(kind: Seq<char>, index: nat) -> Seq<char> {
    "fslogix-"@ + kind + "-"@ + decimal(index)
}

/// The storage paths of one container type: one for each location that
/// has a host, numbered by the position of the location in the list.
pub open spec fn container_paths(kind: Seq<char>, locations: Seq<Seq<char>>) -> Seq<
    FSLogixPathView,
>
    decreases locations.len(),
{
    if locations.len() == 0 {
        Seq::empty()
    } else {
        let front = container_paths(kind, locations.drop_last());
        match hostname_of(locations.last()) {
            Some(hostname) => front.push(
                FSLogixPathView {
                    id: path_id(kind, (locations.len() - 1) as nat),
                    path_type: kind,
                    path: locations.last(),
                    hostname,
                    port: SMB_PORT,
                    muted: None,
                },
            ),
            None => front,
        }
    }
}

/// Appends to `paths` the storage paths of one container type.
fn push_container_paths(paths: &mut Vec<FSLogixPath>, kind: &str, locations: &Vec<String>)
    ensures
        final(paths).deep_view() == old(paths).deep_view() + container_paths(
            kind@,
            locations.deep_view(),
        ),
{
    let ghost before = paths.deep_view();
    let mut i: usize = 0;
    assert(locations.deep_view().take(0) =~= Seq::empty());
    while i < locations.len()
        invariant
            i <= locations.len(),
            paths.deep_view() == before + container_paths(
                kind@,
                locations.deep_view().take(i as int),
            ),
        decreases locations.len() - i,
    {
        proof {
            let next = locations.deep_view().take(i + 1);
            assert(next.drop_last() =~= locations.deep_view().take(i as int));
            assert(next.last() == locations[i as int]@);
        }
        if let Some(hostname) = extract_hostname(locations[i].as_str()) {
            let mut id = "fslogix-".to_string();
            id.append(kind);
            id.append("-");
            id.append(to_decimal(i as u64).as_str());
            let path = FSLogixPath {
                id,
                path_type: kind.to_owned(),
                path: locations[i].clone(),
                hostname,
                port: SMB_PORT,
                muted: None,
            };
            let ghost prev = paths.deep_view();
            paths.push(path);
            proof {
                assert(paths.deep_view() =~= prev.push(path@));
            }
        }
        i += 1;
    }
    proof {
        assert(locations.deep_view().take(i as int) =~= locations.deep_view());
    }
}

/// The configured storage paths: those of the profile containers, then
/// those of the Office containers. The arguments are what the registry
/// holds for the two.
pub fn get_fslogix_paths(profiles: &RegistryValue, odfc: &RegistryValue) -> (paths: Vec<
    FSLogixPath,
>)
    ensures
        paths.deep_view() == container_paths("profile"@, value_locations(profiles@))
            + container_paths("odfc"@, value_locations(odfc@)),
{
    let mut paths: Vec<FSLogixPath> = Vec::new();
    assert(paths.deep_view() =~= Seq::empty());
    let profile_locations = read_vhd_locations(profiles);
    push_container_paths(&mut paths, "profile", &profile_locations);
    let odfc_locations = read_vhd_locations(odfc);
    push_container_paths(&mut paths, "odfc", &odfc_locations);
    paths
}

/// Position of the first state with the id.
pub open spec fn first_state(states: Seq<FSLogixPathStateView>, id: Seq<char>) -> Option<int>
    decreases states.len(),
{
    if states.len() == 0 {
        None
    } else {
        match first_state(states.drop_last(), id) {
            Some(i) => Some(i),
            None => if states.last().id == id {
                Some(states.len() - 1)
            } else {
                None
            },
        }
    }
}

/// A path with the persisted mute flag of its id, where one is persisted.
pub open spec fn with_muted_state(
    path: FSLogixPathView,
    states: Seq<FSLogixPathStateView>,
) -> FSLogixPathView {
    match first_state(states, path.id) {
        Some(i) => FSLogixPathView { muted: Some(states[i].muted), ..path },
        None => path,
    }
}

/// The paths, each with its persisted mute flag.
pub open spec fn with_muted_states(
    paths: Seq<FSLogixPathView>,
    states: Seq<FSLogixPathStateView>,
) -> Seq<FSLogixPathView> {
    Seq::new(paths.len(), |i: int| with_muted_state(paths[i], states))
}

/// The states after the mute flag of an id was set: the first state with
/// the id carries the flag; without one, a state for the id is added at the
/// end.
pub open spec fn set_muted(states: Seq<FSLogixPathStateView>, id: Seq<char>, muted: bool) -> Seq<
    FSLogixPathStateView,
> {
    match first_state(states, id) {
        Some(i) => states.update(i, FSLogixPathStateView { id: states[i].id, muted }),
        None => states.push(FSLogixPathStateView { id, muted }),
    }
}

/// What is found first in a front part of a run is found first in the
/// whole run.
proof fn lemma_first_state_stays(states: Seq<FSLogixPathStateView>, id: Seq<char>, n: int)
    requires
        0 <= n <= states.len(),
        first_state(states.take(n), id) is Some,
    ensures
        first_state(states, id) == first_state(states.take(n), id),
    decreases states.len() - n,
{
    if n < states.len() {
        let next = states.take(n + 1);
        assert(next.drop_last() =~= states.take(n));
        lemma_first_state_stays(states, id, n + 1);
    } else {
        assert(states.take(n) =~= states);
    }
}

/// Position of the first state with the id.
fn find_state(states: &Vec<FSLogixPathState>, id: &String) -> (found: Option<usize>)
    ensures
        match found {
            Some(i) => first_state(states.deep_view(), id@) == Some(i as int) && i < states.len(),
            None => first_state(states.deep_view(), id@) is None,
        },
{
    let mut i: usize = 0;
    assert(states.deep_view().take(0) =~= Seq::empty());
    while i < states.len()
        invariant
            i <= states.len(),
            first_state(states.deep_view().take(i as int), id@) is None,
        decreases states.len() - i,
    {
        let hit = states[i].id == *id;
        proof {
            let next = states.deep_view().take(i + 1);
            assert(next.drop_last() =~= states.deep_view().take(i as int));
            assert(next.last() == states[i as int]@);
            if hit {
                lemma_first_state_stays(states.deep_view(), id@, i + 1);
            }
        }
        if hit {
            return Some(i);
        }
        i += 1;
    }
    proof {
        assert(states.deep_view().take(i as int) =~= states.deep_view());
    }
    None
}

/// Gives each path the persisted mute flag of its id. A path without a
/// persisted state keeps the flag it has.
pub fn apply_muted_states(paths: &mut Vec<FSLogixPath>, states: &Vec<FSLogixPathState>)
    ensures
        final(paths).deep_view() == with_muted_states(old(paths).deep_view(), states.deep_view()),
{
    let ghost before = paths.deep_view();
    let n = paths.len();
    let mut i: usize = 0;
    while i < n
        invariant
            n == paths.len(),
            i <= n,
            before.len() == n,
            forall|j: int|
                0 <= j < i ==> (#[trigger] paths.deep_view()[j]) == with_muted_state(
                    before[j],
                    states.deep_view(),
                ),
            forall|j: int| i <= j < n ==> (#[trigger] paths.deep_view()[j]) == before[j],
        decreases n - i,
    {
        let found = find_state(states, &paths[i].id);
        let ghost prev = paths.deep_view();
        assert(prev[i as int] == paths[i as int]@);
        if let Some(si) = found {
            let muted = states[si].muted;
            assert(states.deep_view()[si as int] == states[si as int]@);
            let path = &mut paths[i];
            path.muted = Some(muted);
        }
        proof {
            let now = paths.deep_view();
            assert(now[i as int] == paths[i as int]@);
            assert forall|j: int| 0 <= j < n && j != i implies (#[trigger] now[j]) == prev[j] by {
                assert(now[j] == paths[j]@);
            }
        }
        i += 1;
    }
    proof {
        assert(paths.deep_view() =~= with_muted_states(before, states.deep_view()));
    }
}

/// Persists the mute flag of a storage path in the settings: the first
/// state of the id is overwritten, or a state is added.
pub fn update_fslogix_path_muted(settings: &mut SettingsFile, path_id: String, muted: bool)
    ensures
        final(settings)@ == (SettingsFileView {
            fslogix_path_states: set_muted(old(settings)@.fslogix_path_states, path_id@, muted),
            ..old(settings)@
        }),
{
    let ghost before = settings@;
    let found = find_state(&settings.fslogix_path_states, &path_id);
    match found {
        Some(i) => {
            let ghost states0 = settings.fslogix_path_states@;
            assert(before.fslogix_path_states[i as int] == states0[i as int]@);
            let state = &mut settings.fslogix_path_states[i];
            state.muted = muted;
            proof {
                let states1 = settings.fslogix_path_states@;
                assert(states1.len() == states0.len());
                assert forall|j: int| 0 <= j < states0.len() && j != i implies states1[j]
                    == states0[j] by {}
                assert(settings@.fslogix_path_states =~= set_muted(
                    before.fslogix_path_states,
                    path_id@,
                    muted,
                ));
            }
        },
        None => {
            let state = FSLogixPathState { id: path_id, muted };
            settings.fslogix_path_states.push(state);
            proof {
                assert(settings@.fslogix_path_states =~= set_muted(
                    before.fslogix_path_states,
                    path_id@,
                    muted,
                ));
            }
        },
    }
}

} // verus!
