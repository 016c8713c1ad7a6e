//! Changes to a single definition of a catalog, identified by its id. The
//! first definition with the id, in category order and then definition
//! order, takes the change; no other one is touched.

use vstd::prelude::*;
use vstd::string::*;
use crate::settings::{
    EndpointCategoryView, EndpointDefinition, EndpointDefinitionView, EndpointFile,
    EndpointFileView,
};

verus! {

/// The fields that a change may overwrite; `None` leaves a field as it is.
pub struct Patch {
    pub enabled: Option<bool>,
    pub muted: Option<bool>,
    pub name: Option<Seq<char>>,
    pub url: Option<Seq<char>>,
    pub port: Option<u16>,
}

/// A definition after a change: the fields that the change names are
/// overwritten, all others are kept.
pub open spec fn patched(d: EndpointDefinitionView, patch: Patch) -> EndpointDefinitionView {
    EndpointDefinitionView {
        enabled: match patch.enabled {
            Some(e) => e,
            None => d.enabled,
        },
        muted: match patch.muted {
            Some(m) => Some(m),
            None => d.muted,
        },
        name: match patch.name {
            Some(n) => n,
            None => d.name,
        },
        url: match patch.url {
            Some(u) => u,
            None => d.url,
        },
        port: match patch.port {
            Some(p) => Some(p),
            None => d.port,
        },
        ..d
    }
}

/// Position of the first definition with the id in a run of definitions.
pub open spec fn first_with_id(ds: Seq<EndpointDefinitionView>, id: Seq<char>) -> Option<int>
    decreases ds.len(),
{
    if ds.len() == 0 {
        None
    } else {
        match first_with_id(ds.drop_last(), id) {
            Some(i) => Some(i),
            None => if ds.last().id == id {
                Some(ds.len() - 1)
            } else {
                None
            },
        }
    }
}

/// Category and position in it of the first definition with the id in a
/// run of categories.
pub open spec fn first_match(cs: Seq<EndpointCategoryView>, id: Seq<char>) -> Option<(int, int)>
    decreases cs.len(),
{
    if cs.len() == 0 {
        None
    } else {
        match first_match(cs.drop_last(), id) {
            Some(at) => Some(at),
            None => match first_with_id(cs.last().endpoints, id) {
                Some(d) => Some((cs.len() - 1, d)),
                None => None,
            },
        }
    }
}

/// The catalog with the definition at position `d` of category `c`
/// replaced.
pub open spec fn with_definition(
    f: EndpointFileView,
    c: int,
    d: int,
    definition: EndpointDefinitionView,
) -> EndpointFileView {
    EndpointFileView {
        categories: f.categories.update(
            c,
            EndpointCategoryView {
                endpoints: f.categories[c].endpoints.update(d, definition),
                ..f.categories[c]
            },
        ),
        ..f
    }
}

/// The catalog after a change to the definition with the id: the first
/// such definition is patched; without one the catalog is as before.
pub open spec fn updated_catalog(
    f: EndpointFileView,
    id: Seq<char>,
    patch: Patch,
) -> EndpointFileView {
    match first_match(f.categories, id) {
        Some((c, d)) => with_definition(f, c, d, patched(f.categories[c].endpoints[d], patch)),
        None => f,
    }
}

/// Whether some definition of the categories has the id.
pub open spec fn has_definition(cs: Seq<EndpointCategoryView>, id: Seq<char>) -> bool {
    exists|c: int, d: int|
        0 <= c < cs.len() && 0 <= d < cs[c].endpoints.len() && (#[trigger] cs[c].endpoints[d]).id
            == id
}

/// `first_with_id` gives the least position of a definition with the id,
/// and none exactly where no definition has it.
pub proof fn lemma_first_with_id(ds: Seq<EndpointDefinitionView>, id: Seq<char>)
    ensures
        match first_with_id(ds, id) {
            Some(i) => 0 <= i < ds.len() && ds[i].id == id && forall|j: int|
                0 <= j < i ==> (#[trigger] ds[j]).id != id,
            None => forall|j: int| 0 <= j < ds.len() ==> (#[trigger] ds[j]).id != id,
        },
    decreases ds.len(),
{
    if ds.len() > 0 {
        lemma_first_with_id(ds.drop_last(), id);
        assert forall|j: int| 0 <= j < ds.len() - 1 implies ds.drop_last()[j] == ds[j] by {}
    }
}

/// First match wins: `first_match` gives the first definition with the
/// id in category order and then definition order, and none exactly where
/// no definition has it.
pub proof fn lemma_first_match(cs: Seq<EndpointCategoryView>, id: Seq<char>)
    ensures
        match first_match(cs, id) {
            Some((c, d)) => {
                &&& 0 <= c < cs.len()
                &&& 0 <= d < cs[c].endpoints.len()
                &&& cs[c].endpoints[d].id == id
                &&& forall|d2: int| 0 <= d2 < d ==> (#[trigger] cs[c].endpoints[d2]).id != id
                &&& forall|c2: int, d2: int|
                    0 <= c2 < c && 0 <= d2 < cs[c2].endpoints.len() ==> (
                    #[trigger] cs[c2].endpoints[d2]).id != id
            },
            None => !has_definition(cs, id),
        },
    decreases cs.len(),
{
    if cs.len() > 0 {
        let front = cs.drop_last();
        lemma_first_match(front, id);
        lemma_first_with_id(cs.last().endpoints, id);
        assert forall|c: int| 0 <= c < front.len() implies front[c] == cs[c] by {}
        if first_match(front, id) is None {
            assert forall|c2: int, d2: int|
                0 <= c2 < cs.len() - 1 && 0 <= d2 < cs[c2].endpoints.len() implies (
            #[trigger] cs[c2].endpoints[d2]).id != id by {
                assert(front[c2].endpoints[d2] == cs[c2].endpoints[d2]);
            }
        }
    }
}

/// A change to an id that no definition has leaves the catalog as it is.
pub proof fn lemma_unknown_id_changes_nothing(f: EndpointFileView, id: Seq<char>, patch: Patch)
    requires
        !has_definition(f.categories, id),
    ensures
        updated_catalog(f, id, patch) == f,
{
    lemma_first_match(f.categories, id);
}

/// A change touches at most one definition: every definition but the
/// first one with the id is as before, a later one with the same id too,
/// and no definition or category is added or removed.
pub proof fn lemma_only_first_match_changes(f: EndpointFileView, id: Seq<char>, patch: Patch)
    ensures
        ({
            let g = updated_catalog(f, id, patch);
            &&& g.name == f.name
            &&& g.description == f.description
            &&& g.source == f.source
            &&& g.categories.len() == f.categories.len()
            &&& forall|c: int|
                0 <= c < f.categories.len() ==> {
                    &&& (#[trigger] g.categories[c]).name == f.categories[c].name
                    &&& g.categories[c].description == f.categories[c].description
                    &&& g.categories[c].endpoints.len() == f.categories[c].endpoints.len()
                }
            &&& forall|c: int, d: int|
                0 <= c < f.categories.len() && 0 <= d < f.categories[c].endpoints.len()
                    && first_match(f.categories, id) != Some((c, d)) ==> (
                #[trigger] g.categories[c].endpoints[d]) == f.categories[c].endpoints[d]
        }),
{
    lemma_first_match(f.categories, id);
}

/// Position of the first definition with the id among `ds`.
fn find_definition(ds: &Vec<EndpointDefinition>, endpoint_id: &String) -> (found: Option<usize>)
    ensures
        match found {
            Some(i) => first_with_id(ds.deep_view(), endpoint_id@) == Some(i as int) && i
                < ds.len(),
            None => first_with_id(ds.deep_view(), endpoint_id@) is None,
        },
{
    let mut i: usize = 0;
    while i < ds.len()
        invariant
            i <= ds.len(),
            first_with_id(ds.deep_view().take(i as int), endpoint_id@) is None,
        decreases ds.len() - i,
    {
        let hit = ds[i].id == *endpoint_id;
        proof {
            let next = ds.deep_view().take(i + 1);
            assert(next.drop_last() =~= ds.deep_view().take(i as int));
            if hit {
                lemma_first_found_stays(ds.deep_view(), endpoint_id@, i + 1);
            }
        }
        if hit {
            return Some(i);
        }
        i += 1;
    }
    proof {
        assert(ds.deep_view().take(i as int) =~= ds.deep_view());
    }
    None
}

/// What is found first in a front part of a run is found first in the
/// whole run.
proof fn lemma_first_found_stays(ds: Seq<EndpointDefinitionView>, id: Seq<char>, n: int)
    requires
        0 <= n <= ds.len(),
        first_with_id(ds.take(n), id) is Some,
    ensures
        first_with_id(ds, id) == first_with_id(ds.take(n), id),
    decreases ds.len() - n,
{
    if n < ds.len() {
        let next = ds.take(n + 1);
        assert(next.drop_last() =~= ds.take(n));
        lemma_first_found_stays(ds, id, n + 1);
    } else {
        assert(ds.take(n) =~= ds);
    }
}

/// What is found first in a front part of a run of categories is found
/// first in the whole run.
proof fn lemma_first_match_stays(cs: Seq<EndpointCategoryView>, id: Seq<char>, n: int)
    requires
        0 <= n <= cs.len(),
        first_match(cs.take(n), id) is Some,
    ensures
        first_match(cs, id) == first_match(cs.take(n), id),
    decreases cs.len() - n,
{
    if n < cs.len() {
        let next = cs.take(n + 1);
        assert(next.drop_last() =~= cs.take(n));
        lemma_first_match_stays(cs, id, n + 1);
    } else {
        assert(cs.take(n) =~= cs);
    }
}

/// Overwrites the fields of `ep` that the change names.
fn apply_patch(
    ep: &mut EndpointDefinition,
    enabled: Option<bool>,
    muted: Option<bool>,
    name: Option<String>,
    url: Option<String>,
    port: Option<u16>,
)
    ensures
        final(ep)@ == patched(
            old(ep)@,
            Patch {
                enabled,
                muted,
                name: name.deep_view(),
                url: url.deep_view(),
                port,
            },
        ),
{
    if let Some(e) = enabled {
        ep.enabled = e;
    }
    if let Some(m) = muted {
        ep.muted = Some(m);
    }
    if let Some(n) = name {
        ep.name = n;
    }
    if let Some(u) = url {
        ep.url = u;
    }
    if let Some(p) = port {
        ep.port = Some(p);
    }
}

/// Applies a change to the first definition of the catalog whose id is
/// `endpoint_id`. Only the fields given are overwritten. Without such a
/// definition the catalog stays as it is.
pub fn update_endpoint_state(
    endpoint_file: &mut EndpointFile,
    endpoint_id: &str,
    enabled: Option<bool>,
    muted: Option<bool>,
    name: Option<String>,
    url: Option<String>,
    port: Option<u16>,
)
    ensures
        final(endpoint_file)@ == updated_catalog(
            old(endpoint_file)@,
            endpoint_id@,
            Patch {
                enabled,
                muted,
                name: name.deep_view(),
                url: url.deep_view(),
                port,
            },
        ),
{
    let id = endpoint_id.to_owned();
    let ghost before = endpoint_file@;
    let mut ci: usize = 0;
    while ci < endpoint_file.categories.len()
        invariant
            endpoint_file@ == before,
            before == old(endpoint_file)@,
            id@ == endpoint_id@,
            ci <= endpoint_file.categories.len(),
            first_match(before.categories.take(ci as int), id@) is None,
        decreases endpoint_file.categories.len() - ci,
    {
        let found = find_definition(&endpoint_file.categories[ci].endpoints, &id);
        proof {
            let next = before.categories.take(ci + 1);
            assert(next.drop_last() =~= before.categories.take(ci as int));
        }
        if let Some(di) = found {
            proof {
                lemma_first_match_stays(before.categories, id@, ci + 1);
            }
            let ghost cats0 = endpoint_file.categories@;
            let ghost eps0 = endpoint_file.categories[ci as int].endpoints@;
            let category = &mut endpoint_file.categories[ci];
            let ep = &mut category.endpoints[di];
            apply_patch(ep, enabled, muted, name, url, port);
            proof {
                let patch = Patch {
                    enabled,
                    muted,
                    name: name.deep_view(),
                    url: url.deep_view(),
                    port,
                };
                let goal = updated_catalog(before, endpoint_id@, patch);
                let cats1 = endpoint_file.categories@;
                let eps1 = cats1[ci as int].endpoints@;
                assert forall|j: int| 0 <= j < eps0.len() && j != di implies eps1[j]
                    == eps0[j] by {}
                assert forall|j: int| 0 <= j < cats0.len() && j != ci implies cats1[j]
                    == cats0[j] by {}
                assert(endpoint_file@.categories[ci as int].endpoints
                    =~= goal.categories[ci as int].endpoints);
                assert(endpoint_file@.categories =~= goal.categories);
            }
            return ;
        }
        ci += 1;
    }
    proof {
        assert(before.categories.take(ci as int) =~= before.categories);
    }
}

} // verus!
