//! Resolution of a catalog and the custom endpoints into the endpoint list
//! that consumers probe and display.

use vstd::prelude::*;
use vstd::string::*;
use crate::settings::{
    AppConfigView, AppMode, CustomEndpoint, CustomEndpointView, Endpoint, EndpointCategoryView,
    EndpointDefinition, EndpointDefinitionView, EndpointFile, EndpointFileView, EndpointView,
    ModeInfo, ModeInfoView, SettingsFile, SettingsFileView, SettingsResponse,
    SettingsResponseView,
};
use crate::text::{strip_leading, without_leading};

verus! {

/// Whether a definition is expanded: it carries a wildcard pattern and at
/// least one known subdomain.
pub open spec fn is_wildcard(d: EndpointDefinitionView) -> bool {
    d.wildcard_pattern is Some && d.known_subdomains is Some && d.known_subdomains->0.len() > 0
}

/// The endpoint that stands for a definition that is not expanded.
pub open spec fn plain_endpoint(category: Seq<char>, d: EndpointDefinitionView) -> EndpointView {
    EndpointView {
        id: d.id,
        name: d.name,
        url: d.url,
        region: Some("global"@),
        enabled: d.enabled,
        muted: d.muted,
        port: d.port,
        protocol: d.protocol,
        category: Some(category),
        required: Some(d.required),
        purpose: d.purpose,
        latency_critical: d.latency_critical,
        wildcard_pattern: None,
        known_subdomains: None,
    }
}

/// The endpoint that stands for one subdomain of a wildcard definition.
pub open spec fn expanded_endpoint(
    category: Seq<char>,
    d: EndpointDefinitionView,
    pattern: Seq<char>,
    subdomain: Seq<char>,
) -> EndpointView {
    EndpointView {
        id: d.id + "-"@ + subdomain,
        name: d.name + " ("@ + subdomain + ")"@,
        url: subdomain + "."@ + without_leading(pattern, "*."@),
        region: Some("global"@),
        enabled: d.enabled,
        muted: d.muted,
        port: d.port,
        protocol: d.protocol,
        category: Some(category),
        required: Some(d.required),
        purpose: d.purpose,
        latency_critical: d.latency_critical,
        wildcard_pattern: Some(pattern),
        known_subdomains: None,
    }
}

/// The expansions of a wildcard definition for the given subdomains, in
/// their order.
pub open spec fn expansions(
    category: Seq<char>,
    d: EndpointDefinitionView,
    pattern: Seq<char>,
    subdomains: Seq<Seq<char>>,
) -> Seq<EndpointView> {
    Seq::new(subdomains.len(), |i: int| expanded_endpoint(category, d, pattern, subdomains[i]))
}

/// The endpoints that one definition resolves to.
pub open spec fn definition_endpoints(category: Seq<char>, d: EndpointDefinitionView) -> Seq<
    EndpointView,
> {
    if is_wildcard(d) {
        expansions(category, d, d.wildcard_pattern->0, d.known_subdomains->0)
    } else {
        seq![plain_endpoint(category, d)]
    }
}

/// The endpoints of a run of definitions of one category, in order.
pub open spec fn definitions_endpoints(category: Seq<char>, ds: Seq<EndpointDefinitionView>) -> Seq<
    EndpointView,
>
    decreases ds.len(),
{
    if ds.len() == 0 {
        Seq::empty()
    } else {
        definitions_endpoints(category, ds.drop_last()) + definition_endpoints(category, ds.last())
    }
}

/// The endpoints of a run of categories, in order.
pub open spec fn categories_endpoints(cs: Seq<EndpointCategoryView>) -> Seq<EndpointView>
    decreases cs.len(),
{
    if cs.len() == 0 {
        Seq::empty()
    } else {
        categories_endpoints(cs.drop_last()) + definitions_endpoints(
            cs.last().name,
            cs.last().endpoints,
        )
    }
}

/// The endpoints that a catalog resolves to: category order, then
/// definition order, then subdomain order.
pub open spec fn catalog_endpoints(f: EndpointFileView) -> Seq<EndpointView> {
    categories_endpoints(f.categories)
}

fn build_plain(category: &String, d: &EndpointDefinition) -> (e: Endpoint)
    ensures
        e@ == plain_endpoint(category@, d@),
{
    Endpoint {
        id: d.id.clone(),
        name: d.name.clone(),
        url: d.url.clone(),
        region: Some("global".to_string()),
        enabled: d.enabled,
        muted: d.muted,
        port: d.port,
        protocol: d.protocol.clone(),
        category: Some(category.clone()),
        required: Some(d.required),
        purpose: d.purpose.clone(),
        latency_critical: d.latency_critical,
        wildcard_pattern: None,
        known_subdomains: None,
    }
}

fn build_expanded(
    category: &String,
    d: &EndpointDefinition,
    pattern: &String,
    base_domain: &String,
    subdomain: &String,
) -> (e: Endpoint)
    requires
        base_domain@ == without_leading(pattern@, "*."@),
    ensures
        e@ == expanded_endpoint(category@, d@, pattern@, subdomain@),
{
    let mut url = subdomain.clone();
    url.append(".");
    url.append(base_domain.as_str());
    let mut id = d.id.clone();
    id.append("-");
    id.append(subdomain.as_str());
    let mut name = d.name.clone();
    name.append(" (");
    name.append(subdomain.as_str());
    name.append(")");
    Endpoint {
        id,
        name,
        url,
        region: Some("global".to_string()),
        enabled: d.enabled,
        muted: d.muted,
        port: d.port,
        protocol: d.protocol.clone(),
        category: Some(category.clone()),
        required: Some(d.required),
        purpose: d.purpose.clone(),
        latency_critical: d.latency_critical,
        wildcard_pattern: Some(pattern.clone()),
        known_subdomains: None,
    }
}

/// Appends to `endpoints` what one definition resolves to.
fn push_definition(endpoints: &mut Vec<Endpoint>, category: &String, d: &EndpointDefinition)
    ensures
        final(endpoints).deep_view() == old(endpoints).deep_view() + definition_endpoints(
            category@,
            d@,
        ),
{
    let ghost before = endpoints.deep_view();
    match (&d.wildcard_pattern, &d.known_subdomains) {
        (Some(pattern), Some(subdomains)) => {
            if subdomains.len() > 0 {
                let base_domain = strip_leading(pattern.as_str(), "*.");
                let mut i: usize = 0;
                while i < subdomains.len()
                    invariant
                        i <= subdomains.len(),
                        base_domain@ == without_leading(pattern@, "*."@),
                        endpoints.deep_view() == before + expansions(
                            category@,
                            d@,
                            pattern@,
                            subdomains.deep_view().take(i as int),
                        ),
                    decreases subdomains.len() - i,
                {
                    let e = build_expanded(category, d, pattern, &base_domain, &subdomains[i]);
                    let ghost prev = endpoints.deep_view();
                    endpoints.push(e);
                    proof {
                        assert(endpoints.deep_view() =~= prev.push(e@));
                        assert(endpoints.deep_view() =~= before + expansions(
                            category@,
                            d@,
                            pattern@,
                            subdomains.deep_view().take(i + 1),
                        ));
                    }
                    i += 1;
                }
                proof {
                    assert(subdomains.deep_view().take(i as int) =~= subdomains.deep_view());
                }
                return ;
            }
        },
        _ => {},
    }
    let e = build_plain(category, d);
    endpoints.push(e);
    proof {
        assert(endpoints.deep_view() =~= before.push(e@));
        assert(before.push(e@) =~= before + seq![e@]);
    }
}

/// Converts a catalog into its endpoints. A definition with a wildcard
/// pattern and a non-empty list of known subdomains becomes one endpoint per
/// subdomain; any other definition becomes exactly one endpoint.
pub fn endpoints_from_file(endpoint_file: &EndpointFile) -> (endpoints: Vec<Endpoint>)
    ensures
        endpoints.deep_view() == catalog_endpoints(endpoint_file@),
{
    let mut endpoints: Vec<Endpoint> = Vec::new();
    let mut ci: usize = 0;
    assert(endpoints.deep_view() =~= Seq::empty());
    while ci < endpoint_file.categories.len()
        invariant
            ci <= endpoint_file.categories.len(),
            endpoints.deep_view() == categories_endpoints(
                endpoint_file@.categories.take(ci as int),
            ),
        decreases endpoint_file.categories.len() - ci,
    {
        let category = &endpoint_file.categories[ci];
        let ghost before = endpoints.deep_view();
        let mut di: usize = 0;
        assert(category@.endpoints.take(0) =~= Seq::empty());
        while di < category.endpoints.len()
            invariant
                di <= category.endpoints.len(),
                endpoints.deep_view() == before + definitions_endpoints(
                    category@.name,
                    category@.endpoints.take(di as int),
                ),
            decreases category.endpoints.len() - di,
        {
            push_definition(&mut endpoints, &category.name, &category.endpoints[di]);
            proof {
                let next = category@.endpoints.take(di + 1);
                assert(next.drop_last() =~= category@.endpoints.take(di as int));
                assert(next.last() == category.endpoints[di as int]@);
            }
            di += 1;
        }
        proof {
            assert(category@.endpoints.take(di as int) =~= category@.endpoints);
            let next = endpoint_file@.categories.take(ci + 1);
            assert(next.drop_last() =~= endpoint_file@.categories.take(ci as int));
            assert(next.last() == category@);
        }
        ci += 1;
    }
    proof {
        assert(endpoint_file@.categories.take(ci as int) =~= endpoint_file@.categories);
    }
    endpoints
}

/// The endpoint that stands for a custom endpoint: never required, with
/// the category `Custom` where the user gave none.
pub open spec fn custom_endpoint(c: CustomEndpointView) -> EndpointView {
    EndpointView {
        id: c.id,
        name: c.name,
        url: c.url,
        region: None,
        enabled: c.enabled,
        muted: None,
        port: c.port,
        protocol: c.protocol,
        category: if c.category is Some {
            c.category
        } else {
            Some("Custom"@)
        },
        required: Some(false),
        purpose: Some("Custom endpoint"@),
        latency_critical: Some(c.latency_critical),
        wildcard_pattern: None,
        known_subdomains: None,
    }
}

/// The endpoints of the custom endpoints, in insertion order.
pub open spec fn custom_endpoints(cs: Seq<CustomEndpointView>) -> Seq<EndpointView> {
    Seq::new(cs.len(), |i: int| custom_endpoint(cs[i]))
}

/// The resolved list: the catalog's endpoints, then the custom ones.
pub open spec fn resolved_endpoints(f: EndpointFileView, cs: Seq<CustomEndpointView>) -> Seq<
    EndpointView,
> {
    catalog_endpoints(f) + custom_endpoints(cs)
}

/// The response for `mode`: the settings' version and configuration with
/// the mode replaced, the resolved list, and the catalog's metadata.
pub open spec fn resolved_response(
    settings: SettingsFileView,
    mode: AppMode,
    f: EndpointFileView,
) -> SettingsResponseView {
    SettingsResponseView {
        version: settings.version,
        config: AppConfigView { mode: mode, ..settings.config },
        endpoints: resolved_endpoints(f, settings.custom_endpoints),
        mode_info: ModeInfoView { name: f.name, description: f.description, source: f.source },
    }
}

fn build_custom(c: &CustomEndpoint) -> (e: Endpoint)
    ensures
        e@ == custom_endpoint(c@),
{
    let category = match &c.category {
        Some(name) => Some(name.clone()),
        None => Some("Custom".to_string()),
    };
    Endpoint {
        id: c.id.clone(),
        name: c.name.clone(),
        url: c.url.clone(),
        region: None,
        enabled: c.enabled,
        muted: None,
        port: c.port,
        protocol: c.protocol.clone(),
        category,
        required: Some(false),
        purpose: Some("Custom endpoint".to_string()),
        latency_critical: Some(c.latency_critical),
        wildcard_pattern: None,
        known_subdomains: None,
    }
}

/// Resolves the endpoints of `endpoint_file`, the catalog loaded for
/// `mode`, together with the custom endpoints of `settings`.
pub fn load_settings_with_endpoints_for_mode(
    settings: &SettingsFile,
    mode: &AppMode,
    endpoint_file: EndpointFile,
) -> (response: SettingsResponse)
    ensures
        response@ == resolved_response(settings@, *mode, endpoint_file@),
{
    let mut endpoints = endpoints_from_file(&endpoint_file);
    let ghost catalog = endpoints.deep_view();
    let mut i: usize = 0;
    while i < settings.custom_endpoints.len()
        invariant
            i <= settings.custom_endpoints.len(),
            endpoints.deep_view() == catalog + custom_endpoints(
                settings@.custom_endpoints.take(i as int),
            ),
        decreases settings.custom_endpoints.len() - i,
    {
        let e = build_custom(&settings.custom_endpoints[i]);
        let ghost prev = endpoints.deep_view();
        endpoints.push(e);
        proof {
            assert(endpoints.deep_view() =~= prev.push(e@));
            assert(endpoints.deep_view() =~= catalog + custom_endpoints(
                settings@.custom_endpoints.take(i + 1),
            ));
        }
        i += 1;
    }
    proof {
        assert(settings@.custom_endpoints.take(i as int) =~= settings@.custom_endpoints);
    }
    let mut config = settings.config.clone();
    config.mode = *mode;
    SettingsResponse {
        version: settings.version,
        config,
        endpoints,
        mode_info: ModeInfo {
            name: endpoint_file.name,
            description: endpoint_file.description,
            source: endpoint_file.source,
        },
    }
}

/// Resolves the endpoints for the mode that `settings` names;
/// `endpoint_file` is the catalog loaded for that mode.
pub fn load_settings_with_endpoints(
    settings: &SettingsFile,
    endpoint_file: EndpointFile,
) -> (response: SettingsResponse)
    ensures
        response@ == resolved_response(settings@, settings@.config.mode, endpoint_file@),
{
    let mode = settings.config.mode;
    load_settings_with_endpoints_for_mode(settings, &mode, endpoint_file)
}

/// What holds of every resolved endpoint: it carries no list of
/// subdomains, and it says which category it belongs to and whether it is
/// required.
pub open spec fn resolved_entry(e: EndpointView) -> bool {
    e.known_subdomains is None && e.category is Some && e.required is Some
}

proof fn lemma_definitions_entries(category: Seq<char>, ds: Seq<EndpointDefinitionView>)
    ensures
        forall|i: int|
            0 <= i < definitions_endpoints(category, ds).len() ==> resolved_entry(
                #[trigger] definitions_endpoints(category, ds)[i],
            ),
    decreases ds.len(),
{
    if ds.len() > 0 {
        lemma_definitions_entries(category, ds.drop_last());
        let front = definitions_endpoints(category, ds.drop_last());
        let back = definition_endpoints(category, ds.last());
        assert forall|i: int| 0 <= i < (front + back).len() implies resolved_entry(
            #[trigger] (front + back)[i],
        ) by {
            if i < front.len() {
                assert(resolved_entry(front[i]));
            } else {
                assert((front + back)[i] == back[i - front.len()]);
            }
        }
    }
}

proof fn lemma_categories_entries(cs: Seq<EndpointCategoryView>)
    ensures
        forall|i: int|
            0 <= i < categories_endpoints(cs).len() ==> resolved_entry(
                #[trigger] categories_endpoints(cs)[i],
            ),
    decreases cs.len(),
{
    if cs.len() > 0 {
        lemma_categories_entries(cs.drop_last());
        lemma_definitions_entries(cs.last().name, cs.last().endpoints);
        let front = categories_endpoints(cs.drop_last());
        let back = definitions_endpoints(cs.last().name, cs.last().endpoints);
        assert forall|i: int| 0 <= i < (front + back).len() implies resolved_entry(
            #[trigger] (front + back)[i],
        ) by {
            if i < front.len() {
                assert(resolved_entry(front[i]));
            } else {
                assert(resolved_entry(back[i - front.len()]));
            }
        }
    }
}

/// Every endpoint of a resolved list, from the catalog or custom, carries
/// no list of subdomains and says which category it belongs to and whether
/// it is required.
pub proof fn lemma_resolved_entries(f: EndpointFileView, cs: Seq<CustomEndpointView>)
    ensures
        forall|i: int|
            0 <= i < resolved_endpoints(f, cs).len() ==> resolved_entry(
                #[trigger] resolved_endpoints(f, cs)[i],
            ),
{
    lemma_categories_entries(f.categories);
    let front = catalog_endpoints(f);
    let back = custom_endpoints(cs);
    assert forall|i: int| 0 <= i < (front + back).len() implies resolved_entry(
        #[trigger] (front + back)[i],
    ) by {
        if i < front.len() {
            assert(resolved_entry(front[i]));
        } else {
            assert((front + back)[i] == custom_endpoint(cs[i - front.len()]));
        }
    }
}

/// The catalog's endpoints come first and in catalog order, the custom
/// ones after them in the order in which they were added.
pub proof fn lemma_catalog_before_custom(f: EndpointFileView, cs: Seq<CustomEndpointView>)
    ensures
        resolved_endpoints(f, cs).len() == catalog_endpoints(f).len() + cs.len(),
        forall|i: int|
            0 <= i < catalog_endpoints(f).len() ==> #[trigger] resolved_endpoints(f, cs)[i]
                == catalog_endpoints(f)[i],
        forall|j: int|
            0 <= j < cs.len() ==> #[trigger] resolved_endpoints(f, cs)[catalog_endpoints(f).len()
                + j] == custom_endpoint(cs[j]),
{
}

/// Number of definitions in a run of categories.
pub open spec fn definition_count(cs: Seq<EndpointCategoryView>) -> nat
    decreases cs.len(),
{
    if cs.len() == 0 {
        0
    } else {
        definition_count(cs.drop_last()) + cs.last().endpoints.len()
    }
}

/// Whether no definition of the categories is expanded.
pub open spec fn no_wildcards(cs: Seq<EndpointCategoryView>) -> bool {
    forall|c: int, d: int|
        0 <= c < cs.len() && 0 <= d < cs[c].endpoints.len() ==> !is_wildcard(
            #[trigger] cs[c].endpoints[d],
        )
}

/// A definition with a wildcard pattern and at least one known subdomain
/// resolves to exactly one endpoint per subdomain, in the subdomains'
/// order. The endpoint of a subdomain has the definition's id, a hyphen and
/// the subdomain as its id; its url is the subdomain, a dot and the pattern
/// without its leading `*.`; it keeps the pattern and carries no subdomains.
pub proof fn lemma_wildcard_expansion(category: Seq<char>, d: EndpointDefinitionView)
    requires
        d.wildcard_pattern is Some,
        d.known_subdomains is Some,
        d.known_subdomains->0.len() > 0,
    ensures
        definition_endpoints(category, d).len() == d.known_subdomains->0.len(),
        forall|i: int|
            0 <= i < d.known_subdomains->0.len() ==> {
                let e = #[trigger] definition_endpoints(category, d)[i];
                let subdomain = d.known_subdomains->0[i];
                &&& e.id == d.id + "-"@ + subdomain
                &&& e.url == subdomain + "."@ + without_leading(d.wildcard_pattern->0, "*."@)
                &&& e.name == d.name + " ("@ + subdomain + ")"@
                &&& e.wildcard_pattern == d.wildcard_pattern
                &&& e.known_subdomains is None
            },
{
}

/// A definition that is not expanded resolves to exactly one endpoint,
/// which copies its id, name and url.
pub proof fn lemma_plain_definition(category: Seq<char>, d: EndpointDefinitionView)
    requires
        !is_wildcard(d),
    ensures
        definition_endpoints(category, d).len() == 1,
        definition_endpoints(category, d)[0].id == d.id,
        definition_endpoints(category, d)[0].name == d.name,
        definition_endpoints(category, d)[0].url == d.url,
{
}

proof fn lemma_definitions_count(category: Seq<char>, ds: Seq<EndpointDefinitionView>)
    requires
        forall|d: int| 0 <= d < ds.len() ==> !is_wildcard(#[trigger] ds[d]),
    ensures
        definitions_endpoints(category, ds).len() == ds.len(),
    decreases ds.len(),
{
    if ds.len() > 0 {
        assert forall|d: int| 0 <= d < ds.drop_last().len() implies !is_wildcard(
            #[trigger] ds.drop_last()[d],
        ) by {
            assert(ds.drop_last()[d] == ds[d]);
        }
        lemma_definitions_count(category, ds.drop_last());
        assert(!is_wildcard(ds[ds.len() - 1]));
    }
}

proof fn lemma_categories_count(cs: Seq<EndpointCategoryView>)
    requires
        no_wildcards(cs),
    ensures
        categories_endpoints(cs).len() == definition_count(cs),
    decreases cs.len(),
{
    if cs.len() > 0 {
        assert forall|c: int, d: int|
            0 <= c < cs.drop_last().len() && 0 <= d < cs.drop_last()[c].endpoints.len()
            implies !is_wildcard(
            #[trigger] cs.drop_last()[c].endpoints[d],
        ) by {
            assert(cs.drop_last()[c] == cs[c]);
            assert(!is_wildcard(cs[c].endpoints[d]));
        }
        lemma_categories_count(cs.drop_last());
        let last = cs.last();
        assert forall|d: int| 0 <= d < last.endpoints.len() implies !is_wildcard(
            #[trigger] last.endpoints[d],
        ) by {
            assert(!is_wildcard(cs[cs.len() - 1].endpoints[d]));
        }
        lemma_definitions_count(last.name, last.endpoints);
    }
}

/// Where no definition of the catalog is expanded, the resolved list has
/// as many endpoints as the catalog has definitions and the settings have
/// custom endpoints, together.
pub proof fn lemma_count_without_wildcards(f: EndpointFileView, cs: Seq<CustomEndpointView>)
    requires
        no_wildcards(f.categories),
    ensures
        resolved_endpoints(f, cs).len() == definition_count(f.categories) + cs.len(),
{
    lemma_categories_count(f.categories);
}

} // verus!
