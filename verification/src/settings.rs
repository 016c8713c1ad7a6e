//! The persisted documents of the monitor and the resolved endpoint list,
//! each with its mathematical view.

use vstd::prelude::*;
use vstd::string::*;

verus! {

/// Operating mode; it selects the bundled endpoint catalog.
#[derive(Debug, Clone, Copy, PartialEq, Eq, Structural)]
pub enum AppMode {
    SessionHost,
    EndUser,
}

/// Upper bounds, in whole milliseconds, of the three better health tiers.
#[derive(Debug, Clone, Copy, PartialEq, Eq, Structural)]
pub struct LatencyThresholds {
    pub excellent: u32,
    pub good: u32,
    pub warning: u32,
}

/// One probe target as consumers see it: a catalog definition, one
/// expansion of a wildcard definition, or a custom endpoint.
#[derive(Debug, PartialEq, Eq)]
pub struct Endpoint {
    pub id: String,
    pub name: String,
    pub url: String,
    pub region: Option<String>,
    pub enabled: bool,
    pub muted: Option<bool>,
    pub port: Option<u16>,
    pub protocol: Option<String>,
    pub category: Option<String>,
    pub required: Option<bool>,
    pub purpose: Option<String>,
    pub latency_critical: Option<bool>,
    /// The pattern an expanded entry came from.
    pub wildcard_pattern: Option<String>,
    /// Never set on a resolved entry.
    pub known_subdomains: Option<Vec<String>>,
}

/// View of an [`Endpoint`].
pub struct EndpointView {
    pub id: Seq<char>,
    pub name: Seq<char>,
    pub url: Seq<char>,
    pub region: Option<Seq<char>>,
    pub enabled: bool,
    pub muted: Option<bool>,
    pub port: Option<u16>,
    pub protocol: Option<Seq<char>>,
    pub category: Option<Seq<char>>,
    pub required: Option<bool>,
    pub purpose: Option<Seq<char>>,
    pub latency_critical: Option<bool>,
    pub wildcard_pattern: Option<Seq<char>>,
    pub known_subdomains: Option<Seq<Seq<char>>>,
}

impl View for Endpoint {
    type V = EndpointView;

    open spec fn view(&self) -> EndpointView {
        EndpointView {
            id: self.id@,
            name: self.name@,
            url: self.url@,
            region: self.region.deep_view(),
            enabled: self.enabled,
            muted: self.muted,
            port: self.port,
            protocol: self.protocol.deep_view(),
            category: self.category.deep_view(),
            required: self.required,
            purpose: self.purpose.deep_view(),
            latency_critical: self.latency_critical,
            wildcard_pattern: self.wildcard_pattern.deep_view(),
            known_subdomains: self.known_subdomains.deep_view(),
        }
    }
}

impl DeepView for Endpoint {
    type V = EndpointView;

    open spec fn deep_view(&self) -> EndpointView {
        self.view()
    }
}

/// One entry of a catalog file.
#[derive(Debug, PartialEq, Eq)]
pub struct EndpointDefinition {
    pub id: String,
    pub name: String,
    pub url: String,
    pub port: Option<u16>,
    pub protocol: Option<String>,
    pub required: bool,
    pub purpose: Option<String>,
    pub enabled: bool,
    pub latency_critical: Option<bool>,
    pub muted: Option<bool>,
    /// A domain pattern such as `*.wvd.microsoft.com`.
    pub wildcard_pattern: Option<String>,
    /// The subdomains to probe under the pattern.
    pub known_subdomains: Option<Vec<String>>,
}

/// View of an [`EndpointDefinition`].
pub struct EndpointDefinitionView {
    pub id: Seq<char>,
    pub name: Seq<char>,
    pub url: Seq<char>,
    pub port: Option<u16>,
    pub protocol: Option<Seq<char>>,
    pub required: bool,
    pub purpose: Option<Seq<char>>,
    pub enabled: bool,
    pub latency_critical: Option<bool>,
    pub muted: Option<bool>,
    pub wildcard_pattern: Option<Seq<char>>,
    pub known_subdomains: Option<Seq<Seq<char>>>,
}

impl View for EndpointDefinition {
    type V = EndpointDefinitionView;

    open spec fn view(&self) -> EndpointDefinitionView {
        EndpointDefinitionView {
            id: self.id@,
            name: self.name@,
            url: self.url@,
            port: self.port,
            protocol: self.protocol.deep_view(),
            required: self.required,
            purpose: self.purpose.deep_view(),
            enabled: self.enabled,
            latency_critical: self.latency_critical,
            muted: self.muted,
            wildcard_pattern: self.wildcard_pattern.deep_view(),
            known_subdomains: self.known_subdomains.deep_view(),
        }
    }
}

impl DeepView for EndpointDefinition {
    type V = EndpointDefinitionView;

    open spec fn deep_view(&self) -> EndpointDefinitionView {
        self.view()
    }
}

/// A named group of definitions in a catalog file.
#[derive(Debug, PartialEq, Eq)]
pub struct EndpointCategory {
    pub name: String,
    pub description: Option<String>,
    pub endpoints: Vec<EndpointDefinition>,
}

/// View of an [`EndpointCategory`].
pub struct EndpointCategoryView {
    pub name: Seq<char>,
    pub description: Option<Seq<char>>,
    pub endpoints: Seq<EndpointDefinitionView>,
}

impl View for EndpointCategory {
    type V = EndpointCategoryView;

    open spec fn view(&self) -> EndpointCategoryView {
        EndpointCategoryView {
            name: self.name@,
            description: self.description.deep_view(),
            endpoints: self.endpoints.deep_view(),
        }
    }
}

impl DeepView for EndpointCategory {
    type V = EndpointCategoryView;

    open spec fn deep_view(&self) -> EndpointCategoryView {
        self.view()
    }
}

/// The catalog document of one mode.
#[derive(Debug, PartialEq, Eq)]
pub struct EndpointFile {
    pub name: String,
    pub description: Option<String>,
    pub source: Option<String>,
    pub categories: Vec<EndpointCategory>,
}

/// View of an [`EndpointFile`].
pub struct EndpointFileView {
    pub name: Seq<char>,
    pub description: Option<Seq<char>>,
    pub source: Option<Seq<char>>,
    pub categories: Seq<EndpointCategoryView>,
}

impl View for EndpointFile {
    type V = EndpointFileView;

    open spec fn view(&self) -> EndpointFileView {
        EndpointFileView {
            name: self.name@,
            description: self.description.deep_view(),
            source: self.source.deep_view(),
            categories: self.categories.deep_view(),
        }
    }
}

impl DeepView for EndpointFile {
    type V = EndpointFileView;

    open spec fn deep_view(&self) -> EndpointFileView {
        self.view()
    }
}

/// The user's configuration.
#[derive(Debug, PartialEq, Eq)]
pub struct AppConfig {
    pub mode: AppMode,
    /// Seconds between two rounds of probes.
    pub test_interval: u32,
    pub retention_days: u32,
    pub thresholds: LatencyThresholds,
    pub notifications_enabled: bool,
    pub auto_start: bool,
    pub theme: String,
    /// Consecutive failures before an alert.
    pub alert_threshold: u32,
    /// Minutes between two alerts.
    pub alert_cooldown: u32,
    /// Hours shown in the graph.
    pub graph_time_range: u32,
}

/// View of an [`AppConfig`].
pub struct AppConfigView {
    pub mode: AppMode,
    pub test_interval: u32,
    pub retention_days: u32,
    pub thresholds: LatencyThresholds,
    pub notifications_enabled: bool,
    pub auto_start: bool,
    pub theme: Seq<char>,
    pub alert_threshold: u32,
    pub alert_cooldown: u32,
    pub graph_time_range: u32,
}

impl View for AppConfig {
    type V = AppConfigView;

    open spec fn view(&self) -> AppConfigView {
        AppConfigView {
            mode: self.mode,
            test_interval: self.test_interval,
            retention_days: self.retention_days,
            thresholds: self.thresholds,
            notifications_enabled: self.notifications_enabled,
            auto_start: self.auto_start,
            theme: self.theme@,
            alert_threshold: self.alert_threshold,
            alert_cooldown: self.alert_cooldown,
            graph_time_range: self.graph_time_range,
        }
    }
}

impl DeepView for AppConfig {
    type V = AppConfigView;

    open spec fn deep_view(&self) -> AppConfigView {
        self.view()
    }
}

/// An endpoint that the user added; it lives in the settings document.
#[derive(Debug, PartialEq, Eq)]
pub struct CustomEndpoint {
    pub id: String,
    pub name: String,
    pub url: String,
    pub port: Option<u16>,
    pub protocol: Option<String>,
    pub category: Option<String>,
    pub enabled: bool,
    pub latency_critical: bool,
}

/// View of a [`CustomEndpoint`].
pub struct CustomEndpointView {
    pub id: Seq<char>,
    pub name: Seq<char>,
    pub url: Seq<char>,
    pub port: Option<u16>,
    pub protocol: Option<Seq<char>>,
    pub category: Option<Seq<char>>,
    pub enabled: bool,
    pub latency_critical: bool,
}

impl View for CustomEndpoint {
    type V = CustomEndpointView;

    open spec fn view(&self) -> CustomEndpointView {
        CustomEndpointView {
            id: self.id@,
            name: self.name@,
            url: self.url@,
            port: self.port,
            protocol: self.protocol.deep_view(),
            category: self.category.deep_view(),
            enabled: self.enabled,
            latency_critical: self.latency_critical,
        }
    }
}

impl DeepView for CustomEndpoint {
    type V = CustomEndpointView;

    open spec fn deep_view(&self) -> CustomEndpointView {
        self.view()
    }
}

/// The persisted mute flag of a discovered storage path.
#[derive(Debug, PartialEq, Eq)]
pub struct FSLogixPathState {
    pub id: String,
    pub muted: bool,
}

/// View of an [`FSLogixPathState`].
pub struct FSLogixPathStateView {
    pub id: Seq<char>,
    pub muted: bool,
}

impl View for FSLogixPathState {
    type V = FSLogixPathStateView;

    open spec fn view(&self) -> FSLogixPathStateView {
        FSLogixPathStateView { id: self.id@, muted: self.muted }
    }
}

impl DeepView for FSLogixPathState {
    type V = FSLogixPathStateView;

    open spec fn deep_view(&self) -> FSLogixPathStateView {
        self.view()
    }
}

/// The one persisted settings document.
#[derive(Debug, PartialEq, Eq)]
pub struct SettingsFile {
    pub version: u32,
    pub config: AppConfig,
    pub custom_endpoints: Vec<CustomEndpoint>,
    pub fslogix_path_states: Vec<FSLogixPathState>,
}

/// View of a [`SettingsFile`].
pub struct SettingsFileView {
    pub version: u32,
    pub config: AppConfigView,
    pub custom_endpoints: Seq<CustomEndpointView>,
    pub fslogix_path_states: Seq<FSLogixPathStateView>,
}

impl View for SettingsFile {
    type V = SettingsFileView;

    open spec fn view(&self) -> SettingsFileView {
        SettingsFileView {
            version: self.version,
            config: self.config@,
            custom_endpoints: self.custom_endpoints.deep_view(),
            fslogix_path_states: self.fslogix_path_states.deep_view(),
        }
    }
}

impl DeepView for SettingsFile {
    type V = SettingsFileView;

    open spec fn deep_view(&self) -> SettingsFileView {
        self.view()
    }
}

/// Name, description and source of the catalog that a response was
/// resolved from.
#[derive(Debug, PartialEq, Eq)]
pub struct ModeInfo {
    pub name: String,
    pub description: Option<String>,
    pub source: Option<String>,
}

/// View of a [`ModeInfo`].
pub struct ModeInfoView {
    pub name: Seq<char>,
    pub description: Option<Seq<char>>,
    pub source: Option<Seq<char>>,
}

impl View for ModeInfo {
    type V = ModeInfoView;

    open spec fn view(&self) -> ModeInfoView {
        ModeInfoView {
            name: self.name@,
            description: self.description.deep_view(),
            source: self.source.deep_view(),
        }
    }
}

impl DeepView for ModeInfo {
    type V = ModeInfoView;

    open spec fn deep_view(&self) -> ModeInfoView {
        self.view()
    }
}

/// What the front end receives: the configuration for one mode and the
/// endpoints resolved for it.
#[derive(Debug, PartialEq, Eq)]
pub struct SettingsResponse {
    pub version: u32,
    pub config: AppConfig,
    pub endpoints: Vec<Endpoint>,
    pub mode_info: ModeInfo,
}

/// View of a [`SettingsResponse`].
pub struct SettingsResponseView {
    pub version: u32,
    pub config: AppConfigView,
    pub endpoints: Seq<EndpointView>,
    pub mode_info: ModeInfoView,
}

impl View for SettingsResponse {
    type V = SettingsResponseView;

    open spec fn view(&self) -> SettingsResponseView {
        SettingsResponseView {
            version: self.version,
            config: self.config@,
            endpoints: self.endpoints.deep_view(),
            mode_info: self.mode_info@,
        }
    }
}

impl DeepView for SettingsResponse {
    type V = SettingsResponseView;

    open spec fn deep_view(&self) -> SettingsResponseView {
        self.view()
    }
}

/// The thresholds of a fresh configuration.
pub open spec fn default_thresholds() -> LatencyThresholds {
    LatencyThresholds { excellent: 30, good: 80, warning: 150 }
}

/// The configuration of a fresh settings document.
pub open spec fn default_config() -> AppConfigView {
    AppConfigView {
        mode: AppMode::SessionHost,
        test_interval: 10,
        retention_days: 30,
        thresholds: default_thresholds(),
        notifications_enabled: true,
        auto_start: false,
        theme: "system"@,
        alert_threshold: 3,
        alert_cooldown: 5,
        graph_time_range: 1,
    }
}

/// The settings document that is created where none exists.
pub open spec fn default_settings() -> SettingsFileView {
    SettingsFileView {
        version: 1,
        config: default_config(),
        custom_endpoints: Seq::empty(),
        fslogix_path_states: Seq::empty(),
    }
}

/// The name under which a mode is persisted.
pub open spec fn mode_name(mode: AppMode) -> Seq<char> {
    match mode {
        AppMode::SessionHost => "sessionhost"@,
        AppMode::EndUser => "enduser"@,
    }
}

/// The mode that a name stands for: end user for `enduser`, session host
/// for every other name.
pub open spec fn mode_named(name: Seq<char>) -> AppMode {
    if name == "enduser"@ {
        AppMode::EndUser
    } else {
        AppMode::SessionHost
    }
}

impl AppMode {
    /// The name under which the mode is persisted.
    pub fn as_str(&self) -> (name: &'static str)
        ensures
            name@ == mode_name(*self),
    {
        match self {
            AppMode::SessionHost => "sessionhost",
            AppMode::EndUser => "enduser",
        }
    }

    /// The mode that `name` stands for. A name that is not known stands
    /// for the session host.
    pub fn from_name(name: &str) -> (mode: AppMode)
        ensures
            mode == mode_named(name@),
    {
        if name.to_owned() == "enduser".to_owned() {
            AppMode::EndUser
        } else {
            AppMode::SessionHost
        }
    }
}

/// Every mode is found again under its name.
pub proof fn lemma_mode_name_round_trip(mode: AppMode)
    ensures
        mode_named(mode_name(mode)) == mode,
{
    reveal_strlit("sessionhost");
    reveal_strlit("enduser");
    if mode == AppMode::SessionHost {
        assert("sessionhost"@.len() != "enduser"@.len());
    }
}

impl Default for AppMode {
    fn default() -> (mode: Self)
        ensures
            mode == AppMode::SessionHost,
    {
        AppMode::SessionHost
    }
}

impl Default for LatencyThresholds {
    fn default() -> (thresholds: Self)
        ensures
            thresholds == default_thresholds(),
    {
        LatencyThresholds { excellent: 30, good: 80, warning: 150 }
    }
}

impl Default for AppConfig {
    fn default() -> (config: Self)
        ensures
            config@ == default_config(),
    {
        AppConfig {
            mode: AppMode::SessionHost,
            test_interval: 10,
            retention_days: 30,
            thresholds: LatencyThresholds::default(),
            notifications_enabled: true,
            auto_start: false,
            theme: "system".to_string(),
            alert_threshold: 3,
            alert_cooldown: 5,
            graph_time_range: 1,
        }
    }
}

impl Default for SettingsFile {
    fn default() -> (settings: Self)
        ensures
            settings@ == default_settings(),
    {
        let settings = SettingsFile {
            version: 1,
            config: AppConfig::default(),
            custom_endpoints: Vec::new(),
            fslogix_path_states: Vec::new(),
        };
        assert(settings.custom_endpoints.deep_view() =~= Seq::empty());
        assert(settings.fslogix_path_states.deep_view() =~= Seq::empty());
        settings
    }
}

impl Clone for AppConfig {
    fn clone(&self) -> (r: Self)
        ensures
            r@ == self@,
    {
        AppConfig {
            mode: self.mode,
            test_interval: self.test_interval,
            retention_days: self.retention_days,
            thresholds: self.thresholds,
            notifications_enabled: self.notifications_enabled,
            auto_start: self.auto_start,
            theme: self.theme.clone(),
            alert_threshold: self.alert_threshold,
            alert_cooldown: self.alert_cooldown,
            graph_time_range: self.graph_time_range,
        }
    }
}

impl Clone for CustomEndpoint {
    fn clone(&self) -> (r: Self)
        ensures
            r@ == self@,
    {
        CustomEndpoint {
            id: self.id.clone(),
            name: self.name.clone(),
            url: self.url.clone(),
            port: self.port,
            protocol: self.protocol.clone(),
            category: self.category.clone(),
            enabled: self.enabled,
            latency_critical: self.latency_critical,
        }
    }
}

impl Clone for FSLogixPathState {
    fn clone(&self) -> (r: Self)
        ensures
            r@ == self@,
    {
        FSLogixPathState { id: self.id.clone(), muted: self.muted }
    }
}

impl Clone for SettingsFile {
    fn clone(&self) -> (r: Self)
        ensures
            r@ == self@,
    {
        let custom_endpoints = self.custom_endpoints.clone();
        assert(custom_endpoints.deep_view() =~= self.custom_endpoints.deep_view());
        let fslogix_path_states = self.fslogix_path_states.clone();
        assert(fslogix_path_states.deep_view() =~= self.fslogix_path_states.deep_view());
        SettingsFile {
            version: self.version,
            config: self.config.clone(),
            custom_endpoints,
            fslogix_path_states,
        }
    }
}

impl Clone for ModeInfo {
    fn clone(&self) -> (r: Self)
        ensures
            r@ == self@,
    {
        ModeInfo {
            name: self.name.clone(),
            description: self.description.clone(),
            source: self.source.clone(),
        }
    }
}

impl Clone for SettingsResponse {
    fn clone(&self) -> (r: Self)
        ensures
            r@ == self@,
    {
        let endpoints = self.endpoints.clone();
        assert(endpoints.deep_view() =~= self.endpoints.deep_view());
        SettingsResponse {
            version: self.version,
            config: self.config.clone(),
            endpoints,
            mode_info: self.mode_info.clone(),
        }
    }
}

impl Clone for Endpoint {
    fn clone(&self) -> (r: Self)
        ensures
            r@ == self@,
    {
        Endpoint {
            id: self.id.clone(),
            name: self.name.clone(),
            url: self.url.clone(),
            region: self.region.clone(),
            enabled: self.enabled,
            muted: self.muted,
            port: self.port,
            protocol: self.protocol.clone(),
            category: self.category.clone(),
            required: self.required,
            purpose: self.purpose.clone(),
            latency_critical: self.latency_critical,
            wildcard_pattern: self.wildcard_pattern.clone(),
            known_subdomains: self.known_subdomains.clone(),
        }
    }
}

impl Clone for EndpointDefinition {
    fn clone(&self) -> (r: Self)
        ensures
            r@ == self@,
    {
        EndpointDefinition {
            id: self.id.clone(),
            name: self.name.clone(),
            url: self.url.clone(),
            port: self.port,
            protocol: self.protocol.clone(),
            required: self.required,
            purpose: self.purpose.clone(),
            enabled: self.enabled,
            latency_critical: self.latency_critical,
            muted: self.muted,
            wildcard_pattern: self.wildcard_pattern.clone(),
            known_subdomains: self.known_subdomains.clone(),
        }
    }
}

impl Clone for EndpointCategory {
    fn clone(&self) -> (r: Self)
        ensures
            r@ == self@,
    {
        let endpoints = self.endpoints.clone();
        assert(endpoints.deep_view() =~= self.endpoints.deep_view());
        EndpointCategory {
            name: self.name.clone(),
            description: self.description.clone(),
            endpoints,
        }
    }
}

impl Clone for EndpointFile {
    fn clone(&self) -> (r: Self)
        ensures
            r@ == self@,
    {
        let categories = self.categories.clone();
        assert(categories.deep_view() =~= self.categories.deep_view());
        EndpointFile {
            name: self.name.clone(),
            description: self.description.clone(),
            source: self.source.clone(),
            categories,
        }
    }
}

/// Default of a flag that is on unless the document says otherwise.
pub fn default_true() -> (flag: bool)
    ensures
        flag,
{
    true
}

/// Default of the port of an endpoint.
pub fn default_port() -> (port: Option<u16>)
    ensures
        port == Some(443u16),
{
    Some(443)
}

/// Default of the mode.
pub fn default_mode() -> (mode: AppMode)
    ensures
        mode == default_config().mode,
{
    AppMode::SessionHost
}

/// Default of the seconds between two rounds of probes.
pub fn default_test_interval() -> (seconds: u32)
    ensures
        seconds == default_config().test_interval,
{
    10
}

/// Default of the days for which logs are kept.
pub fn default_retention_days() -> (days: u32)
    ensures
        days == default_config().retention_days,
{
    30
}

/// Default of the theme.
pub fn default_theme() -> (theme: String)
    ensures
        theme@ == default_config().theme,
{
    "system".to_string()
}

/// Default of the consecutive failures before an alert.
pub fn default_alert_threshold() -> (failures: u32)
    ensures
        failures == default_config().alert_threshold,
{
    3
}

/// Default of the minutes between two alerts.
pub fn default_alert_cooldown() -> (minutes: u32)
    ensures
        minutes == default_config().alert_cooldown,
{
    5
}

/// Default of the hours shown in the graph.
pub fn default_graph_time_range() -> (hours: u32)
    ensures
        hours == default_config().graph_time_range,
{
    1
}

/// Default of the category of a custom endpoint.
pub fn default_custom_category() -> (category: Option<String>)
    ensures
        category.deep_view() == Some("Custom"@),
{
    Some("Custom".to_string())
}

/// Default of the version of the settings document.
pub fn default_version() -> (version: u32)
    ensures
        version == default_settings().version,
{
    1
}

} // verus!
