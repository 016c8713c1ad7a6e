//! Configuration and endpoint resolution for a monitor of the network
//! connectivity of Azure Virtual Desktop.
//!
//! The library decides which endpoints exist, in what state and for which
//! mode: it merges the catalog of a mode with the custom endpoints of the
//! settings, expands wildcard definitions into probe targets, applies changes
//! to single definitions and classifies measured latencies. It reads no file
//! and opens no connection: whoever uses it hands in what was found on disk
//! or measured on the network and carries out what the library plans.
//!
//! - [`settings`]: the persisted documents and the resolved endpoint, with
//!   their defaults.
//! - [`resolver`]: from catalog and custom endpoints to the resolved list.
//! - [`updater`]: changes to a single definition of a catalog.
//! - [`tray_icon`]: health tiers, their classification and their icon.
//! - [`paths`], [`bootstrap`], [`store`]: where the documents live, how the
//!   bundled catalogs get there, and what a load results in.
//! - [`path_safety`]: containment of a path in an allowed directory.
//! - [`validation`], [`export`]: the schema that an imported document has to
//!   satisfy.
//! - [`latency`], [`logger`], [`fslogix`], [`autostart`]: plans and decisions
//!   for probes, logs, storage paths and start at logon.
//! - [`text`], [`error`]: operations on texts and the errors of the above.

pub mod autostart;
pub mod bootstrap;
pub mod error;
pub mod export;
pub mod fslogix;
pub mod latency;
pub mod logger;
pub mod path_safety;
pub mod paths;
pub mod resolver;
pub mod settings;
pub mod store;
pub mod text;
pub mod tray_icon;
pub mod updater;
pub mod validation;
