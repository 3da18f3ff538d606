//! Startup configuration resolution and navigation gating for a kiosk-style
//! desktop shell that shows one remote web application in a managed webview.
//!
//! The library decides; its host reads and writes. The host hands over what
//! it found on the machine (the process environment, the text of the
//! configuration files, the outcome of a probe) and gets back a validated
//! configuration or an error, the diagnostics to log, and a yes or no for
//! each navigation.
//!
//! - [`text`], [`numeric`]: text primitives over sequences of characters.
//! - [`settings`], [`reader`]: the settings mapping and the layered lookup
//!   of one setting.
//! - [`env_file`]: the configuration file format, the default file and the
//!   one-time migration.
//! - [`hosts`], [`address`]: host names, the allow-list and parsed URLs.
//! - [`resolver`], [`startup`]: the resolution of the configuration.
//! - [`navigation`], [`probe`], [`shell`]: the navigation rule, the
//!   reachability verdict and the answers to the host's queries.

pub mod address;
pub mod defaults;
pub mod env_file;
pub mod hosts;
pub mod navigation;
pub mod numeric;
pub mod probe;
pub mod reader;
pub mod resolver;
pub mod settings;
pub mod shell;
pub mod startup;
pub mod text;
