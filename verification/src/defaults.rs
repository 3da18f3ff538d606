//! The fixed names and default values of the shell's configuration.

use vstd::prelude::*;

verus! {

/// Title of the window when none is configured.
pub const DEFAULT_TITLE: &'static str = "CRA Client";

/// Width of the window in pixels when none is configured.
pub const DEFAULT_WIDTH: &'static str = "1280";

/// Height of the window in pixels when none is configured.
pub const DEFAULT_HEIGHT: &'static str = "800";

/// Address of the web application in a freshly written configuration file.
pub const DEFAULT_APP_URL: &'static str = "http://192.168.50.55:3000";

/// Allow-list in a freshly written configuration file.
pub const DEFAULT_ALLOWED_HOSTS: &'static str = "192.168.50.55";

pub const ENV_APP_URL: &'static str = "CRA_CLIENT_APP_URL";

pub const ENV_ALLOWED_HOSTS: &'static str = "CRA_CLIENT_ALLOWED_HOSTS";

pub const ENV_WINDOW_TITLE: &'static str = "CRA_CLIENT_WINDOW_TITLE";

pub const ENV_WINDOW_WIDTH: &'static str = "CRA_CLIENT_WINDOW_WIDTH";

pub const ENV_WINDOW_HEIGHT: &'static str = "CRA_CLIENT_WINDOW_HEIGHT";

/// Name of the override that lets a release build target a localhost address,
/// both as environment variable and as key in a configuration file.
pub const ENV_ALLOW_LOCALHOST_RELEASE: &'static str = "CRA_CLIENT_ALLOW_LOCALHOST_RELEASE";

pub const KEY_APP_URL: &'static str = "APP_URL";

pub const KEY_ALLOWED_HOSTS: &'static str = "ALLOWED_HOSTS";

pub const KEY_WINDOW_TITLE: &'static str = "WINDOW_TITLE";

pub const KEY_WINDOW_WIDTH: &'static str = "WINDOW_WIDTH";

pub const KEY_WINDOW_HEIGHT: &'static str = "WINDOW_HEIGHT";

/// Name of the configuration file in each of the places where it is looked for.
pub const CLIENT_ENV_FILE: &'static str = "client.env";

/// Name of the per-user directory that holds the configuration file and the logs.
pub const APP_DIRECTORY: &'static str = "CRA Client";

/// First line of a configuration file that the shell wrote itself.
pub const GENERATED_HEADER: &'static str = "# Auto-generated default configuration for CRA Client.";

/// The address line of the configuration files that earlier versions wrote.
pub const LEGACY_APP_URL_LINE: &'static str = "APP_URL=https://192.168.50.55";

/// The address line that takes the place of the legacy one.
pub const CURRENT_APP_URL_LINE: &'static str = "APP_URL=http://192.168.50.55:3000";

} // verus!
