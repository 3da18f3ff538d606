//! What the shell shows of its state: the answers to the queries of the
//! host's user interface, the settings of the window, and the script that
//! sends the webview to the web application.

use vstd::prelude::*;
use crate::address::ParsedUrl;
use crate::defaults::{DEFAULT_HEIGHT, DEFAULT_TITLE, DEFAULT_WIDTH};
use crate::hosts::HostSet;
use crate::reader::{text_view, Dimension};
use crate::resolver::{config_is_valid, result_view, ConfigView, RuntimeConfig};
use crate::text::{
    chars_of, concat2, concat3, replace_chars, replaced, string_of,
};

verus! {

pub const CONFIG_MISSING_AT_BOOTSTRAP: &'static str = "Runtime configuration is missing.";

pub const CONFIG_MISSING: &'static str = "Runtime configuration missing.";

pub const UNKNOWN_HOST: &'static str = "unknown-host";

pub const NOT_CONFIGURED: &'static str = "not-configured";

/// The startup outcome that the process holds: the configuration, or the
/// error that stopped its resolution.
pub struct AppState {
    pub config: Option<RuntimeConfig>,
    pub config_error: Option<String>,
}

/// The mathematical value of an [`AppState`].
pub struct AppStateView {
    pub config: Option<ConfigView>,
    pub config_error: Option<Seq<char>>,
}

impl View for AppState {
    type V = AppStateView;

    open spec fn view(&self) -> AppStateView {
        AppStateView {
            config: match self.config {
                Some(c) => Some(c@),
                None => None,
            },
            config_error: text_view(self.config_error),
        }
    }
}

/// The answer to the bootstrap query.
pub struct BootstrapState {
    pub ready: bool,
    pub config_error: Option<String>,
    pub app_url: Option<String>,
    pub app_host: Option<String>,
    pub window_title: String,
    pub window_width: Dimension,
    pub window_height: Dimension,
    pub version: String,
    pub reachable: bool,
    pub reachability_error: Option<String>,
}

/// The mathematical value of a [`BootstrapState`].
pub struct BootstrapView {
    pub ready: bool,
    pub config_error: Option<Seq<char>>,
    pub app_url: Option<Seq<char>>,
    pub app_host: Option<Seq<char>>,
    pub window_title: Seq<char>,
    pub window_width: Seq<char>,
    pub window_height: Seq<char>,
    pub version: Seq<char>,
    pub reachable: bool,
    pub reachability_error: Option<Seq<char>>,
}

impl View for BootstrapState {
    type V = BootstrapView;

    open spec fn view(&self) -> BootstrapView {
        BootstrapView {
            ready: self.ready,
            config_error: text_view(self.config_error),
            app_url: text_view(self.app_url),
            app_host: text_view(self.app_host),
            window_title: self.window_title@,
            window_width: self.window_width@,
            window_height: self.window_height@,
            version: self.version@,
            reachable: self.reachable,
            reachability_error: text_view(self.reachability_error),
        }
    }
}

/// The answer to the about query.
pub struct AboutInfo {
    pub title: String,
    pub version: String,
    pub app_host: String,
    pub app_url: String,
}

/// The mathematical value of an [`AboutInfo`].
pub struct AboutView {
    pub title: Seq<char>,
    pub version: Seq<char>,
    pub app_host: Seq<char>,
    pub app_url: Seq<char>,
}

impl View for AboutInfo {
    type V = AboutView;

    open spec fn view(&self) -> AboutView {
        AboutView {
            title: self.title@,
            version: self.version@,
            app_host: self.app_host@,
            app_url: self.app_url@,
        }
    }
}

/// The settings that the window is made with.
pub struct WindowSettings {
    pub title: String,
    pub width: Dimension,
    pub height: Dimension,
    pub allowed_hosts: HostSet,
}

/// The state that a resolution leaves: the configuration or the error,
/// never both.
pub open spec fn state_of(result: Result<ConfigView, Seq<char>>) -> AppStateView {
    match result {
        Ok(config) => AppStateView { config: Some(config), config_error: None },
        Err(error) => AppStateView { config: None, config_error: Some(error) },
    }
}

/// Why the shell is not ready, if it is not: the startup error, or that
/// no configuration is held.
pub open spec fn bootstrap_error(state: AppStateView) -> Option<Seq<char>> {
    if state.config_error is Some {
        state.config_error
    } else if state.config is None {
        Some(CONFIG_MISSING_AT_BOOTSTRAP@)
    } else {
        None
    }
}

/// The bootstrap answer of a shell that is not ready.
pub open spec fn unready_bootstrap(error: Seq<char>, version: Seq<char>) -> BootstrapView {
    BootstrapView {
        ready: false,
        config_error: Some(error),
        app_url: None,
        app_host: None,
        window_title: DEFAULT_TITLE@,
        window_width: DEFAULT_WIDTH@,
        window_height: DEFAULT_HEIGHT@,
        version,
        reachable: false,
        reachability_error: None,
    }
}

/// The bootstrap answer of a shell that is ready, given the verdict of the
/// reachability probe.
pub open spec fn ready_bootstrap(
    config: ConfigView,
    version: Seq<char>,
    reachability: Result<(), Seq<char>>,
) -> BootstrapView {
    BootstrapView {
        ready: true,
        config_error: None,
        app_url: Some(config.app_url.text),
        app_host: config.app_url.host,
        window_title: config.window_title,
        window_width: config.window_width,
        window_height: config.window_height,
        version,
        reachable: reachability is Ok,
        reachability_error: match reachability {
            Ok(_) => None,
            Err(error) => Some(error),
        },
    }
}

/// What the about query answers.
pub open spec fn about_info(state: AppStateView, version: Seq<char>) -> AboutView {
    match state.config {
        Some(config) => AboutView {
            title: config.window_title,
            version,
            app_host: match config.app_url.host {
                Some(host) => host,
                None => UNKNOWN_HOST@,
            },
            app_url: config.app_url.text,
        },
        None => AboutView {
            title: DEFAULT_TITLE@,
            version,
            app_host: NOT_CONFIGURED@,
            app_url: NOT_CONFIGURED@,
        },
    }
}

/// `url` as it stands inside a double-quoted script string: each backslash
/// doubled, then each double quote preceded by a backslash.
pub open spec fn script_escaped(url: Seq<char>) -> Seq<char> {
    replaced(replaced(url, "\\"@, "\\\\"@), "\""@, "\\\""@)
}

/// The script that sends the webview to `url`.
pub open spec fn navigation_script_text(url: Seq<char>) -> Seq<char> {
    "window.location.replace(\""@ + script_escaped(url) + "\");"@
}

fn duplicate_text(text: &Option<String>) -> (out: Option<String>)
    ensures
        text_view(out) == text_view(*text),
{
    match text {
        Some(t) => Some(t.clone()),
        None => None,
    }
}

impl AppState {
    /// The state that the process holds after the resolution `result`.
    pub fn from_result(result: Result<RuntimeConfig, String>) -> (state: AppState)
        ensures
            state@ == state_of(result_view(result)),
    {
        match result {
            Ok(config) => AppState { config: Some(config), config_error: None },
            Err(error) => AppState { config: None, config_error: Some(error) },
        }
    }
}

/// The configuration of a shell that has one; else the startup error, or
/// the complaint that no configuration is held.
pub fn get_config(state: &AppState) -> (out: Result<RuntimeConfig, String>)
    ensures
        result_view(out) == (match state@.config {
            Some(config) => Ok::<ConfigView, Seq<char>>(config),
            None => Err(
                match state@.config_error {
                    Some(error) => error,
                    None => CONFIG_MISSING@,
                },
            ),
        }),
        out matches Ok(config) ==> config_is_valid(config@),
{
    match &state.config {
        Some(config) => {
            Ok(config.duplicate())
        },
        None => match &state.config_error {
            Some(error) => Err(error.clone()),
            None => Err(CONFIG_MISSING.to_owned()),
        },
    }
}

/// The URL to probe before the bootstrap query is answered: that of the
/// configuration, where the shell is ready.
pub fn probe_target(state: &AppState) -> (out: Option<&ParsedUrl>)
    ensures
        out is Some <==> bootstrap_error(state@) is None,
        out matches Some(url) ==> state@.config is Some && url@ == state@.config->0.app_url,
{
    if state.config_error.is_some() {
        return None;
    }
    match &state.config {
        Some(config) => Some(config.app_url()),
        None => None,
    }
}

/// The bootstrap answer of a shell that is not ready; `None` where it is
/// ready and the probe has to be made first.
pub fn bootstrap_state_unready(state: &AppState, version: &str) -> (out: Option<BootstrapState>)
    ensures
        match bootstrap_error(state@) {
            Some(error) => out is Some && out->0@ == unready_bootstrap(error, version@),
            None => out is None,
        },
{
    let error = match &state.config_error {
        Some(error) => error.clone(),
        None => match &state.config {
            Some(_) => {
                return None;
            },
            None => CONFIG_MISSING_AT_BOOTSTRAP.to_owned(),
        },
    };
    Some(
        BootstrapState {
            ready: false,
            config_error: Some(error),
            app_url: None,
            app_host: None,
            window_title: DEFAULT_TITLE.to_owned(),
            window_width: Dimension::default_width(),
            window_height: Dimension::default_height(),
            version: version.to_owned(),
            reachable: false,
            reachability_error: None,
        },
    )
}

/// The bootstrap answer of a shell that is ready, given the verdict of the
/// reachability probe.
pub fn bootstrap_state_ready(
    config: &RuntimeConfig,
    version: &str,
    reachability: Result<(), String>,
) -> (out: BootstrapState)
    ensures
        out@ == ready_bootstrap(
            config@,
            version@,
            match reachability {
                Ok(_) => Ok(()),
                Err(error) => Err(error@),
            },
        ),
{
    let url = config.app_url();
    BootstrapState {
        ready: true,
        config_error: None,
        app_url: Some(url.text.clone()),
        app_host: duplicate_text(&url.host),
        window_title: config.window_title().to_owned(),
        window_width: config.window_width().duplicate(),
        window_height: config.window_height().duplicate(),
        version: version.to_owned(),
        reachable: reachability.is_ok(),
        reachability_error: match reachability {
            Ok(_) => None,
            Err(error) => Some(error),
        },
    }
}

/// The answer to the about query: title, version and target of the shell.
pub fn get_about_info(state: &AppState, version: &str) -> (out: AboutInfo)
    ensures
        out@ == about_info(state@, version@),
{
    match &state.config {
        Some(config) => {
            let url = config.app_url();
            AboutInfo {
                title: config.window_title().to_owned(),
                version: version.to_owned(),
                app_host: match &url.host {
                    Some(host) => host.clone(),
                    None => UNKNOWN_HOST.to_owned(),
                },
                app_url: url.text.clone(),
            }
        },
        None => AboutInfo {
            title: DEFAULT_TITLE.to_owned(),
            version: version.to_owned(),
            app_host: NOT_CONFIGURED.to_owned(),
            app_url: NOT_CONFIGURED.to_owned(),
        },
    }
}

/// The settings that the window is made with: those of the configuration,
/// or the defaults and an empty allow-list where the shell has none.
pub fn window_settings(state: &AppState) -> (out: WindowSettings)
    ensures
        match state@.config {
            Some(config) => {
                &&& out.title@ == config.window_title
                &&& out.width@ == config.window_width
                &&& out.height@ == config.window_height
                &&& out.allowed_hosts@ == config.allowed_hosts
            },
            None => {
                &&& out.title@ == DEFAULT_TITLE@
                &&& out.width@ == DEFAULT_WIDTH@
                &&& out.height@ == DEFAULT_HEIGHT@
                &&& out.allowed_hosts@ == Set::<Seq<char>>::empty()
            },
        },
{
    match &state.config {
        Some(config) => WindowSettings {
            title: config.window_title().to_owned(),
            width: config.window_width().duplicate(),
            height: config.window_height().duplicate(),
            allowed_hosts: config.allowed_hosts().duplicate(),
        },
        None => WindowSettings {
            title: DEFAULT_TITLE.to_owned(),
            width: Dimension::default_width(),
            height: Dimension::default_height(),
            allowed_hosts: HostSet::new(),
        },
    }
}

/// The script that sends the webview to `url`, with the URL escaped for the
/// double-quoted string that it stands in.
pub fn navigation_script(url: &str) -> (out: String)
    ensures
        out@ == navigation_script_text(url@),
{
    let step = replace_chars(&chars_of(url), &chars_of("\\"), &chars_of("\\\\"));
    let escaped = replace_chars(&step, &chars_of("\""), &chars_of("\\\""));
    concat3("window.location.replace(\"", string_of(&escaped).as_str(), "\");")
}

/// What is reported when the webview refuses the navigation script.
pub fn navigation_failure_message(error: &str) -> (out: String)
    ensures
        out@ == "Failed to navigate to APP_URL: "@ + error@,
{
    concat2("Failed to navigate to APP_URL: ", error)
}

} // verus!
