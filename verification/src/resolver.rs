//! The configuration resolver: from the layered settings to a validated
//! [`RuntimeConfig`] or the one error that stopped the resolution, with the
//! diagnostics of every step on the way.

use vstd::prelude::*;
use crate::address::{parse_view, url_parse_outcome, ParsedUrl, UrlView};
use crate::defaults::{
    DEFAULT_HEIGHT, DEFAULT_TITLE, DEFAULT_WIDTH, ENV_ALLOWED_HOSTS, ENV_ALLOW_LOCALHOST_RELEASE,
    ENV_APP_URL, ENV_WINDOW_HEIGHT, ENV_WINDOW_TITLE, ENV_WINDOW_WIDTH, KEY_ALLOWED_HOSTS,
    KEY_APP_URL, KEY_WINDOW_HEIGHT, KEY_WINDOW_TITLE, KEY_WINDOW_WIDTH,
};
use crate::hosts::{
    allowed_hosts_of, normalize_host, normalized, parse_allowed_hosts, sorted_listing, HostSet,
};
use crate::reader::{
    bool_text, bool_value, default_label, dimension_value, missing_message, optional_value,
    parse_window_dimension, read_bool_value, read_optional_value, read_required_value, Dimension,
};
use crate::settings::Settings;
use crate::text::{concat2, concat3, join_strings, joined, note, str_equal, texts_of};

verus! {

/// What is said of an address that does not parse; the parser's complaint follows.
pub const INVALID_URL_PREFIX: &'static str = "APP_URL must be a valid URL: ";

pub const WRONG_SCHEME_MESSAGE: &'static str = "APP_URL must use HTTP or HTTPS.";

pub const NO_HOST_MESSAGE: &'static str = "APP_URL must include a host.";

pub const NO_ALLOWED_HOST_MESSAGE: &'static str = "ALLOWED_HOSTS must include at least one host.";

pub const HOST_NOT_ALLOWED_MESSAGE: &'static str = "ALLOWED_HOSTS must include the APP_URL host.";

pub const LOCALHOST_BLOCKED_MESSAGE: &'static str =
    "APP_URL host resolves to localhost in release build. Use a non-localhost target, or set CRA_CLIENT_ALLOW_LOCALHOST_RELEASE=true for diagnostic builds.";

pub const APP_URL_MISSING_ENTRY: &'static str =
    "app_url_source=missing (CRA_CLIENT_APP_URL or APP_URL in client.env)";

pub const ALLOWED_HOSTS_MISSING_ENTRY: &'static str =
    "allowed_hosts_source=missing (CRA_CLIENT_ALLOWED_HOSTS or ALLOWED_HOSTS in client.env)";

pub const GUARD_BLOCKED_ENTRY: &'static str = "release_localhost_guard=blocked";

pub const GUARD_PASS_ENTRY: &'static str = "release_localhost_guard=pass";

pub const GUARD_SKIPPED_ENTRY: &'static str = "release_localhost_guard=debug-skip";

/// The mathematical value of a [`RuntimeConfig`].
pub struct ConfigView {
    pub app_url: UrlView,
    pub allowed_hosts: Set<Seq<char>>,
    pub window_title: Seq<char>,
    pub window_width: Seq<char>,
    pub window_height: Seq<char>,
}

/// How a resolution ended, and what it logged on the way.
pub struct Outcome {
    pub result: Result<ConfigView, Seq<char>>,
    pub diagnostics: Seq<Seq<char>>,
}

pub open spec fn is_web_scheme(scheme: Seq<char>) -> bool {
    scheme == "http"@ || scheme == "https"@
}

/// The hosts that a release build does not take as its target without the
/// override.
pub open spec fn is_release_blocked_host(host: Seq<char>) -> bool {
    host == "localhost"@ || host == "127.0.0.1"@ || host == "::1"@ || host == "tauri.localhost"@
}

/// What every configuration satisfies: the address is an http or https URL
/// with a host, the allow-list holds that host in normal form, and the
/// window has a title.
pub open spec fn config_is_valid(c: ConfigView) -> bool {
    &&& is_web_scheme(c.app_url.scheme)
    &&& c.app_url.host is Some
    &&& c.allowed_hosts.contains(normalized(c.app_url.host->0))
    &&& c.window_title.len() > 0
}

/// The window settings are resolved and the configuration is built.
pub open spec fn window_stage(
    env: Map<Seq<char>, Seq<char>>,
    file_values: Map<Seq<char>, Seq<char>>,
    url: UrlView,
    hosts: Set<Seq<char>>,
    log: Seq<Seq<char>>,
) -> Outcome {
    let title = match optional_value(
        KEY_WINDOW_TITLE@,
        Some(ENV_WINDOW_TITLE@),
        env,
        file_values,
    ) {
        Some(found) => found,
        None => (DEFAULT_TITLE@, default_label(DEFAULT_TITLE@)),
    };
    let log1 = log.push("window_title_source="@ + title.1);
    match dimension_value(
        KEY_WINDOW_WIDTH@,
        Some(ENV_WINDOW_WIDTH@),
        DEFAULT_WIDTH@,
        env,
        file_values,
    ) {
        Err(error) => Outcome { result: Err(error), diagnostics: log1 },
        Ok((width, width_source)) => {
            let log2 = log1.push("window_width_source="@ + width_source);
            match dimension_value(
                KEY_WINDOW_HEIGHT@,
                Some(ENV_WINDOW_HEIGHT@),
                DEFAULT_HEIGHT@,
                env,
                file_values,
            ) {
                Err(error) => Outcome { result: Err(error), diagnostics: log2 },
                Ok((height, height_source)) => Outcome {
                    result: Ok(
                        ConfigView {
                            app_url: url,
                            allowed_hosts: hosts,
                            window_title: title.0,
                            window_width: width,
                            window_height: height,
                        },
                    ),
                    diagnostics: log2.push("window_height_source="@ + height_source).push(
                        "resolved_app_url="@ + url.text,
                    ).push("resolved_allowed_hosts="@ + joined(sorted_listing(hosts), ","@)),
                },
            }
        },
    }
}

/// The override is read and the release-mode localhost guard is applied; a
/// diagnostic build skips the guard.
pub open spec fn guard_stage(
    env: Map<Seq<char>, Seq<char>>,
    file_values: Map<Seq<char>, Seq<char>>,
    diagnostic_build: bool,
    url: UrlView,
    hosts: Set<Seq<char>>,
    log: Seq<Seq<char>>,
) -> Outcome {
    match bool_value(
        ENV_ALLOW_LOCALHOST_RELEASE@,
        Some(ENV_ALLOW_LOCALHOST_RELEASE@),
        false,
        env,
        file_values,
    ) {
        Err(error) => Outcome { result: Err(error), diagnostics: log },
        Ok((allow, source)) => {
            let log1 = log.push(
                "localhost_release_override="@ + bool_text(allow) + " ("@ + source + ")"@,
            );
            if diagnostic_build {
                window_stage(env, file_values, url, hosts, log1.push(GUARD_SKIPPED_ENTRY@))
            } else if is_release_blocked_host(normalized(url.host->0)) && !allow {
                Outcome {
                    result: Err(LOCALHOST_BLOCKED_MESSAGE@),
                    diagnostics: log1.push(GUARD_BLOCKED_ENTRY@),
                }
            } else {
                window_stage(env, file_values, url, hosts, log1.push(GUARD_PASS_ENTRY@))
            }
        },
    }
}

/// The allow-list is read and checked against the host of the address.
pub open spec fn hosts_stage(
    env: Map<Seq<char>, Seq<char>>,
    file_values: Map<Seq<char>, Seq<char>>,
    diagnostic_build: bool,
    url: UrlView,
    log: Seq<Seq<char>>,
) -> Outcome {
    match optional_value(KEY_ALLOWED_HOSTS@, Some(ENV_ALLOWED_HOSTS@), env, file_values) {
        None => Outcome {
            result: Err(missing_message(KEY_ALLOWED_HOSTS@, Some(ENV_ALLOWED_HOSTS@))),
            diagnostics: log.push(ALLOWED_HOSTS_MISSING_ENTRY@),
        },
        Some((raw, source)) => {
            let log1 = log.push("allowed_hosts_source="@ + source);
            let hosts = allowed_hosts_of(raw);
            if hosts == Set::<Seq<char>>::empty() {
                Outcome { result: Err(NO_ALLOWED_HOST_MESSAGE@), diagnostics: log1 }
            } else if !hosts.contains(normalized(url.host->0)) {
                Outcome { result: Err(HOST_NOT_ALLOWED_MESSAGE@), diagnostics: log1 }
            } else {
                guard_stage(env, file_values, diagnostic_build, url, hosts, log1)
            }
        },
    }
}

/// The parsed address is checked, then the rest of the settings is resolved.
pub open spec fn url_stage(
    parsed: Result<UrlView, Seq<char>>,
    env: Map<Seq<char>, Seq<char>>,
    file_values: Map<Seq<char>, Seq<char>>,
    diagnostic_build: bool,
    log: Seq<Seq<char>>,
) -> Outcome {
    match parsed {
        Err(error) => Outcome { result: Err(INVALID_URL_PREFIX@ + error), diagnostics: log },
        Ok(url) => if !is_web_scheme(url.scheme) {
            Outcome { result: Err(WRONG_SCHEME_MESSAGE@), diagnostics: log }
        } else if url.host is None {
            Outcome { result: Err(NO_HOST_MESSAGE@), diagnostics: log }
        } else {
            hosts_stage(env, file_values, diagnostic_build, url, log)
        },
    }
}

/// The whole resolution of the settings: the address is read and parsed,
/// then checked, then the rest is resolved. The first failure ends it.
pub open spec fn settings_outcome(
    env: Map<Seq<char>, Seq<char>>,
    file_values: Map<Seq<char>, Seq<char>>,
    diagnostic_build: bool,
    log: Seq<Seq<char>>,
) -> Outcome {
    match optional_value(KEY_APP_URL@, Some(ENV_APP_URL@), env, file_values) {
        None => Outcome {
            result: Err(missing_message(KEY_APP_URL@, Some(ENV_APP_URL@))),
            diagnostics: log.push(APP_URL_MISSING_ENTRY@),
        },
        Some((raw, source)) => url_stage(
            url_parse_outcome(raw),
            env,
            file_values,
            diagnostic_build,
            log.push("app_url_source="@ + source),
        ),
    }
}

/// The validated configuration of the shell. It is made once, by the
/// resolver, and read from then on.
///
/// Every value of this type satisfies [`config_is_valid`].
pub struct RuntimeConfig {
    app_url: ParsedUrl,
    allowed_hosts: HostSet,
    window_title: String,
    window_width: Dimension,
    window_height: Dimension,
}

impl View for RuntimeConfig {
    type V = ConfigView;

    closed spec fn view(&self) -> ConfigView {
        ConfigView {
            app_url: self.app_url@,
            allowed_hosts: self.allowed_hosts@,
            window_title: self.window_title@,
            window_width: self.window_width@,
            window_height: self.window_height@,
        }
    }
}

impl RuntimeConfig {
    #[verifier::type_invariant]
    closed spec fn valid(&self) -> bool {
        config_is_valid(self@)
    }

    /// The address of the web application.
    pub fn app_url(&self) -> (out: &ParsedUrl)
        ensures
            out@ == self@.app_url,
            config_is_valid(self@),
    {
        proof {
            use_type_invariant(self);
        }
        &self.app_url
    }

    /// The hosts that the webview may navigate to.
    pub fn allowed_hosts(&self) -> (out: &HostSet)
        ensures
            out@ == self@.allowed_hosts,
            config_is_valid(self@),
    {
        proof {
            use_type_invariant(self);
        }
        &self.allowed_hosts
    }

    /// The title of the window.
    pub fn window_title(&self) -> (out: &str)
        ensures
            out@ == self@.window_title,
            config_is_valid(self@),
    {
        proof {
            use_type_invariant(self);
        }
        self.window_title.as_str()
    }

    /// The width of the window in pixels.
    pub fn window_width(&self) -> (out: &Dimension)
        ensures
            out@ == self@.window_width,
    {
        &self.window_width
    }

    /// The height of the window in pixels.
    pub fn window_height(&self) -> (out: &Dimension)
        ensures
            out@ == self@.window_height,
    {
        &self.window_height
    }

    /// A second configuration with the same values.
    pub fn duplicate(&self) -> (out: RuntimeConfig)
        ensures
            out@ == self@,
            config_is_valid(out@),
    {
        proof {
            use_type_invariant(self);
        }
        RuntimeConfig {
            app_url: self.app_url.duplicate(),
            allowed_hosts: self.allowed_hosts.duplicate(),
            window_title: self.window_title.clone(),
            window_width: self.window_width.duplicate(),
            window_height: self.window_height.duplicate(),
        }
    }
}

/// View of the result of a resolution.
pub open spec fn result_view(r: Result<RuntimeConfig, String>) -> Result<ConfigView, Seq<char>> {
    match r {
        Ok(c) => Ok(c@),
        Err(e) => Err(e@),
    }
}

/// View of a resolution with its diagnostics.
pub open spec fn outcome_view(out: (Result<RuntimeConfig, String>, Vec<String>)) -> Outcome {
    Outcome { result: result_view(out.0), diagnostics: texts_of(out.1@) }
}

fn is_release_blocked(host: &str) -> (r: bool)
    ensures
        r == is_release_blocked_host(host@),
{
    str_equal(host, "localhost") || str_equal(host, "127.0.0.1") || str_equal(host, "::1")
        || str_equal(host, "tauri.localhost")
}

fn resolve_window(
    env: &Settings,
    file_values: &Settings,
    url: ParsedUrl,
    hosts: HostSet,
    log: Vec<String>,
) -> (out: (Result<RuntimeConfig, String>, Vec<String>))
    requires
        is_web_scheme(url@.scheme),
        url@.host is Some,
        hosts@.contains(normalized(url@.host->0)),
    ensures
        outcome_view(out) == window_stage(env@, file_values@, url@, hosts@, texts_of(log@)),
{
    let mut log = log;
    let (window_title, title_source) = match read_optional_value(
        KEY_WINDOW_TITLE,
        Some(ENV_WINDOW_TITLE),
        env,
        file_values,
    ) {
        Some(found) => found,
        None => (DEFAULT_TITLE.to_owned(), concat2("default ", DEFAULT_TITLE)),
    };
    proof {
        reveal_strlit("CRA Client");
    }
    note(&mut log, concat2("window_title_source=", title_source.as_str()));
    let (window_width, width_source) = match parse_window_dimension(
        KEY_WINDOW_WIDTH,
        Some(ENV_WINDOW_WIDTH),
        Dimension::default_width(),
        env,
        file_values,
    ) {
        Ok(found) => found,
        Err(error) => {
            return (Err(error), log);
        },
    };
    note(&mut log, concat2("window_width_source=", width_source.as_str()));
    let (window_height, height_source) = match parse_window_dimension(
        KEY_WINDOW_HEIGHT,
        Some(ENV_WINDOW_HEIGHT),
        Dimension::default_height(),
        env,
        file_values,
    ) {
        Ok(found) => found,
        Err(error) => {
            return (Err(error), log);
        },
    };
    note(&mut log, concat2("window_height_source=", height_source.as_str()));
    note(&mut log, concat2("resolved_app_url=", url.text.as_str()));
    let listing = join_strings(&hosts.to_vec(), ",");
    note(&mut log, concat2("resolved_allowed_hosts=", listing.as_str()));
    let config = RuntimeConfig {
        app_url: url,
        allowed_hosts: hosts,
        window_title,
        window_width,
        window_height,
    };
    (Ok(config), log)
}

fn resolve_guard(
    env: &Settings,
    file_values: &Settings,
    diagnostic_build: bool,
    url: ParsedUrl,
    hosts: HostSet,
    log: Vec<String>,
) -> (out: (Result<RuntimeConfig, String>, Vec<String>))
    requires
        is_web_scheme(url@.scheme),
        url@.host is Some,
        hosts@.contains(normalized(url@.host->0)),
    ensures
        outcome_view(out) == guard_stage(
            env@,
            file_values@,
            diagnostic_build,
            url@,
            hosts@,
            texts_of(log@),
        ),
{
    let mut log = log;
    let (allow, source) = match read_bool_value(
        ENV_ALLOW_LOCALHOST_RELEASE,
        Some(ENV_ALLOW_LOCALHOST_RELEASE),
        false,
        env,
        file_values,
    ) {
        Ok(found) => found,
        Err(error) => {
            return (Err(error), log);
        },
    };
    let shown = if allow {
        "true"
    } else {
        "false"
    };
    let head = concat3("localhost_release_override=", shown, " (");
    note(&mut log, concat3(head.as_str(), source.as_str(), ")"));
    if diagnostic_build {
        note(&mut log, GUARD_SKIPPED_ENTRY.to_owned());
        return resolve_window(env, file_values, url, hosts, log);
    }
    let blocked = match &url.host {
        Some(host) => is_release_blocked(normalize_host(host.as_str()).as_str()),
        None => false,
    };
    if blocked && !allow {
        note(&mut log, GUARD_BLOCKED_ENTRY.to_owned());
        return (Err(LOCALHOST_BLOCKED_MESSAGE.to_owned()), log);
    }
    note(&mut log, GUARD_PASS_ENTRY.to_owned());
    resolve_window(env, file_values, url, hosts, log)
}

fn resolve_hosts(
    env: &Settings,
    file_values: &Settings,
    diagnostic_build: bool,
    url: ParsedUrl,
    log: Vec<String>,
) -> (out: (Result<RuntimeConfig, String>, Vec<String>))
    requires
        is_web_scheme(url@.scheme),
        url@.host is Some,
    ensures
        outcome_view(out) == hosts_stage(
            env@,
            file_values@,
            diagnostic_build,
            url@,
            texts_of(log@),
        ),
{
    let mut log = log;
    let (raw, source) = match read_required_value(
        KEY_ALLOWED_HOSTS,
        Some(ENV_ALLOWED_HOSTS),
        env,
        file_values,
    ) {
        Ok(found) => found,
        Err(error) => {
            note(&mut log, ALLOWED_HOSTS_MISSING_ENTRY.to_owned());
            return (Err(error), log);
        },
    };
    note(&mut log, concat2("allowed_hosts_source=", source.as_str()));
    let hosts = parse_allowed_hosts(raw.as_str());
    if hosts.is_empty() {
        return (Err(NO_ALLOWED_HOST_MESSAGE.to_owned()), log);
    }
    let listed = match &url.host {
        Some(host) => hosts.contains(normalize_host(host.as_str()).as_str()),
        None => false,
    };
    if !listed {
        return (Err(HOST_NOT_ALLOWED_MESSAGE.to_owned()), log);
    }
    resolve_guard(env, file_values, diagnostic_build, url, hosts, log)
}

/// Resolves the configuration once the address has been parsed: `parsed` is
/// what the parser made of the configured address, `log` the diagnostics so
/// far.
///
/// The address must be an http or https URL with a host; the allow-list must
/// be set, name a host, and name the host of the address; in a release build
/// the host must not be a localhost address unless the override is set; the
/// window dimensions, where set, must be numbers. The first of these that
/// fails is the error, and the diagnostics end with the step that failed.
pub fn resolve_with_url(
    parsed: Result<ParsedUrl, String>,
    env: &Settings,
    file_values: &Settings,
    diagnostic_build: bool,
    log: Vec<String>,
) -> (out: (Result<RuntimeConfig, String>, Vec<String>))
    ensures
        outcome_view(out) == url_stage(
            parse_view(parsed),
            env@,
            file_values@,
            diagnostic_build,
            texts_of(log@),
        ),
        out.0 matches Ok(config) ==> config_is_valid(config@),
{
    let url = match parsed {
        Ok(url) => url,
        Err(error) => {
            return (Err(concat2(INVALID_URL_PREFIX, error.as_str())), log);
        },
    };
    if !str_equal(url.scheme.as_str(), "http") && !str_equal(url.scheme.as_str(), "https") {
        return (Err(WRONG_SCHEME_MESSAGE.to_owned()), log);
    }
    if url.host.is_none() {
        return (Err(NO_HOST_MESSAGE.to_owned()), log);
    }
    let out = resolve_hosts(env, file_values, diagnostic_build, url, log);
    proof {
        lemma_resolved_config_is_valid(
            parse_view(parsed),
            env@,
            file_values@,
            diagnostic_build,
            texts_of(log@),
        );
    }
    out
}

/// Resolves the configuration from the snapshot of the process environment
/// and the merged file mapping: reads the address, parses it, and resolves
/// the rest as [`resolve_with_url`] does. `log` holds the diagnostics so far.
pub fn resolve_settings(
    env: &Settings,
    file_values: &Settings,
    diagnostic_build: bool,
    log: Vec<String>,
) -> (out: (Result<RuntimeConfig, String>, Vec<String>))
    ensures
        outcome_view(out) == settings_outcome(
            env@,
            file_values@,
            diagnostic_build,
            texts_of(log@),
        ),
        out.0 matches Ok(config) ==> config_is_valid(config@),
{
    let mut log = log;
    let (raw, source) = match read_required_value(KEY_APP_URL, Some(ENV_APP_URL), env, file_values) {
        Ok(found) => found,
        Err(error) => {
            note(&mut log, APP_URL_MISSING_ENTRY.to_owned());
            return (Err(error), log);
        },
    };
    note(&mut log, concat2("app_url_source=", source.as_str()));
    let parsed = ParsedUrl::parse(raw.as_str());
    resolve_with_url(parsed, env, file_values, diagnostic_build, log)
}

/// No resolution gives a configuration whose allow-list lacks the host of
/// its address: every configuration that comes out is valid, whatever the
/// parser made of the address and whatever the settings hold.
pub proof fn lemma_resolved_config_is_valid(
    parsed: Result<UrlView, Seq<char>>,
    env: Map<Seq<char>, Seq<char>>,
    file_values: Map<Seq<char>, Seq<char>>,
    diagnostic_build: bool,
    log: Seq<Seq<char>>,
)
    ensures
        url_stage(parsed, env, file_values, diagnostic_build, log).result matches Ok(config)
            ==> config_is_valid(config) && config.allowed_hosts.contains(
            normalized(config.app_url.host->0),
        ),
{
    reveal_strlit("CRA Client");
}

/// The diagnostics so far have no part in how a resolution ends.
pub proof fn lemma_result_ignores_log(
    env: Map<Seq<char>, Seq<char>>,
    file_values: Map<Seq<char>, Seq<char>>,
    diagnostic_build: bool,
    url: UrlView,
    hosts: Set<Seq<char>>,
    log: Seq<Seq<char>>,
    other_log: Seq<Seq<char>>,
)
    ensures
        window_stage(env, file_values, url, hosts, log).result == window_stage(
            env,
            file_values,
            url,
            hosts,
            other_log,
        ).result,
        guard_stage(env, file_values, diagnostic_build, url, hosts, log).result == guard_stage(
            env,
            file_values,
            diagnostic_build,
            url,
            hosts,
            other_log,
        ).result,
{
}

/// The release-mode guard stands in the way of nothing else: where the
/// override is set to true, or the host of the address is none of the
/// blocked ones, a release build resolves to what a diagnostic build
/// resolves to.
pub proof fn lemma_guard_blocks_only_localhost_without_override(
    env: Map<Seq<char>, Seq<char>>,
    file_values: Map<Seq<char>, Seq<char>>,
    url: UrlView,
    hosts: Set<Seq<char>>,
    log: Seq<Seq<char>>,
)
    requires
        !is_release_blocked_host(normalized(url.host->0)) || bool_value(
            ENV_ALLOW_LOCALHOST_RELEASE@,
            Some(ENV_ALLOW_LOCALHOST_RELEASE@),
            false,
            env,
            file_values,
        ) matches Ok((true, _)),
    ensures
        guard_stage(env, file_values, false, url, hosts, log).result == guard_stage(
            env,
            file_values,
            true,
            url,
            hosts,
            log,
        ).result,
{
}

/// Without the override, a release build refuses an address on a blocked
/// host, whatever else is configured.
pub proof fn lemma_release_build_refuses_localhost(
    env: Map<Seq<char>, Seq<char>>,
    file_values: Map<Seq<char>, Seq<char>>,
    url: UrlView,
    hosts: Set<Seq<char>>,
    log: Seq<Seq<char>>,
)
    requires
        is_release_blocked_host(normalized(url.host->0)),
        bool_value(
            ENV_ALLOW_LOCALHOST_RELEASE@,
            Some(ENV_ALLOW_LOCALHOST_RELEASE@),
            false,
            env,
            file_values,
        ) matches Ok((false, _)),
    ensures
        guard_stage(env, file_values, false, url, hosts, log).result == Err::<
            ConfigView,
            Seq<char>,
        >(LOCALHOST_BLOCKED_MESSAGE@),
{
}

} // verus!
