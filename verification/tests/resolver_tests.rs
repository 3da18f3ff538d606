use cra_client::address::ParsedUrl;
use cra_client::env_file::default_client_env_contents;
use cra_client::hosts::normalize_host;
use cra_client::resolver::{resolve_settings, resolve_with_url, RuntimeConfig};
use cra_client::settings::Settings;
use cra_client::startup::{load_runtime_config, load_runtime_config_at, Preparation};

const BLOCKED: &str = "APP_URL host resolves to localhost in release build. Use a non-localhost target, or set CRA_CLIENT_ALLOW_LOCALHOST_RELEASE=true for diagnostic builds.";

fn settings(entries: &[(&str, &str)]) -> Settings {
    let mut out = Settings::new();
    for (key, value) in entries {
        out.insert(key.to_string(), value.to_string());
    }
    out
}

fn resolve(
    env: &[(&str, &str)],
    files: &[(&str, &str)],
    diagnostic_build: bool,
) -> (Result<RuntimeConfig, String>, Vec<String>) {
    resolve_settings(&settings(env), &settings(files), diagnostic_build, Vec::new())
}

fn error_of(out: (Result<RuntimeConfig, String>, Vec<String>)) -> String {
    out.0.err().unwrap()
}

fn holds_own_host(config: &RuntimeConfig) -> bool {
    match &config.app_url().host {
        Some(host) => config.allowed_hosts().contains(&normalize_host(host)),
        None => false,
    }
}

#[test]
fn default_file_resolves_to_default_configuration() {
    let files = vec![default_client_env_contents()];
    let (result, diagnostics) = load_runtime_config_at(
        "1700000000",
        "1.2.3",
        &Preparation::Ready,
        &Settings::new(),
        &files,
        false,
    );
    let config = result.ok().unwrap();
    assert_eq!(config.app_url().text, "http://192.168.50.55:3000/");
    assert_eq!(config.app_url().scheme, "http");
    assert_eq!(config.app_url().host, Some("192.168.50.55".to_string()));
    assert_eq!(config.allowed_hosts().to_vec(), vec!["192.168.50.55"]);
    assert_eq!(config.window_title(), "CRA Client");
    assert_eq!(config.window_width().as_text(), "1280");
    assert_eq!(config.window_height().as_text(), "800");
    assert_eq!(config.window_width().as_text().parse::<f64>(), Ok(1280.0));
    assert_eq!(config.window_height().as_text().parse::<f64>(), Ok(800.0));
    assert_eq!(
        diagnostics,
        vec![
            "timestamp=1700000000",
            "version=1.2.3",
            "app_url_source=client.env APP_URL",
            "allowed_hosts_source=client.env ALLOWED_HOSTS",
            "localhost_release_override=false (default false)",
            "release_localhost_guard=pass",
            "window_title_source=client.env WINDOW_TITLE",
            "window_width_source=client.env WINDOW_WIDTH",
            "window_height_source=client.env WINDOW_HEIGHT",
            "resolved_app_url=http://192.168.50.55:3000/",
            "resolved_allowed_hosts=192.168.50.55",
        ]
    );
}

#[test]
fn defaults_stand_in_for_unset_window_settings() {
    let (result, diagnostics) = resolve(
        &[("CRA_CLIENT_APP_URL", "https://Example.com/app"), ("CRA_CLIENT_ALLOWED_HOSTS", "z.example, EXAMPLE.com")],
        &[],
        true,
    );
    let config = result.ok().unwrap();
    assert_eq!(config.app_url().text, "https://example.com/app");
    assert_eq!(config.allowed_hosts().to_vec(), vec!["example.com", "z.example"]);
    assert_eq!(config.window_title(), "CRA Client");
    assert_eq!(config.window_width().as_text(), "1280");
    assert_eq!(config.window_height().as_text(), "800");
    assert_eq!(
        diagnostics,
        vec![
            "app_url_source=process env CRA_CLIENT_APP_URL",
            "allowed_hosts_source=process env CRA_CLIENT_ALLOWED_HOSTS",
            "localhost_release_override=false (default false)",
            "release_localhost_guard=debug-skip",
            "window_title_source=default CRA Client",
            "window_width_source=default 1280",
            "window_height_source=default 800",
            "resolved_app_url=https://example.com/app",
            "resolved_allowed_hosts=example.com,z.example",
        ]
    );
}

#[test]
fn environment_overrides_file_in_resolution() {
    let (result, _) = resolve(
        &[("CRA_CLIENT_APP_URL", "http://env.example"), ("CRA_CLIENT_WINDOW_TITLE", " Kiosk ")],
        &[
            ("APP_URL", "http://file.example"),
            ("ALLOWED_HOSTS", "env.example,file.example"),
            ("WINDOW_TITLE", "From file"),
            ("WINDOW_HEIGHT", "600.5"),
        ],
        false,
    );
    let config = result.ok().unwrap();
    assert_eq!(config.app_url().host, Some("env.example".to_string()));
    assert_eq!(config.window_title(), "Kiosk");
    assert_eq!(config.window_height().as_text(), "600.5");
    assert_eq!(config.window_width().as_text(), "1280");
}

#[test]
fn missing_app_url_is_an_error() {
    let (result, diagnostics) = resolve(&[], &[("ALLOWED_HOSTS", "a")], false);
    assert_eq!(
        result.err().unwrap(),
        "Missing required setting: APP_URL. Set it via CRA_CLIENT_APP_URL or client.env."
    );
    assert_eq!(diagnostics, vec!["app_url_source=missing (CRA_CLIENT_APP_URL or APP_URL in client.env)"]);
}

#[test]
fn unparsable_app_url_is_an_error() {
    let (result, diagnostics) = resolve(&[], &[("APP_URL", "not a url"), ("ALLOWED_HOSTS", "a")], false);
    assert_eq!(result.err().unwrap(), "APP_URL must be a valid URL: relative URL without a base");
    assert_eq!(diagnostics, vec!["app_url_source=client.env APP_URL"]);
}

#[test]
fn app_url_with_other_scheme_is_an_error() {
    assert_eq!(
        error_of(resolve(&[], &[("APP_URL", "ftp://example.com"), ("ALLOWED_HOSTS", "example.com")], false)),
        "APP_URL must use HTTP or HTTPS."
    );
    assert_eq!(
        error_of(resolve(&[], &[("APP_URL", "data:text/plain,x"), ("ALLOWED_HOSTS", "example.com")], true)),
        "APP_URL must use HTTP or HTTPS."
    );
}

#[test]
fn app_url_without_host_is_an_error() {
    let parsed = ParsedUrl { text: "http:/x".to_string(), scheme: "http".to_string(), host: None };
    let (result, diagnostics) = resolve_with_url(
        Ok(parsed),
        &Settings::new(),
        &settings(&[("ALLOWED_HOSTS", "x")]),
        false,
        vec!["before".to_string()],
    );
    assert_eq!(result.err().unwrap(), "APP_URL must include a host.");
    assert_eq!(diagnostics, vec!["before"]);
}

#[test]
fn parser_complaint_is_passed_on() {
    let (result, diagnostics) = resolve_with_url(
        Err("some complaint".to_string()),
        &Settings::new(),
        &Settings::new(),
        false,
        Vec::new(),
    );
    assert_eq!(result.err().unwrap(), "APP_URL must be a valid URL: some complaint");
    assert!(diagnostics.is_empty());
}

#[test]
fn missing_allowed_hosts_is_an_error() {
    let (result, diagnostics) = resolve(&[], &[("APP_URL", "http://example.com")], false);
    assert_eq!(
        result.err().unwrap(),
        "Missing required setting: ALLOWED_HOSTS. Set it via CRA_CLIENT_ALLOWED_HOSTS or client.env."
    );
    assert_eq!(
        diagnostics,
        vec![
            "app_url_source=client.env APP_URL",
            "allowed_hosts_source=missing (CRA_CLIENT_ALLOWED_HOSTS or ALLOWED_HOSTS in client.env)",
        ]
    );
}

#[test]
fn allowed_hosts_without_a_host_is_an_error() {
    let (result, diagnostics) =
        resolve(&[], &[("APP_URL", "http://example.com"), ("ALLOWED_HOSTS", " , ,")], false);
    assert_eq!(result.err().unwrap(), "ALLOWED_HOSTS must include at least one host.");
    assert_eq!(
        diagnostics,
        vec!["app_url_source=client.env APP_URL", "allowed_hosts_source=client.env ALLOWED_HOSTS"]
    );
}

#[test]
fn allowed_hosts_without_the_app_host_is_an_error() {
    assert_eq!(
        error_of(resolve(&[], &[("APP_URL", "http://example.com"), ("ALLOWED_HOSTS", "other.example")], false)),
        "ALLOWED_HOSTS must include the APP_URL host."
    );
}

#[test]
fn no_configuration_lacks_its_own_host() {
    let urls = ["http://a.example", "https://B.example:8443/x", "http://192.168.50.55:3000", "http://localhost", "ftp://a.example", "nonsense"];
    let lists = ["", "a.example", "A.EXAMPLE , b.example", "192.168.50.55", "localhost,127.0.0.1", "c.example,,", " b.example"];
    let mut accepted = 0;
    for url in urls {
        for list in lists {
            for diagnostic_build in [false, true] {
                let (result, _) = resolve(&[], &[("APP_URL", url), ("ALLOWED_HOSTS", list)], diagnostic_build);
                if let Ok(config) = result {
                    accepted += 1;
                    assert!(holds_own_host(&config), "{:?} {:?}", url, list);
                    assert!(!config.allowed_hosts().is_empty());
                }
            }
        }
    }
    assert_eq!(accepted, 11);
}

#[test]
fn release_build_refuses_localhost_without_override() {
    let files = [("APP_URL", "http://localhost:3000"), ("ALLOWED_HOSTS", "localhost")];
    let (result, diagnostics) = resolve(&[], &files, false);
    assert_eq!(result.err().unwrap(), BLOCKED);
    assert_eq!(
        diagnostics,
        vec![
            "app_url_source=client.env APP_URL",
            "allowed_hosts_source=client.env ALLOWED_HOSTS",
            "localhost_release_override=false (default false)",
            "release_localhost_guard=blocked",
        ]
    );
    for (url, host) in [("http://127.0.0.1:3000", "127.0.0.1"), ("https://tauri.localhost", "tauri.localhost"), ("http://LocalHost", "localhost")] {
        assert_eq!(error_of(resolve(&[], &[("APP_URL", url), ("ALLOWED_HOSTS", host)], false)), BLOCKED);
    }
}

#[test]
fn diagnostic_build_accepts_localhost_without_override() {
    let files = [("APP_URL", "http://localhost:3000"), ("ALLOWED_HOSTS", "localhost")];
    let (result, diagnostics) = resolve(&[], &files, true);
    let config = result.ok().unwrap();
    assert_eq!(config.app_url().host, Some("localhost".to_string()));
    assert!(diagnostics.contains(&"release_localhost_guard=debug-skip".to_string()));
}

#[test]
fn override_lets_localhost_pass_in_both_builds() {
    for diagnostic_build in [false, true] {
        let (result, diagnostics) = resolve(
            &[("CRA_CLIENT_ALLOW_LOCALHOST_RELEASE", "true")],
            &[("APP_URL", "http://localhost:3000"), ("ALLOWED_HOSTS", "localhost")],
            diagnostic_build,
        );
        assert!(result.is_ok());
        assert_eq!(diagnostics[2], "localhost_release_override=true (process env CRA_CLIENT_ALLOW_LOCALHOST_RELEASE)");
        let (result, diagnostics) = resolve(
            &[],
            &[("APP_URL", "http://localhost:3000"), ("ALLOWED_HOSTS", "localhost"), ("CRA_CLIENT_ALLOW_LOCALHOST_RELEASE", "on")],
            diagnostic_build,
        );
        assert!(result.is_ok());
        assert_eq!(diagnostics[2], "localhost_release_override=true (client.env CRA_CLIENT_ALLOW_LOCALHOST_RELEASE)");
    }
}

#[test]
fn override_set_false_keeps_the_guard() {
    let out = resolve(
        &[("CRA_CLIENT_ALLOW_LOCALHOST_RELEASE", "no")],
        &[("APP_URL", "http://localhost:3000"), ("ALLOWED_HOSTS", "localhost")],
        false,
    );
    assert_eq!(error_of(out), BLOCKED);
}

#[test]
fn release_build_accepts_other_hosts() {
    let (result, diagnostics) =
        resolve(&[], &[("APP_URL", "http://192.168.50.55:3000"), ("ALLOWED_HOSTS", "192.168.50.55")], false);
    assert!(result.is_ok());
    assert!(diagnostics.contains(&"release_localhost_guard=pass".to_string()));
}

#[test]
fn malformed_override_is_an_error_in_both_builds() {
    for diagnostic_build in [false, true] {
        let (result, diagnostics) = resolve(
            &[("CRA_CLIENT_ALLOW_LOCALHOST_RELEASE", "perhaps")],
            &[("APP_URL", "http://example.com"), ("ALLOWED_HOSTS", "example.com")],
            diagnostic_build,
        );
        assert_eq!(
            result.err().unwrap(),
            "CRA_CLIENT_ALLOW_LOCALHOST_RELEASE must be a boolean (true/false/1/0), got 'perhaps'."
        );
        assert_eq!(diagnostics.len(), 2);
    }
}

#[test]
fn malformed_width_is_an_error_naming_value_and_key() {
    let (result, diagnostics) = resolve(
        &[],
        &[("APP_URL", "http://example.com"), ("ALLOWED_HOSTS", "example.com"), ("WINDOW_WIDTH", "abc")],
        false,
    );
    let error = result.err().unwrap();
    assert_eq!(error, "WINDOW_WIDTH must be numeric, got 'abc'.");
    assert!(error.contains("abc") && error.contains("WINDOW_WIDTH"));
    assert_eq!(diagnostics.last().unwrap(), "window_title_source=default CRA Client");
}

#[test]
fn malformed_height_is_an_error_after_the_width_is_logged() {
    let (result, diagnostics) = resolve(
        &[("CRA_CLIENT_WINDOW_HEIGHT", "tall")],
        &[("APP_URL", "http://example.com"), ("ALLOWED_HOSTS", "example.com"), ("WINDOW_WIDTH", "1e3")],
        false,
    );
    assert_eq!(result.err().unwrap(), "WINDOW_HEIGHT must be numeric, got 'tall'.");
    assert_eq!(diagnostics.last().unwrap(), "window_width_source=client.env WINDOW_WIDTH");
}

#[test]
fn failed_migration_ends_the_startup() {
    let preparation = Preparation::MigrationFailed {
        path: "C:\\Users\\u\\AppData\\Roaming\\CRA Client\\client.env".to_string(),
        error: "Access is denied.".to_string(),
    };
    let files = vec![default_client_env_contents()];
    let (result, diagnostics) =
        load_runtime_config_at("5", "0.1.0", &preparation, &Settings::new(), &files, false);
    let error = "Could not migrate legacy config file 'C:\\Users\\u\\AppData\\Roaming\\CRA Client\\client.env': Access is denied.";
    assert_eq!(result.err().unwrap(), error);
    assert_eq!(
        diagnostics,
        vec![
            "timestamp=5".to_string(),
            "version=0.1.0".to_string(),
            format!("migrate_legacy_default_client_env_file=error:{}", error),
        ]
    );
}

#[test]
fn failed_default_file_creation_ends_the_startup() {
    let files = vec![default_client_env_contents()];
    let directory = Preparation::DirectoryFailed { path: "/data/CRA Client".to_string(), error: "read-only".to_string() };
    let (result, diagnostics) =
        load_runtime_config_at("5", "0.1.0", &directory, &Settings::new(), &files, false);
    assert_eq!(result.err().unwrap(), "Could not create config directory '/data/CRA Client': read-only");
    assert_eq!(
        diagnostics[2],
        "ensure_default_client_env_file=error:Could not create config directory '/data/CRA Client': read-only"
    );
    let file = Preparation::DefaultFileFailed { path: "/data/CRA Client/client.env".to_string(), error: "disk full".to_string() };
    let (result, diagnostics) =
        load_runtime_config_at("5", "0.1.0", &file, &Settings::new(), &files, false);
    assert_eq!(
        result.err().unwrap(),
        "Could not create default config file '/data/CRA Client/client.env': disk full"
    );
    assert_eq!(diagnostics.len(), 3);
    assert_eq!(
        diagnostics[2],
        "ensure_default_client_env_file=error:Could not create default config file '/data/CRA Client/client.env': disk full"
    );
}

#[test]
fn later_file_decides_the_resolved_address() {
    let files = vec![
        "APP_URL=http://first.example\nALLOWED_HOSTS=first.example,second.example\n".to_string(),
        "APP_URL=http://second.example\n".to_string(),
    ];
    let (result, _) =
        load_runtime_config_at("0", "v", &Preparation::Ready, &Settings::new(), &files, false);
    assert_eq!(result.ok().unwrap().app_url().host, Some("second.example".to_string()));
}

#[test]
fn startup_stamps_the_current_time() {
    let files = vec![default_client_env_contents()];
    let (result, diagnostics) =
        load_runtime_config("9.9.9", &Preparation::Ready, &Settings::new(), &files, true);
    assert!(result.is_ok());
    assert_eq!(diagnostics.len(), 11);
    let stamp = diagnostics[0].strip_prefix("timestamp=").unwrap();
    assert!(!stamp.is_empty() && stamp.chars().all(|c| c.is_ascii_digit()));
    assert!(stamp.parse::<u64>().unwrap() > 1_600_000_000);
    assert_eq!(diagnostics[1], "version=9.9.9");
}

#[test]
fn duplicate_configuration_has_the_same_values() {
    let (result, _) = resolve(
        &[],
        &[("APP_URL", "http://example.com"), ("ALLOWED_HOSTS", "example.com,b"), ("WINDOW_TITLE", "T"), ("WINDOW_WIDTH", "1"), ("WINDOW_HEIGHT", "2")],
        false,
    );
    let config = result.ok().unwrap();
    let copy = config.duplicate();
    assert_eq!(copy.app_url().text, "http://example.com/");
    assert_eq!(copy.allowed_hosts().to_vec(), vec!["b", "example.com"]);
    assert_eq!(copy.window_title(), "T");
    assert_eq!(copy.window_width().as_text(), "1");
    assert_eq!(copy.window_height().as_text(), "2");
}
