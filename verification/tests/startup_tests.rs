use cra_client::resolver::resolve_settings;
use cra_client::settings::Settings;
use cra_client::startup::{
    appdata_client_env_path, appdata_logs_dir_path, candidate_client_env_files,
    current_timestamp, format_timestamp, preparation_failure, startup_log_entries,
    startup_log_path, Preparation,
};

fn names(parts: &[&str]) -> Vec<String> {
    parts.iter().map(|p| p.to_string()).collect()
}

#[test]
fn timestamp_is_decimal_seconds() {
    assert_eq!(format_timestamp(Some(0)), "0");
    assert_eq!(format_timestamp(Some(1700000000)), "1700000000");
    assert_eq!(format_timestamp(Some(u64::MAX)), "18446744073709551615");
    assert_eq!(format_timestamp(None), "0");
}

#[test]
fn current_timestamp_is_a_recent_decimal_number() {
    let stamp = current_timestamp();
    assert!(stamp.chars().all(|c| c.is_ascii_digit()));
    assert!(stamp.parse::<u64>().unwrap() > 1_600_000_000);
}

#[test]
fn per_user_paths_lie_in_the_shell_directory() {
    assert_eq!(
        appdata_client_env_path(Some("C:\\Users\\u\\AppData\\Roaming")),
        Some(names(&["C:\\Users\\u\\AppData\\Roaming", "CRA Client", "client.env"]))
    );
    assert_eq!(
        appdata_logs_dir_path(Some("/home/u/.config")),
        Some(names(&["/home/u/.config", "CRA Client", "logs"]))
    );
    assert_eq!(
        startup_log_path(Some("/home/u/.config")),
        Some(names(&["/home/u/.config", "CRA Client", "logs", "startup.log"]))
    );
}

#[test]
fn per_user_paths_need_the_application_data_directory() {
    assert_eq!(appdata_client_env_path(None), None);
    assert_eq!(appdata_logs_dir_path(None), None);
    assert_eq!(startup_log_path(None), None);
}

#[test]
fn candidate_files_come_in_the_fixed_order() {
    assert_eq!(
        candidate_client_env_files(Some("/opt/shell"), Some("/home/u/.config")),
        vec![
            names(&["client.env"]),
            names(&["/opt/shell", "client.env"]),
            names(&["/home/u/.config", "CRA Client", "client.env"]),
        ]
    );
    assert_eq!(
        candidate_client_env_files(None, Some("/home/u/.config")),
        vec![names(&["client.env"]), names(&["/home/u/.config", "CRA Client", "client.env"])]
    );
    assert_eq!(
        candidate_client_env_files(Some("/opt/shell"), None),
        vec![names(&["client.env"]), names(&["/opt/shell", "client.env"])]
    );
    assert_eq!(candidate_client_env_files(None, None), vec![names(&["client.env"])]);
}

#[test]
fn preparation_that_is_ready_reports_nothing() {
    assert_eq!(preparation_failure(&Preparation::Ready), None);
}

#[test]
fn startup_log_brackets_the_diagnostics() {
    let mut files = Settings::new();
    files.insert("APP_URL".to_string(), "http://example.com".to_string());
    files.insert("ALLOWED_HOSTS".to_string(), "example.com".to_string());
    let (result, diagnostics) = resolve_settings(&Settings::new(), &files, true, Vec::new());
    let lines = startup_log_entries(&result, &diagnostics);
    assert_eq!(lines.len(), diagnostics.len() + 2);
    assert_eq!(lines[0], "----- CRA Client startup -----");
    assert_eq!(&lines[1..lines.len() - 1], &diagnostics[..]);
    assert_eq!(lines[lines.len() - 1], "startup_result=ok");
}

#[test]
fn startup_log_ends_with_the_error() {
    let (result, diagnostics) = resolve_settings(&Settings::new(), &Settings::new(), true, Vec::new());
    let lines = startup_log_entries(&result, &diagnostics);
    assert_eq!(
        lines,
        vec![
            "----- CRA Client startup -----",
            "app_url_source=missing (CRA_CLIENT_APP_URL or APP_URL in client.env)",
            "startup_result=error:Missing required setting: APP_URL. Set it via CRA_CLIENT_APP_URL or client.env.",
        ]
    );
}
