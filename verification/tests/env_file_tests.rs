use cra_client::env_file::{
    default_client_env_contents, load_client_env_values, migrate_legacy_default_contents,
    parse_client_env_file, parse_env_line,
};
use cra_client::settings::Settings;
use cra_client::text::chars_of;

fn parsed(content: &str) -> Settings {
    let mut values = Settings::new();
    parse_client_env_file(content, &mut values);
    values
}

fn value(values: &Settings, key: &str) -> Option<String> {
    values.get(key).cloned()
}

fn line(text: &str) -> Option<(String, String)> {
    parse_env_line(&chars_of(text))
}

fn pair(key: &str, value: &str) -> Option<(String, String)> {
    Some((key.to_string(), value.to_string()))
}

#[test]
fn a_line_sets_key_and_value() {
    assert_eq!(line("APP_URL=http://host:3000"), pair("APP_URL", "http://host:3000"));
    assert_eq!(line("  KEY  =  value with spaces  "), pair("KEY", "value with spaces"));
    assert_eq!(line("KEY=a=b=c"), pair("KEY", "a=b=c"));
    assert_eq!(line("KEY="), pair("KEY", ""));
    assert_eq!(line("KEY=value\r"), pair("KEY", "value"));
}

#[test]
fn blank_lines_comments_and_malformed_lines_set_nothing() {
    assert_eq!(line(""), None);
    assert_eq!(line("   \t"), None);
    assert_eq!(line("# comment"), None);
    assert_eq!(line("   # KEY=value"), None);
    assert_eq!(line("no separator here"), None);
    assert_eq!(line("=value"), None);
    assert_eq!(line("   = value"), None);
}

#[test]
fn one_pair_of_matching_quotes_is_stripped() {
    assert_eq!(line("K=\"quoted\""), pair("K", "quoted"));
    assert_eq!(line("K='quoted'"), pair("K", "quoted"));
    assert_eq!(line("K=  \" padded \"  "), pair("K", " padded "));
    assert_eq!(line("K=\"\""), pair("K", ""));
    assert_eq!(line("K=\"\"twice\"\""), pair("K", "\"twice\""));
    assert_eq!(line("K=\"'nested'\""), pair("K", "'nested'"));
}

#[test]
fn unmatched_quotes_are_kept() {
    assert_eq!(line("K=\"open"), pair("K", "\"open"));
    assert_eq!(line("K=close'"), pair("K", "close'"));
    assert_eq!(line("K=\"mixed'"), pair("K", "\"mixed'"));
    assert_eq!(line("K=\""), pair("K", "\""));
}

#[test]
fn keys_are_case_sensitive() {
    let values = parsed("key=lower\nKEY=upper\n");
    assert_eq!(value(&values, "key"), Some("lower".to_string()));
    assert_eq!(value(&values, "KEY"), Some("upper".to_string()));
    assert_eq!(value(&values, "Key"), None);
}

#[test]
fn a_later_line_replaces_an_earlier_one() {
    let values = parsed("A=1\nB=2\nA=3");
    assert_eq!(value(&values, "A"), Some("3".to_string()));
    assert_eq!(value(&values, "B"), Some("2".to_string()));
}

#[test]
fn parsing_keeps_what_the_mapping_held() {
    let mut values = Settings::new();
    values.insert("KEPT".to_string(), "old".to_string());
    values.insert("A".to_string(), "old".to_string());
    parse_client_env_file("A=new\r\n\r\n# note\r\nB=2\r\n", &mut values);
    assert_eq!(value(&values, "KEPT"), Some("old".to_string()));
    assert_eq!(value(&values, "A"), Some("new".to_string()));
    assert_eq!(value(&values, "B"), Some("2".to_string()));
}

#[test]
fn later_files_overwrite_earlier_files() {
    let files = vec![
        "APP_URL=http://first\nONLY_FIRST=1\n".to_string(),
        "APP_URL=http://second\nONLY_SECOND=2\n".to_string(),
        "APP_URL=http://third\n".to_string(),
    ];
    let values = load_client_env_values(&files);
    assert_eq!(value(&values, "APP_URL"), Some("http://third".to_string()));
    assert_eq!(value(&values, "ONLY_FIRST"), Some("1".to_string()));
    assert_eq!(value(&values, "ONLY_SECOND"), Some("2".to_string()));
}

#[test]
fn no_files_give_an_empty_mapping() {
    let values = load_client_env_values(&Vec::new());
    assert!(!values.contains_key("APP_URL"));
}

#[test]
fn default_file_holds_header_guidance_and_defaults() {
    assert_eq!(
        default_client_env_contents(),
        "# Auto-generated default configuration for CRA Client.\n\
# Update APP_URL and ALLOWED_HOSTS if your deployment target changes.\n\
APP_URL=http://192.168.50.55:3000\n\
ALLOWED_HOSTS=192.168.50.55\n\
WINDOW_TITLE=CRA Client\n\
WINDOW_WIDTH=1280\n\
WINDOW_HEIGHT=800\n"
    );
}

#[test]
fn default_file_parses_to_the_default_values() {
    let values = parsed(&default_client_env_contents());
    assert_eq!(value(&values, "APP_URL"), Some("http://192.168.50.55:3000".to_string()));
    assert_eq!(value(&values, "ALLOWED_HOSTS"), Some("192.168.50.55".to_string()));
    assert_eq!(value(&values, "WINDOW_TITLE"), Some("CRA Client".to_string()));
    assert_eq!(value(&values, "WINDOW_WIDTH"), Some("1280".to_string()));
    assert_eq!(value(&values, "WINDOW_HEIGHT"), Some("800".to_string()));
}

const HEADER: &str = "# Auto-generated default configuration for CRA Client.";

#[test]
fn migration_rewrites_the_legacy_line_of_a_generated_file() {
    let legacy = "# Auto-generated default configuration for CRA Client.\n\
APP_URL=https://192.168.50.55\n\
ALLOWED_HOSTS=192.168.50.55\n";
    assert_eq!(
        migrate_legacy_default_contents(legacy),
        Some(
            "# Auto-generated default configuration for CRA Client.\n\
APP_URL=http://192.168.50.55:3000\n\
ALLOWED_HOSTS=192.168.50.55\n"
                .to_string()
        )
    );
}

#[test]
fn migration_rewrites_every_legacy_line_and_keeps_the_rest() {
    let legacy = format!(
        "{HEADER}\nAPP_URL=https://192.168.50.55\n\n  # note\nAPP_URL=https://192.168.50.55\nWINDOW_TITLE=T"
    );
    assert_eq!(
        migrate_legacy_default_contents(&legacy),
        Some(format!(
            "{HEADER}\nAPP_URL=http://192.168.50.55:3000\n\n  # note\nAPP_URL=http://192.168.50.55:3000\nWINDOW_TITLE=T"
        ))
    );
    let last_line = format!("{HEADER}\nAPP_URL=https://192.168.50.55");
    assert_eq!(
        migrate_legacy_default_contents(&last_line),
        Some(format!("{HEADER}\nAPP_URL=http://192.168.50.55:3000"))
    );
}

#[test]
fn migration_keeps_the_carriage_return_of_a_legacy_line() {
    let legacy = format!("{HEADER}\r\nAPP_URL=https://192.168.50.55\r\nALLOWED_HOSTS=a\r\n");
    assert_eq!(
        migrate_legacy_default_contents(&legacy),
        Some(format!("{HEADER}\r\nAPP_URL=http://192.168.50.55:3000\r\nALLOWED_HOSTS=a\r\n"))
    );
    let two = format!("{HEADER}\nAPP_URL=https://192.168.50.55\r\r\n");
    assert_eq!(migrate_legacy_default_contents(&two), None);
}

#[test]
fn migration_leaves_a_longer_address_alone() {
    let file = "# Auto-generated default configuration for CRA Client.\nAPP_URL=https://192.168.50.55:8443\nALLOWED_HOSTS=192.168.50.55\n";
    assert_eq!(migrate_legacy_default_contents(file), None);
    for line in [
        "APP_URL=https://192.168.50.55/",
        "APP_URL=https://192.168.50.551",
        "APP_URL=https://192.168.50.55 ",
        " APP_URL=https://192.168.50.55",
        "#APP_URL=https://192.168.50.55",
        "MY_APP_URL=https://192.168.50.55",
        "APP_URL=\"https://192.168.50.55\"",
        "APP_URL=https://192.168.50.5",
    ] {
        let file = format!("{HEADER}\n{line}\nALLOWED_HOSTS=192.168.50.55\n");
        assert_eq!(migrate_legacy_default_contents(&file), None, "{:?}", line);
    }
}

#[test]
fn migration_rewrites_only_the_exact_lines_of_a_mixed_file() {
    let file = format!(
        "{HEADER}\n#APP_URL=https://192.168.50.55\nAPP_URL=https://192.168.50.55\nAPP_URL=https://192.168.50.55:8443\n"
    );
    assert_eq!(
        migrate_legacy_default_contents(&file),
        Some(format!(
            "{HEADER}\n#APP_URL=https://192.168.50.55\nAPP_URL=http://192.168.50.55:3000\nAPP_URL=https://192.168.50.55:8443\n"
        ))
    );
}

#[test]
fn migration_is_idempotent() {
    for legacy in [
        format!("{HEADER}\nAPP_URL=https://192.168.50.55\n"),
        format!("{HEADER}\nAPP_URL=https://192.168.50.55\nAPP_URL=https://192.168.50.55\r\n"),
        format!("APP_URL=https://192.168.50.55\n{HEADER}"),
        format!("{HEADER}\n#APP_URL=https://192.168.50.55\nAPP_URL=https://192.168.50.55"),
    ] {
        let once = migrate_legacy_default_contents(&legacy).unwrap();
        assert_eq!(migrate_legacy_default_contents(&once), None, "{:?}", legacy);
    }
    assert_eq!(migrate_legacy_default_contents(&default_client_env_contents()), None);
}

#[test]
fn migration_leaves_files_without_the_header_alone() {
    assert_eq!(migrate_legacy_default_contents("APP_URL=https://192.168.50.55\n"), None);
    assert_eq!(
        migrate_legacy_default_contents("# my own file\nAPP_URL=https://192.168.50.55\n"),
        None
    );
    assert_eq!(migrate_legacy_default_contents(""), None);
}

#[test]
fn migration_leaves_generated_files_without_the_legacy_line_alone() {
    assert_eq!(
        migrate_legacy_default_contents(
            "# Auto-generated default configuration for CRA Client.\nAPP_URL=https://example.com\n"
        ),
        None
    );
}
