//! Startup: where the configuration files are looked for, what the startup
//! log holds, and the resolution of the configuration from what the host
//! has read.

use vstd::prelude::*;
use crate::address::url_parse_outcome;
use crate::defaults::{APP_DIRECTORY, CLIENT_ENV_FILE, ENV_APP_URL, KEY_APP_URL};
use crate::env_file::{load_client_env_values, merged_files};
use crate::numeric::{decimal_chars, decimal_text};
use crate::reader::optional_value;
use crate::resolver::{
    config_is_valid, lemma_resolved_config_is_valid, outcome_view, resolve_settings,
    settings_outcome, Outcome, RuntimeConfig,
};
use crate::settings::Settings;
use crate::text::{concat2, concat3, note, string_of, texts_of};

verus! {

/// Name of the directory of logs below the per-user directory.
pub const LOGS_DIRECTORY: &'static str = "logs";

/// Name of the startup log.
pub const STARTUP_LOG_FILE: &'static str = "startup.log";

/// The line that opens the entries of one run in the startup log.
pub const STARTUP_BANNER: &'static str = "----- CRA Client startup -----";

pub const STARTUP_OK_ENTRY: &'static str = "startup_result=ok";

/// How the preparation of the per-user configuration file ended: the
/// one-time migration first, then the creation of the default file.
pub enum Preparation {
    /// Both steps are done, or had nothing to do.
    Ready,
    /// The file at `path` could not be read or rewritten for the migration.
    MigrationFailed { path: String, error: String },
    /// The directory `path` of the configuration file could not be created.
    DirectoryFailed { path: String, error: String },
    /// The default file could not be written at `path`.
    DefaultFileFailed { path: String, error: String },
}

/// The mathematical value of a [`Preparation`].
pub enum PreparationView {
    Ready,
    MigrationFailed { path: Seq<char>, error: Seq<char> },
    DirectoryFailed { path: Seq<char>, error: Seq<char> },
    DefaultFileFailed { path: Seq<char>, error: Seq<char> },
}

impl View for Preparation {
    type V = PreparationView;

    open spec fn view(&self) -> PreparationView {
        match self {
            Preparation::Ready => PreparationView::Ready,
            Preparation::MigrationFailed { path, error } => PreparationView::MigrationFailed {
                path: path@,
                error: error@,
            },
            Preparation::DirectoryFailed { path, error } => PreparationView::DirectoryFailed {
                path: path@,
                error: error@,
            },
            Preparation::DefaultFileFailed { path, error } => PreparationView::DefaultFileFailed {
                path: path@,
                error: error@,
            },
        }
    }
}

/// The error that a failed preparation is reported as, if it failed.
pub open spec fn preparation_error(p: PreparationView) -> Option<Seq<char>> {
    match p {
        PreparationView::Ready => None,
        PreparationView::MigrationFailed { path, error } => Some(
            "Could not migrate legacy config file '"@ + path + "': "@ + error,
        ),
        PreparationView::DirectoryFailed { path, error } => Some(
            "Could not create config directory '"@ + path + "': "@ + error,
        ),
        PreparationView::DefaultFileFailed { path, error } => Some(
            "Could not create default config file '"@ + path + "': "@ + error,
        ),
    }
}

/// What the diagnostics say of a failed preparation: the step, then the error.
pub open spec fn preparation_entry(p: PreparationView) -> Seq<char> {
    match p {
        PreparationView::Ready => Seq::<char>::empty(),
        PreparationView::MigrationFailed { .. } =>
            "migrate_legacy_default_client_env_file=error:"@ + preparation_error(p)->0,
        _ => "ensure_default_client_env_file=error:"@ + preparation_error(p)->0,
    }
}

/// What the clock reading is written as: the whole seconds since the epoch
/// in decimal, `0` where the clock stands before the epoch.
pub open spec fn timestamp_text(seconds: Option<u64>) -> Seq<char> {
    match seconds {
        Some(n) => decimal_text(n as nat),
        None => "0"@,
    }
}

/// The startup outcome: the diagnostics open with the time and the version;
/// a failed preparation ends the startup; else the files are merged and the
/// settings resolved.
pub open spec fn startup_outcome(
    timestamp: Seq<char>,
    version: Seq<char>,
    preparation: PreparationView,
    env: Map<Seq<char>, Seq<char>>,
    contents: Seq<Seq<char>>,
    diagnostic_build: bool,
) -> Outcome {
    let log = seq!["timestamp="@ + timestamp, "version="@ + version];
    match preparation_error(preparation) {
        Some(error) => Outcome {
            result: Err(error),
            diagnostics: log.push(preparation_entry(preparation)),
        },
        None => settings_outcome(env, merged_files(contents), diagnostic_build, log),
    }
}

/// The lines that one run adds to the startup log: the banner, the
/// diagnostics, and how the startup ended.
pub open spec fn startup_log(outcome: Outcome) -> Seq<Seq<char>> {
    (seq![STARTUP_BANNER@] + outcome.diagnostics).push(
        match outcome.result {
            Ok(_) => STARTUP_OK_ENTRY@,
            Err(error) => "startup_result=error:"@ + error,
        },
    )
}

/// View of an optional path.
pub open spec fn path_view(p: Option<Vec<String>>) -> Option<Seq<Seq<char>>> {
    match p {
        Some(parts) => Some(texts_of(parts@)),
        None => None,
    }
}

/// `std::time::SystemTime`: a reading of the system clock. Nothing of a
/// value of it is visible here.
#[verifier::external_type_specification]
#[verifier::external_body]
pub struct ExSystemTime(std::time::SystemTime);

/// `SystemTime::now` reads the system clock. Nothing is claimed of the
/// reading: it is the time of the call.
pub assume_specification[ std::time::SystemTime::now ]() -> std::time::SystemTime;

/// `Duration::as_secs` gives the whole seconds of a duration. Nothing is
/// claimed of the number.
pub assume_specification[ core::time::Duration::as_secs ](elapsed: &core::time::Duration) -> u64;

/// `SystemTime::duration_since`, asked of `reading` for the time since the
/// Unix epoch; `None` where the reading stands before the epoch. Nothing is
/// claimed of the duration.
#[verifier::external_body]
fn since_epoch(reading: &std::time::SystemTime) -> Option<core::time::Duration> {
    reading.duration_since(std::time::UNIX_EPOCH).ok()
}

/// Writes a clock reading as the diagnostics show it.
pub fn format_timestamp(seconds: Option<u64>) -> (out: String)
    ensures
        out@ == timestamp_text(seconds),
{
    match seconds {
        Some(n) => string_of(&decimal_chars(n)),
        None => "0".to_owned(),
    }
}

/// The current time as the diagnostics show it.
pub fn current_timestamp() -> (out: String)
    ensures
        exists|seconds: Option<u64>| out@ == timestamp_text(seconds),
{
    let reading = std::time::SystemTime::now();
    let seconds = match since_epoch(&reading) {
        Some(elapsed) => Some(elapsed.as_secs()),
        None => None,
    };
    let out = format_timestamp(seconds);
    proof {
        assert(out@ == timestamp_text(seconds));
    }
    out
}

fn path_of3(a: &str, b: &str, c: &str) -> (out: Vec<String>)
    ensures
        texts_of(out@) == seq![a@, b@, c@],
{
    let mut out: Vec<String> = Vec::new();
    out.push(a.to_owned());
    out.push(b.to_owned());
    out.push(c.to_owned());
    proof {
        assert(texts_of(out@) =~= seq![a@, b@, c@]);
    }
    out
}

/// The per-user configuration file, as the names to join into a path: the
/// application-data directory, the shell's directory in it, the file.
/// `None` where the application-data directory is not known.
pub fn appdata_client_env_path(app_data: Option<&str>) -> (out: Option<Vec<String>>)
    ensures
        path_view(out) == (match app_data {
            Some(dir) => Some(seq![dir@, APP_DIRECTORY@, CLIENT_ENV_FILE@]),
            None => None,
        }),
{
    match app_data {
        Some(dir) => Some(path_of3(dir, APP_DIRECTORY, CLIENT_ENV_FILE)),
        None => None,
    }
}

/// The per-user directory of logs, as the names to join into a path.
pub fn appdata_logs_dir_path(app_data: Option<&str>) -> (out: Option<Vec<String>>)
    ensures
        path_view(out) == (match app_data {
            Some(dir) => Some(seq![dir@, APP_DIRECTORY@, LOGS_DIRECTORY@]),
            None => None,
        }),
{
    match app_data {
        Some(dir) => Some(path_of3(dir, APP_DIRECTORY, LOGS_DIRECTORY)),
        None => None,
    }
}

/// The startup log, as the names to join into a path: the log file in the
/// per-user directory of logs.
pub fn startup_log_path(app_data: Option<&str>) -> (out: Option<Vec<String>>)
    ensures
        path_view(out) == (match app_data {
            Some(dir) => Some(seq![dir@, APP_DIRECTORY@, LOGS_DIRECTORY@, STARTUP_LOG_FILE@]),
            None => None,
        }),
{
    match appdata_logs_dir_path(app_data) {
        Some(directory) => {
            let mut out = directory;
            let ghost before = texts_of(out@);
            out.push(STARTUP_LOG_FILE.to_owned());
            proof {
                assert(texts_of(out@) =~= before.push(STARTUP_LOG_FILE@));
                assert(before.push(STARTUP_LOG_FILE@) =~= seq![
                    app_data->0@,
                    APP_DIRECTORY@,
                    LOGS_DIRECTORY@,
                    STARTUP_LOG_FILE@,
                ]);
            }
            Some(out)
        },
        None => None,
    }
}

/// The places where a configuration file is looked for, in the order in
/// which they are read: the working directory, the directory of the
/// executable, the per-user directory.
pub open spec fn candidate_files(exe_dir: Option<Seq<char>>, app_data: Option<Seq<char>>) -> Seq<
    Seq<Seq<char>>,
> {
    seq![seq![CLIENT_ENV_FILE@]] + (match exe_dir {
        Some(dir) => seq![seq![dir, CLIENT_ENV_FILE@]],
        None => Seq::<Seq<Seq<char>>>::empty(),
    }) + (match app_data {
        Some(dir) => seq![seq![dir, APP_DIRECTORY@, CLIENT_ENV_FILE@]],
        None => Seq::<Seq<Seq<char>>>::empty(),
    })
}

/// The paths that a vector of paths holds.
pub open spec fn paths_of(paths: Seq<Vec<String>>) -> Seq<Seq<Seq<char>>> {
    Seq::new(paths.len(), |i: int| texts_of(paths[i]@))
}

/// The places where a configuration file is looked for, each as the names
/// to join into a path, in the order in which they are read. `exe_dir` is
/// the directory of the running executable and `app_data` the
/// application-data directory, each where it is known.
pub fn candidate_client_env_files(exe_dir: Option<&str>, app_data: Option<&str>) -> (out: Vec<
    Vec<String>,
>)
    ensures
        paths_of(out@) == candidate_files(
            match exe_dir {
                Some(dir) => Some(dir@),
                None => None,
            },
            match app_data {
                Some(dir) => Some(dir@),
                None => None,
            },
        ),
{
    let mut files: Vec<Vec<String>> = Vec::new();
    let mut local: Vec<String> = Vec::new();
    local.push(CLIENT_ENV_FILE.to_owned());
    proof {
        assert(texts_of(local@) =~= seq![CLIENT_ENV_FILE@]);
    }
    files.push(local);
    proof {
        assert(paths_of(files@) =~= seq![seq![CLIENT_ENV_FILE@]]);
    }
    if let Some(dir) = exe_dir {
        let ghost before = paths_of(files@);
        let mut beside: Vec<String> = Vec::new();
        beside.push(dir.to_owned());
        beside.push(CLIENT_ENV_FILE.to_owned());
        proof {
            assert(texts_of(beside@) =~= seq![dir@, CLIENT_ENV_FILE@]);
        }
        files.push(beside);
        proof {
            assert(paths_of(files@) =~= before + seq![seq![dir@, CLIENT_ENV_FILE@]]);
        }
    }
    let ghost middle = paths_of(files@);
    proof {
        assert(middle =~= middle + Seq::<Seq<Seq<char>>>::empty());
    }
    if let Some(path) = appdata_client_env_path(app_data) {
        let ghost names = texts_of(path@);
        files.push(path);
        proof {
            assert(paths_of(files@) =~= middle + seq![names]);
        }
    }
    files
}

/// The error that a failed preparation is reported as, if it failed.
pub fn preparation_failure(preparation: &Preparation) -> (out: Option<String>)
    ensures
        crate::reader::text_view(out) == preparation_error(preparation@),
{
    match preparation {
        Preparation::Ready => None,
        Preparation::MigrationFailed { path, error } => Some(
            concat2(
                concat3("Could not migrate legacy config file '", path.as_str(), "': ").as_str(),
                error.as_str(),
            ),
        ),
        Preparation::DirectoryFailed { path, error } => Some(
            concat2(
                concat3("Could not create config directory '", path.as_str(), "': ").as_str(),
                error.as_str(),
            ),
        ),
        Preparation::DefaultFileFailed { path, error } => Some(
            concat2(
                concat3("Could not create default config file '", path.as_str(), "': ").as_str(),
                error.as_str(),
            ),
        ),
    }
}

/// Resolves the configuration at startup, with `timestamp` as the time that
/// the diagnostics show.
///
/// `preparation` says how the migration and the creation of the default
/// file ended, `env` is the snapshot of the process environment and
/// `contents` holds the text of each configuration file that could be read,
/// in the order of the search.
pub fn load_runtime_config_at(
    timestamp: &str,
    version: &str,
    preparation: &Preparation,
    env: &Settings,
    contents: &Vec<String>,
    diagnostic_build: bool,
) -> (out: (Result<RuntimeConfig, String>, Vec<String>))
    ensures
        outcome_view(out) == startup_outcome(
            timestamp@,
            version@,
            preparation@,
            env@,
            texts_of(contents@),
            diagnostic_build,
        ),
        out.0 matches Ok(config) ==> config_is_valid(config@),
{
    let mut log: Vec<String> = Vec::new();
    log.push(concat2("timestamp=", timestamp));
    log.push(concat2("version=", version));
    proof {
        assert(texts_of(log@) =~= seq!["timestamp="@ + timestamp@, "version="@ + version@]);
    }
    if let Some(error) = preparation_failure(preparation) {
        let step = match preparation {
            Preparation::MigrationFailed { .. } => "migrate_legacy_default_client_env_file=error:",
            _ => "ensure_default_client_env_file=error:",
        };
        note(&mut log, concat2(step, error.as_str()));
        return (Err(error), log);
    }
    let file_values = load_client_env_values(contents);
    resolve_settings(env, &file_values, diagnostic_build, log)
}

/// Resolves the configuration at startup. The diagnostics open with the
/// current time; but for that entry the outcome is that of
/// [`load_runtime_config_at`].
pub fn load_runtime_config(
    version: &str,
    preparation: &Preparation,
    env: &Settings,
    contents: &Vec<String>,
    diagnostic_build: bool,
) -> (out: (Result<RuntimeConfig, String>, Vec<String>))
    ensures
        exists|seconds: Option<u64>|
            outcome_view(out) == startup_outcome(
                timestamp_text(seconds),
                version@,
                preparation@,
                env@,
                texts_of(contents@),
                diagnostic_build,
            ),
        out.0 matches Ok(config) ==> config_is_valid(config@),
{
    let timestamp = current_timestamp();
    load_runtime_config_at(
        timestamp.as_str(),
        version,
        preparation,
        env,
        contents,
        diagnostic_build,
    )
}

/// The lines that one run adds to the startup log: the banner, the
/// diagnostics of the resolution, and how it ended.
pub fn startup_log_entries(result: &Result<RuntimeConfig, String>, diagnostics: &Vec<String>) -> (out:
    Vec<String>)
    ensures
        texts_of(out@) == startup_log(
            Outcome {
                result: match result {
                    Ok(c) => Ok(c@),
                    Err(e) => Err(e@),
                },
                diagnostics: texts_of(diagnostics@),
            },
        ),
{
    let mut out: Vec<String> = Vec::new();
    out.push(STARTUP_BANNER.to_owned());
    let ghost all = texts_of(diagnostics@);
    proof {
        assert(texts_of(out@) =~= seq![STARTUP_BANNER@] + all.take(0));
    }
    let mut i: usize = 0;
    while i < diagnostics.len()
        invariant
            i <= diagnostics@.len(),
            all == texts_of(diagnostics@),
            texts_of(out@) == seq![STARTUP_BANNER@] + all.take(i as int),
        decreases diagnostics@.len() - i,
    {
        let ghost before = texts_of(out@);
        note(&mut out, diagnostics[i].clone());
        proof {
            assert(all.take(i + 1) =~= all.take(i as int).push(diagnostics@[i as int]@));
            assert(before.push(diagnostics@[i as int]@) =~= seq![STARTUP_BANNER@] + all.take(i + 1));
        }
        i += 1;
    }
    proof {
        assert(all.take(diagnostics@.len() as int) =~= all);
    }
    let last = match result {
        Ok(_) => STARTUP_OK_ENTRY.to_owned(),
        Err(error) => concat2("startup_result=error:", error.as_str()),
    };
    note(&mut out, last);
    out
}

/// No startup gives a configuration whose allow-list lacks the host of its
/// address: every configuration that a startup ends with is valid.
pub proof fn lemma_startup_config_is_valid(
    timestamp: Seq<char>,
    version: Seq<char>,
    preparation: PreparationView,
    env: Map<Seq<char>, Seq<char>>,
    contents: Seq<Seq<char>>,
    diagnostic_build: bool,
)
    ensures
        startup_outcome(
            timestamp,
            version,
            preparation,
            env,
            contents,
            diagnostic_build,
        ).result matches Ok(config) ==> config_is_valid(config),
{
    let log = seq!["timestamp="@ + timestamp, "version="@ + version];
    let files = merged_files(contents);
    match optional_value(KEY_APP_URL@, Some(ENV_APP_URL@), env, files) {
        Some((raw, source)) => {
            lemma_resolved_config_is_valid(
                url_parse_outcome(raw),
                env,
                files,
                diagnostic_build,
                log.push("app_url_source="@ + source),
            );
        },
        None => {},
    }
}

} // verus!
