//! The value source reader: one setting, looked up in layered sources.
//!
//! Precedence, highest first: the designated process-environment variable,
//! then the key in the merged file mapping. A value counts only if something
//! is left of it after trimming.

use vstd::prelude::*;
use crate::defaults::{DEFAULT_HEIGHT, DEFAULT_WIDTH};
use crate::numeric::{check_float_literal, is_decimal_float, is_float_literal, skip_digits};
use crate::settings::Settings;
use crate::text::{
    chars_equal, chars_of, concat2, concat3, contains_text, lower_chars, lowered, occurs_at,
    string_of, trim_chars, trimmed,
};

verus! {

/// The trimmed value of `key` in `values`, if the key is there and its value
/// is not blank.
pub open spec fn present_value(values: Map<Seq<char>, Seq<char>>, key: Seq<char>) -> Option<
    Seq<char>,
> {
    if values.contains_key(key) && trimmed(values[key]).len() > 0 {
        Some(trimmed(values[key]))
    } else {
        None
    }
}

/// Label of a value that came from the process environment.
pub open spec fn env_label(env_key: Seq<char>) -> Seq<char> {
    "process env "@ + env_key
}

/// Label of a value that came from a configuration file.
pub open spec fn file_label(file_key: Seq<char>) -> Seq<char> {
    "client.env "@ + file_key
}

/// The value of a setting and the label of the source that gave it.
pub open spec fn optional_value(
    file_key: Seq<char>,
    env_key: Option<Seq<char>>,
    env: Map<Seq<char>, Seq<char>>,
    file_values: Map<Seq<char>, Seq<char>>,
) -> Option<(Seq<char>, Seq<char>)> {
    if env_key is Some && present_value(env, env_key->0) is Some {
        Some((present_value(env, env_key->0)->0, env_label(env_key->0)))
    } else if present_value(file_values, file_key) is Some {
        Some((present_value(file_values, file_key)->0, file_label(file_key)))
    } else {
        None
    }
}

/// What a required setting reports when no source has it.
pub open spec fn missing_message(file_key: Seq<char>, env_key: Option<Seq<char>>) -> Seq<char> {
    "Missing required setting: "@ + file_key + ". Set it via "@ + (match env_key {
        Some(k) => k,
        None => "environment variable"@,
    }) + " or client.env."@
}

/// The truth value that a text stands for, if it stands for one.
pub open spec fn bool_of(value: Seq<char>) -> Option<bool> {
    let word = lowered(trimmed(value));
    if word == "1"@ || word == "true"@ || word == "yes"@ || word == "y"@ || word == "on"@ {
        Some(true)
    } else if word == "0"@ || word == "false"@ || word == "no"@ || word == "n"@ || word
        == "off"@ {
        Some(false)
    } else {
        None
    }
}

pub open spec fn bool_text(b: bool) -> Seq<char> {
    if b {
        "true"@
    } else {
        "false"@
    }
}

/// Label of a value that no source gave.
pub open spec fn default_label(shown: Seq<char>) -> Seq<char> {
    "default "@ + shown
}

pub open spec fn not_boolean_message(file_key: Seq<char>, raw: Seq<char>) -> Seq<char> {
    file_key + " must be a boolean (true/false/1/0), got '"@ + raw + "'."@
}

pub open spec fn not_numeric_message(file_key: Seq<char>, raw: Seq<char>) -> Seq<char> {
    file_key + " must be numeric, got '"@ + raw + "'."@
}

/// A truth value and its source, or the complaint about a value that is no
/// boolean word.
pub open spec fn bool_value(
    file_key: Seq<char>,
    env_key: Option<Seq<char>>,
    fallback: bool,
    env: Map<Seq<char>, Seq<char>>,
    file_values: Map<Seq<char>, Seq<char>>,
) -> Result<(bool, Seq<char>), Seq<char>> {
    match optional_value(file_key, env_key, env, file_values) {
        None => Ok((fallback, default_label(bool_text(fallback)))),
        Some((raw, source)) => match bool_of(raw) {
            Some(b) => Ok((b, source)),
            None => Err(not_boolean_message(file_key, raw)),
        },
    }
}

/// A dimension literal and its source, or the complaint about a value that is
/// no number.
pub open spec fn dimension_value(
    file_key: Seq<char>,
    env_key: Option<Seq<char>>,
    fallback: Seq<char>,
    env: Map<Seq<char>, Seq<char>>,
    file_values: Map<Seq<char>, Seq<char>>,
) -> Result<(Seq<char>, Seq<char>), Seq<char>> {
    match optional_value(file_key, env_key, env, file_values) {
        None => Ok((fallback, default_label(fallback))),
        Some((raw, source)) => if is_float_literal(raw) {
            Ok((raw, source))
        } else {
            Err(not_numeric_message(file_key, raw))
        },
    }
}

/// View of an optional pair of texts.
pub open spec fn pair_view(p: Option<(String, String)>) -> Option<(Seq<char>, Seq<char>)> {
    match p {
        Some((a, b)) => Some((a@, b@)),
        None => None,
    }
}

/// View of an optional text.
pub open spec fn text_view(p: Option<String>) -> Option<Seq<char>> {
    match p {
        Some(a) => Some(a@),
        None => None,
    }
}

/// View of an optional borrowed text.
pub open spec fn str_view(p: Option<&str>) -> Option<Seq<char>> {
    match p {
        Some(a) => Some(a@),
        None => None,
    }
}

/// A pixel dimension of the window, kept as the literal that was configured.
///
/// Every value of this type holds a floating-point literal: an optional sign,
/// then `inf`, `infinity`, `nan` or a decimal number with an optional
/// exponent.
pub struct Dimension {
    literal: String,
}

impl View for Dimension {
    type V = Seq<char>;

    closed spec fn view(&self) -> Seq<char> {
        self.literal@
    }
}

impl Dimension {
    #[verifier::type_invariant]
    closed spec fn holds_literal(&self) -> bool {
        is_float_literal(self.literal@)
    }

    /// The dimension that `text` denotes, if `text` is a floating-point literal.
    pub fn parse(text: &str) -> (out: Option<Dimension>)
        ensures
            out is Some <==> is_float_literal(text@),
            out matches Some(d) ==> d@ == text@,
    {
        let chars = chars_of(text);
        if check_float_literal(&chars) {
            Some(Dimension { literal: text.to_owned() })
        } else {
            None
        }
    }

    /// The width of the window when none is configured.
    pub fn default_width() -> (out: Dimension)
        ensures
            out@ == DEFAULT_WIDTH@,
    {
        proof {
            lemma_default_dimensions();
        }
        Dimension { literal: DEFAULT_WIDTH.to_owned() }
    }

    /// The height of the window when none is configured.
    pub fn default_height() -> (out: Dimension)
        ensures
            out@ == DEFAULT_HEIGHT@,
    {
        proof {
            lemma_default_dimensions();
        }
        Dimension { literal: DEFAULT_HEIGHT.to_owned() }
    }

    /// The literal as it was configured.
    pub fn as_text(&self) -> (out: &str)
        ensures
            out@ == self@,
            is_float_literal(out@),
    {
        proof {
            use_type_invariant(self);
        }
        self.literal.as_str()
    }

    /// A second value with the same literal.
    pub fn duplicate(&self) -> (out: Dimension)
        ensures
            out@ == self@,
    {
        proof {
            use_type_invariant(self);
        }
        Dimension { literal: self.literal.clone() }
    }
}

/// The default width and height are floating-point literals.
proof fn lemma_default_dimensions()
    ensures
        is_float_literal(DEFAULT_WIDTH@),
        is_float_literal(DEFAULT_HEIGHT@),
{
    reveal_strlit("1280");
    reveal_strlit("800");
    reveal_with_fuel(skip_digits, 6);
    assert(skip_digits(DEFAULT_WIDTH@, 0) == 4);
    assert(skip_digits(DEFAULT_HEIGHT@, 0) == 3);
    assert(is_decimal_float(DEFAULT_WIDTH@));
    assert(is_decimal_float(DEFAULT_HEIGHT@));
}

/// The value of `key` in the snapshot of the process environment, trimmed;
/// `None` if the variable is not set or blank.
pub fn read_process_env_value(key: &str, env: &Settings) -> (out: Option<String>)
    ensures
        text_view(out) == present_value(env@, key@),
{
    read_file_value(key, env)
}

/// The value of `key` in the merged file mapping, trimmed; `None` if the key
/// is absent or its value blank.
pub fn read_file_value(key: &str, file_values: &Settings) -> (out: Option<String>)
    ensures
        text_view(out) == present_value(file_values@, key@),
{
    match file_values.get(key) {
        None => None,
        Some(value) => {
            let kept = trim_chars(&chars_of(value.as_str()));
            if kept.len() == 0 {
                None
            } else {
                Some(string_of(&kept))
            }
        },
    }
}

/// Reads one setting: the environment variable `env_key`, if it is named and
/// not blank, else `file_key` in the file mapping. The second component says
/// which source gave the value.
pub fn read_optional_value(
    file_key: &str,
    env_key: Option<&str>,
    env: &Settings,
    file_values: &Settings,
) -> (out: Option<(String, String)>)
    ensures
        pair_view(out) == optional_value(file_key@, str_view(env_key), env@, file_values@),
{
    if let Some(key) = env_key {
        if let Some(value) = read_process_env_value(key, env) {
            return Some((value, concat2("process env ", key)));
        }
    }
    match read_file_value(file_key, file_values) {
        Some(value) => Some((value, concat2("client.env ", file_key))),
        None => None,
    }
}

/// View of the outcome of reading a text setting.
pub open spec fn pair_result_view(r: Result<(String, String), String>) -> Result<
    (Seq<char>, Seq<char>),
    Seq<char>,
> {
    match r {
        Ok((a, b)) => Ok((a@, b@)),
        Err(e) => Err(e@),
    }
}

/// View of the outcome of reading a boolean setting.
pub open spec fn bool_result_view(r: Result<(bool, String), String>) -> Result<
    (bool, Seq<char>),
    Seq<char>,
> {
    match r {
        Ok((a, b)) => Ok((a, b@)),
        Err(e) => Err(e@),
    }
}

/// View of the outcome of reading a dimension setting.
pub open spec fn dimension_result_view(r: Result<(Dimension, String), String>) -> Result<
    (Seq<char>, Seq<char>),
    Seq<char>,
> {
    match r {
        Ok((a, b)) => Ok((a@, b@)),
        Err(e) => Err(e@),
    }
}

/// Reads a setting that must be there. When no source has it, the error
/// names the key and both places where it can be set.
pub fn read_required_value(
    file_key: &str,
    env_key: Option<&str>,
    env: &Settings,
    file_values: &Settings,
) -> (out: Result<(String, String), String>)
    ensures
        pair_result_view(out) == (match optional_value(
            file_key@,
            str_view(env_key),
            env@,
            file_values@,
        ) {
            Some(found) => Ok::<(Seq<char>, Seq<char>), Seq<char>>(found),
            None => Err(missing_message(file_key@, str_view(env_key))),
        }),
{
    match read_optional_value(file_key, env_key, env, file_values) {
        Some(found) => Ok(found),
        None => {
            let place = match env_key {
                Some(k) => k,
                None => "environment variable",
            };
            let message = concat3("Missing required setting: ", file_key, ". Set it via ");
            let tail = concat2(place, " or client.env.");
            let message = concat2(message.as_str(), tail.as_str());
            proof {
                assert(message@ =~= missing_message(file_key@, str_view(env_key)));
            }
            Err(message)
        },
    }
}

/// The truth value that `value` stands for: `1`, `true`, `yes`, `y`, `on`
/// for true and `0`, `false`, `no`, `n`, `off` for false, in any case and
/// with white space around; `None` for anything else.
pub fn parse_bool_value(value: &str) -> (out: Option<bool>)
    ensures
        out == bool_of(value@),
{
    let word = lower_chars(&trim_chars(&chars_of(value)));
    if chars_equal(&word, "1") || chars_equal(&word, "true") || chars_equal(&word, "yes")
        || chars_equal(&word, "y") || chars_equal(&word, "on") {
        Some(true)
    } else if chars_equal(&word, "0") || chars_equal(&word, "false") || chars_equal(&word, "no")
        || chars_equal(&word, "n") || chars_equal(&word, "off") {
        Some(false)
    } else {
        None
    }
}

/// Reads a boolean setting. `fallback` stands in when no source has it; a
/// value that is no boolean word is an error that quotes the value.
pub fn read_bool_value(
    file_key: &str,
    env_key: Option<&str>,
    fallback: bool,
    env: &Settings,
    file_values: &Settings,
) -> (out: Result<(bool, String), String>)
    ensures
        bool_result_view(out) == bool_value(
            file_key@,
            str_view(env_key),
            fallback,
            env@,
            file_values@,
        ),
{
    match read_optional_value(file_key, env_key, env, file_values) {
        None => {
            let shown = if fallback {
                "true"
            } else {
                "false"
            };
            Ok((fallback, concat2("default ", shown)))
        },
        Some((raw, source)) => match parse_bool_value(raw.as_str()) {
            Some(value) => Ok((value, source)),
            None => Err(concat3(file_key, " must be a boolean (true/false/1/0), got '", raw.as_str())
                .concat("'.")),
        },
    }
}

/// Reads a window dimension. `fallback` stands in when no source has it; a
/// value that is no floating-point literal is an error that quotes the value
/// and names the key.
pub fn parse_window_dimension(
    file_key: &str,
    env_key: Option<&str>,
    fallback: Dimension,
    env: &Settings,
    file_values: &Settings,
) -> (out: Result<(Dimension, String), String>)
    ensures
        dimension_result_view(out) == dimension_value(
            file_key@,
            str_view(env_key),
            fallback@,
            env@,
            file_values@,
        ),
{
    match read_optional_value(file_key, env_key, env, file_values) {
        None => {
            let label = concat2("default ", fallback.as_text());
            Ok((fallback, label))
        },
        Some((raw, source)) => match Dimension::parse(raw.as_str()) {
            Some(value) => Ok((value, source)),
            None => Err(concat3(file_key, " must be numeric, got '", raw.as_str()).concat("'.")),
        },
    }
}

/// Precedence: a value in the process environment that is not blank is the
/// value of the setting, whatever the configuration files hold and in
/// whatever order they were merged.
pub proof fn lemma_environment_takes_precedence(
    file_key: Seq<char>,
    env_key: Seq<char>,
    env: Map<Seq<char>, Seq<char>>,
    file_values: Map<Seq<char>, Seq<char>>,
    other_file_values: Map<Seq<char>, Seq<char>>,
)
    requires
        env.contains_key(env_key),
        trimmed(env[env_key]).len() > 0,
    ensures
        optional_value(file_key, Some(env_key), env, file_values) == Some(
            (trimmed(env[env_key]), env_label(env_key)),
        ),
        optional_value(file_key, Some(env_key), env, file_values) == optional_value(
            file_key,
            Some(env_key),
            env,
            other_file_values,
        ),
{
}

/// Where the environment has no value for a setting, the file mapping
/// decides: its value, if it is not blank, else none.
pub proof fn lemma_files_decide_without_environment(
    file_key: Seq<char>,
    env_key: Option<Seq<char>>,
    env: Map<Seq<char>, Seq<char>>,
    file_values: Map<Seq<char>, Seq<char>>,
)
    requires
        env_key is Some ==> present_value(env, env_key->0) is None,
    ensures
        optional_value(file_key, env_key, env, file_values) == (match present_value(
            file_values,
            file_key,
        ) {
            Some(value) => Some((value, file_label(file_key))),
            None => None,
        }),
{
}

/// The complaint about a value that is no number holds the key and the
/// value, each as it was given.
pub proof fn lemma_numeric_error_names_key_and_value(file_key: Seq<char>, raw: Seq<char>)
    ensures
        contains_text(not_numeric_message(file_key, raw), file_key),
        contains_text(not_numeric_message(file_key, raw), raw),
{
    let message = not_numeric_message(file_key, raw);
    let head = file_key + " must be numeric, got '"@;
    assert(message.subrange(0, file_key.len() as int) =~= file_key);
    assert(occurs_at(message, file_key, 0));
    assert(message.subrange(head.len() as int, (head.len() + raw.len()) as int) =~= raw);
    assert(occurs_at(message, raw, head.len() as int));
}

/// The complaint about a value that is no boolean word holds the key and
/// the value, each as it was given.
pub proof fn lemma_boolean_error_names_key_and_value(file_key: Seq<char>, raw: Seq<char>)
    ensures
        contains_text(not_boolean_message(file_key, raw), file_key),
        contains_text(not_boolean_message(file_key, raw), raw),
{
    let message = not_boolean_message(file_key, raw);
    let head = file_key + " must be a boolean (true/false/1/0), got '"@;
    assert(message.subrange(0, file_key.len() as int) =~= file_key);
    assert(occurs_at(message, file_key, 0));
    assert(message.subrange(head.len() as int, (head.len() + raw.len()) as int) =~= raw);
    assert(occurs_at(message, raw, head.len() as int));
}

} // verus!
