//! The configuration file format: lines of `KEY=value`, `#` comments and
//! optional quotes, and the merging of several files into one mapping.

use vstd::prelude::*;
use crate::defaults::{
    CURRENT_APP_URL_LINE, DEFAULT_ALLOWED_HOSTS, DEFAULT_APP_URL, DEFAULT_HEIGHT, DEFAULT_TITLE,
    DEFAULT_WIDTH, GENERATED_HEADER, LEGACY_APP_URL_LINE,
};
use crate::settings::Settings;
use crate::text::{
    chars_equal, chars_of, concat3, contains_chars, contains_text, find_char, find_from, free_of,
    join_chars, joined, lemma_join_of_split, lemma_split_of_join, lemma_split_pieces_are_free,
    slice_of, split_chars,
    split_text, string_of, texts_of, trim_chars, trimmed, views_of,
};

verus! {

pub open spec fn is_quote(c: char) -> bool {
    c == '"' || c == '\''
}

/// `v` without one pair of surrounding quotes, if it starts and ends with the
/// same quote character; else `v` itself.
pub open spec fn unquoted(v: Seq<char>) -> Seq<char> {
    if v.len() >= 2 && is_quote(v[0]) && v.last() == v[0] {
        v.subrange(1, v.len() - 1)
    } else {
        v
    }
}

/// The key and value that a line sets, if it sets one.
///
/// Blank lines, comments, lines without `=` and lines with a blank key set
/// nothing. The key is what stands before the first `=`, trimmed; the value
/// what stands after it, trimmed and then unquoted.
pub open spec fn parse_line(line: Seq<char>) -> Option<(Seq<char>, Seq<char>)> {
    let t = trimmed(line);
    let eq = find_from(t, '=', 0);
    if t.len() == 0 || t[0] == '#' || eq >= t.len() {
        None
    } else if trimmed(t.take(eq)).len() == 0 {
        None
    } else {
        Some((trimmed(t.take(eq)), unquoted(trimmed(t.skip(eq + 1)))))
    }
}

/// `m` after one line has been applied to it.
pub open spec fn with_line(m: Map<Seq<char>, Seq<char>>, line: Seq<char>) -> Map<
    Seq<char>,
    Seq<char>,
> {
    match parse_line(line) {
        Some((key, value)) => m.insert(key, value),
        None => m,
    }
}

/// `m` after the lines have been applied to it, first line first.
pub open spec fn with_lines(m: Map<Seq<char>, Seq<char>>, lines: Seq<Seq<char>>) -> Map<
    Seq<char>,
    Seq<char>,
> {
    lines.fold_left(m, |acc: Map<Seq<char>, Seq<char>>, line: Seq<char>| with_line(acc, line))
}

/// `m` after the file `content` has been applied to it.
pub open spec fn parsed_env_file(content: Seq<char>, m: Map<Seq<char>, Seq<char>>) -> Map<
    Seq<char>,
    Seq<char>,
> {
    with_lines(m, split_text(content, '\n'))
}

/// The mapping that the files give, read in order into an empty mapping.
pub open spec fn merged_files(contents: Seq<Seq<char>>) -> Map<Seq<char>, Seq<char>> {
    contents.fold_left(
        Map::<Seq<char>, Seq<char>>::empty(),
        |acc: Map<Seq<char>, Seq<char>>, content: Seq<char>| parsed_env_file(content, acc),
    )
}

/// What a freshly written configuration file holds.
pub open spec fn default_contents() -> Seq<char> {
    GENERATED_HEADER@
        + "\n# Update APP_URL and ALLOWED_HOSTS if your deployment target changes.\nAPP_URL="@
        + DEFAULT_APP_URL@ + "\nALLOWED_HOSTS="@ + DEFAULT_ALLOWED_HOSTS@ + "\nWINDOW_TITLE="@
        + DEFAULT_TITLE@ + "\nWINDOW_WIDTH="@ + DEFAULT_WIDTH@ + "\nWINDOW_HEIGHT="@
        + DEFAULT_HEIGHT@ + "\n"@
}

/// The line is the legacy address line: exactly its text, with nothing
/// before or after it. The carriage return of a line that ends in `\r\n`
/// belongs to the line ending and does not count.
pub open spec fn is_legacy_line(line: Seq<char>) -> bool {
    line == LEGACY_APP_URL_LINE@ || line == LEGACY_APP_URL_LINE@.push('\r')
}

/// The line as the migration leaves it: the current address line in place
/// of the legacy one, with the carriage return that the line had; every
/// other line as it is.
pub open spec fn migrated_line(line: Seq<char>) -> Seq<char> {
    if line == LEGACY_APP_URL_LINE@ {
        CURRENT_APP_URL_LINE@
    } else if line == LEGACY_APP_URL_LINE@.push('\r') {
        CURRENT_APP_URL_LINE@.push('\r')
    } else {
        line
    }
}

/// The lines as the migration leaves them.
pub open spec fn migrated_lines(lines: Seq<Seq<char>>) -> Seq<Seq<char>> {
    Seq::new(lines.len(), |i: int| migrated_line(lines[i]))
}

/// One of the lines is the legacy address line.
pub open spec fn holds_legacy_line(lines: Seq<Seq<char>>) -> bool {
    exists|i: int| 0 <= i < lines.len() && is_legacy_line(#[trigger] lines[i])
}

/// What the legacy migration writes in place of `content`, or `None` where it
/// leaves the file alone.
///
/// Only a file that still carries the generated header and in which some
/// line is the legacy address line is rewritten. The new text has the same
/// lines, but for the legacy lines, which become the current address line.
/// A line that only holds the legacy text among other text (a longer
/// address, a comment, another key) is no legacy line.
pub open spec fn migrated(content: Seq<char>) -> Option<Seq<char>> {
    let lines = split_text(content, '\n');
    if contains_text(content, GENERATED_HEADER@) && holds_legacy_line(lines) {
        Some(joined(migrated_lines(lines), seq!['\n']))
    } else {
        None
    }
}

fn unquote(v: Vec<char>) -> (out: Vec<char>)
    ensures
        out@ == unquoted(v@),
{
    let n = v.len();
    if n >= 2 && (v[0] == '"' || v[0] == '\'') && v[n - 1] == v[0] {
        slice_of(&v, 1, n - 1)
    } else {
        v
    }
}

/// View of an optional key and value.
pub open spec fn entry_view(e: Option<(String, String)>) -> Option<(Seq<char>, Seq<char>)> {
    match e {
        Some((k, v)) => Some((k@, v@)),
        None => None,
    }
}

/// The key and value that `line` sets, if it sets one.
pub fn parse_env_line(line: &Vec<char>) -> (out: Option<(String, String)>)
    ensures
        entry_view(out) == parse_line(line@),
{
    let t = trim_chars(line);
    if t.len() == 0 || t[0] == '#' {
        return None;
    }
    let eq = find_char(&t, '=', 0);
    if eq >= t.len() {
        return None;
    }
    let key = trim_chars(&slice_of(&t, 0, eq));
    if key.len() == 0 {
        return None;
    }
    let value = unquote(trim_chars(&slice_of(&t, eq + 1, t.len())));
    Some((string_of(&key), string_of(&value)))
}

/// Applies the lines of `content` to `output`, first line first: a later
/// line for a key replaces what an earlier line or `output` held for it.
pub fn parse_client_env_file(content: &str, output: &mut Settings)
    ensures
        final(output)@ == parsed_env_file(content@, old(output)@),
{
    let chars = chars_of(content);
    let lines = split_chars(&chars, '\n');
    let ghost all = split_text(content@, '\n');
    let ghost apply = |acc: Map<Seq<char>, Seq<char>>, line: Seq<char>| with_line(acc, line);
    let mut i: usize = 0;
    proof {
        assert(all.take(0) =~= Seq::<Seq<char>>::empty());
    }
    while i < lines.len()
        invariant
            i <= lines@.len(),
            views_of(lines@) == all,
            apply == |acc: Map<Seq<char>, Seq<char>>, line: Seq<char>| with_line(acc, line),
            output@ == all.take(i as int).fold_left(old(output)@, apply),
        decreases lines@.len() - i,
    {
        let entry = parse_env_line(&lines[i]);
        proof {
            assert(all.take(i + 1).drop_last() =~= all.take(i as int));
            assert(all.take(i + 1).last() == lines@[i as int]@);
        }
        if let Some((key, value)) = entry {
            output.insert(key, value);
        }
        i += 1;
    }
    proof {
        assert(all.take(lines@.len() as int) =~= all);
    }
}

/// Merges the configuration files whose contents are given, in the order in
/// which the files are searched: where two files set the same key, the later
/// file's value stands.
pub fn load_client_env_values(contents: &Vec<String>) -> (values: Settings)
    ensures
        values@ == merged_files(texts_of(contents@)),
{
    let mut values = Settings::new();
    let ghost all = texts_of(contents@);
    let ghost apply = |acc: Map<Seq<char>, Seq<char>>, content: Seq<char>|
        parsed_env_file(content, acc);
    let mut i: usize = 0;
    proof {
        assert(all.take(0) =~= Seq::<Seq<char>>::empty());
    }
    while i < contents.len()
        invariant
            i <= contents@.len(),
            all == texts_of(contents@),
            apply == |acc: Map<Seq<char>, Seq<char>>, content: Seq<char>|
                parsed_env_file(content, acc),
            values@ == all.take(i as int).fold_left(Map::<Seq<char>, Seq<char>>::empty(), apply),
        decreases contents@.len() - i,
    {
        proof {
            assert(all.take(i + 1).drop_last() =~= all.take(i as int));
            assert(all.take(i + 1).last() == contents@[i as int]@);
        }
        parse_client_env_file(contents[i].as_str(), &mut values);
        i += 1;
    }
    proof {
        assert(all.take(contents@.len() as int) =~= all);
    }
    values
}

/// The text of a freshly written configuration file: the generated header, a
/// line of guidance, and the default value of each setting.
pub fn default_client_env_contents() -> (out: String)
    ensures
        out@ == default_contents(),
{
    let head = concat3(
        GENERATED_HEADER,
        "\n# Update APP_URL and ALLOWED_HOSTS if your deployment target changes.\nAPP_URL=",
        DEFAULT_APP_URL,
    );
    let hosts = concat3(head.as_str(), "\nALLOWED_HOSTS=", DEFAULT_ALLOWED_HOSTS);
    let title = concat3(hosts.as_str(), "\nWINDOW_TITLE=", DEFAULT_TITLE);
    let width = concat3(title.as_str(), "\nWINDOW_WIDTH=", DEFAULT_WIDTH);
    let height = concat3(width.as_str(), "\nWINDOW_HEIGHT=", DEFAULT_HEIGHT);
    let mut out = height;
    out.push('\n');
    proof {
        reveal_strlit("\n");
        assert(out@ =~= default_contents());
    }
    out
}

/// View of an optional text.
pub open spec fn content_view(c: Option<String>) -> Option<Seq<char>> {
    match c {
        Some(s) => Some(s@),
        None => None,
    }
}

/// Decides the one-time migration of a configuration file that an earlier
/// version wrote: `Some` with the new text where the file is to be rewritten,
/// `None` where it is to be left as it is.
pub fn migrate_legacy_default_contents(content: &str) -> (out: Option<String>)
    ensures
        content_view(out) == migrated(content@),
        !contains_text(content@, GENERATED_HEADER@) ==> out is None,
        !holds_legacy_line(split_text(content@, '\n')) ==> out is None,
{
    let chars = chars_of(content);
    if !contains_chars(&chars, &chars_of(GENERATED_HEADER)) {
        return None;
    }
    let lines = split_chars(&chars, '\n');
    let ghost all = split_text(content@, '\n');
    let mut updated: Vec<Vec<char>> = Vec::new();
    let mut found = false;
    let mut i: usize = 0;
    proof {
        assert(views_of(updated@) =~= migrated_lines(all).take(0));
    }
    while i < lines.len()
        invariant
            i <= lines@.len(),
            views_of(lines@) == all,
            views_of(updated@) == migrated_lines(all).take(i as int),
            found <==> exists|k: int| 0 <= k < i && is_legacy_line(#[trigger] all[k]),
        decreases lines@.len() - i,
    {
        let line = &lines[i];
        let n = line.len();
        let ghost before = views_of(updated@);
        proof {
            assert(all[i as int] == line@);
        }
        let next = if chars_equal(line, LEGACY_APP_URL_LINE) {
            found = true;
            chars_of(CURRENT_APP_URL_LINE)
        } else if n > 0 && line[n - 1] == '\r' && chars_equal(
            &slice_of(line, 0, n - 1),
            LEGACY_APP_URL_LINE,
        ) {
            found = true;
            let mut current = chars_of(CURRENT_APP_URL_LINE);
            current.push('\r');
            proof {
                assert(line@ =~= line@.subrange(0, n - 1).push('\r'));
            }
            current
        } else {
            proof {
                if line@ == LEGACY_APP_URL_LINE@.push('\r') {
                    assert(line@.subrange(0, n - 1) =~= LEGACY_APP_URL_LINE@);
                }
                assert(line@.subrange(0, n as int) =~= line@);
            }
            slice_of(line, 0, n)
        };
        proof {
            assert(next@ == migrated_line(all[i as int]));
        }
        updated.push(next);
        proof {
            assert(views_of(updated@) =~= before.push(migrated_line(all[i as int])));
            assert(migrated_lines(all).take(i + 1) =~= migrated_lines(all).take(i as int).push(
                migrated_line(all[i as int]),
            ));
        }
        i += 1;
    }
    proof {
        assert(migrated_lines(all).take(lines@.len() as int) =~= migrated_lines(all));
    }
    if !found {
        return None;
    }
    Some(string_of(&join_chars(&updated, '\n')))
}

/// Applying lines to a mapping gives that mapping overlaid with what the
/// lines alone set.
pub proof fn lemma_lines_overlay(m: Map<Seq<char>, Seq<char>>, lines: Seq<Seq<char>>)
    ensures
        with_lines(m, lines) == m.union_prefer_right(
            with_lines(Map::<Seq<char>, Seq<char>>::empty(), lines),
        ),
    decreases lines.len(),
{
    let empty = Map::<Seq<char>, Seq<char>>::empty();
    if lines.len() == 0 {
        assert(with_lines(m, lines) =~= m.union_prefer_right(with_lines(empty, lines)));
    } else {
        lemma_lines_overlay(m, lines.drop_last());
        let init = with_lines(empty, lines.drop_last());
        assert(with_lines(m, lines) == with_line(with_lines(m, lines.drop_last()), lines.last()));
        assert(with_lines(empty, lines) == with_line(init, lines.last()));
        assert(with_line(m.union_prefer_right(init), lines.last()) =~= m.union_prefer_right(
            with_line(init, lines.last()),
        ));
    }
}

/// Reading one more file overlays the mapping with what that file sets: its
/// keys take the file's values, every other key keeps what it had.
pub proof fn lemma_next_file_overlays(earlier: Seq<Seq<char>>, next: Seq<char>)
    ensures
        merged_files(earlier.push(next)) == merged_files(earlier).union_prefer_right(
            parsed_env_file(next, Map::<Seq<char>, Seq<char>>::empty()),
        ),
{
    assert(earlier.push(next).drop_last() =~= earlier);
    lemma_lines_overlay(merged_files(earlier), split_text(next, '\n'));
}

/// Last writer wins: where the file at index `j` sets `key` and no file after
/// it in the search order does, the merged mapping holds that file's value.
pub proof fn lemma_last_writer_wins(files: Seq<Seq<char>>, j: int, key: Seq<char>)
    requires
        0 <= j < files.len(),
        parsed_env_file(files[j], Map::<Seq<char>, Seq<char>>::empty()).contains_key(key),
        forall|i: int|
            j < i < files.len() ==> !(#[trigger] parsed_env_file(
                files[i],
                Map::<Seq<char>, Seq<char>>::empty(),
            )).contains_key(key),
    ensures
        merged_files(files).contains_key(key),
        merged_files(files)[key] == parsed_env_file(
            files[j],
            Map::<Seq<char>, Seq<char>>::empty(),
        )[key],
    decreases files.len(),
{
    let earlier = files.drop_last();
    assert(earlier.push(files.last()) =~= files);
    lemma_next_file_overlays(earlier, files.last());
    if j < files.len() - 1 {
        assert(earlier[j] == files[j]);
        assert forall|i: int| j < i < earlier.len() implies !(#[trigger] parsed_env_file(
            earlier[i],
            Map::<Seq<char>, Seq<char>>::empty(),
        )).contains_key(key) by {
            assert(earlier[i] == files[i]);
        }
        lemma_last_writer_wins(earlier, j, key);
    }
}

/// The current address line is no legacy line, with or without a carriage
/// return, and holds no line break.
proof fn lemma_current_line()
    ensures
        !is_legacy_line(CURRENT_APP_URL_LINE@),
        !is_legacy_line(CURRENT_APP_URL_LINE@.push('\r')),
        free_of(CURRENT_APP_URL_LINE@, '\n'),
        free_of(CURRENT_APP_URL_LINE@.push('\r'), '\n'),
{
    let current = CURRENT_APP_URL_LINE@;
    reveal_strlit("APP_URL=https://192.168.50.55");
    reveal_strlit("APP_URL=http://192.168.50.55:3000");
    assert(current.len() == 33);
    assert(LEGACY_APP_URL_LINE@.len() == 29);
    assert(current.push('\r').len() == 34);
    assert(LEGACY_APP_URL_LINE@.push('\r').len() == 30);
    assert forall|j: int| 0 <= j < current.len() implies current[j] != '\n' by {
        assert(j == 0 || j == 1 || j == 2 || j == 3 || j == 4 || j == 5 || j == 6 || j == 7 || j
            == 8 || j == 9 || j == 10 || j == 11 || j == 12 || j == 13 || j == 14 || j == 15 || j
            == 16 || j == 17 || j == 18 || j == 19 || j == 20 || j == 21 || j == 22 || j == 23
            || j == 24 || j == 25 || j == 26 || j == 27 || j == 28 || j == 29 || j == 30 || j
            == 31 || j == 32);
    }
    assert forall|j: int| 0 <= j < current.push('\r').len() implies current.push('\r')[j]
        != '\n' by {
        if j < current.len() {
            assert(current.push('\r')[j] == current[j]);
        }
    }
}

/// No line of a migrated text is the legacy address line, and the lines of
/// the migrated text are the lines that the migration left.
pub proof fn lemma_migrated_holds_no_legacy_line(content: Seq<char>)
    ensures
        migrated(content) matches Some(updated) ==> {
            &&& split_text(updated, '\n') == migrated_lines(split_text(content, '\n'))
            &&& !holds_legacy_line(split_text(updated, '\n'))
        },
{
    if migrated(content) is Some {
        let lines = split_text(content, '\n');
        let left = migrated_lines(lines);
        lemma_current_line();
        lemma_split_pieces_are_free(content, '\n');
        assert forall|i: int| 0 <= i < left.len() implies free_of(#[trigger] left[i], '\n') by {
            assert(free_of(lines[i], '\n'));
        }
        lemma_split_of_join(left, '\n');
        assert forall|i: int| 0 <= i < left.len() implies !is_legacy_line(#[trigger] left[i]) by {
            assert(left[i] == migrated_line(lines[i]));
        }
    }
}

/// The migration is idempotent: a text that the migration wrote is left as
/// it is when the migration sees it again.
pub proof fn lemma_migration_is_idempotent(content: Seq<char>)
    ensures
        migrated(content) matches Some(updated) ==> migrated(updated) is None,
{
    lemma_migrated_holds_no_legacy_line(content);
}

/// A text without the generated header is never rewritten, whether or not it
/// holds the legacy address line.
pub proof fn lemma_migration_spares_edited_files(content: Seq<char>)
    requires
        !contains_text(content, GENERATED_HEADER@),
    ensures
        migrated(content) is None,
{
}

/// A text in which no line is the legacy address line is never rewritten,
/// whatever else its lines hold of the legacy text.
pub proof fn lemma_migration_needs_the_exact_line(content: Seq<char>)
    requires
        forall|i: int|
            0 <= i < split_text(content, '\n').len() ==> !is_legacy_line(
                #[trigger] split_text(content, '\n')[i],
            ),
    ensures
        migrated(content) is None,
{
}

/// A line that is longer than the legacy address line and its carriage
/// return is no legacy line: an address with a port, say, or a key that
/// ends in the legacy key.
pub proof fn lemma_longer_line_is_not_legacy(line: Seq<char>)
    requires
        line.len() > LEGACY_APP_URL_LINE@.len() + 1,
    ensures
        !is_legacy_line(line),
        migrated_line(line) == line,
{
}

/// The migration changes the legacy lines and nothing else. Lines written
/// back as they are give the text as it was; the migrated text has as many
/// lines as the text before; each line that is no legacy line stands as it
/// stood, and each legacy line has become the current address line.
pub proof fn lemma_migration_keeps_other_lines(content: Seq<char>)
    ensures
        joined(split_text(content, '\n'), seq!['\n']) == content,
        migrated(content) matches Some(updated) ==> {
            &&& split_text(updated, '\n').len() == split_text(content, '\n').len()
            &&& forall|i: int|
                0 <= i < split_text(content, '\n').len() ==> #[trigger] split_text(updated, '\n')[i]
                    == migrated_line(split_text(content, '\n')[i])
            &&& forall|i: int|
                0 <= i < split_text(content, '\n').len() && !is_legacy_line(
                    split_text(content, '\n')[i],
                ) ==> #[trigger] split_text(updated, '\n')[i] == split_text(content, '\n')[i]
        },
{
    lemma_join_of_split(content, '\n');
    lemma_migrated_holds_no_legacy_line(content);
}

} // verus!
