//! What Steam's files and processes tell of a running game.

use crate::bytes::{lossy, strict};
use crate::paths::join;
use crate::text::{cat, nth_piece, starts_with, trim};
use vstd::prelude::*;

verus! {

/// The position of the first byte `b`, or the length where there is none.
pub open spec fn first_byte(s: Seq<u8>, b: u8) -> int
    decreases s.len(),
{
    if s.len() == 0 || s[0] == b {
        0
    } else {
        1 + first_byte(s.subrange(1, s.len() as int), b)
    }
}

/// A line without the carriage return at its end.
pub open spec fn without_return(line: Seq<u8>) -> Seq<u8> {
    if line.len() > 0 && line.last() == 13 {
        line.drop_last()
    } else {
        line
    }
}

/// The lines of a file: each ends at a line feed, with or without a carriage return before
/// it; what follows the last line feed is a line unless it is empty.
pub open spec fn lines_of(s: Seq<u8>) -> Seq<Seq<u8>>
    decreases s.len(),
{
    let at = first_byte(s, 10);
    if s.len() == 0 {
        seq![]
    } else if at >= s.len() || at < 0 {
        seq![s]
    } else {
        seq![without_return(s.subrange(0, at))] + lines_of(s.subrange(at + 1, s.len() as int))
    }
}

/// The value of a line that begins with this key, both in double quotes.
pub open spec fn quoted_value(line: Seq<char>, key: Seq<char>) -> Option<Seq<char>> {
    let text = crate::text::trimmed(line, crate::text::TrimSet::WhiteSpace);
    if crate::text::begins_with(text, key) {
        crate::text::piece(text, '"', 3)
    } else {
        None
    }
}

/// The values of all lines that begin with this key, up to the first line that is no text.
pub open spec fn quoted_values(lines: Seq<Seq<u8>>, key: Seq<char>) -> Seq<Seq<char>>
    decreases lines.len(),
{
    if lines.len() == 0 || !vstd::utf8::valid_utf8(lines[0]) {
        seq![]
    } else {
        (match quoted_value(vstd::utf8::decode_utf8(lines[0]), key) {
            Some(v) => seq![v],
            None => seq![],
        }) + quoted_values(lines.drop_first(), key)
    }
}

fn line_value(line: &str, key: &str) -> (r: Option<String>)
    ensures
        match (r, quoted_value(line@, key@)) {
            (Some(a), Some(b)) => a@ == b,
            (None, None) => true,
            _ => false,
        },
{
    let text: String = trim(line);
    if starts_with(text.as_str(), key) {
        nth_piece(text.as_str(), '"', 3)
    } else {
        None
    }
}

/// The values of all lines of a file that begin with this key, up to the first line that is
/// no text.
pub fn values_of(content: &[u8], key: &str) -> (r: Vec<String>)
    ensures
        crate::text::texts_view(r@) == quoted_values(lines_of(content@), key@),
{
    let mut r: Vec<String> = Vec::new();
    let mut from: usize = 0;
    let ghost all = quoted_values(lines_of(content@), key@);
    assert(content@.subrange(0, content@.len() as int) =~= content@);
    assert(crate::text::texts_view(r@) + all =~= all);
    while from < content.len()
        invariant
            from <= content@.len(),
            all == crate::text::texts_view(r@) + quoted_values(
                lines_of(content@.subrange(from as int, content@.len() as int)),
                key@,
            ),
            all == quoted_values(lines_of(content@), key@),
        decreases content@.len() - from,
    {
        let ghost rest = content@.subrange(from as int, content@.len() as int);
        let mut at: usize = from;
        while at < content.len() && content[at] != 10
            invariant
                from <= at <= content@.len(),
                rest == content@.subrange(from as int, content@.len() as int),
                first_byte(rest, 10) == (at - from) + first_byte(
                    content@.subrange(at as int, content@.len() as int),
                    10,
                ),
            decreases content@.len() - at,
        {
            let ghost tail = content@.subrange(at as int, content@.len() as int);
            assert(tail[0] == content@[at as int]);
            assert(tail.subrange(1, tail.len() as int) =~= content@.subrange(
                at + 1,
                content@.len() as int,
            ));
            at = at + 1;
        }
        proof {
            if at < content@.len() {
                assert(content@.subrange(at as int, content@.len() as int)[0] == 10);
            }
        }
        assert(first_byte(rest, 10) == at - from);
        let to: usize = if at < content.len() && at > from && content[at - 1] == 13 {
            at - 1
        } else {
            at
        };
        let line: &[u8] = vstd::slice::slice_subrange(content, from, to);
        proof {
            let raw = rest.subrange(0, at - from);
            assert(raw =~= content@.subrange(from as int, at as int));
            if at < content@.len() {
                assert(line@ =~= without_return(raw));
                assert(rest.subrange(at - from + 1, rest.len() as int) =~= content@.subrange(
                    at + 1,
                    content@.len() as int,
                ));
            } else {
                assert(line@ =~= rest);
            }
            let more = if at < content@.len() {
                lines_of(content@.subrange(at + 1, content@.len() as int))
            } else {
                seq![]
            };
            assert(lines_of(rest) =~= seq![line@] + more);
            assert(lines_of(rest)[0] == line@);
            assert(lines_of(rest).drop_first() =~= more);
        }
        let text: String = match strict(line) {
            Some(t) => t,
            None => {
                assert(crate::text::texts_view(r@) =~= all);
                return r;
            },
        };
        let ghost before = crate::text::texts_view(r@);
        if let Some(value) = line_value(text.as_str(), key) {
            let ghost said = value@;
            r.push(value);
            assert(crate::text::texts_view(r@) =~= before + seq![said]);
        }
        if at == content.len() {
            assert(quoted_values(seq![], key@) =~= seq![]);
            assert(crate::text::texts_view(r@) =~= all);
            return r;
        }
        from = at + 1;
        assert(all =~= crate::text::texts_view(r@) + quoted_values(
            lines_of(content@.subrange(from as int, content@.len() as int)),
            key@,
        ));
    }
    assert(content@.subrange(from as int, content@.len() as int) =~= seq![]);
    assert(crate::text::texts_view(r@) =~= all);
    r
}

/// The variables of an environment: each ends at a zero; what follows the last zero is
/// none.
pub open spec fn variables_of(s: Seq<u8>) -> Seq<Seq<u8>>
    decreases s.len(),
{
    let at = first_byte(s, 0);
    if at >= s.len() || at < 0 {
        seq![]
    } else {
        seq![s.subrange(0, at)] + variables_of(s.subrange(at + 1, s.len() as int))
    }
}

/// The number of a game in a variable of an environment, if the variable holds one.
pub open spec fn variable_app_id(variable: Seq<char>) -> Option<Seq<char>> {
    if crate::text::begins_with(variable, "SteamAppId="@) {
        crate::text::piece(variable, '=', 1)
    } else {
        None
    }
}

/// The number of the game in the last of the variables that hold one.
pub open spec fn last_app_id(variables: Seq<Seq<u8>>) -> Option<Seq<char>>
    decreases variables.len(),
{
    if variables.len() == 0 {
        None
    } else {
        match variable_app_id(crate::bytes::lossy_text(variables.last())) {
            Some(id) => Some(id),
            None => last_app_id(variables.drop_last()),
        }
    }
}

/// The number of a game in a variable of an environment, if the variable holds one.
pub fn app_id_in(variable: &str) -> (r: Option<String>)
    ensures
        match (r, variable_app_id(variable@)) {
            (Some(a), Some(b)) => a@ == b,
            (None, None) => true,
            _ => false,
        },
{
    if starts_with(variable, "SteamAppId=") {
        nth_piece(variable, '=', 1)
    } else {
        None
    }
}

/// The number of the game that a process with this environment belongs to, if any.
pub fn environ_app_id(environ: &[u8]) -> (r: Option<String>)
    ensures
        match (r, last_app_id(variables_of(environ@))) {
            (Some(a), Some(b)) => a@ == b,
            (None, None) => true,
            _ => false,
        },
{
    let mut app_id: Option<String> = None;
    let mut from: usize = 0;
    let mut at: usize = 0;
    let ghost mut seen: Seq<Seq<u8>> = seq![];
    assert(environ@.subrange(0, environ@.len() as int) =~= environ@);
    assert(seen + variables_of(environ@) =~= variables_of(environ@));
    while at < environ.len()
        invariant
            from <= at <= environ@.len(),
            variables_of(environ@) == seen + variables_of(
                environ@.subrange(from as int, environ@.len() as int),
            ),
            first_byte(environ@.subrange(from as int, environ@.len() as int), 0) == (at - from)
                + first_byte(environ@.subrange(at as int, environ@.len() as int), 0),
            match (app_id, last_app_id(seen)) {
                (Some(a), Some(b)) => a@ == b,
                (None, None) => true,
                _ => false,
            },
        decreases environ@.len() - at,
    {
        let ghost rest = environ@.subrange(from as int, environ@.len() as int);
        let ghost tail = environ@.subrange(at as int, environ@.len() as int);
        assert(tail[0] == environ@[at as int]);
        if environ[at] == 0 {
            let variable: &[u8] = vstd::slice::slice_subrange(environ, from, at);
            proof {
                assert(first_byte(tail, 0) == 0);
                assert(rest.subrange(0, at - from) =~= variable@);
                assert(rest.subrange(at - from + 1, rest.len() as int) =~= environ@.subrange(
                    at + 1,
                    environ@.len() as int,
                ));
                let more = seen.push(variable@);
                assert(variables_of(environ@) =~= more + variables_of(
                    environ@.subrange(at + 1, environ@.len() as int),
                ));
                assert(more.drop_last() =~= seen);
                assert(more.last() == variable@);
                seen = more;
            }
            let text: String = lossy(variable);
            if let Some(id) = app_id_in(text.as_str()) {
                app_id = Some(id);
            }
            from = at + 1;
            at = at + 1;
        } else {
            assert(tail.subrange(1, tail.len() as int) =~= environ@.subrange(
                at + 1,
                environ@.len() as int,
            ));
            at = at + 1;
        }
    }
    proof {
        let rest = environ@.subrange(from as int, environ@.len() as int);
        assert(environ@.subrange(at as int, environ@.len() as int).len() == 0);
        assert(first_byte(rest, 0) == rest.len());
        assert(seen + variables_of(rest) =~= seen);
    }
    app_id
}

/// Whether a name in the directory of processes is that of a process: all digits.
pub fn is_process_dir(name: &str) -> (r: bool)
    ensures
        r == crate::text::all_digits(name@),
{
    let v: Vec<char> = crate::text::chars_of(name);
    let mut i: usize = 0;
    while i < v.len()
        invariant
            v@ == name@,
            i <= v@.len(),
            forall|k: int| 0 <= k < i ==> crate::text::is_digit(#[trigger] v@[k]),
        decreases v@.len() - i,
    {
        if !('0' <= v[i] && v[i] <= '9') {
            assert(!crate::text::is_digit(v@[i as int]));
            return false;
        }
        i = i + 1;
    }
    true
}

/// Where Steam may keep its files, below this home directory.
pub open spec fn steam_directories(home: Seq<char>) -> Seq<Seq<char>> {
    seq![
        home + "/.steam"@,
        home + "/.local/share/Steam"@,
        home + "/.var/app/com.valvesoftware.Steam"@,
        home + "/snap/steam"@,
    ]
}

/// Where Steam may keep its files, below this home directory.
pub fn steam_dirs(home: &str) -> (r: Vec<String>)
    ensures
        crate::text::texts_view(r@) == steam_directories(home@),
{
    let mut r: Vec<String> = Vec::new();
    r.push(cat(home, "/.steam"));
    r.push(cat(home, "/.local/share/Steam"));
    r.push(cat(home, "/.var/app/com.valvesoftware.Steam"));
    r.push(cat(home, "/snap/steam"));
    assert(crate::text::texts_view(r@) =~= steam_directories(home@));
    r
}

/// The file that describes a game on a drive of the library.
pub open spec fn manifest_file(drive: Seq<char>, app_id: Seq<char>) -> Seq<char> {
    crate::paths::joined(
        crate::paths::joined(drive, "steamapps"@),
        "appmanifest_"@ + app_id + ".acf"@,
    )
}

/// The file that describes a game on a drive of the library.
pub fn manifest_path(drive: &str, app_id: &str) -> (r: String)
    ensures
        r@ == manifest_file(drive@, app_id@),
{
    let name: String = cat(cat("appmanifest_", app_id).as_str(), ".acf");
    join(join(drive, "steamapps").as_str(), name.as_str())
}

/// Cutting at the first double quote leaves what follows it.
proof fn lemma_next_piece(a: Seq<char>, b: Seq<char>, n: nat)
    requires
        !a.contains('"'),
    ensures
        crate::text::piece(a + seq!['"'] + b, '"', n + 1) == crate::text::piece(b, '"', n),
        crate::text::piece(a + seq!['"'] + b, '"', 0) == Some(a),
{
    let all = a + seq!['"'] + b;
    crate::text::lemma_position_behind(a, '"', b);
    assert(all.subrange(a.len() as int + 1, all.len() as int) =~= b);
    assert(all.subrange(0, a.len() as int) =~= a);
}

/// The value of a line of the form `"word" "value"` is read back, whatever stands between
/// the two, as long as no double quote stands within a part.
pub proof fn law_quoted_value_is_read_back(
    word: Seq<char>,
    between: Seq<char>,
    value: Seq<char>,
)
    requires
        !word.contains('"'),
        !between.contains('"'),
        !value.contains('"'),
    ensures
        quoted_value(
            seq!['"'] + word + seq!['"'] + between + seq!['"'] + value + seq!['"'],
            seq!['"'] + word + seq!['"'],
        ) == Some(value),
{
    let key = seq!['"'] + word + seq!['"'];
    let line = key + between + seq!['"'] + value + seq!['"'];
    let none = Seq::<char>::empty();
    let after_between = value + seq!['"'] + none;
    let after_word = between + seq!['"'] + after_between;
    let after_quote = word + seq!['"'] + after_word;
    assert(line =~= none + seq!['"'] + after_quote);
    lemma_next_piece(none, after_quote, 2);
    lemma_next_piece(word, after_word, 1);
    lemma_next_piece(between, after_between, 0);
    lemma_next_piece(value, none, 0);
    assert(crate::text::piece(line, '"', 3) == Some(value));
    assert(line.subrange(0, key.len() as int) =~= key);
    lemma_quoted_line(line, key);
}

/// A line that begins with a key and ends with a double quote is cut as it stands.
proof fn lemma_quoted_line(line: Seq<char>, key: Seq<char>)
    requires
        key.len() <= line.len(),
        line.subrange(0, key.len() as int) == key,
        line.len() > 0,
        line[0] == '"',
        line[line.len() - 1] == '"',
    ensures
        quoted_value(line, key) == crate::text::piece(line, '"', 3),
{
    assert(!crate::text::is_white_space('"'));
}

proof fn lemma_byte_behind(a: Seq<u8>, c: u8, b: Seq<u8>)
    requires
        !a.contains(c),
    ensures
        first_byte(a, c) == a.len(),
        first_byte(a + seq![c] + b, c) == a.len(),
    decreases a.len(),
{
    let whole = a + seq![c] + b;
    if a.len() > 0 {
        let rest = a.subrange(1, a.len() as int);
        assert(a.contains(a[0]));
        assert forall|x: u8| rest.contains(x) implies a.contains(x) by {
            let i = choose|i: int| 0 <= i < rest.len() && rest[i] == x;
            assert(a[i + 1] == x);
        }
        lemma_byte_behind(rest, c, b);
        assert(whole.subrange(1, whole.len() as int) =~= rest + seq![c] + b);
        assert(whole[0] == a[0]);
    } else {
        assert(whole[0] == c);
    }
}

/// A file is read line by line: a line ends before its line feed, with or without a carriage
/// return, and the last line needs none.
pub proof fn law_lines_end_at_line_feeds(line: Seq<u8>, rest: Seq<u8>)
    requires
        !line.contains(10),
        line.len() > 0 ==> line.last() != 13,
    ensures
        lines_of(line + seq![10u8] + rest) == seq![line] + lines_of(rest),
        lines_of(line + seq![13u8] + seq![10u8] + rest) == seq![line] + lines_of(rest),
        line.len() > 0 ==> lines_of(line) == seq![line],
        lines_of(Seq::<u8>::empty()) == Seq::<Seq<u8>>::empty(),
{
    let fed = line + seq![10u8] + rest;
    lemma_byte_behind(line, 10, rest);
    assert(fed.subrange(0, line.len() as int) =~= line);
    assert(fed.subrange(line.len() as int + 1, fed.len() as int) =~= rest);
    let returned = line + seq![13u8];
    assert forall|x: u8| returned.contains(x) implies x == 13 || line.contains(x) by {
        let i = choose|i: int| 0 <= i < returned.len() && returned[i] == x;
        if i < line.len() {
            assert(line[i] == x);
        }
    }
    let both = returned + seq![10u8] + rest;
    lemma_byte_behind(returned, 10, rest);
    assert(both.subrange(0, returned.len() as int) =~= returned);
    assert(both.subrange(returned.len() as int + 1, both.len() as int) =~= rest);
    assert(returned.drop_last() =~= line);
}

/// Every line that is text is searched, in order, up to the first that is none; what one line
/// tells does not change what the others tell.
pub proof fn law_lines_are_read_one_by_one(
    line: Seq<u8>,
    lines: Seq<Seq<u8>>,
    key: Seq<char>,
)
    ensures
        !vstd::utf8::valid_utf8(line) ==> quoted_values(seq![line] + lines, key) == Seq::<
            Seq<char>,
        >::empty(),
        vstd::utf8::valid_utf8(line) ==> quoted_values(seq![line] + lines, key) == (
        match quoted_value(vstd::utf8::decode_utf8(line), key) {
            Some(value) => seq![value],
            None => Seq::<Seq<char>>::empty(),
        }) + quoted_values(lines, key),
{
    assert((seq![line] + lines).drop_first() =~= lines);
}

/// A line without the key at its beginning tells nothing.
pub proof fn law_other_lines_tell_nothing(line: Seq<char>, key: Seq<char>)
    requires
        !crate::text::begins_with(
            crate::text::trimmed(line, crate::text::TrimSet::WhiteSpace),
            key,
        ),
    ensures
        quoted_value(line, key) is None,
{
}

/// The number of the game is what stands behind the equals sign of `SteamAppId`.
pub proof fn law_app_id_stands_behind_its_name(id: Seq<char>)
    requires
        !id.contains('='),
    ensures
        variable_app_id("SteamAppId="@ + id) == Some(id),
{
    reveal_strlit("SteamAppId=");
    reveal_strlit("SteamAppId");
    let name = "SteamAppId"@;
    let variable = "SteamAppId="@ + id;
    assert("SteamAppId="@ =~= name + seq!['=']);
    assert(variable =~= name + seq!['='] + id);
    assert forall|i: int| 0 <= i < name.len() implies name[i] != '=' by {}
    assert(!name.contains('='));
    crate::text::law_pieces_are_cut_at_the_separator(name, '=', id, 0);
    crate::text::law_pieces_are_cut_at_the_separator(id, '=', id, 0);
    assert(variable.subrange(0, "SteamAppId="@.len() as int) =~= "SteamAppId="@);
}

/// A variable of another name tells no number.
pub proof fn law_other_variables_tell_nothing(variable: Seq<char>)
    requires
        variable.len() < 11 || variable.subrange(0, 11) != "SteamAppId="@,
    ensures
        variable_app_id(variable) is None,
{
    reveal_strlit("SteamAppId=");
}

/// The variables of an environment end at its zeros, and the last that tells a number decides.
pub proof fn law_last_variable_decides(
    variable: Seq<u8>,
    rest: Seq<u8>,
    before: Seq<Seq<u8>>,
    id: Seq<char>,
)
    requires
        !variable.contains(0),
        !id.contains('='),
    ensures
        variables_of(variable + seq![0u8] + rest) == seq![variable] + variables_of(rest),
        variables_of(variable) == Seq::<Seq<u8>>::empty(),
        crate::bytes::lossy_text(variable) == "SteamAppId="@ + id ==> last_app_id(
            before.push(variable),
        ) == Some(id),
        variable_app_id(crate::bytes::lossy_text(variable)) is None ==> last_app_id(
            before.push(variable),
        ) == last_app_id(before),
{
    let all = variable + seq![0u8] + rest;
    lemma_byte_behind(variable, 0, rest);
    assert(all.subrange(0, variable.len() as int) =~= variable);
    assert(all.subrange(variable.len() as int + 1, all.len() as int) =~= rest);
    law_app_id_stands_behind_its_name(id);
    assert(before.push(variable).drop_last() =~= before);
    assert(before.push(variable).last() == variable);
}

/// The file that describes a game lies below its drive and is named after the number of the game:
/// two games have two files there.
pub proof fn law_each_game_has_its_manifest(drive: Seq<char>, a: Seq<char>, b: Seq<char>)
    ensures
        crate::text::begins_with(manifest_file(drive, a), drive),
        crate::text::finishes_with(manifest_file(drive, a), "appmanifest_"@ + a + ".acf"@),
        manifest_file(drive, a) == manifest_file(drive, b) ==> a == b,
{
    reveal_strlit("steamapps");
    reveal_strlit("appmanifest_");
    reveal_strlit("/");
    let dir = crate::paths::joined(drive, "steamapps"@);
    let name = "appmanifest_"@ + a + ".acf"@;
    let other = "appmanifest_"@ + b + ".acf"@;
    assert("steamapps"@.subrange(0, 1)[0] != "/"@[0]);
    assert(name.subrange(0, 1)[0] == 'a');
    assert(other.subrange(0, 1)[0] == 'a');
    assert("/"@[0] == '/');
    crate::paths::law_join_stays_below(drive, "steamapps"@);
    crate::paths::law_join_stays_below(dir, name);
    crate::paths::law_join_stays_below(dir, other);
    let whole = manifest_file(drive, a);
    assert(dir.subrange(0, drive.len() as int) == drive);
    assert(whole.subrange(0, dir.len() as int) == dir);
    assert(whole.subrange(0, drive.len() as int) =~= whole.subrange(
        0,
        dir.len() as int,
    ).subrange(0, drive.len() as int));
    if whole == manifest_file(drive, b) {
        assert(name.len() == other.len());
        assert(whole.subrange(whole.len() - name.len(), whole.len() as int) == name);
        assert(whole.subrange(whole.len() - name.len(), whole.len() as int) == other);
        assert(a =~= name.subrange(12, 12 + a.len() as int));
        assert(b =~= other.subrange(12, 12 + b.len() as int));
    }
}

/// All places in which Steam may keep its files lie below the home directory.
pub proof fn law_steam_lies_below_home(home: Seq<char>, i: int)
    requires
        0 <= i < steam_directories(home).len(),
    ensures
        steam_directories(home).len() == 4,
        crate::text::begins_with(steam_directories(home)[i], home),
        steam_directories(home)[i].len() > home.len(),
        steam_directories(home)[i][home.len() as int] == '/',
{
    reveal_strlit("/.steam");
    reveal_strlit("/.local/share/Steam");
    reveal_strlit("/.var/app/com.valvesoftware.Steam");
    reveal_strlit("/snap/steam");
    let tail = if i == 0 {
        "/.steam"@
    } else if i == 1 {
        "/.local/share/Steam"@
    } else if i == 2 {
        "/.var/app/com.valvesoftware.Steam"@
    } else {
        "/snap/steam"@
    };
    crate::text::law_text_is_found_where_it_stands(tail, home, tail);
    assert(tail.len() > 0 && tail[0] == '/');
    assert(steam_directories(home)[i] == home + tail);
}

} // verus!
