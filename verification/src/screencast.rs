//! Remembering which screen was shared.

use crate::daemon::DaemonCore;
use crate::error::WayclipError;
use crate::paths::{join, parent};
use crate::text::{is_empty, trim};
use vstd::prelude::*;

verus! {

/// Where the token of the shared screen is kept, below the state directory.
pub const DEFAULT_RESTORE_TOKEN_PATH: &'static str = "wayclip/restore_token";

/// Where the token of the shared screen is kept.
pub open spec fn token_file(state_dir: Seq<char>) -> Seq<char> {
    crate::paths::joined(state_dir, "wayclip/restore_token"@)
}

/// The token in a file, unless there is only white space in it.
pub open spec fn token_in(content: Seq<char>) -> Option<Seq<char>> {
    let token = crate::text::trimmed(content, crate::text::TrimSet::WhiteSpace);
    if token.len() > 0 {
        Some(token)
    } else {
        None
    }
}

/// Where the token of the shared screen is kept, given the state directory if there is one.
pub fn restore_token_path(state_dir: Option<&str>) -> (r: Result<String, WayclipError>)
    ensures
        match state_dir {
            Some(dir) => r matches Ok(path) && path@ == token_file(dir@),
            None => r matches Err(WayclipError::NotFound(m)) && m@
                == "Couldnt get state directory (~/.local/state)"@,
        },
{
    match state_dir {
        Some(dir) => Ok(join(dir, DEFAULT_RESTORE_TOKEN_PATH)),
        None => Err(
            WayclipError::NotFound("Couldnt get state directory (~/.local/state)".to_owned()),
        ),
    }
}

/// A token that is to be written.
#[derive(Debug)]
pub struct TokenWrite {
    /// The directory that is made first, if the file has one.
    pub directory: Option<String>,
    /// The file.
    pub path: String,
    /// The token.
    pub token: String,
}

impl DaemonCore {
    /// The token to offer, given what the file holds, if it is there.
    pub fn load_restore_token(content: Option<&str>) -> (r: Option<String>)
        ensures
            crate::text::text_option(r) == (match content {
                Some(c) => token_in(c@),
                None => None,
            }),
    {
        match content {
            Some(c) => {
                let token: String = trim(c);
                if is_empty(token.as_str()) {
                    None
                } else {
                    Some(token)
                }
            },
            None => None,
        }
    }

    /// What is written when the screen sharing service gave this token, if it gave one.
    pub fn save_restore_token(token: Option<&str>, state_dir: Option<&str>) -> (r: Result<
        Option<TokenWrite>,
        WayclipError,
    >)
        ensures
            match (token, state_dir) {
                (None, _) => r == Ok::<Option<TokenWrite>, WayclipError>(None),
                (Some(t), None) => r matches Err(WayclipError::NotFound(m)) && m@
                    == "Couldnt get state directory (~/.local/state)"@,
                (Some(t), Some(dir)) => r matches Ok(Some(w)) && w.path@ == token_file(dir@)
                    && crate::text::text_option(w.directory) == crate::paths::parent_path(
                    token_file(dir@),
                ) && w.token@ == t@,
            },
    {
        match token {
            None => Ok(None),
            Some(t) => match restore_token_path(state_dir) {
                Err(e) => Err(e),
                Ok(path) => {
                    let directory: Option<String> = parent(path.as_str());
                    Ok(Some(TokenWrite { directory, path, token: t.to_owned() }))
                },
            },
        }
    }
}

/// A token that was written comes back, unless there is white space round it.
pub proof fn law_token_comes_back(token: Seq<char>)
    requires
        token.len() > 0,
        !crate::text::is_white_space(token[0]),
        !crate::text::is_white_space(token.last()),
    ensures
        token_in(token) == Some(token),
{
}

/// White space round a token in its file is no part of it, and a file of nothing but white space
/// holds none.
pub proof fn law_white_space_is_no_token(a: Seq<char>, token: Seq<char>, b: Seq<char>)
    requires
        forall|i: int| 0 <= i < a.len() ==> crate::text::is_white_space(#[trigger] a[i]),
        forall|i: int| 0 <= i < b.len() ==> crate::text::is_white_space(#[trigger] b[i]),
        token.len() > 0 ==> !crate::text::is_white_space(token[0]) && !crate::text::is_white_space(
            token.last(),
        ),
    ensures
        token.len() > 0 ==> token_in(a + token + b) == Some(token),
        token.len() == 0 ==> token_in(a + token + b) is None,
{
    let set = crate::text::TrimSet::WhiteSpace;
    assert forall|i: int| 0 <= i < a.len() implies set.holds(#[trigger] a[i]) by {}
    assert forall|i: int| 0 <= i < b.len() implies set.holds(#[trigger] b[i]) by {}
    crate::text::law_trim_leaves_the_text(a, token, b, set);
}

/// The token is kept below the state directory.
pub proof fn law_token_is_kept_below_the_state(state_dir: Seq<char>)
    ensures
        crate::text::begins_with(token_file(state_dir), state_dir),
        crate::text::finishes_with(token_file(state_dir), "wayclip/restore_token"@),
        state_dir.len() > 0 && state_dir.last() != '/' ==> token_file(state_dir) == state_dir.push(
            '/',
        ) + "wayclip/restore_token"@,
{
    reveal_strlit("wayclip/restore_token");
    reveal_strlit("/");
    let name = "wayclip/restore_token"@;
    assert(name[0] != '/');
    assert(name.subrange(0, 1)[0] == name[0]);
    assert("/"@[0] == '/');
    crate::paths::law_join_stays_below(state_dir, name);
    crate::paths::law_join_puts_one_separator(state_dir, name);
}

} // verus!
