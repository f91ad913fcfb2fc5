//! Paths of files, as texts.

use crate::text::{cat, ends_with, is_empty, starts_with};
use vstd::prelude::*;

verus! {

/// The path `name` as seen from the directory `dir`: `name` itself where it is absolute.
pub open spec fn joined(dir: Seq<char>, name: Seq<char>) -> Seq<char> {
    if crate::text::begins_with(name, "/"@) {
        name
    } else if dir.len() == 0 || crate::text::finishes_with(dir, "/"@) {
        dir + name
    } else {
        dir + "/"@ + name
    }
}

/// The path `name` as seen from the directory `dir`: `name` itself where it is absolute.
pub fn join(dir: &str, name: &str) -> (r: String)
    ensures
        r@ == joined(dir@, name@),
{
    if starts_with(name, "/") {
        name.to_owned()
    } else if is_empty(dir) || ends_with(dir, "/") {
        cat(dir, name)
    } else {
        cat(cat(dir, "/").as_str(), name)
    }
}

/// What `std::path::Path::parent` gives for a path: the path without its last component,
/// if it has one.
pub uninterp spec fn parent_path(path: Seq<char>) -> Option<Seq<char>>;

/// Calls `std::path::Path::parent` on a path and gives the result as a text. The result
/// is named, not described.
#[verifier::external_body]
pub(crate) fn parent(path: &str) -> (r: Option<String>)
    ensures
        match r {
            Some(p) => parent_path(path@) == Some(p@),
            None => parent_path(path@) is None,
        },
{
    std::path::Path::new(path).parent().map(|p| p.to_string_lossy().into_owned())
}

/// The directory above `dir`, or the empty path where there is none.
pub open spec fn above(dir: Seq<char>) -> Seq<char> {
    match parent_path(dir) {
        Some(p) => p,
        None => ""@,
    }
}

/// The directory above `dir`, or the empty path where there is none.
pub fn directory_above(dir: &str) -> (r: String)
    ensures
        r@ == above(dir@),
{
    match parent(dir) {
        Some(p) => p,
        None => "".to_owned(),
    }
}

/// A name in the directory `branding`, which lies beside the directory `dir`.
pub open spec fn branding_path(dir: Seq<char>, kind: Seq<char>, name: Seq<char>) -> Seq<char> {
    joined(joined(joined(above(dir), "branding"@), kind), name)
}

/// A name in the directory `branding`, which lies beside the directory `dir`.
pub fn branding(dir: &str, kind: &str, name: &str) -> (r: String)
    ensures
        r@ == branding_path(dir@, kind@, name@),
{
    let root: String = join(directory_above(dir).as_str(), "branding");
    join(join(root.as_str(), kind).as_str(), name)
}

/// A name without a leading separator stays in the directory that it is joined to.
pub proof fn law_join_stays_below(dir: Seq<char>, name: Seq<char>)
    requires
        !crate::text::begins_with(name, "/"@),
    ensures
        crate::text::begins_with(joined(dir, name), dir),
        crate::text::finishes_with(joined(dir, name), name),
{
    let j = joined(dir, name);
    assert(j.subrange(0, dir.len() as int) =~= dir);
    assert(j.subrange(j.len() - name.len(), j.len() as int) =~= name);
}

/// Between a directory and a name that are joined there is one separator, unless the directory
/// is empty or ends with one; an absolute name stands for itself.
pub proof fn law_join_puts_one_separator(dir: Seq<char>, name: Seq<char>)
    ensures
        name.len() > 0 && name[0] == '/' ==> joined(dir, name) == name,
        name.len() == 0 || name[0] != '/' ==> {
            &&& dir.len() == 0 || dir.last() == '/' ==> joined(dir, name) == dir + name
            &&& dir.len() > 0 && dir.last() != '/' ==> joined(dir, name) == dir.push('/') + name
        },
{
    reveal_strlit("/");
    assert("/"@ =~= seq!['/']);
    if name.len() > 0 {
        assert(name.subrange(0, 1) =~= seq![name[0]]);
        assert(seq![name[0]][0] == name[0]);
    }
    if dir.len() > 0 {
        assert(dir.subrange(dir.len() - 1, dir.len() as int) =~= seq![dir.last()]);
        assert(seq![dir.last()][0] == dir.last());
        assert(dir + "/"@ =~= dir.push('/'));
    }
}

/// What belongs to the look of the program lies in a directory of its kind, in the directory
/// `branding` beside the given one.
pub proof fn law_branding_lies_beside(dir: Seq<char>, kind: Seq<char>, name: Seq<char>)
    requires
        kind.len() > 0 && kind[0] != '/',
        name.len() > 0 && name[0] != '/',
        above(dir).len() > 0 && above(dir).last() != '/',
        kind.last() != '/',
    ensures
        branding_path(dir, kind, name) == above(dir).push('/') + "branding"@ + seq!['/'] + kind
            + seq!['/'] + name,
{
    reveal_strlit("branding");
    let root = joined(above(dir), "branding"@);
    law_join_puts_one_separator(above(dir), "branding"@);
    assert(root.last() == "branding"@[7]);
    law_join_puts_one_separator(root, kind);
    let inner = joined(root, kind);
    assert(inner.last() == kind.last());
    law_join_puts_one_separator(inner, name);
    assert(branding_path(dir, kind, name) =~= above(dir).push('/') + "branding"@ + seq!['/'] + kind
        + seq!['/'] + name);
}

} // verus!
