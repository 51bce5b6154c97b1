//! Paths as text: joining a directory and a relative path, and replacing a
//! leading home marker `~` by the home directory.
//!
//! A path is the text a user wrote. `/` separates its components on every
//! platform, and on Windows `\` does so too.

use crate::error::{Error, ErrorView};
use crate::os::OS;
use vstd::prelude::*;

verus! {

/// Whether `c` separates the components of a path on `os`.
pub open spec fn is_separator(os: OS, c: char) -> bool {
    c == '/' || (os == OS::Windows && c == '\\')
}

/// The separator that is written between a directory and what is joined to it.
pub open spec fn main_separator(os: OS) -> char {
    if os == OS::Windows {
        '\\'
    } else {
        '/'
    }
}

/// `rel` below the directory `base`: the two texts one after the other, with
/// one separator between them unless `base` is empty or already ends in one.
pub open spec fn joined(os: OS, base: Seq<char>, rel: Seq<char>) -> Seq<char> {
    if base.len() == 0 || is_separator(os, base.last()) {
        base + rel
    } else {
        base.push(main_separator(os)) + rel
    }
}

/// Whether `path` starts at the home directory: its first component is `~`.
pub open spec fn names_home(os: OS, path: Seq<char>) -> bool {
    path.len() > 0 && path[0] == '~' && (path.len() == 1 || is_separator(os, path[1]))
}

/// `text` without the separators it begins with.
pub open spec fn without_leading_separators(os: OS, text: Seq<char>) -> Seq<char>
    decreases text.len(),
{
    if text.len() > 0 && is_separator(os, text[0]) {
        without_leading_separators(os, text.drop_first())
    } else {
        text
    }
}

/// What a path that starts at the home directory names below it: the text
/// after the marker and the separators that follow it.
pub open spec fn below_home(os: OS, path: Seq<char>) -> Seq<char> {
    without_leading_separators(os, path.subrange(1, path.len() as int))
}

/// A path that starts at the home directory, written out from `home`.
pub open spec fn expanded(os: OS, home: Seq<char>, path: Seq<char>) -> Seq<char> {
    if below_home(os, path).len() == 0 {
        home
    } else {
        joined(os, home, below_home(os, path))
    }
}

/// The path that `path` stands for when the home directory is `home`, or the
/// failure that `path` needs a home directory and none is known.
pub open spec fn expansion(os: OS, home: Option<Seq<char>>, path: Seq<char>) -> Result<
    Seq<char>,
    ErrorView,
> {
    if !names_home(os, path) {
        Ok(path)
    } else {
        match home {
            Some(h) => Ok(expanded(os, h, path)),
            None => Err(ErrorView::HomeNotFound { path }),
        }
    }
}

/// A path or a failure, with the texts as sequences of characters.
pub open spec fn path_result_view(r: Result<String, Error>) -> Result<Seq<char>, ErrorView> {
    match r {
        Ok(p) => Ok(p@),
        Err(e) => Err(e@),
    }
}

/// An optional text as an optional sequence of characters.
pub open spec fn text_option_view(t: Option<&str>) -> Option<Seq<char>> {
    match t {
        Some(s) => Some(s@),
        None => None,
    }
}

/// Whether `c` separates the components of a path on `os`.
pub fn separates(os: OS, c: char) -> (r: bool)
    ensures
        r == is_separator(os, c),
{
    c == '/' || (os == OS::Windows && c == '\\')
}

/// Joins `rel` to the directory `base`.
pub fn join(base: &str, rel: &str, os: OS) -> (r: String)
    ensures
        r@ == joined(os, base@, rel@),
{
    let n = base.unicode_len();
    let mut out = base.to_owned();
    if n > 0 && !separates(os, base.get_char(n - 1)) {
        proof {
            reveal_strlit("\\");
            reveal_strlit("/");
        }
        if os == OS::Windows {
            out.append("\\");
            assert(out@ =~= base@.push('\\'));
        } else {
            out.append("/");
            assert(out@ =~= base@.push('/'));
        }
    }
    out.append(rel);
    out
}

/// Whether the first component of `path` is the home marker `~`.
pub fn is_home_path(path: &str, os: OS) -> (r: bool)
    ensures
        r == names_home(os, path@),
{
    let n = path.unicode_len();
    if n == 0 {
        return false;
    }
    if path.get_char(0) != '~' {
        return false;
    }
    n == 1 || separates(os, path.get_char(1))
}

/// The part of a home path below the home directory.
fn rest_below_home<'a>(path: &'a str, os: OS) -> (r: &'a str)
    requires
        names_home(os, path@),
    ensures
        r@ == below_home(os, path@),
{
    let n = path.unicode_len();
    let mut i: usize = 1;
    while i < n && separates(os, path.get_char(i))
        invariant
            1 <= i <= n,
            n == path@.len(),
            below_home(os, path@) == without_leading_separators(
                os,
                path@.subrange(i as int, n as int),
            ),
        decreases n - i,
    {
        assert(path@.subrange(i as int, n as int).drop_first() =~= path@.subrange(
            i + 1,
            n as int,
        ));
        i += 1;
    }
    path.substring_char(i, n)
}

/// Replaces a leading home marker in `path` by `home`. A path whose first
/// component is not the marker comes back unchanged; the marker alone is the
/// home directory itself; without a home directory a home path is a failure.
pub fn expand_tilde_with(path: &str, home: Option<&str>, os: OS) -> (r: Result<String, Error>)
    ensures
        path_result_view(r) == expansion(os, text_option_view(home), path@),
{
    if !is_home_path(path, os) {
        return Ok(path.to_owned());
    }
    match home {
        None => Err(Error::HomeNotFound { path: path.to_owned() }),
        Some(h) => {
            let rest = rest_below_home(path, os);
            if rest.unicode_len() == 0 {
                Ok(h.to_owned())
            } else {
                Ok(join(h, rest, os))
            }
        },
    }
}

/// `dirs::home_dir`, with the directory as text. Which directory comes back,
/// and whether one does, depends on the user and on how the machine is set
/// up, so nothing is claimed of the result. A home directory that is not
/// valid Unicode is reported as none.
#[verifier::external_body]
pub(crate) fn home_dir() -> (home: Option<String>) {
    match dirs::home_dir() {
        Some(dir) => dir.into_os_string().into_string().ok(),
        None => None,
    }
}

/// Replaces a leading home marker in `path` by the user's home directory,
/// which is looked up only when the path needs it.
pub fn expand_tilde(path: &str, os: OS) -> (r: Result<String, Error>)
    ensures
        exists|home: Option<Seq<char>>| path_result_view(r) == expansion(os, home, path@),
        !names_home(os, path@) ==> path_result_view(r) == Ok::<Seq<char>, ErrorView>(path@),
{
    if !is_home_path(path, os) {
        let same = path.to_owned();
        assert(path_result_view(Ok(same)) == expansion(os, None, path@));
        return Ok(same);
    }
    let home = home_dir();
    match home {
        Some(h) => {
            let r = expand_tilde_with(path, Some(h.as_str()), os);
            assert(path_result_view(r) == expansion(os, Some(h@), path@));
            r
        },
        None => {
            let r = expand_tilde_with(path, None, os);
            assert(path_result_view(r) == expansion(os, None, path@));
            r
        },
    }
}

/// A joined path begins with the directory and ends with what was joined to
/// it: whatever the relative path holds, the result lies below the directory.
pub proof fn lemma_joined_keeps_both(os: OS, base: Seq<char>, rel: Seq<char>)
    ensures
        base.is_prefix_of(joined(os, base, rel)),
        rel.is_suffix_of(joined(os, base, rel)),
{
    let whole = joined(os, base, rel);
    assert(whole.subrange(0, base.len() as int) =~= base);
    assert(whole.subrange(whole.len() - rel.len(), whole.len() as int) =~= rel);
}

/// A path that names the home directory alone resolves to the home
/// directory, and a path below it resolves to the home directory joined with
/// what follows the marker, as if the home directory had been written out.
pub proof fn lemma_tilde_is_home(os: OS, home: Seq<char>, sep: char, rest: Seq<char>)
    requires
        is_separator(os, sep),
        rest.len() > 0,
        !is_separator(os, rest[0]),
    ensures
        expansion(os, Some(home), seq!['~']) == Ok::<Seq<char>, ErrorView>(home),
        expansion(os, Some(home), seq!['~', sep]) == Ok::<Seq<char>, ErrorView>(home),
        expansion(os, Some(home), seq!['~', sep] + rest) == Ok::<Seq<char>, ErrorView>(
            joined(os, home, rest),
        ),
{
    let alone = seq!['~'];
    assert(alone.subrange(1, 1) =~= Seq::<char>::empty());
    let slash = seq!['~', sep];
    assert(slash.subrange(1, 2) =~= seq![sep]);
    assert(seq![sep].drop_first() =~= Seq::<char>::empty());
    reveal_with_fuel(without_leading_separators, 3);
    let full = seq!['~', sep] + rest;
    assert(full.subrange(1, full.len() as int) =~= seq![sep] + rest);
    assert((seq![sep] + rest).drop_first() =~= rest);
}

} // verus!
