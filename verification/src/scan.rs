//! Which entries of a directory walk are listed, and under which path.
//!
//! The walk itself is the driver's business. For each entry that it meets it
//! hands over the entry's path and kind as plain values, and is told whether
//! the entry is walked into and whether and how it is listed.

use crate::file::{FsItem, FsItemType, FsItemView};
use crate::text::{chars_of, string_of};
use regex::Regex;
use vstd::prelude::*;

verus! {

/// A compiled regular expression of the `regex` crate.
#[verifier::external_type_specification]
#[verifier::external_body]
pub struct ExRegex(Regex);

/// Whether `regex` matches anywhere in `haystack`.
pub uninterp spec fn regex_matches(regex: Regex, haystack: Seq<char>) -> bool;

/// `Regex::is_match` says whether the expression matches anywhere in the
/// haystack. The answer depends on the expression and the haystack alone,
/// and [`regex_matches`] stands for it.
pub assume_specification[ Regex::is_match ](regex: &Regex, haystack: &str) -> (matched: bool)
    ensures
        matched == regex_matches(*regex, haystack@),
;

/// How deep the walk goes: without limit when it is recursive, otherwise no
/// further than the entries of the directory itself.
pub fn max_depth(recursive: bool) -> (depth: usize)
    ensures
        depth == if recursive {
            usize::MAX
        } else {
            1usize
        },
{
    if recursive {
        usize::MAX
    } else {
        1
    }
}

/// Whether a file name marks its entry as hidden: it begins with a dot.
pub open spec fn hidden_name(name: Seq<char>) -> bool {
    name.len() > 0 && name[0] == '.'
}

/// Whether an entry is walked: one whose file name begins with a dot is not,
/// and neither is anything below it. `file_name` is `None` where the name is
/// not valid Unicode; such an entry is walked.
pub fn is_not_hidden(file_name: Option<&str>) -> (walked: bool)
    ensures
        walked == !(file_name matches Some(name) && hidden_name(name@)),
{
    match file_name {
        Some(name) => !(!name.is_empty() && name.get_char(0) == '.'),
        None => true,
    }
}

/// `s` without `prefix` at its start, or `s` itself where it does not start
/// with `prefix`.
pub open spec fn without_prefix(s: Seq<char>, prefix: Seq<char>) -> Seq<char> {
    if prefix.is_prefix_of(s) {
        s.skip(prefix.len() as int)
    } else {
        s
    }
}

/// `s` without the run of `c` at its start.
pub open spec fn without_leading(s: Seq<char>, c: char) -> Seq<char>
    decreases s.len(),
{
    if s.len() > 0 && s[0] == c {
        without_leading(s.drop_first(), c)
    } else {
        s
    }
}

/// The path under which the entry at `path` is listed when the walk started
/// at `directory`: `path` without `directory` in front, then without leading
/// slashes, then without leading backslashes.
pub open spec fn relative_name(path: Seq<char>, directory: Seq<char>) -> Seq<char> {
    without_leading(without_leading(without_prefix(path, directory), '/'), '\\')
}

/// The kind of an entry that is a directory or is not.
pub open spec fn kind_of(is_dir: bool) -> FsItemType {
    if is_dir {
        FsItemType::Directory
    } else {
        FsItemType::File
    }
}

/// The end of the run of `c` that begins at `from` in `v`.
fn skip_run(v: &Vec<char>, from: usize, c: char) -> (to: usize)
    requires
        from <= v.len(),
    ensures
        from <= to <= v.len(),
        v@.skip(to as int) == without_leading(v@.skip(from as int), c),
{
    let mut to: usize = from;
    while to < v.len() && v[to] == c
        invariant
            from <= to <= v.len(),
            without_leading(v@.skip(to as int), c) == without_leading(v@.skip(from as int), c),
        decreases v.len() - to,
    {
        assert(v@.skip(to as int).drop_first() =~= v@.skip(to + 1));
        to += 1;
    }
    to
}

/// Whether `v` starts with `prefix`.
fn starts_with(v: &Vec<char>, prefix: &Vec<char>) -> (r: bool)
    ensures
        r == prefix@.is_prefix_of(v@),
{
    if prefix.len() > v.len() {
        return false;
    }
    let mut i: usize = 0;
    while i < prefix.len()
        invariant
            i <= prefix.len() <= v.len(),
            prefix@.take(i as int) == v@.take(i as int),
        decreases prefix.len() - i,
    {
        if prefix[i] != v[i] {
            return false;
        }
        i += 1;
    }
    true
}

/// The path under which the entry at `path` is listed when the walk started
/// at `directory`.
pub fn listed_name(path: &str, directory: &str) -> (name: String)
    ensures
        name@ == relative_name(path@, directory@),
{
    let chars = chars_of(path);
    let prefix = chars_of(directory);
    let start: usize = if starts_with(&chars, &prefix) {
        prefix.len()
    } else {
        0
    };
    proof {
        assert(chars@.skip(0) =~= chars@);
    }
    let after_slashes = skip_run(&chars, start, '/');
    let after_backslashes = skip_run(&chars, after_slashes, '\\');
    string_of(&chars, after_backslashes, chars.len())
}

/// Whether entries of a kind are listed at all: files always, directories
/// only on request.
pub open spec fn kind_listed(is_dir: bool, include_dirs: bool) -> bool {
    include_dirs || !is_dir
}

/// Whether an entry is of a kind that is listed at all. Only of such an
/// entry is the path ever looked at.
pub fn lists_kind(is_dir: bool, include_dirs: bool) -> (listed: bool)
    ensures
        listed == kind_listed(is_dir, include_dirs),
{
    include_dirs || !is_dir
}

/// What becomes of an entry of the walk: nothing if it is a directory and
/// directories are not listed, or if its listed name does not match;
/// otherwise the entry with its kind and its listed name.
pub open spec fn selected(
    name: Seq<char>,
    is_dir: bool,
    include_dirs: bool,
    matched: bool,
) -> Option<FsItemView> {
    if kind_listed(is_dir, include_dirs) && matched {
        Some(FsItemView { item_type: kind_of(is_dir), name })
    } else {
        None
    }
}

/// The view of an entry that may be there or not.
pub open spec fn optional_view(item: Option<FsItem>) -> Option<FsItemView> {
    match item {
        Some(found) => Some(found@),
        None => None,
    }
}

/// The listed entry for `name` if the pattern matched it, and nothing if it
/// did not.
pub fn item_if_matched(name: String, is_dir: bool, matched: bool) -> (item: Option<FsItem>)
    ensures
        optional_view(item) == if matched {
            Some(FsItemView { item_type: kind_of(is_dir), name: name@ })
        } else {
            None
        },
{
    if matched {
        let item_type = if is_dir {
            FsItemType::Directory
        } else {
            FsItemType::File
        };
        Some(FsItem { item_type, name })
    } else {
        None
    }
}

/// Decides whether the entry at `path` is listed, and as what.
///
/// A directory is listed only if `include_dirs`. An entry that passes is
/// listed under its [`relative_name`] and with its kind, provided `regex`
/// matches that name.
pub fn select_item(
    path: &str,
    directory: &str,
    is_dir: bool,
    include_dirs: bool,
    regex: &Regex,
) -> (item: Option<FsItem>)
    ensures
        optional_view(item) == selected(
            relative_name(path@, directory@),
            is_dir,
            include_dirs,
            regex_matches(*regex, relative_name(path@, directory@)),
        ),
{
    if lists_kind(is_dir, include_dirs) {
        let name = listed_name(path, directory);
        let matched = regex.is_match(name.as_str());
        item_if_matched(name, is_dir, matched)
    } else {
        None
    }
}

} // verus!
