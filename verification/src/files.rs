//! File classification and the collector's decision core: which file names
//! count as save files (by case-insensitive extension), splitting a path into
//! directory and base name, and selecting the recognized files out of a
//! directory walk.

use vstd::prelude::*;
use vstd::string::{StrSliceExecFns, StringExecFns};
use crate::errors::ErrorKind;

verus! {

/// A path separator character.
pub open spec fn is_sep(c: char) -> bool {
    c == '/' || c == '\\'
}

/// The characters after the last separator; the whole path if it has none,
/// empty if it ends in a separator.
pub open spec fn base_name_of(p: Seq<char>) -> Seq<char>
    decreases p.len(),
{
    if p.len() == 0 {
        p
    } else if is_sep(p.last()) {
        Seq::empty()
    } else {
        base_name_of(p.drop_last()).push(p.last())
    }
}

/// The characters before the last separator; empty if the path has none.
pub open spec fn dir_of(p: Seq<char>) -> Seq<char>
    decreases p.len(),
{
    if p.len() == 0 {
        p
    } else if is_sep(p.last()) {
        p.drop_last()
    } else {
        dir_of(p.drop_last())
    }
}

/// ASCII lowercasing of one character.
pub open spec fn lower(c: char) -> char {
    if ('A' as u32) <= (c as u32) && (c as u32) <= ('Z' as u32) {
        (((c as u8) + 32) as char)
    } else {
        c
    }
}

/// The name ends, case-insensitively, with the given extension.
pub open spec fn suffix_matches(name: Seq<char>, ext: Seq<char>) -> bool {
    &&& name.len() >= ext.len()
    &&& forall|i: int|
        0 <= i < ext.len() ==> lower(#[trigger] name[name.len() - ext.len() + i]) == ext[i]
}

/// A recognized save-file name: its extension, case-insensitively, is one of
/// the fixed allow-list.
pub open spec fn is_save_name(name: Seq<char>) -> bool {
    ||| suffix_matches(name, ".bin"@)
    ||| suffix_matches(name, ".dat"@)
    ||| suffix_matches(name, ".details"@)
    ||| suffix_matches(name, ".details-backup"@)
    ||| suffix_matches(name, ".dat-backup"@)
}

/// The recognized paths among a walk's results, in walk order: those whose
/// base name is a save-file name.
pub open spec fn recognized_in(paths: Seq<Seq<char>>) -> Seq<Seq<char>>
    decreases paths.len(),
{
    if paths.len() == 0 {
        paths
    } else {
        let rest = recognized_in(paths.drop_last());
        if is_save_name(base_name_of(paths.last())) {
            rest.push(paths.last())
        } else {
            rest
        }
    }
}

fn lower_char(c: char) -> (r: char)
    ensures
        r == lower(c),
{
    if ('A' as u32) <= (c as u32) && (c as u32) <= ('Z' as u32) {
        (((c as u8) + 32) as char)
    } else {
        c
    }
}

fn has_suffix_ci(name: &str, ext: &str) -> (r: bool)
    ensures
        r == suffix_matches(name@, ext@),
{
    let n = name.unicode_len();
    let m = ext.unicode_len();
    if n < m {
        return false;
    }
    let mut i: usize = 0;
    while i < m
        invariant
            name@.len() == n,
            ext@.len() == m,
            m <= n,
            i <= m,
            forall|j: int| 0 <= j < i ==> lower(#[trigger] name@[n - m + j]) == ext@[j],
        decreases m - i,
    {
        let c = name.get_char(n - m + i);
        let e = ext.get_char(i);
        if lower_char(c) != e {
            return false;
        }
        i = i + 1;
    }
    true
}

/// Is this file name (the base name, no directory part) a recognized save
/// file? The extension comparison is case-insensitive.
pub fn is_save_file(name: &str) -> (r: bool)
    ensures
        r == is_save_name(name@),
{
    has_suffix_ci(name, ".bin") || has_suffix_ci(name, ".dat") || has_suffix_ci(name, ".details")
        || has_suffix_ci(name, ".details-backup") || has_suffix_ci(name, ".dat-backup")
}

/// Split a path at its last separator into directory part and base name.
pub fn split_path(path: &str) -> (r: (String, String))
    ensures
        r.0@ == dir_of(path@),
        r.1@ == base_name_of(path@),
{
    let n = path.unicode_len();
    proof {
        assert(path@.take(n as int) =~= path@);
        assert(path@.skip(n as int) =~= Seq::<char>::empty());
        assert(base_name_of(path@.take(n as int)) + path@.skip(n as int) =~= base_name_of(path@));
    }
    let mut i: usize = n;
    while i > 0
        invariant
            path@.len() == n,
            i <= n,
            base_name_of(path@) =~= base_name_of(path@.take(i as int)) + path@.skip(i as int),
            dir_of(path@) == dir_of(path@.take(i as int)),
            forall|j: int| i <= j < n ==> !is_sep(#[trigger] path@[j]),
        decreases i,
    {
        let c = path.get_char(i - 1);
        if c == '/' || c == '\\' {
            proof {
                assert(path@.take(i as int).last() == path@[i - 1]);
                assert(path@.take(i as int).drop_last() =~= path@.take(i - 1));
                assert(base_name_of(path@.take(i as int)) =~= Seq::<char>::empty());
                assert(base_name_of(path@) =~= path@.skip(i as int));
            }
            let dir = path.substring_char(0, i - 1);
            let base = path.substring_char(i, n);
            return (String::from_str(dir), String::from_str(base));
        }
        proof {
            assert(path@.take(i as int).last() == path@[i - 1]);
            assert(path@.take(i as int).drop_last() =~= path@.take(i - 1));
            assert(base_name_of(path@.take(i as int))
                =~= base_name_of(path@.take(i - 1)).push(path@[i - 1]));
            assert(base_name_of(path@.take(i as int)) + path@.skip(i as int)
                =~= base_name_of(path@.take(i - 1)) + path@.skip(i - 1));
        }
        i = i - 1;
    }
    proof {
        assert(path@.take(0) =~= Seq::<char>::empty());
        assert(base_name_of(path@) =~= path@);
        assert(dir_of(path@) =~= Seq::<char>::empty());
    }
    (String::new(), String::from_str(path))
}

/// The collector's decision: keep, in walk order, every path whose base name
/// is a recognized save file; unrecognized files are skipped silently. Fails
/// with `NoSupportedFiles` exactly when nothing is recognized.
pub fn collect_files(paths: &Vec<String>) -> (r: Result<Vec<String>, ErrorKind>)
    ensures
        r matches Ok(v) ==> v.deep_view() == recognized_in(paths.deep_view()) && v@.len() > 0,
        r is Ok <==> recognized_in(paths.deep_view()).len() > 0,
        r == Err::<Vec<String>, ErrorKind>(ErrorKind::NoSupportedFiles) <==> recognized_in(
            paths.deep_view(),
        ).len() == 0,
{
    let mut found: Vec<String> = Vec::new();
    let mut i: usize = 0;
    while i < paths.len()
        invariant
            i <= paths@.len(),
            found.deep_view() =~= recognized_in(paths.deep_view().take(i as int)),
        decreases paths@.len() - i,
    {
        proof {
            assert(paths.deep_view().take(i + 1).drop_last() =~= paths.deep_view().take(i as int));
            assert(paths.deep_view().take(i + 1).last() == paths.deep_view()[i as int]);
            assert(paths.deep_view()[i as int] == paths@[i as int]@);
        }
        let (_, base) = split_path(paths[i].as_str());
        if is_save_file(base.as_str()) {
            found.push(paths[i].clone());
        }
        i = i + 1;
    }
    proof {
        assert(paths.deep_view().take(paths@.len() as int) =~= paths.deep_view());
    }
    if found.len() == 0 {
        return Err(ErrorKind::NoSupportedFiles);
    }
    Ok(found)
}

} // verus!
