//! Deriving the content-file paths from the program's own path.
//!
//! The shell resolves the folder holding the running program and reads two
//! sibling files from it. A path is a byte string, read as the platform
//! reads it: trailing separator runs are ignored, the folder is the path
//! without its final component, the empty path and paths of separators
//! alone have no folder, and a bare file name lies in the empty (current)
//! folder. A path without a determinable folder is a fatal loader error.

use vstd::prelude::*;
use vstd::string::StringSliceAdditionalSpecFns;
use crate::page::{LoadError, bytes_of};
use crate::splice::push_all;

verus! {

/// The path separator.
pub const SEPARATOR: u8 = 47;

/// The path without its trailing run of separators.
pub open spec fn strip_seps(p: Seq<u8>) -> Seq<u8>
    decreases p.len(),
{
    if p.len() > 0 && p[p.len() - 1] == SEPARATOR {
        strip_seps(p.drop_last())
    } else {
        p
    }
}

/// The path without its trailing run of non-separator bytes.
pub open spec fn strip_component(p: Seq<u8>) -> Seq<u8>
    decreases p.len(),
{
    if p.len() > 0 && p[p.len() - 1] != SEPARATOR {
        strip_component(p.drop_last())
    } else {
        p
    }
}

/// The folder a path lies in, as the platform reads a path: trailing
/// separators are ignored, then the final component is dropped, and the
/// separators before it are trimmed in turn. The empty path and a path of
/// separators alone have no folder; a separator-free name lies in the empty
/// folder; a component directly under the root lies in the root itself.
pub open spec fn parent_of(path: Seq<u8>) -> Option<Seq<u8>> {
    let trimmed = strip_seps(path);
    if trimmed.len() == 0 {
        None
    } else {
        let rest = strip_component(trimmed);
        let folder = strip_seps(rest);
        if folder.len() == 0 && rest.len() > 0 {
            Some(seq![SEPARATOR])
        } else {
            Some(folder)
        }
    }
}

/// A folder result agrees with its model.
pub open spec fn folder_option_matches(r: Option<Vec<u8>>, m: Option<Seq<u8>>) -> bool {
    match (r, m) {
        (Some(f), Some(fm)) => f@ == fm,
        (None, None) => true,
        _ => false,
    }
}

/// The folder a path lies in, exactly as `parent_of` says.
pub fn parent_dir(path: &Vec<u8>) -> (r: Option<Vec<u8>>)
    ensures
        folder_option_matches(r, parent_of(path@)),
{
    let len = path.len();
    let mut end: usize = len;
    assert(path@.subrange(0, len as int) =~= path@);
    while end > 0 && path[end - 1] == SEPARATOR
        invariant
            end <= len,
            len == path@.len(),
            strip_seps(path@) == strip_seps(path@.subrange(0, end as int)),
        decreases end,
    {
        proof {
            assert(path@.subrange(0, end as int).drop_last() =~= path@.subrange(0, end - 1));
        }
        end -= 1;
    }
    assert(strip_seps(path@) == path@.subrange(0, end as int));
    if end == 0 {
        assert(path@.subrange(0, 0) =~= Seq::<u8>::empty());
        return None;
    }
    let ghost trimmed = path@.subrange(0, end as int);
    let mut cut: usize = end;
    while cut > 0 && path[cut - 1] != SEPARATOR
        invariant
            cut <= end,
            end <= len,
            len == path@.len(),
            strip_component(trimmed) == strip_component(path@.subrange(0, cut as int)),
        decreases cut,
    {
        proof {
            assert(path@.subrange(0, cut as int).drop_last() =~= path@.subrange(0, cut - 1));
        }
        cut -= 1;
    }
    let ghost rest = path@.subrange(0, cut as int);
    assert(strip_component(trimmed) == rest);
    let mut fend: usize = cut;
    while fend > 0 && path[fend - 1] == SEPARATOR
        invariant
            fend <= cut,
            cut <= len,
            len == path@.len(),
            strip_seps(rest) == strip_seps(path@.subrange(0, fend as int)),
        decreases fend,
    {
        proof {
            assert(path@.subrange(0, fend as int).drop_last() =~= path@.subrange(0, fend - 1));
        }
        fend -= 1;
    }
    assert(strip_seps(rest) == path@.subrange(0, fend as int));
    if fend == 0 && cut > 0 {
        let mut root: Vec<u8> = Vec::new();
        root.push(SEPARATOR);
        proof {
            assert(path@.subrange(0, 0) =~= Seq::<u8>::empty());
            assert(root@ =~= seq![SEPARATOR]);
        }
        return Some(root);
    }
    let folder = vstd::slice::slice_to_vec(vstd::slice::slice_subrange(path.as_slice(), 0, fend));
    Some(folder)
}

/// The name of the bundled markup file.
pub open spec fn markup_name() -> Seq<u8> {
    ("index.html").spec_bytes()
}

/// The name of the bundled script file.
pub open spec fn script_name() -> Seq<u8> {
    ("index.js").spec_bytes()
}

/// The markup file name as a vector.
pub fn markup_file_name() -> (v: Vec<u8>)
    ensures
        v@ == markup_name(),
{
    bytes_of("index.html")
}

/// The script file name as a vector.
pub fn script_file_name() -> (v: Vec<u8>)
    ensures
        v@ == script_name(),
{
    bytes_of("index.js")
}

/// A file name joined onto a folder, as the platform joins paths: the empty
/// folder gives the name alone, a folder ending in a separator gets none
/// added, and any other folder gets one separator between.
pub open spec fn joined(folder: Seq<u8>, name: Seq<u8>) -> Seq<u8> {
    if folder.len() == 0 {
        name
    } else if folder[folder.len() - 1] == SEPARATOR {
        folder + name
    } else {
        folder + seq![SEPARATOR] + name
    }
}

/// Joins a file name onto a folder, exactly as `joined` says.
pub fn sibling_path(folder: &Vec<u8>, name: &Vec<u8>) -> (p: Vec<u8>)
    ensures
        p@ == joined(folder@, name@),
{
    let mut p: Vec<u8> = Vec::new();
    push_all(&mut p, folder);
    if folder.len() > 0 && folder[folder.len() - 1] != SEPARATOR {
        p.push(SEPARATOR);
    }
    push_all(&mut p, name);
    assert(p@ =~= joined(folder@, name@));
    p
}

/// The two content-file paths decided from the program's own path: its
/// folder joined with each fixed name, or the error of a path whose folder
/// cannot be determined.
pub open spec fn content_paths_for(program: Seq<u8>) -> Result<(Seq<u8>, Seq<u8>), LoadError> {
    match parent_of(program) {
        None => Err(LoadError::NoParentFolder),
        Some(folder) => Ok((joined(folder, markup_name()), joined(folder, script_name()))),
    }
}

/// A pair of paths agrees with its model.
pub open spec fn paths_result_matches(r: Result<(Vec<u8>, Vec<u8>), LoadError>, m: Result<
    (Seq<u8>, Seq<u8>),
    LoadError,
>) -> bool {
    match (r, m) {
        (Ok(p), Ok(pm)) => p.0@ == pm.0 && p.1@ == pm.1,
        (Err(e), Err(em)) => e == em,
        _ => false,
    }
}

/// Resolves the markup and script paths beside the program, exactly as
/// `content_paths_for` says.
pub fn content_paths(program: &Vec<u8>) -> (r: Result<(Vec<u8>, Vec<u8>), LoadError>)
    ensures
        paths_result_matches(r, content_paths_for(program@)),
{
    match parent_dir(program) {
        None => Err(LoadError::NoParentFolder),
        Some(folder) => {
            let markup = sibling_path(&folder, &markup_file_name());
            let script = sibling_path(&folder, &script_file_name());
            Ok((markup, script))
        },
    }
}

} // verus!
