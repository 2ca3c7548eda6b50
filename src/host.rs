//! The calls into the search path, the file system and glob.
use crate::policy::{in_search_dirs, plain_template};
use vstd::prelude::*;

verus! {

/// Relies on pathsearch::PathSearcher, the search behind
/// pathsearch::find_executable_in_path, run over `search_path` in place of the
/// process's PATH: the first executable file named `command` in one of its
/// directories, as text. On Unix the searcher splits the path at `:`
/// (std::env::split_paths) and joins each entry with `command`
/// (Path::join), so a hit is such a join; entries and command are valid
/// text, so the text form is exact.
#[verifier::external_body]
pub(crate) fn executable_in_search_path(command: &str, search_path: &str) -> (r: Option<String>)
    requires
        command@.len() > 0,
        forall|k: int| 0 <= k < command@.len() ==> command@[k] != '/',
    ensures
        r is Some ==> in_search_dirs(r->0@, command@, search_path@),
{
    pathsearch::PathSearcher::new(command, Some(search_path.as_ref()), None).next().map(
        |p| p.to_string_lossy().into_owned(),
    )
}

/// Relies on std::path::Path::exists: whether `p` names an existing file or
/// directory at the moment of the call.
#[verifier::external_body]
pub(crate) fn path_exists(p: &str) -> (r: bool) {
    std::path::Path::new(p).exists()
}

/// Relies on glob::glob: the first match of `pattern` that could be read, in
/// the order glob yields them. glob refuses a pattern only for a bad range or
/// a bad run of stars, which `plain_template` leaves out.
#[verifier::external_body]
pub(crate) fn first_glob_match(pattern: &str) -> (r: Option<String>)
    requires
        plain_template(pattern@),
{
    match glob::glob(pattern) {
        Ok(paths) => paths.filter_map(Result::ok).next().map(|p| p.to_string_lossy().into_owned()),
        Err(_) => None,
    }
}

} // verus!
