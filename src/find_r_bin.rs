//! The three probes and the resolver that runs them in order.
use crate::host::{executable_in_search_path, first_glob_match, path_exists};
use crate::policy::{
    accept_present, confirmed, convention_step, home_candidate, home_candidate_spec,
    in_search_dirs, plain_template, resolve,
};
use vstd::prelude::*;

verus! {

/// The file name of the interpreter.
pub const R_EXECUTABLE: &'static str = "R";

/// The environment variable that may hold the interpreter's path.
pub const R_HOME_VAR: &'static str = "R_HOME";

/// Keeps `p` if it is not empty and the file system reports that it exists.
fn keep_existing(p: String) -> (r: Option<String>)
    ensures
        exists|present: bool| r == confirmed(p, present),
        r is None || (r == Some(p) && p@.len() > 0),
{
    let present = !p.as_str().is_empty() && path_exists(p.as_str());
    accept_present(p, present)
}

/// Looks on the search path: the first executable named `R` in the directories of
/// `search_path` (written as the PATH variable is), if it still exists.
pub fn dir_from_path_envvar(search_path: &str) -> (r: Option<String>)
    ensures
        r is None || r->0@.len() > 0,
        r is Some ==> in_search_dirs(r->0@, R_EXECUTABLE@, search_path@),
{
    proof {
        reveal_strlit("R");
    }
    match executable_in_search_path(R_EXECUTABLE, search_path) {
        Some(p) => keep_existing(p),
        None => None,
    }
}

/// Looks at the home variable: `r_home`, the value of the `R_HOME` variable if it is set,
/// taken as the path itself, if it names something that exists. An empty value
/// gives nothing.
pub fn dir_from_r_home_envvar(r_home: Option<String>) -> (r: Option<String>)
    ensures
        r is None || r == home_candidate_spec(r_home),
        r is None || r->0@.len() > 0,
        home_candidate_spec(r_home) is None ==> r is None,
{
    match home_candidate(r_home) {
        Some(v) => keep_existing(v),
        None => None,
    }
}

/// The usual install locations, in the order they are tried: macOS, the
/// macOS framework layout, Linux, two Linux alternatives, and Windows, where
/// the directory of each version is matched by a wildcard.
pub fn common_locations() -> (r: Vec<&'static str>)
    ensures
        r@ == seq![
            "/opt/local/bin/R",
            "/Library/Frameworks/R.framework/Versions/current/Resources/bin/R",
            "/usr/bin/R",
            "/usr/local/bin/R",
            "opt/bin/R",
            "C:/Program Files/R/R-*/bin/R",
        ],
        forall|i: int| 0 <= i < r@.len() ==> plain_template(#[trigger] r@[i]@),
{
    let locations = vec![
        "/opt/local/bin/R",
        "/Library/Frameworks/R.framework/Versions/current/Resources/bin/R",
        "/usr/bin/R",
        "/usr/local/bin/R",
        "opt/bin/R",
        "C:/Program Files/R/R-*/bin/R",
    ];
    proof {
        reveal_strlit("/opt/local/bin/R");
        reveal_strlit("/Library/Frameworks/R.framework/Versions/current/Resources/bin/R");
        reveal_strlit("/usr/bin/R");
        reveal_strlit("/usr/local/bin/R");
        reveal_strlit("opt/bin/R");
        reveal_strlit("C:/Program Files/R/R-*/bin/R");
    }
    locations
}

/// Looks through `templates` in order: the first match glob yields for the
/// earliest template whose first match still exists. A template without such
/// a match hands the search on to the next; later templates are not tried
/// once one has given an answer.
pub fn first_template_match(templates: &Vec<&str>) -> (r: Option<String>)
    requires
        forall|i: int| 0 <= i < templates@.len() ==> plain_template(#[trigger] templates@[i]@),
    ensures
        r is None || r->0@.len() > 0,
{
    if templates.len() == 0 {
        return None;
    }
    let mut i: usize = 0;
    loop
        invariant
            i < templates@.len(),
            forall|k: int| 0 <= k < templates@.len() ==> plain_template(#[trigger] templates@[k]@),
        decreases templates@.len() - i,
    {
        let hit = match first_glob_match(templates[i]) {
            Some(p) => keep_existing(p),
            None => None,
        };
        match convention_step(i, templates.len(), hit) {
            Ok(found) => {
                return found;
            },
            Err(next) => {
                i = next;
            },
        }
    }
}

/// Looks through the usual install locations.
pub fn dir_from_common_loc() -> (r: Option<String>)
    ensures
        r is None || r->0@.len() > 0,
{
    let locations = common_locations();
    first_template_match(&locations)
}

/// The resolver: the search path first, then the home variable, then the
/// usual locations; each probe runs only when those before it found nothing.
pub fn find_r_bin(search_path: &str, r_home: Option<String>) -> (r: Option<String>)
    ensures
        r is None || r->0@.len() > 0,
{
    let on_path = dir_from_path_envvar(search_path);
    let from_home = if on_path.is_none() {
        dir_from_r_home_envvar(r_home)
    } else {
        None
    };
    let from_convention = if on_path.is_none() && from_home.is_none() {
        dir_from_common_loc()
    } else {
        None
    };
    resolve(on_path, from_home, from_convention)
}

} // verus!
