//! The resolution policy, stated over what each probe found.
use vstd::prelude::*;

verus! {

/// The resolver's answer, given what each probe found: the first probe, in
/// the order search path, home variable, conventions, that found a path wins.
pub open spec fn first_found(
    on_path: Option<String>,
    from_home: Option<String>,
    from_convention: Option<String>,
) -> Option<String> {
    if on_path is Some {
        on_path
    } else if from_home is Some {
        from_home
    } else {
        from_convention
    }
}

/// The value of the home variable that is worth a look on disk: it is set and
/// it is not empty. The value itself is the candidate, with nothing added.
pub open spec fn home_candidate_spec(value: Option<String>) -> Option<String> {
    match value {
        Some(v) => if v@.len() > 0 {
            Some(v)
        } else {
            None
        },
        None => None,
    }
}

/// A probe's answer for `candidate`, given whether the file system reported it
/// as existing: a candidate is returned only when it is not empty and exists.
pub open spec fn confirmed(candidate: String, present: bool) -> Option<String> {
    if present && candidate@.len() > 0 {
        Some(candidate)
    } else {
        None
    }
}

/// A path template that glob compiles without error: it holds no `[` and no
/// two stars in a row.
pub open spec fn plain_template(t: Seq<char>) -> bool {
    forall|i: int|
        0 <= i < t.len() ==> #[trigger] t[i] != '[' && (t[i] == '*' && i + 1 < t.len() ==> t[i + 1] != '*')
}

/// `sp[i..j]` is one entry of a search path whose entries are separated by
/// `:`, as on Unix.
pub open spec fn entry_at(sp: Seq<char>, i: int, j: int) -> bool {
    &&& 0 <= i <= j <= sp.len()
    &&& (i == 0 || sp[i - 1] == ':')
    &&& (j == sp.len() || sp[j] == ':')
    &&& forall|k: int| i <= k < j ==> sp[k] != ':'
}

/// The path of `name` inside the directory `dir`; an empty directory leaves
/// the name as it is, and no separator is doubled.
pub open spec fn joined(dir: Seq<char>, name: Seq<char>) -> Seq<char> {
    if dir.len() == 0 || dir.last() == '/' {
        dir + name
    } else {
        dir + seq!['/'] + name
    }
}

/// `p` is `command` inside one of the directories of the search path `sp`.
pub open spec fn in_search_dirs(p: Seq<char>, command: Seq<char>, sp: Seq<char>) -> bool {
    exists|i: int, j: int| #[trigger] entry_at(sp, i, j) && p == joined(sp.subrange(i, j), command)
}

/// Combines what the probes found into the resolver's answer.
pub fn resolve(
    on_path: Option<String>,
    from_home: Option<String>,
    from_convention: Option<String>,
) -> (r: Option<String>)
    ensures
        r == first_found(on_path, from_home, from_convention),
{
    if on_path.is_some() {
        on_path
    } else if from_home.is_some() {
        from_home
    } else {
        from_convention
    }
}

/// Picks the candidate path out of the home variable's value.
pub fn home_candidate(value: Option<String>) -> (r: Option<String>)
    ensures
        r == home_candidate_spec(value),
{
    match value {
        Some(v) => if v.as_str().is_empty() {
            None
        } else {
            Some(v)
        },
        None => None,
    }
}

/// Gives the answer for `candidate` once its existence has been checked.
pub fn accept_present(candidate: String, present: bool) -> (r: Option<String>)
    ensures
        r == confirmed(candidate, present),
{
    if present && !candidate.as_str().is_empty() {
        Some(candidate)
    } else {
        None
    }
}

/// Whatever a probe returns through `confirmed` is a path that was reported
/// to exist.
pub proof fn confirmed_paths_exist(candidate: String, present: bool)
    ensures
        confirmed(candidate, present) is Some ==> present && confirmed(candidate, present)
            == Some(candidate),
{
}

/// One step through the convention templates: the template at `i`, of `n`,
/// gave `hit`. A hit ends the search with it as the answer; otherwise the
/// search moves on to the next template, or ends with nothing after the last.
pub fn convention_step(i: usize, n: usize, hit: Option<String>) -> (r: Result<Option<String>, usize>)
    requires
        i < n,
    ensures
        hit is Some ==> r == Ok::<Option<String>, usize>(hit),
        hit is None && i + 1 < n ==> r == Err::<Option<String>, usize>((i + 1) as usize),
        hit is None && i + 1 >= n ==> r == Ok::<Option<String>, usize>(None),
{
    if hit.is_some() {
        Ok(hit)
    } else if i + 1 < n {
        Err(i + 1)
    } else {
        Ok(None)
    }
}

/// A hit on the search path is the answer, whatever the other probes found.
pub proof fn search_path_takes_precedence(
    on_path: Option<String>,
    from_home: Option<String>,
    from_convention: Option<String>,
)
    requires
        on_path is Some,
    ensures
        first_found(on_path, from_home, from_convention) == on_path,
{
}

/// Without a hit on the search path, a hit through the home variable is the
/// answer, whatever the conventions found.
pub proof fn home_variable_comes_second(
    on_path: Option<String>,
    from_home: Option<String>,
    from_convention: Option<String>,
)
    requires
        on_path is None,
        from_home is Some,
    ensures
        first_found(on_path, from_home, from_convention) == from_home,
{
}

/// When neither the search path nor the home variable gives a path, the
/// answer is what the conventions found, absence included.
pub proof fn conventions_come_last(
    on_path: Option<String>,
    from_home: Option<String>,
    from_convention: Option<String>,
)
    requires
        on_path is None,
        from_home is None,
    ensures
        first_found(on_path, from_home, from_convention) == from_convention,
{
}

/// An empty value of the home variable gives no candidate at all.
pub proof fn empty_home_value_gives_nothing(value: String)
    requires
        value@.len() == 0,
    ensures
        home_candidate_spec(Some(value)) is None,
{
}

/// A non-empty value of the home variable is the candidate as it stands.
pub proof fn home_value_is_taken_verbatim(value: String)
    requires
        value@.len() > 0,
    ensures
        home_candidate_spec(Some(value)) == Some(value),
{
}

} // verus!
