use vstd::prelude::*;
use vstd::string::*;

use crate::backend::{backend_root_var, Backend};
use crate::platform::{path_join, TargetOs};
use crate::text::{chars_of, occurs_at, occurs_in};

verus! {

/// One change to the host's environment that records a resolved prefix.
#[derive(Debug, Clone, PartialEq, Eq)]
pub enum EnvAction {
    /// Persist a variable at machine scope.
    PersistVariable { name: String, value: String },
    /// Add a directory to the machine-wide executable search list, unless it is there.
    AppendToSearchPath(String),
    /// Tell the user to export a variable in their shell profile.
    SuggestExport { name: String, value: String },
}

/// The separator between the entries of a search-path list.
pub open spec fn list_separator(os: TargetOs) -> char {
    match os {
        TargetOs::Windows => ';',
        _ => ':',
    }
}

/// `dir` stands in `list` at index `i` as a whole entry, between separators or the ends.
pub open spec fn entry_at(list: Seq<char>, dir: Seq<char>, sep: char, i: int) -> bool {
    &&& occurs_at(list, dir, i)
    &&& (i == 0 || list[i - 1] == sep)
    &&& (i + dir.len() == list.len() || list[i + dir.len()] == sep)
}

/// `dir` is one of the entries of the list `list`.
pub open spec fn has_entry(list: Seq<char>, dir: Seq<char>, sep: char) -> bool {
    exists|i: int| entry_at(list, dir, sep, i)
}

/// The list `list` once `dir` is in it: unchanged where it is already an entry, else with
/// `dir` appended as a last entry.
pub open spec fn with_entry(list: Seq<char>, dir: Seq<char>, sep: char) -> Seq<char> {
    if has_entry(list, dir, sep) {
        list
    } else if list.len() == 0 {
        dir
    } else {
        list + seq![sep] + dir
    }
}

/// The search-path separator of the platform.
pub fn search_path_separator(os: TargetOs) -> (r: char)
    ensures
        r == list_separator(os),
{
    match os {
        TargetOs::Windows => ';',
        _ => ':',
    }
}

/// Whether `dir` is one of the entries of `list`.
pub fn contains_entry(list: &str, dir: &str, sep: char) -> (r: bool)
    ensures
        r == has_entry(list@, dir@, sep),
{
    let l = chars_of(list);
    let d = chars_of(dir);
    let n = l.len();
    let mut i: usize = 0;
    while i < n
        invariant
            n == list@.len(),
            l@ == list@,
            d@ == dir@,
            i <= n,
            forall|k: int| 0 <= k < i ==> !entry_at(list@, dir@, sep, k),
        decreases n - i,
    {
        if entry_at_exec(l.as_slice(), d.as_slice(), sep, i) {
            return true;
        }
        i += 1;
    }
    if entry_at_exec(l.as_slice(), d.as_slice(), sep, n) {
        return true;
    }
    assert forall|k: int| !entry_at(list@, dir@, sep, k) by {
        if occurs_at(list@, dir@, k) {
            assert(k <= n);
        }
    }
    false
}

/// Whether `dir` stands as a whole entry of `list` at index `i`.
fn entry_at_exec(list: &[char], dir: &[char], sep: char, i: usize) -> (r: bool)
    requires
        i <= list@.len(),
    ensures
        r == entry_at(list@, dir@, sep, i as int),
{
    if !occurs_in(list, dir, i) {
        return false;
    }
    let m = dir.len();
    let before = i == 0 || list[i - 1] == sep;
    let after = i + m == list.len() || list[i + m] == sep;
    before && after
}

/// The search list `current` of the platform with `dir` added as its last entry, or
/// `None` where `dir` is already an entry: adding a directory twice leaves the list as
/// adding it once.
pub fn append_search_path(os: TargetOs, current: &str, dir: &str) -> (r: Option<String>)
    ensures
        r is None <==> has_entry(current@, dir@, list_separator(os)),
        r matches Some(s) ==> s@ == with_entry(current@, dir@, list_separator(os)),
{
    let sep = search_path_separator(os);
    if contains_entry(current, dir, sep) {
        return None;
    }
    if current.unicode_len() == 0 {
        return Some(String::from_str(dir));
    }
    let sep_str: &str = match os {
        TargetOs::Windows => ";",
        _ => ":",
    };
    proof {
        reveal_strlit(";");
        reveal_strlit(":");
    }
    assert(sep_str@ =~= seq![sep]);
    let mut s = String::from_str(current);
    s.append(sep_str);
    s.append(dir);
    assert(s@ =~= current@ + seq![sep] + dir@);
    Some(s)
}

/// The changes that record `prefix` as the installation of `kind`: on Windows the
/// backend's variable at machine scope, then its `lib` and `bin` directories on the search
/// path; elsewhere an instruction to export the variable.
pub fn environment_plan(kind: Backend, os: TargetOs, prefix: &str) -> (r: Vec<EnvAction>)
    ensures
        os == TargetOs::Windows ==> {
            &&& r@.len() == 3
            &&& r@[0] matches EnvAction::PersistVariable { name, value } && name@ == backend_root_var(kind) && value@ == prefix@
            &&& r@[1] matches EnvAction::AppendToSearchPath(d) && d@ == path_join(os, prefix@, "lib"@)
            &&& r@[2] matches EnvAction::AppendToSearchPath(d) && d@ == path_join(os, prefix@, "bin"@)
        },
        os != TargetOs::Windows ==> {
            &&& r@.len() == 1
            &&& r@[0] matches EnvAction::SuggestExport { name, value } && name@ == backend_root_var(kind) && value@ == prefix@
        },
{
    let mut r: Vec<EnvAction> = Vec::new();
    let name = String::from_str(kind.root_var());
    let value = String::from_str(prefix);
    match os {
        TargetOs::Windows => {
            r.push(EnvAction::PersistVariable { name, value });
            r.push(EnvAction::AppendToSearchPath(os.join(prefix, "lib")));
            r.push(EnvAction::AppendToSearchPath(os.join(prefix, "bin")));
        },
        _ => {
            r.push(EnvAction::SuggestExport { name, value });
        },
    }
    r
}

/// Once a directory was added to a list, it is an entry of the list, and adding it again
/// changes nothing.
pub proof fn lemma_append_idempotent(list: Seq<char>, dir: Seq<char>, sep: char)
    ensures
        has_entry(with_entry(list, dir, sep), dir, sep),
        with_entry(with_entry(list, dir, sep), dir, sep) == with_entry(list, dir, sep),
{
    let l2 = with_entry(list, dir, sep);
    if !has_entry(list, dir, sep) {
        if list.len() == 0 {
            assert(l2.subrange(0, dir.len() as int) =~= dir);
            assert(entry_at(l2, dir, sep, 0));
        } else {
            let i = list.len() + 1 as int;
            assert(l2.subrange(i, i + dir.len()) =~= dir);
            assert(l2[i - 1] == sep);
            assert(entry_at(l2, dir, sep, i));
        }
    }
}

} // verus!
