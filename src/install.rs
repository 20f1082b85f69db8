use vstd::prelude::*;

use crate::platform::{path_join, TargetOs};

verus! {

/// One filesystem operation of an installation.
#[derive(Debug, Clone, PartialEq, Eq)]
pub enum InstallOp {
    /// Remove the directory and everything below it.
    RemoveTree(String),
    /// Move a directory to a new place: a rename, or where that fails (another volume) a
    /// recursive copy followed by removal of the source.
    MoveTree { from: String, to: String },
}

/// The directory that holds an archive's payload once extracted into `extract_root`:
/// the nested directory where the archive nests its payload and that directory exists,
/// else the extraction root itself.
pub fn payload_dir(os: TargetOs, extract_root: &str, nested: Option<&str>, nested_exists: bool) -> (r: String)
    ensures
        r@ == match nested {
            Some(d) => if nested_exists {
                path_join(os, extract_root@, d@)
            } else {
                extract_root@
            },
            None => extract_root@,
        },
{
    match nested {
        Some(d) => if nested_exists {
            os.join(extract_root, d)
        } else {
            String::from_str(extract_root)
        },
        None => String::from_str(extract_root),
    }
}

/// The operations that place `payload` at `final_prefix`: an existing prefix is removed
/// first, so that the result is replaced rather than merged.
pub fn install_plan(payload: &str, final_prefix: &str, final_exists: bool) -> (r: Vec<InstallOp>)
    ensures
        final_exists ==> r@.len() == 2 && (r@[0] matches InstallOp::RemoveTree(d) && d@ == final_prefix@),
        !final_exists ==> r@.len() == 1,
        r@.last() matches InstallOp::MoveTree { from, to } && from@ == payload@ && to@ == final_prefix@,
{
    let mut r: Vec<InstallOp> = Vec::new();
    if final_exists {
        r.push(InstallOp::RemoveTree(String::from_str(final_prefix)));
    }
    r.push(InstallOp::MoveTree { from: String::from_str(payload), to: String::from_str(final_prefix) });
    r
}

/// `p` lies strictly below the directory `d`; paths are sequences of components.
pub open spec fn is_under(p: Seq<Seq<char>>, d: Seq<Seq<char>>) -> bool {
    d.len() < p.len() && p.subrange(0, d.len() as int) == d
}

/// The files `fs` once the directory `d` and everything below it is removed.
pub open spec fn remove_tree(fs: Set<Seq<Seq<char>>>, d: Seq<Seq<char>>) -> Set<Seq<Seq<char>>> {
    fs.filter(|p: Seq<Seq<char>>| !is_under(p, d) && p != d)
}

/// The path `p`, below `from`, moved below `to`.
pub open spec fn rebase(p: Seq<Seq<char>>, from: Seq<Seq<char>>, to: Seq<Seq<char>>) -> Seq<Seq<char>> {
    to + p.subrange(from.len() as int, p.len() as int)
}

/// The files `fs` once the tree below `from` is moved below `to`.
pub open spec fn move_tree(fs: Set<Seq<Seq<char>>>, from: Seq<Seq<char>>, to: Seq<Seq<char>>) -> Set<Seq<Seq<char>>> {
    Set::new(
        |q: Seq<Seq<char>>|
            (fs.contains(q) && !is_under(q, from) && q != from) || exists|p: Seq<Seq<char>>|
                fs.contains(p) && is_under(p, from) && q == #[trigger] rebase(p, from, to),
    )
}

/// The files `fs` after the operations of [`install_plan`], an existing prefix included.
pub open spec fn installed(fs: Set<Seq<Seq<char>>>, payload: Seq<Seq<char>>, prefix: Seq<Seq<char>>) -> Set<Seq<Seq<char>>> {
    move_tree(remove_tree(fs, prefix), payload, prefix)
}

proof fn lemma_common_prefix(p: Seq<Seq<char>>, a: Seq<Seq<char>>, b: Seq<Seq<char>>)
    requires
        is_under(p, a),
        is_under(p, b),
        a.len() <= b.len(),
    ensures
        a == b || is_under(b, a),
{
    assert(b.subrange(0, a.len() as int) =~= p.subrange(0, a.len() as int));
    if a.len() == b.len() {
        assert(a =~= b);
    }
}

/// Installing into a prefix that already holds files leaves below it exactly the new
/// payload: nothing of the previous installation remains.
pub proof fn lemma_install_replaces(fs: Set<Seq<Seq<char>>>, payload: Seq<Seq<char>>, prefix: Seq<Seq<char>>, q: Seq<Seq<char>>)
    requires
        payload != prefix,
        !is_under(payload, prefix),
        !is_under(prefix, payload),
        is_under(q, prefix),
    ensures
        installed(fs, payload, prefix).contains(q) <==> exists|p: Seq<Seq<char>>|
            fs.contains(p) && is_under(p, payload) && q == #[trigger] rebase(p, payload, prefix),
{
    let cleared = remove_tree(fs, prefix);
    if installed(fs, payload, prefix).contains(q) {
        assert(!(cleared.contains(q) && !is_under(q, payload) && q != payload));
        let p = choose|p: Seq<Seq<char>>| cleared.contains(p) && is_under(p, payload) && q == #[trigger] rebase(p, payload, prefix);
        assert(fs.contains(p));
    }
    if exists|p: Seq<Seq<char>>| fs.contains(p) && is_under(p, payload) && q == #[trigger] rebase(p, payload, prefix) {
        let p = choose|p: Seq<Seq<char>>| fs.contains(p) && is_under(p, payload) && q == #[trigger] rebase(p, payload, prefix);
        if is_under(p, prefix) {
            if payload.len() <= prefix.len() {
                lemma_common_prefix(p, payload, prefix);
            } else {
                lemma_common_prefix(p, prefix, payload);
            }
        }
        if p == prefix {
            assert(is_under(prefix, payload));
        }
        assert(cleared.contains(p));
    }
}

} // verus!
