use vstd::prelude::*;

use crate::platform::TargetOs;
use crate::text::{
    last_index_of, last_index_of_exec, lemma_last_index_of_bounds, seq_starts_with, starts_with_str,
    str_eq, substring,
};

verus! {

/// The character views of a list of strings.
pub open spec fn views(v: Seq<String>) -> Seq<Seq<char>> {
    v.map_values(|s: String| s@)
}

/// The file name `name` has extension `ext`: the part after its last dot, where that dot
/// is not the name's first character.
pub open spec fn has_extension(name: Seq<char>, ext: Seq<char>) -> bool {
    let d = last_index_of(name, '.');
    d > 0 && name.subrange(d + 1, name.len() as int) == ext
}

/// The file name without its extension.
pub open spec fn stem_of(name: Seq<char>) -> Seq<char> {
    name.subrange(0, last_index_of(name, '.'))
}

/// A library stem without its `lib` prefix, where something follows the prefix.
pub open spec fn strip_lib(stem: Seq<char>) -> Seq<char> {
    if stem.len() > 3 && seq_starts_with(stem, "lib"@) {
        stem.subrange(3, stem.len() as int)
    } else {
        stem
    }
}

/// The name the linker is given for a file, where the file has extension `ext`.
pub open spec fn link_name_of(name: Seq<char>, ext: Seq<char>) -> Option<Seq<char>> {
    if has_extension(name, ext) {
        Some(strip_lib(stem_of(name)))
    } else {
        None
    }
}

/// The distinct link names of `files`, in the order of their first occurrence.
pub open spec fn link_names(files: Seq<String>, ext: Seq<char>) -> Seq<Seq<char>>
    decreases files.len(),
{
    if files.len() == 0 {
        seq![]
    } else {
        let prev = link_names(files.drop_last(), ext);
        match link_name_of(files.last()@, ext) {
            Some(n) => if prev.contains(n) {
                prev
            } else {
                prev.push(n)
            },
            None => prev,
        }
    }
}

/// The link name of one file: its stem without a `lib` prefix, where its extension is `ext`.
pub fn link_name(file: &str, ext: &str) -> (r: Option<String>)
    ensures
        match r {
            Some(s) => link_name_of(file@, ext@) == Some(s@),
            None => link_name_of(file@, ext@) is None,
        },
{
    proof {
        lemma_last_index_of_bounds(file@, '.');
    }
    let n = file.unicode_len();
    let d = match last_index_of_exec(file, '.') {
        Some(d) => d,
        None => return None,
    };
    if d == 0 {
        return None;
    }
    let tail = file.substring_char(d + 1, n);
    if !str_eq(tail, ext) {
        return None;
    }
    let stem = file.substring_char(0, d);
    if stem.unicode_len() > 3 && starts_with_str(stem, "lib") {
        Some(substring(stem, 3, d))
    } else {
        Some(String::from_str(stem))
    }
}

/// Whether `name` is among `names`.
pub fn contains_name(names: &Vec<String>, name: &str) -> (r: bool)
    ensures
        r == views(names@).contains(name@),
{
    let mut i: usize = 0;
    while i < names.len()
        invariant
            i <= names@.len(),
            forall|k: int| 0 <= k < i ==> names@[k]@ != name@,
        decreases names@.len() - i,
    {
        if str_eq(names[i].as_str(), name) {
            assert(views(names@)[i as int] == name@);
            return true;
        }
        i += 1;
    }
    proof {
        if views(names@).contains(name@) {
            let k = choose|k: int| 0 <= k < views(names@).len() && views(names@)[k] == name@;
            assert(names@[k]@ == name@);
        }
    }
    false
}

/// The libraries to link from a directory whose file names are `files`: one name per
/// distinct stem of the files with extension `ext`, `lib` prefix removed, in the order
/// the files come.
pub fn library_link_names(files: &Vec<String>, ext: &str) -> (r: Vec<String>)
    ensures
        views(r@) == link_names(files@, ext@),
{
    let mut out: Vec<String> = Vec::new();
    let mut i: usize = 0;
    assert(files@.subrange(0, 0) =~= Seq::<String>::empty());
    assert(views(out@) =~= Seq::<Seq<char>>::empty());
    while i < files.len()
        invariant
            i <= files@.len(),
            views(out@) == link_names(files@.subrange(0, i as int), ext@),
        decreases files@.len() - i,
    {
        let ghost before = files@.subrange(0, i as int);
        assert(files@.subrange(0, i + 1).drop_last() =~= before);
        assert(files@.subrange(0, i + 1).last() == files@[i as int]);
        match link_name(files[i].as_str(), ext) {
            Some(n) => {
                if !contains_name(&out, n.as_str()) {
                    let ghost old_out = out@;
                    out.push(n);
                    assert(views(out@) =~= views(old_out).push(n@));
                }
            },
            None => {},
        }
        i += 1;
    }
    assert(files@.subrange(0, files@.len() as int) =~= files@);
    out
}

/// The import libraries that the Windows LibTorch archive ships under a `lib`-prefixed
/// name and the glue library expects without it, as (shipped, expected) pairs.
pub open spec fn import_aliases(os: TargetOs) -> Seq<(Seq<char>, Seq<char>)> {
    match os {
        TargetOs::Windows => seq![
            ("libprotobuf.lib"@, "protobuf.lib"@),
            ("libprotoc.lib"@, "protoc.lib"@),
            ("libittnotify.lib"@, "ittnotify.lib"@),
            ("libprotobuf-lite.lib"@, "protobuf-lite.lib"@),
        ],
        _ => seq![],
    }
}

/// The import-library copies to make in LibTorch's `lib/` directory before linking:
/// each shipped name is copied to its expected name where that does not exist yet.
pub fn import_library_aliases(os: TargetOs) -> (r: Vec<(&'static str, &'static str)>)
    ensures
        r@.len() == import_aliases(os).len(),
        forall|i: int| 0 <= i < r@.len() ==> r@[i].0@ == import_aliases(os)[i].0 && r@[i].1@ == import_aliases(os)[i].1,
{
    let mut r: Vec<(&'static str, &'static str)> = Vec::new();
    if os == TargetOs::Windows {
        r.push(("libprotobuf.lib", "protobuf.lib"));
        r.push(("libprotoc.lib", "protoc.lib"));
        r.push(("libittnotify.lib", "ittnotify.lib"));
        r.push(("libprotobuf-lite.lib", "protobuf-lite.lib"));
    }
    r
}

/// No library name is emitted twice.
pub proof fn lemma_link_names_distinct(files: Seq<String>, ext: Seq<char>)
    ensures
        link_names(files, ext).no_duplicates(),
    decreases files.len(),
{
    if files.len() > 0 {
        lemma_link_names_distinct(files.drop_last(), ext);
        let prev = link_names(files.drop_last(), ext);
        if let Some(n) = link_name_of(files.last()@, ext) {
            if !prev.contains(n) {
                let next = prev.push(n);
                assert forall|a: int, b: int| 0 <= a < next.len() && 0 <= b < next.len() && a != b
                    implies next[a] != next[b] by {
                    if a == prev.len() as int {
                        assert(next[b] == prev[b]);
                    } else if b == prev.len() as int {
                        assert(next[a] == prev[a]);
                    }
                }
            }
        }
    }
}

/// Exactly the link names of the matching files are emitted.
pub proof fn lemma_link_names_complete(files: Seq<String>, ext: Seq<char>, n: Seq<char>)
    ensures
        link_names(files, ext).contains(n) <==> exists|i: int| 0 <= i < files.len() && link_name_of(#[trigger] files[i]@, ext) == Some(n),
    decreases files.len(),
{
    if files.len() > 0 {
        let init = files.drop_last();
        lemma_link_names_complete(init, ext, n);
        let prev = link_names(init, ext);
        let last = files.len() - 1;
        if exists|i: int| 0 <= i < init.len() && link_name_of(#[trigger] init[i]@, ext) == Some(n) {
            let i = choose|i: int| 0 <= i < init.len() && link_name_of(#[trigger] init[i]@, ext) == Some(n);
            assert(files[i] == init[i]);
        }
        if exists|i: int| 0 <= i < files.len() && link_name_of(#[trigger] files[i]@, ext) == Some(n) {
            let i = choose|i: int| 0 <= i < files.len() && link_name_of(#[trigger] files[i]@, ext) == Some(n);
            if i < last {
                assert(init[i] == files[i]);
            }
        }
        if let Some(m) = link_name_of(files.last()@, ext) {
            if !prev.contains(m) {
                assert(prev.push(m)[prev.len() as int] == m);
                if prev.contains(n) {
                    let k = choose|k: int| 0 <= k < prev.len() && prev[k] == n;
                    assert(prev.push(m)[k] == n);
                }
                if prev.push(m).contains(n) {
                    let k = choose|k: int| 0 <= k < prev.push(m).len() && prev.push(m)[k] == n;
                    if k < prev.len() {
                        assert(prev[k] == n);
                    }
                }
            }
        }
    }
}

} // verus!
