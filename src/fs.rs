//! The decisions of the file helpers. The caller performs the file-system
//! calls, holding a read interest in the scope lock while it does.
use crate::paths::{file_name, join_path, parent, path_file_name, path_join, path_parent};
use vstd::prelude::*;

verus! {

/// Byte-wise lexicographic order: `a` sorts before or equal to `b`.
pub open spec fn lex_le(a: Seq<u8>, b: Seq<u8>) -> bool
    decreases a.len(),
{
    if a.len() == 0 {
        true
    } else if b.len() == 0 {
        false
    } else if a[0] != b[0] {
        a[0] < b[0]
    } else {
        lex_le(a.drop_first(), b.drop_first())
    }
}

/// Every element sorts before or equal to every later one.
pub open spec fn sorted_lex(s: Seq<Seq<u8>>) -> bool {
    forall|i: int, j: int| 0 <= i < j < s.len() ==> lex_le(#[trigger] s[i], #[trigger] s[j])
}

proof fn lemma_lex_total(a: Seq<u8>, b: Seq<u8>)
    ensures
        lex_le(a, b) || lex_le(b, a),
    decreases a.len(),
{
    if a.len() > 0 && b.len() > 0 && a[0] == b[0] {
        lemma_lex_total(a.drop_first(), b.drop_first());
    }
}

proof fn lemma_lex_trans(a: Seq<u8>, b: Seq<u8>, c: Seq<u8>)
    requires
        lex_le(a, b),
        lex_le(b, c),
    ensures
        lex_le(a, c),
    decreases a.len(),
{
    if a.len() > 0 && b.len() > 0 && c.len() > 0 && a[0] == b[0] && b[0] == c[0] {
        lemma_lex_trans(a.drop_first(), b.drop_first(), c.drop_first());
    }
}

/// Compares two byte strings in lexicographic order.
pub fn bytes_le(a: &Vec<u8>, b: &Vec<u8>) -> (r: bool)
    ensures
        r == lex_le(a@, b@),
{
    let mut i: usize = 0;
    assert(a@.skip(0) =~= a@);
    assert(b@.skip(0) =~= b@);
    while i < a.len() && i < b.len()
        invariant
            i <= a@.len(),
            i <= b@.len(),
            lex_le(a@, b@) == lex_le(a@.skip(i as int), b@.skip(i as int)),
        decreases a@.len() - i,
    {
        if a[i] != b[i] {
            return a[i] < b[i];
        }
        assert(a@.skip(i as int).drop_first() =~= a@.skip(i + 1));
        assert(b@.skip(i as int).drop_first() =~= b@.skip(i + 1));
        i = i + 1;
    }
    i == a.len()
}

/// Sorts the paths of a directory listing, each given as its bytes, into
/// lexicographic order. The result holds the same entries.
pub fn read_dir(entries: Vec<Vec<u8>>) -> (r: Vec<Vec<u8>>)
    ensures
        sorted_lex(r@.map_values(|e: Vec<u8>| e@)),
        r@.map_values(|e: Vec<u8>| e@).to_multiset() =~= entries@.map_values(
            |e: Vec<u8>| e@,
        ).to_multiset(),
{
    let ghost src = entries@.map_values(|e: Vec<u8>| e@);
    let mut rest = entries;
    let mut out: Vec<Vec<u8>> = Vec::new();
    assert(out@.map_values(|e: Vec<u8>| e@) =~= src.subrange(src.len() as int, src.len() as int));
    assert(rest@.map_values(|e: Vec<u8>| e@) =~= src.subrange(0, src.len() as int));
    while rest.len() > 0
        invariant
            rest@.len() <= src.len(),
            rest@.map_values(|e: Vec<u8>| e@) == src.subrange(0, rest@.len() as int),
            sorted_lex(out@.map_values(|e: Vec<u8>| e@)),
            out@.map_values(|e: Vec<u8>| e@).to_multiset() == src.subrange(
                rest@.len() as int,
                src.len() as int,
            ).to_multiset(),
        decreases rest@.len(),
    {
        let ghost n = rest@.len();
        let ghost old_rest = rest@;
        let x = rest.pop().unwrap();
        proof {
            assert(old_rest.map_values(|e: Vec<u8>| e@)[n - 1] == old_rest[n - 1]@);
            assert(rest@.map_values(|e: Vec<u8>| e@) =~= src.subrange(0, n - 1));
            assert(x@ == src[n - 1]);
        }
        let ghost before = out@.map_values(|e: Vec<u8>| e@);
        let mut pos: usize = 0;
        while pos < out.len() && bytes_le(&out[pos], &x)
            invariant
                pos <= out@.len(),
                before == out@.map_values(|e: Vec<u8>| e@),
                forall|k: int| 0 <= k < pos ==> lex_le(#[trigger] before[k], x@),
            decreases out@.len() - pos,
        {
            pos = pos + 1;
        }
        proof {
            if pos < out@.len() {
                lemma_lex_total(before[pos as int], x@);
            }
            assert forall|k: int| pos <= k < before.len() implies lex_le(x@, #[trigger] before[k]) by {
                if k > pos {
                    lemma_lex_trans(x@, before[pos as int], before[k]);
                }
            }
        }
        let ghost xv = x@;
        out.insert(pos, x);
        proof {
            let after = out@.map_values(|e: Vec<u8>| e@);
            assert(after =~= before.insert(pos as int, xv));
            assert forall|a: int, b: int| 0 <= a < b < after.len() implies lex_le(
                #[trigger] after[a],
                #[trigger] after[b],
            ) by {
                if b < pos {
                } else if a < pos && b == pos {
                } else if a < pos {
                    assert(after[b] == before[b - 1]);
                } else if a == pos {
                    assert(after[b] == before[b - 1]);
                } else {
                    assert(after[a] == before[a - 1]);
                    assert(after[b] == before[b - 1]);
                }
            }
            let tail = src.subrange(n as int, src.len() as int);
            assert(src.subrange(n - 1, src.len() as int) =~= tail.insert(0, xv));
            vstd::seq_lib::to_multiset_insert(tail, 0, xv);
            vstd::seq_lib::to_multiset_insert(before, pos as int, xv);
        }
    }
    assert(src.subrange(0, src.len() as int) =~= src);
    out
}

/// What removing a path takes.
#[derive(PartialEq, Eq, Structural, Clone, Copy, Debug)]
pub enum Removal {
    /// The path does not exist: nothing to do.
    Nothing,
    /// Remove one file.
    RemoveFile,
    /// Remove a directory and everything under it.
    RemoveTree,
}

/// Decides how a path and all of its contents are removed, given whether it
/// exists and whether it is a file. A missing path is no error.
pub fn rm_rf(exists: bool, is_file: bool) -> (r: Removal)
    ensures
        r == (if !exists {
            Removal::Nothing
        } else if is_file {
            Removal::RemoveFile
        } else {
            Removal::RemoveTree
        }),
{
    if !exists {
        Removal::Nothing
    } else if is_file {
        Removal::RemoveFile
    } else {
        Removal::RemoveTree
    }
}

/// The directory to create, with its parents, before writing the file at
/// `path`: its parent, if it has one.
pub fn write_file(path: &str) -> (r: Option<String>)
    ensures
        r is Some <==> path_parent(path@) is Some,
        r matches Some(d) ==> path_parent(path@) == Some(d@),
{
    parent(path)
}

/// Where a copy of the file `src` goes when asked to go to `dst`.
pub open spec fn copy_target(src: Seq<char>, dst: Seq<char>, dst_is_dir: bool) -> Seq<char> {
    if dst_is_dir && path_file_name(src) is Some {
        path_join(dst, path_file_name(src)->0)
    } else {
        dst
    }
}

/// The file a copy of `src` is written to: inside `dst`, under the name of
/// `src`, when `dst` is an existing directory; otherwise `dst` itself.
pub fn cp(src: &str, dst: &str, dst_is_dir: bool) -> (r: String)
    ensures
        r@ == copy_target(src@, dst@, dst_is_dir),
{
    if dst_is_dir {
        match file_name(src) {
            Some(name) => join_path(dst, name.as_str()),
            None => dst.to_owned(),
        }
    } else {
        dst.to_owned()
    }
}

/// A temporary directory, known by its path.
pub struct TempDir {
    path: String,
}

impl TempDir {
    /// The path of this directory.
    pub closed spec fn spec_path(&self) -> Seq<char> {
        self.path@
    }

    /// The directory at `path`, which the caller has created.
    pub fn new(path: String) -> (r: TempDir)
        ensures
            r.spec_path() == path@,
    {
        TempDir { path }
    }

    /// Returns the path of this temporary directory.
    pub fn path(&self) -> (r: &str)
        ensures
            r@ == self.spec_path(),
    {
        self.path.as_str()
    }
}

} // verus!
