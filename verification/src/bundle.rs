//! The embedded asset bundle: a fixed mapping from relative path to byte
//! content, and the plan for copying it under a staging directory.
//!
//! At runtime the bundle is read-only; it is filled once, at startup, from
//! whatever the build embedded, and then only iterated or looked up. The
//! invariant is that paths are unique, so that lookup and iteration agree
//! on one fixed set of entries.

use vstd::prelude::*;

verus! {

use vstd::string::StringExecFns;
use crate::strutil::clone_bytes;
use crate::strutil::str_eq;

/// One named blob of the bundle.
pub struct BundleEntry {
    pub path: String,
    pub data: Vec<u8>,
}

impl View for BundleEntry {
    type V = (Seq<char>, Seq<u8>);

    open spec fn view(&self) -> (Seq<char>, Seq<u8>) {
        (self.path@, self.data@)
    }
}

/// An immutable set of named blobs, addressable by relative path.
pub struct AssetBundle {
    entries: Vec<BundleEntry>,
}

impl View for AssetBundle {
    type V = Seq<(Seq<char>, Seq<u8>)>;

    closed spec fn view(&self) -> Seq<(Seq<char>, Seq<u8>)> {
        self.entries@.map_values(|e: BundleEntry| e@)
    }
}

impl AssetBundle {
    /// The paths of the entries are pairwise distinct.
    pub open spec fn wf(&self) -> bool {
        forall|i: int, j: int| 0 <= i < j < self@.len() ==> (#[trigger] self@[i]).0 != (
        #[trigger] self@[j]).0
    }

    /// Some entry carries the path `p`.
    pub open spec fn spec_contains_path(&self, p: Seq<char>) -> bool {
        exists|i: int| 0 <= i < self@.len() && (#[trigger] self@[i]).0 == p
    }

    /// An empty bundle.
    pub fn new() -> (r: Self)
        ensures
            r.wf(),
            r@ == Seq::<(Seq<char>, Seq<u8>)>::empty(),
    {
        let r = AssetBundle { entries: Vec::new() };
        proof {
            assert(r@ =~= Seq::<(Seq<char>, Seq<u8>)>::empty());
        }
        r
    }

    /// The number of entries.
    pub fn len(&self) -> (n: usize)
        ensures
            n == self@.len(),
    {
        self.entries.len()
    }

    /// The path of the entry at `i`.
    pub fn path_at(&self, i: usize) -> (p: &String)
        requires
            i < self@.len(),
        ensures
            p@ == self@[i as int].0,
    {
        &self.entries[i].path
    }

    /// The content of the entry at `i`.
    pub fn data_at(&self, i: usize) -> (d: &Vec<u8>)
        requires
            i < self@.len(),
        ensures
            d@ == self@[i as int].1,
    {
        &self.entries[i].data
    }

    /// Whether some entry carries the path `p`.
    pub fn contains_path(&self, p: &str) -> (r: bool)
        ensures
            r == self.spec_contains_path(p@),
    {
        let n = self.entries.len();
        let mut k: usize = 0;
        while k < n
            invariant
                0 <= k <= n,
                n == self@.len(),
                forall|j: int| 0 <= j < k ==> (#[trigger] self@[j]).0 != p@,
            decreases n - k,
        {
            if str_eq(self.entries[k].path.as_str(), p) {
                proof {
                    assert(self@[k as int].0 == p@);
                }
                return true;
            }
            k += 1;
        }
        false
    }

    /// Adds an entry, unless its path is already taken; reports whether it
    /// was added.
    pub fn insert(&mut self, path: String, data: Vec<u8>) -> (added: bool)
        requires
            old(self).wf(),
        ensures
            final(self).wf(),
            added == !old(self).spec_contains_path(path@),
            added ==> final(self)@ == old(self)@.push((path@, data@)),
            !added ==> final(self)@ == old(self)@,
    {
        if self.contains_path(path.as_str()) {
            return false;
        }
        let ghost pre = self@;
        let ghost p = path@;
        let ghost d = data@;
        self.entries.push(BundleEntry { path, data });
        proof {
            assert(self@ =~= pre.push((p, d)));
            assert forall|i: int, j: int| 0 <= i < j < self@.len() implies (
            #[trigger] self@[i]).0 != (#[trigger] self@[j]).0 by {
                if j < pre.len() {
                    assert(self@[i] == pre[i] && self@[j] == pre[j]);
                } else {
                    assert(self@[i] == pre[i] && self@[j] == (p, d));
                }
            }
        }
        true
    }

    /// Looks a path up: returns the content stored under it, or nothing
    /// when the path is not present. Lookup agrees with iteration: it
    /// succeeds exactly on the paths that the entries carry.
    pub fn get(&self, p: &str) -> (r: Option<&Vec<u8>>)
        requires
            self.wf(),
        ensures
            match r {
                Some(d) => exists|i: int|
                    0 <= i < self@.len() && #[trigger] self@[i] == (p@, d@),
                None => !self.spec_contains_path(p@),
            },
    {
        let n = self.entries.len();
        let mut k: usize = 0;
        while k < n
            invariant
                0 <= k <= n,
                n == self@.len(),
                forall|j: int| 0 <= j < k ==> (#[trigger] self@[j]).0 != p@,
            decreases n - k,
        {
            if str_eq(self.entries[k].path.as_str(), p) {
                let d = &self.entries[k].data;
                proof {
                    assert(self@[k as int] == (p@, d@));
                }
                return Some(d);
            }
            k += 1;
        }
        None
    }
}

/// The absolute path at which a bundle entry is staged under `dir`.
pub open spec fn staged_path(dir: Seq<char>, rel: Seq<char>) -> Seq<char> {
    dir + seq!['/'] + rel
}

/// The files to write when staging the whole bundle under `dir`: one
/// `(path, bytes)` pair per bundle entry, in iteration order, each path
/// placed under `dir` and each content copied verbatim.
pub fn extraction_plan(dir: &str, bundle: &AssetBundle) -> (r: Vec<(String, Vec<u8>)>)
    ensures
        r@.len() == bundle@.len(),
        forall|i: int|
            0 <= i < r@.len() ==> (#[trigger] r@[i]).0@ == staged_path(dir@, bundle@[i].0)
                && r@[i].1@ == bundle@[i].1,
{
    let n = bundle.len();
    let mut r: Vec<(String, Vec<u8>)> = Vec::new();
    let mut k: usize = 0;
    while k < n
        invariant
            0 <= k <= n,
            n == bundle@.len(),
            r@.len() == k,
            forall|i: int|
                0 <= i < k ==> (#[trigger] r@[i]).0@ == staged_path(dir@, bundle@[i].0)
                    && r@[i].1@ == bundle@[i].1,
        decreases n - k,
    {
        let mut full = dir.to_owned();
        full.append("/");
        full.append(bundle.path_at(k).as_str());
        let data = clone_bytes(bundle.data_at(k));
        proof {
            reveal_strlit("/");
            assert("/"@ =~= seq!['/']);
            assert(full@ == staged_path(dir@, bundle@[k as int].0));
        }
        r.push((full, data));
        k += 1;
    }
    r
}

} // verus!
