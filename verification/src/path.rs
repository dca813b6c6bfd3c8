//! Absolute paths as a root and the names below it.

use vstd::prelude::*;

verus! {

/// An absolute path: the text of its root (`/`, or a drive's prefix and
/// root) and the names that lead down from there, outermost first.
#[derive(Debug, PartialEq, Eq)]
pub struct FsPath {
    pub root: String,
    pub names: Vec<String>,
}

/// An `FsPath` as a mathematical value.
pub struct PathView {
    pub root: Seq<char>,
    pub names: Seq<Seq<char>>,
}

/// The texts of a list of strings.
pub open spec fn texts(names: Seq<String>) -> Seq<Seq<char>> {
    Seq::new(names.len(), |i: int| names[i]@)
}

impl PathView {
    /// The path one level further down, under `name`.
    pub open spec fn child(self, name: Seq<char>) -> PathView {
        PathView { root: self.root, names: self.names.push(name) }
    }

    /// The path one level further up; the root has none.
    pub open spec fn parent(self) -> Option<PathView> {
        if self.names.len() == 0 {
            None
        } else {
            Some(PathView { root: self.root, names: self.names.drop_last() })
        }
    }

    /// The path `k` levels further up, for `k` up to the number of names.
    pub open spec fn ancestor(self, k: nat) -> PathView
        recommends
            k <= self.names.len(),
    {
        PathView { root: self.root, names: self.names.take(self.names.len() - k) }
    }
}

impl View for FsPath {
    type V = PathView;

    open spec fn view(&self) -> PathView {
        PathView { root: self.root@, names: texts(self.names@) }
    }
}

/// Copies a list of strings.
fn copy_names(names: &Vec<String>) -> (copy: Vec<String>)
    ensures
        texts(copy@) == texts(names@),
{
    let mut copy: Vec<String> = Vec::new();
    let n: usize = names.len();
    let mut i: usize = 0;
    while i < n
        invariant
            n == names.len(),
            i <= n,
            copy.len() == i,
            forall|k: int| 0 <= k < i ==> copy@[k]@ == names@[k]@,
        decreases n - i,
    {
        copy.push(names[i].clone());
        i += 1;
    }
    assert(texts(copy@) =~= texts(names@));
    copy
}

impl FsPath {
    /// A copy of this path.
    pub fn duplicate(&self) -> (copy: FsPath)
        ensures
            copy@ == self@,
    {
        FsPath { root: self.root.clone(), names: copy_names(&self.names) }
    }

    /// The path one level further down, under `name`.
    pub fn child(&self, name: &str) -> (path: FsPath)
        ensures
            path@ == self@.child(name@),
    {
        let mut names = copy_names(&self.names);
        names.push(String::from_str(name));
        assert(texts(names@) =~= texts(self.names@).push(name@));
        FsPath { root: self.root.clone(), names }
    }

    /// The path one level further up, or `None` at the root.
    pub fn parent(&self) -> (up: Option<FsPath>)
        ensures
            match up {
                Some(p) => self@.parent() == Some(p@),
                None => self@.parent() is None,
            },
    {
        if self.names.len() == 0 {
            None
        } else {
            let mut names = copy_names(&self.names);
            names.pop();
            assert(texts(names@) =~= texts(self.names@).drop_last());
            Some(FsPath { root: self.root.clone(), names })
        }
    }
}

} // verus!
