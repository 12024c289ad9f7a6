//! Paths as the library sees them: a directory, in the 16-bit units in which
//! the system names it, and the names that lead from it to a file or directory
//! below it. How the names are joined is left to whoever opens the file.
use vstd::prelude::*;

verus! {

/// A directory and the names that lead down from it.
pub struct FilePath {
    /// The directory at which the path starts, in 16-bit units.
    pub root: Vec<u16>,
    /// The names below it, outermost first.
    pub names: Vec<String>,
}

/// What a path is: the units of its root, and its names as text.
pub struct FilePathView {
    pub root: Seq<u16>,
    pub names: Seq<Seq<char>>,
}

impl FilePathView {
    /// The path one name further down.
    pub open spec fn join(self, name: Seq<char>) -> FilePathView {
        FilePathView { root: self.root, names: self.names.push(name) }
    }

    /// The last name of a path that has names.
    pub open spec fn file_name(self) -> Seq<char>
        recommends
            self.names.len() > 0,
    {
        self.names.last()
    }
}

impl View for FilePath {
    type V = FilePathView;

    open spec fn view(&self) -> FilePathView {
        FilePathView {
            root: self.root@,
            names: Seq::new(self.names@.len(), |i: int| self.names@[i]@),
        }
    }
}

impl FilePath {
    /// The path that is the directory `root` itself.
    pub fn new(root: Vec<u16>) -> (path: FilePath)
        ensures
            path@.root == root@,
            path@.names.len() == 0,
    {
        FilePath { root, names: Vec::new() }
    }

    /// A copy of the path.
    pub fn duplicate(&self) -> (path: FilePath)
        ensures
            path@ == self@,
    {
        let mut names: Vec<String> = Vec::new();
        let mut i: usize = 0;
        while i < self.names.len()
            invariant
                i <= self.names.len(),
                names@.len() == i,
                forall|j: int| 0 <= j < i ==> names@[j]@ == self.names@[j]@,
            decreases self.names.len() - i,
        {
            names.push(self.names[i].clone());
            i = i + 1;
        }
        let mut root: Vec<u16> = Vec::new();
        let mut k: usize = 0;
        while k < self.root.len()
            invariant
                k <= self.root.len(),
                root@ == self.root@.take(k as int),
            decreases self.root.len() - k,
        {
            root.push(self.root[k]);
            k = k + 1;
        }
        assert(self.root@.take(k as int) == self.root@);
        let path = FilePath { root, names };
        assert(path@.names == self@.names);
        path
    }

    /// The path one name further down.
    pub fn join(&self, name: &str) -> (path: FilePath)
        ensures
            path@ == self@.join(name@),
    {
        let mut path = self.duplicate();
        path.names.push(name.to_owned());
        assert(path@.names == self@.names.push(name@));
        path
    }
}

} // verus!
