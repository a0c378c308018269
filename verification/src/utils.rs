//! Where the project lives on disk, decided from what the caller found there.
//!
//! The library does not touch the file system. The caller lists the starting
//! directory and, going upwards, each of its ancestors; the functions here
//! decide from those listings which directory is the project root and whether
//! a file is present in it.

use vstd::prelude::*;
use vstd::string::*;
use crate::text::{contains, occurs_in, same_text, texts};

verus! {

/// A directory and the names of the entries found in it.
pub struct DirProbe {
    pub path: String,
    pub entries: Vec<String>,
}

impl DirProbe {
    /// Whether the directory holds an entry of this name.
    pub open spec fn holds(&self, name: Seq<char>) -> bool {
        texts(self.entries@).contains(name)
    }

    /// Whether the directory holds one of the files that mark a project root.
    pub open spec fn is_marked(&self) -> bool {
        self.holds("docker-compose.yml"@) || self.holds("docker-compose.yaml"@) || self.holds(
            "compose.yml"@,
        ) || self.holds("compose.yaml"@) || self.holds("Cargo.toml"@)
    }

    /// Whether the directory holds an entry of this name.
    pub fn has_entry(&self, name: &str) -> (r: bool)
        ensures
            r == self.holds(name@),
    {
        let mut i: usize = 0;
        while i < self.entries.len()
            invariant
                i <= self.entries.len(),
                forall|k: int| 0 <= k < i ==> texts(self.entries@)[k] != name@,
            decreases self.entries.len() - i,
        {
            if same_text(self.entries[i].as_str(), name) {
                assert(texts(self.entries@)[i as int] == name@);
                return true;
            }
            i += 1;
        }
        false
    }

    /// Whether the directory holds one of the files that mark a project root.
    pub fn has_marker(&self) -> (r: bool)
        ensures
            r == self.is_marked(),
    {
        self.has_entry("docker-compose.yml") || self.has_entry("docker-compose.yaml")
            || self.has_entry("compose.yml") || self.has_entry("compose.yaml") || self.has_entry(
            "Cargo.toml",
        )
    }
}

/// Whether the project root holds a file of this name.
pub fn find_file(filename: &str, root: &DirProbe) -> (found: bool)
    ensures
        found == root.holds(filename@),
{
    root.has_entry(filename)
}

/// The directory that the search looks into when it stands at `current`: the
/// one above, or `current` itself where nothing is above.
pub open spec fn looked_into(lineage: Seq<DirProbe>, current: int) -> int {
    if current < lineage.len() - 1 {
        current + 1
    } else {
        current
    }
}

/// The first marked directory that the search from `current` upwards comes
/// upon. The search looks into the directory above where it stands and, if
/// that is not marked, goes on from the directory above that one.
pub open spec fn marked_from(lineage: Seq<DirProbe>, current: int) -> Option<int>
    decreases lineage.len() - current,
{
    let dir = looked_into(lineage, current);
    if current < 0 || current >= lineage.len() {
        None
    } else if lineage[dir].is_marked() {
        Some(dir)
    } else if dir >= lineage.len() - 1 {
        None
    } else {
        marked_from(lineage, dir + 1)
    }
}

/// The index, in `lineage`, of the project root: the marked directory that
/// the search finds; failing that, the directory two levels up where the
/// starting path contains `target` and has two levels above it; failing that,
/// the starting directory.
pub open spec fn root_index(lineage: Seq<DirProbe>) -> int {
    match marked_from(lineage, 0) {
        Some(dir) => dir,
        None => if occurs_in(lineage[0].path@, "target"@) && lineage.len() > 2 {
            2
        } else {
            0
        },
    }
}

/// Picks the project root. `lineage` holds the starting directory first and
/// then each directory above it, the nearest first, up to the top.
pub fn project_root(lineage: &Vec<DirProbe>) -> (root: usize)
    requires
        lineage@.len() > 0,
    ensures
        root == root_index(lineage@),
        root < lineage@.len(),
{
    let top: usize = lineage.len() - 1;
    let mut current: usize = 0;
    loop
        invariant
            top == lineage.len() - 1,
            current <= top,
            marked_from(lineage@, 0) == marked_from(lineage@, current as int),
        decreases top - current,
    {
        let dir: usize = if current < top {
            current + 1
        } else {
            current
        };
        if lineage[dir].has_marker() {
            return dir;
        }
        if dir >= top {
            return if contains(lineage[0].path.as_str(), "target") && lineage.len() > 2 {
                2
            } else {
                0
            };
        }
        current = dir + 1;
    }
}

} // verus!
