//! The executables found on disk.  Discovery walks the file system and so
//! lives with the caller; this module owns the collection, lookup by
//! name, the ignore rule and the permission-bit test.

use vstd::prelude::*;
use vstd::string::*;

use crate::strutil::str_eq;

verus! {

/// One executable script found during discovery.
#[derive(Debug, Clone)]
pub struct Executable {
    /// The file name alone, used for lookup.
    pub short_name: String,
    /// The path as discovered, relative to the search root.
    pub path: String,
    /// The absolute path.
    pub absolute_path: String,
}

/// Every executable found during discovery, in discovery order.
pub struct Executables {
    /// The discovered executables.
    pub executables: Vec<Executable>,
}

impl Executables {
    /// Wrap an already-discovered collection.
    pub fn new(executables: Vec<Executable>) -> (r: Executables)
        ensures
            r.executables == executables,
    {
        Executables { executables }
    }

    /// The first executable whose short name is `name`, if any.
    pub fn get(&self, name: &str) -> (r: Option<&Executable>)
        ensures
            match r {
                Some(e) => exists|i: int|
                    0 <= i < self.executables@.len() && e == &self.executables@[i]
                        && e.short_name@ == name@ && forall|j: int|
                        0 <= j < i ==> self.executables@[j].short_name@ != name@,
                None => forall|j: int|
                    0 <= j < self.executables@.len()
                        ==> (#[trigger] self.executables@[j]).short_name@ != name@,
            },
    {
        let mut i: usize = 0;
        while i < self.executables.len()
            invariant
                i <= self.executables@.len(),
                forall|j: int|
                    0 <= j < i ==> (#[trigger] self.executables@[j]).short_name@ != name@,
            decreases self.executables@.len() - i,
        {
            if str_eq(self.executables[i].short_name.as_str(), name) {
                return Some(&self.executables[i]);
            }
            i = i + 1;
        }
        None
    }

    /// One line per executable, as the listing prints them.
    pub fn pretty_print(&self) -> (r: Vec<String>)
        ensures
            r@.len() == self.executables@.len(),
            forall|i: int|
                0 <= i < r@.len() ==> (#[trigger] r@[i])@ == self.executables@[i].short_name@
                    + " -- "@ + self.executables@[i].path@,
    {
        let mut out: Vec<String> = Vec::new();
        let mut i: usize = 0;
        while i < self.executables.len()
            invariant
                i <= self.executables@.len(),
                out@.len() == i as int,
                forall|j: int|
                    0 <= j < i ==> (#[trigger] out@[j])@ == self.executables@[j].short_name@
                        + " -- "@ + self.executables@[j].path@,
            decreases self.executables@.len() - i,
        {
            let mut line = self.executables[i].short_name.clone();
            line.append(" -- ");
            line.append(self.executables[i].path.as_str());
            out.push(line);
            i = i + 1;
        }
        out
    }
}

/// Whether a directory entry name is one of the ignored names.
pub fn is_ignored(name: &str, ignored: &Vec<String>) -> (r: bool)
    ensures
        r == exists|i: int| 0 <= i < ignored@.len() && (#[trigger] ignored@[i])@ == name@,
{
    let mut i: usize = 0;
    while i < ignored.len()
        invariant
            i <= ignored@.len(),
            forall|j: int| 0 <= j < i ==> (#[trigger] ignored@[j])@ != name@,
        decreases ignored@.len() - i,
    {
        if str_eq(ignored[i].as_str(), name) {
            return true;
        }
        i = i + 1;
    }
    false
}

/// Whether a permission mode has any execute bit set.
pub fn mode_is_executable(mode: u32) -> (r: bool)
    ensures
        r == (mode & 0o111 != 0),
{
    mode & 0o111 != 0
}

} // verus!
