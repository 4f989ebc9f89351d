//! The temporary bash file used to execute one function of a script: it
//! sources the script and then calls the function, because a process
//! spawner alone cannot run a shell function.  Writing the file out and
//! spawning it are the caller's side; this module owns the file's name and
//! its contents.

use vstd::prelude::*;
use vstd::string::*;

use crate::script::{Function, Script};

verus! {

/// A character of the URL-safe id alphabet: letters, digits, `_` and `-`.
pub open spec fn is_id_char(c: char) -> bool {
    ('a' <= c && c <= 'z') || ('A' <= c && c <= 'Z') || ('0' <= c && c <= '9') || c == '_' || c
        == '-'
}

/// Relies on `nanoid::format` with the default RNG and the URL-safe
/// alphabet (the expansion of the crate's id macro): the result has
/// exactly `size` characters, each drawn from that alphabet.  The id is
/// random, so nothing more is promised of it.
#[verifier::external_body]
fn random_id(size: usize) -> (r: String)
    ensures
        r@.len() == size as nat,
        forall|i: int| 0 <= i < r@.len() ==> is_id_char(#[trigger] r@[i]),
{
    nanoid::format(nanoid::rngs::default, &nanoid::alphabet::SAFE, size)
}

/// The fixed header of the temporary file.
pub open spec fn spec_file_header() -> Seq<char> {
    "#!/usr/bin/env bash\n# \n# Temporary lk file used to execute functions in scripts.\n# If you see it here you can delete it and/or gitignore it.\n\n"@
}

/// A temporary bash file: where it goes, and which function of which
/// script it runs.
pub struct BashFile {
    /// The file's path: a fresh name in the current directory.
    pub location: String,
    /// The script whose function is run.
    pub script: Script,
    /// The function to run.
    pub function: Function,
}

impl BashFile {
    /// A fresh temporary file for running `function` of `script`.  The
    /// location is `./~lk_` followed by ten random characters, so parallel
    /// runs do not collide.
    pub fn new(script: Script, function: Function) -> (r: BashFile)
        ensures
            r.script == script,
            r.function == function,
            r.location@.len() == 16,
            r.location@.subrange(0, 6) == "./~lk_"@,
            forall|i: int| 6 <= i < 16 ==> is_id_char(#[trigger] r.location@[i]),
    {
        let mut location = String::new();
        location.append("./~lk_");
        let id = random_id(10);
        location.append(id.as_str());
        proof {
            reveal_strlit("./~lk_");
            assert(location@.subrange(0, 6) =~= "./~lk_"@);
        }
        BashFile { location, script, function }
    }

    /// The file's contents: the fixed header, then one line that sources
    /// the script's directory path and calls the function.
    pub fn content(&self) -> (r: String)
        ensures
            r@ == spec_file_header() + " source "@ + ({
                let c = Script::after_last_slash(self.script.path@, self.script.path@.len() as int);
                if c > 0 {
                    self.script.path@.subrange(0, c - 1)
                } else {
                    Seq::<char>::empty()
                }
            }) + " && "@ + self.function.name@ + "\n"@,
    {
        let mut out = String::new();
        out.append(
            "#!/usr/bin/env bash\n# \n# Temporary lk file used to execute functions in scripts.\n# If you see it here you can delete it and/or gitignore it.\n\n",
        );
        out.append(" source ");
        let dir = self.script.path();
        out.append(dir.as_str());
        out.append(" && ");
        out.append(self.function.name.as_str());
        out.append("\n");
        out
    }
}

} // verus!
