//! The user's configuration: the default mode, persisted as a small file
//! under the user's config directory.  Reading, writing and the on-disk
//! encoding are the caller's side; this module owns the configuration
//! values and where the file lives.

use vstd::prelude::*;
use vstd::string::*;

verus! {

/// The configuration values.
#[derive(Debug, Clone, PartialEq)]
pub struct Config {
    /// The default mode: `fuzzy` or `list`.
    pub default_mode: String,
}

impl Config {
    /// The configuration a fresh install starts with: listing mode.
    pub fn initial() -> (r: Config)
        ensures
            r.default_mode@ == "list"@,
    {
        let mut default_mode = String::new();
        default_mode.append("list");
        Config { default_mode }
    }
}

/// A configuration tied to the file it is persisted in.
pub struct ConfigFile {
    /// The current configuration values.
    pub config: Config,
    /// The directory the file lives in.
    pub lk_dir: String,
    /// The file's name within that directory.
    pub file_name: String,
}

impl ConfigFile {
    /// Ties already-loaded configuration values to their file.
    pub fn new(config: Config, lk_dir: &str, file_name: &str) -> (r: ConfigFile)
        ensures
            r.config == config,
            r.lk_dir@ == lk_dir@,
            r.file_name@ == file_name@,
    {
        ConfigFile { config, lk_dir: lk_dir.to_owned(), file_name: file_name.to_owned() }
    }

    /// Where the file lives: the directory, a separator, the file name.
    pub fn path(&self) -> (r: String)
        ensures
            r@ == self.lk_dir@ + "/"@ + self.file_name@,
    {
        let mut out = self.lk_dir.clone();
        out.append("/");
        out.append(self.file_name.as_str());
        out
    }
}

} // verus!
