//! The engine's configuration: one base directory holding the `versions`
//! and `aliases` subtrees, the mirror base URL, and the host platform
//! convention. It is threaded explicitly through every operation.

use vstd::prelude::*;
use vstd::string::StringExecFns;

verus! {

/// The host platform convention: decides archive naming and how the
/// OpenSSL location is found.
#[derive(Debug, Clone, Copy, PartialEq, Eq)]
pub enum Platform {
    MacOs,
    OtherPosix,
    Windows,
}

/// Explicit configuration threaded through every core operation.
#[derive(Debug, Clone)]
pub struct FrumConfig {
    /// The base directory under which `versions/` and `aliases/` live.
    pub base_dir: String,
    /// The mirror base URL serving archives and the version listing.
    pub ruby_build_mirror: String,
    /// The host platform convention.
    pub platform: Platform,
}

/// `<base>/versions`: the subtree owned by the install pipeline.
pub open spec fn versions_dir_of(base: Seq<char>) -> Seq<char> {
    base + "/versions"@
}

/// `<base>/versions/.downloads`: scratch space for in-progress extraction.
pub open spec fn downloads_dir_of(base: Seq<char>) -> Seq<char> {
    versions_dir_of(base) + "/.downloads"@
}

/// `<base>/aliases`: the subtree owned by the alias store.
pub open spec fn aliases_dir_of(base: Seq<char>) -> Seq<char> {
    base + "/aliases"@
}

/// `<base>/aliases/default`: where the default alias lives.
pub open spec fn default_alias_path_of(base: Seq<char>) -> Seq<char> {
    aliases_dir_of(base) + "/default"@
}

impl FrumConfig {
    /// The directory holding one subdirectory per installed version.
    pub fn versions_dir(&self) -> (r: String)
        ensures
            r@ == versions_dir_of(self.base_dir@),
    {
        self.base_dir.clone().concat("/versions")
    }

    /// The scratch directory for in-progress extractions.
    pub fn downloads_dir(&self) -> (r: String)
        ensures
            r@ == downloads_dir_of(self.base_dir@),
    {
        self.versions_dir().concat("/.downloads")
    }

    /// The directory holding one symbolic link per alias.
    pub fn aliases_dir(&self) -> (r: String)
        ensures
            r@ == aliases_dir_of(self.base_dir@),
    {
        self.base_dir.clone().concat("/aliases")
    }

    /// The path of the `default` alias.
    pub fn default_version_dir(&self) -> (r: String)
        ensures
            r@ == default_alias_path_of(self.base_dir@),
    {
        self.aliases_dir().concat("/default")
    }
}

} // verus!
