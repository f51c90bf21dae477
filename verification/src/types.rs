//! Plain data carried between the scanner, the enricher and the report.

use vstd::prelude::*;

verus! {

/// One declared dependency: a name and the version text found beside it.
#[derive(Debug)]
pub struct DepsEntry {
    pub name: String,
    pub version: String,
}

/// Mathematical value of a [`DepsEntry`].
pub struct DepsEntryView {
    pub name: Seq<char>,
    pub version: Seq<char>,
}

impl View for DepsEntry {
    type V = DepsEntryView;

    open spec fn view(&self) -> DepsEntryView {
        DepsEntryView { name: self.name@, version: self.version@ }
    }
}

impl DepsEntry {
    /// A copy of this entry.
    pub fn duplicate(&self) -> (r: DepsEntry)
        ensures
            r@ == self@,
    {
        DepsEntry { name: self.name.clone(), version: self.version.clone() }
    }
}

/// The two dependency tables of a package manifest, each a list of
/// `(name, version)` pairs in the order the document gives them.
pub struct PackageJson {
    pub dependencies: Option<Vec<(String, String)>>,
    pub peer_dependencies: Option<Vec<(String, String)>>,
}

/// Registry answer for one package at one version.
pub struct PackageInfo {
    pub name: String,
    pub version: String,
    pub license: String,
    pub homepage: String,
    pub bugs: PakageBugs,
    pub repository: PackageRepo,
}

/// Where the sources of a package live, as the registry spells it.
pub struct PackageRepo {
    pub url: String,
}

/// Where issues of a package are reported.
pub struct PakageBugs {
    pub url: String,
}

} // verus!
