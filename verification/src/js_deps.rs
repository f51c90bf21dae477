//! Dependencies declared by package manifests.

use vstd::prelude::*;
use crate::depmap::DependencyMap;
use crate::error::ScanError;
use crate::patterns::{acceptable, any_match, compile_patterns, compiled_texts, PatternSet};
use crate::scan::{is_manifest, is_manifest_entry, WalkEntry, PACKAGE_JSON_FILE};
use crate::types::PackageJson;

verus! {

/// A version without its leading caret, if it has one.
pub open spec fn strip_caret(v: Seq<char>) -> Seq<char> {
    if v.len() > 0 && v[0] == '^' {
        v.subrange(1, v.len() as int)
    } else {
        v
    }
}

/// The version text that is stored for a declared one.
pub open spec fn stored_version(v: Seq<char>, strip: bool) -> Seq<char> {
    if strip {
        strip_caret(v)
    } else {
        v
    }
}

/// The mapping after the pairs of one table were recorded in order: a pair
/// whose name matches a skip pattern changes nothing, any other sets its
/// name to its stored version.
pub open spec fn record_block(
    m: Map<Seq<char>, Seq<char>>,
    block: Seq<(String, String)>,
    skip: Seq<Seq<char>>,
    strip: bool,
) -> Map<Seq<char>, Seq<char>>
    decreases block.len(),
{
    if block.len() == 0 {
        m
    } else {
        let before = record_block(m, block.drop_last(), skip, strip);
        let e = block.last();
        if any_match(skip, e.0@) {
            before
        } else {
            before.insert(e.0@, stored_version(e.1@, strip))
        }
    }
}

/// As [`record_block`], for a table that may be absent.
pub open spec fn record_optional(
    m: Map<Seq<char>, Seq<char>>,
    block: Option<Vec<(String, String)>>,
    skip: Seq<Seq<char>>,
    strip: bool,
) -> Map<Seq<char>, Seq<char>> {
    match block {
        Some(b) => record_block(m, b@, skip, strip),
        None => m,
    }
}

/// The mapping after one package manifest: its dependencies with carets
/// stripped, then its peer dependencies as written.
pub open spec fn record_manifest(
    m: Map<Seq<char>, Seq<char>>,
    manifest: PackageJson,
    skip: Seq<Seq<char>>,
) -> Map<Seq<char>, Seq<char>> {
    record_optional(
        record_optional(m, manifest.dependencies, skip, true),
        manifest.peer_dependencies,
        skip,
        false,
    )
}

/// A package manifest as found on disk: its path, and its document where
/// the file could be read and understood.
pub struct PackageFile {
    pub path: String,
    pub document: Option<PackageJson>,
}

/// Every manifest of the list could be read.
pub open spec fn all_read(files: Seq<PackageFile>) -> bool {
    forall|i: int| 0 <= i < files.len() ==> (#[trigger] files[i]).document is Some
}

/// The mapping after a list of package manifests, taken in order.
pub open spec fn record_manifests(
    m: Map<Seq<char>, Seq<char>>,
    files: Seq<PackageFile>,
    skip: Seq<Seq<char>>,
) -> Map<Seq<char>, Seq<char>>
    decreases files.len(),
{
    if files.len() == 0 {
        m
    } else {
        let before = record_manifests(m, files.drop_last(), skip);
        match files.last().document {
            Some(manifest) => record_manifest(before, manifest, skip),
            None => before,
        }
    }
}

/// The last declaration of a name in a table decides the stored version,
/// unless the name is skipped: with a leading caret stripped where the table
/// asks for it, unchanged otherwise.
pub proof fn lemma_last_declaration_stored(
    m: Map<Seq<char>, Seq<char>>,
    block: Seq<(String, String)>,
    skip: Seq<Seq<char>>,
    strip: bool,
    i: int,
)
    requires
        0 <= i < block.len(),
        !any_match(skip, block[i].0@),
        forall|j: int| i < j < block.len() ==> (#[trigger] block[j]).0@ != block[i].0@,
    ensures
        record_block(m, block, skip, strip).contains_key(block[i].0@),
        record_block(m, block, skip, strip)[block[i].0@] == stored_version(block[i].1@, strip),
        strip && block[i].1@.len() > 0 && block[i].1@[0] == '^' ==> record_block(
            m,
            block,
            skip,
            strip,
        )[block[i].0@] == block[i].1@.subrange(1, block[i].1@.len() as int),
        !(block[i].1@.len() > 0 && block[i].1@[0] == '^') ==> record_block(m, block, skip, strip)[block[i].0@]
            == block[i].1@,
    decreases block.len(),
{
    if i < block.len() - 1 {
        let shorter = block.drop_last();
        assert(shorter[i] == block[i]);
        assert forall|j: int| i < j < shorter.len() implies (#[trigger] shorter[j]).0@
            != shorter[i].0@ by {
            assert(shorter[j] == block[j]);
        }
        lemma_last_declaration_stored(m, shorter, skip, strip, i);
        assert(block.last() == block[block.len() - 1]);
    }
}

/// Recording a table neither creates nor changes the entry of a name that
/// matches a skip pattern.
pub proof fn lemma_skipped_name_untouched(
    m: Map<Seq<char>, Seq<char>>,
    block: Seq<(String, String)>,
    skip: Seq<Seq<char>>,
    strip: bool,
    name: Seq<char>,
)
    requires
        any_match(skip, name),
    ensures
        record_block(m, block, skip, strip).contains_key(name) == m.contains_key(name),
        m.contains_key(name) ==> record_block(m, block, skip, strip)[name] == m[name],
    decreases block.len(),
{
    if block.len() > 0 {
        lemma_skipped_name_untouched(m, block.drop_last(), skip, strip, name);
    }
}

/// A whole manifest neither creates nor changes the entry of a skipped name.
pub proof fn lemma_manifest_keeps_skipped(
    m: Map<Seq<char>, Seq<char>>,
    manifest: PackageJson,
    skip: Seq<Seq<char>>,
    name: Seq<char>,
)
    requires
        any_match(skip, name),
    ensures
        record_manifest(m, manifest, skip).contains_key(name) == m.contains_key(name),
        m.contains_key(name) ==> record_manifest(m, manifest, skip)[name] == m[name],
{
    let mid = record_optional(m, manifest.dependencies, skip, true);
    if let Some(b) = manifest.dependencies {
        lemma_skipped_name_untouched(m, b@, skip, true, name);
    }
    if let Some(b) = manifest.peer_dependencies {
        lemma_skipped_name_untouched(mid, b@, skip, false, name);
    }
}

/// Copies a version, dropping one leading caret.
pub fn normalize_version(version: &str) -> (r: String)
    ensures
        r@ == strip_caret(version@),
{
    let n = version.unicode_len();
    if n > 0 && version.get_char(0) == '^' {
        version.substring_char(1, n).to_owned()
    } else {
        version.to_owned()
    }
}

/// Scanner for package manifests.
pub struct JsParser {
    root_path: String,
    exclude_patterns: PatternSet,
    skip_patterns: PatternSet,
}

impl JsParser {
    /// The resolved root directory.
    pub closed spec fn root(&self) -> Seq<char> {
        self.root_path@
    }

    /// The exclusion patterns, tested against full paths.
    pub closed spec fn exclusions(&self) -> Seq<Seq<char>> {
        self.exclude_patterns@
    }

    /// The skip patterns, tested against dependency names.
    pub closed spec fn skips(&self) -> Seq<Seq<char>> {
        self.skip_patterns@
    }

    /// Sets up a scan below `directory`, of which `resolved` is the
    /// canonical path, or `None` where the directory could not be resolved.
    pub fn new(
        directory: &str,
        resolved: Option<String>,
        exclude: &Option<Vec<String>>,
        skip: &Option<Vec<String>>,
    ) -> (r: Result<JsParser, ScanError>)
        ensures
            match resolved {
                None => r matches Err(ScanError::InvalidDirectory(d)) && d@ == directory@,
                Some(root) => if acceptable(*exclude) && acceptable(*skip) {
                    &&& r is Ok
                    &&& r->Ok_0.root() == root@
                    &&& r->Ok_0.exclusions() == compiled_texts(*exclude)
                    &&& r->Ok_0.skips() == compiled_texts(*skip)
                } else {
                    r is Err && r->Err_0 == ScanError::InvalidPattern
                },
            },
    {
        let root_path = match resolved {
            Some(root) => root,
            None => {
                return Err(ScanError::InvalidDirectory(directory.to_owned()));
            },
        };
        let exclude_patterns = match compile_patterns(exclude) {
            Ok(set) => set,
            Err(e) => {
                return Err(e);
            },
        };
        let skip_patterns = match compile_patterns(skip) {
            Ok(set) => set,
            Err(e) => {
                return Err(e);
            },
        };
        Ok(JsParser { root_path, exclude_patterns, skip_patterns })
    }

    /// The root directory of the scan.
    pub fn root_path(&self) -> (r: &String)
        ensures
            r@ == self.root(),
    {
        &self.root_path
    }

    /// Whether a walked entry is a package manifest to read.
    pub fn is_valid_package_json(&self, entry: &WalkEntry) -> (r: bool)
        ensures
            r == is_manifest(*entry, self.exclusions(), PACKAGE_JSON_FILE@),
    {
        is_manifest_entry(entry, &self.exclude_patterns, PACKAGE_JSON_FILE)
    }

    /// Whether a dependency of this name is left out.
    pub fn should_skip_dependency(&self, name: &str) -> (r: bool)
        ensures
            r == any_match(self.skips(), name@),
    {
        self.skip_patterns.matches_any(name)
    }

    fn record_entries(
        &self,
        block: &Vec<(String, String)>,
        strip: bool,
        dependencies: &mut DependencyMap,
    )
        ensures
            final(dependencies)@ == record_block(old(dependencies)@, block@, self.skips(), strip),
    {
        let ghost start = dependencies@;
        let mut i: usize = 0;
        assert(block@.take(0) =~= Seq::<(String, String)>::empty());
        while i < block.len()
            invariant
                0 <= i <= block.len(),
                dependencies@ == record_block(start, block@.take(i as int), self.skips(), strip),
            decreases block.len() - i,
        {
            proof {
                assert(block@.take(i + 1).drop_last() =~= block@.take(i as int));
                assert(block@.take(i + 1).last() == block@[i as int]);
            }
            let name = block[i].0.as_str();
            if !self.should_skip_dependency(name) {
                let version = if strip {
                    normalize_version(block[i].1.as_str())
                } else {
                    block[i].1.clone()
                };
                dependencies.insert(block[i].0.clone(), version);
            }
            i += 1;
        }
        assert(block@.take(block.len() as int) =~= block@);
    }

    /// Records what one package manifest declares.
    pub fn process_dependencies(&self, package_json: &PackageJson, dependencies: &mut DependencyMap)
        ensures
            final(dependencies)@ == record_manifest(
                old(dependencies)@,
                *package_json,
                self.skips(),
            ),
    {
        match &package_json.dependencies {
            Some(block) => {
                self.record_entries(block, true, dependencies);
            },
            None => {},
        }
        match &package_json.peer_dependencies {
            Some(block) => {
                self.record_entries(block, false, dependencies);
            },
            None => {},
        }
    }

    /// Accumulates the dependencies of the manifests found, in the order
    /// given: a later manifest overwrites what an earlier one declared. The
    /// first manifest that could not be read ends the scan with an error
    /// that carries its path.
    pub fn parse(&self, manifests: &Vec<PackageFile>) -> (r: Result<DependencyMap, ScanError>)
        ensures
            (r is Ok) == all_read(manifests@),
            r matches Ok(deps) ==> deps@ == record_manifests(
                Map::empty(),
                manifests@,
                self.skips(),
            ),
            r matches Err(e) ==> exists|i: int|
                {
                    &&& 0 <= i < manifests@.len()
                    &&& (#[trigger] manifests@[i]).document is None
                    &&& forall|j: int| 0 <= j < i ==> manifests@[j].document is Some
                    &&& e matches ScanError::ManifestParseError(p) && p@ == manifests@[i].path@
                },
    {
        let mut dependencies = DependencyMap::new();
        let mut i: usize = 0;
        assert(manifests@.take(0) =~= Seq::<PackageFile>::empty());
        while i < manifests.len()
            invariant
                0 <= i <= manifests.len(),
                forall|j: int| 0 <= j < i ==> (#[trigger] manifests@[j]).document is Some,
                dependencies@ == record_manifests(
                    Map::empty(),
                    manifests@.take(i as int),
                    self.skips(),
                ),
            decreases manifests.len() - i,
        {
            proof {
                assert(manifests@.take(i + 1).drop_last() =~= manifests@.take(i as int));
                assert(manifests@.take(i + 1).last() == manifests@[i as int]);
            }
            match &manifests[i].document {
                Some(manifest) => {
                    self.process_dependencies(manifest, &mut dependencies);
                },
                None => {
                    return Err(ScanError::ManifestParseError(manifests[i].path.clone()));
                },
            }
            i += 1;
        }
        assert(manifests@.take(manifests.len() as int) =~= manifests@);
        Ok(dependencies)
    }
}

} // verus!
