//! Dependencies declared by module manifests.

use vstd::prelude::*;
use crate::depmap::DependencyMap;
use crate::error::ScanError;
use crate::patterns::{acceptable, compile_patterns, compiled_texts, PatternSet};
use crate::scan::{is_manifest, is_manifest_entry, WalkEntry, GO_MOD_FILE};
use crate::types::{DepsEntry, DepsEntryView};

verus! {

/// One directive of a module manifest, as far as the scan reads it.
pub enum ModDirective {
    /// A `require` directive with the modules it lists, in order.
    Require { specs: Vec<DepsEntry> },
    /// Any other directive.
    Other,
}

/// Mathematical value of a [`ModDirective`].
pub enum ModDirectiveView {
    Require { specs: Seq<DepsEntryView> },
    Other,
}

/// The values of a list of entries.
pub open spec fn entry_views(s: Seq<DepsEntry>) -> Seq<DepsEntryView> {
    Seq::new(s.len(), |i: int| s[i]@)
}

impl View for ModDirective {
    type V = ModDirectiveView;

    open spec fn view(&self) -> ModDirectiveView {
        match *self {
            ModDirective::Require { specs } => ModDirectiveView::Require {
                specs: entry_views(specs@),
            },
            ModDirective::Other => ModDirectiveView::Other,
        }
    }
}

/// The values of a list of directives.
pub open spec fn directive_views(s: Seq<ModDirective>) -> Seq<ModDirectiveView> {
    Seq::new(s.len(), |i: int| s[i]@)
}

/// A module manifest as read from disk.
pub struct ManifestFile {
    pub path: String,
    pub content: String,
}

/// The directives that `gomod_rs::parse_gomod` reads from a manifest text,
/// or `None` where it rejects the text.
pub uninterp spec fn gomod_parse(content: Seq<char>) -> Option<Seq<ModDirectiveView>>;

/// Calls `gomod_rs::parse_gomod` and copies out, directive by directive,
/// the module paths and versions of each `require`. Claimed: the outcome
/// depends on the text alone.
#[verifier::external_body]
pub(crate) fn parse_directives(content: &str) -> (r: Option<Vec<ModDirective>>)
    ensures
        (r is Some) == (gomod_parse(content@) is Some),
        r matches Some(v) ==> gomod_parse(content@) == Some(directive_views(v@)),
{
    let parsed = gomod_rs::parse_gomod(content).ok()?;
    Some(parsed.into_iter().map(|c| match c.value {
        gomod_rs::Directive::Require { specs } => ModDirective::Require {
            specs: specs.into_iter().map(|s| DepsEntry {
                name: s.value.0.to_string(),
                version: s.value.1.to_string(),
            }).collect(),
        },
        _ => ModDirective::Other,
    }).collect())
}

/// The mapping after the modules of one `require` were recorded in order.
pub open spec fn record_specs(
    m: Map<Seq<char>, Seq<char>>,
    specs: Seq<DepsEntryView>,
) -> Map<Seq<char>, Seq<char>>
    decreases specs.len(),
{
    if specs.len() == 0 {
        m
    } else {
        record_specs(m, specs.drop_last()).insert(specs.last().name, specs.last().version)
    }
}

/// The mapping after the directives of one manifest: only `require` counts.
pub open spec fn record_directives(
    m: Map<Seq<char>, Seq<char>>,
    directives: Seq<ModDirectiveView>,
) -> Map<Seq<char>, Seq<char>>
    decreases directives.len(),
{
    if directives.len() == 0 {
        m
    } else {
        let before = record_directives(m, directives.drop_last());
        match directives.last() {
            ModDirectiveView::Require { specs } => record_specs(before, specs),
            ModDirectiveView::Other => before,
        }
    }
}

/// Every manifest text of the list is accepted by the parser.
pub open spec fn all_parse(files: Seq<ManifestFile>) -> bool {
    forall|i: int| 0 <= i < files.len() ==> gomod_parse(#[trigger] files[i].content@) is Some
}

/// The mapping after a list of manifests, taken in order.
pub open spec fn record_files(
    m: Map<Seq<char>, Seq<char>>,
    files: Seq<ManifestFile>,
) -> Map<Seq<char>, Seq<char>>
    decreases files.len(),
{
    if files.len() == 0 {
        m
    } else {
        let before = record_files(m, files.drop_last());
        match gomod_parse(files.last().content@) {
            Some(directives) => record_directives(before, directives),
            None => before,
        }
    }
}

/// What one `require` records does not depend on what was there before,
/// and replaces it.
pub proof fn lemma_specs_override(m: Map<Seq<char>, Seq<char>>, specs: Seq<DepsEntryView>)
    ensures
        record_specs(m, specs) =~= m.union_prefer_right(record_specs(Map::empty(), specs)),
    decreases specs.len(),
{
    if specs.len() > 0 {
        lemma_specs_override(m, specs.drop_last());
    }
}

/// What a manifest declares replaces whatever was recorded before it, and
/// leaves every other name as it was.
pub proof fn lemma_later_overrides(
    m: Map<Seq<char>, Seq<char>>,
    directives: Seq<ModDirectiveView>,
)
    ensures
        record_directives(m, directives) =~= m.union_prefer_right(
            record_directives(Map::empty(), directives),
        ),
    decreases directives.len(),
{
    if directives.len() > 0 {
        let rest = directives.drop_last();
        lemma_later_overrides(m, rest);
        match directives.last() {
            ModDirectiveView::Require { specs } => {
                lemma_specs_override(record_directives(m, rest), specs);
                lemma_specs_override(record_directives(Map::empty(), rest), specs);
            },
            ModDirectiveView::Other => {},
        }
    }
}

/// Where two manifests declare the same module, the version of the second
/// is the one kept.
pub proof fn lemma_second_manifest_wins(
    m: Map<Seq<char>, Seq<char>>,
    first: Seq<ModDirectiveView>,
    second: Seq<ModDirectiveView>,
    name: Seq<char>,
)
    requires
        record_directives(Map::empty(), second).contains_key(name),
    ensures
        record_directives(record_directives(m, first), second).contains_key(name),
        record_directives(record_directives(m, first), second)[name] == record_directives(
            Map::empty(),
            second,
        )[name],
{
    lemma_later_overrides(record_directives(m, first), second);
}

/// The last module of a `require` that carries a name decides its version.
pub proof fn lemma_last_spec_recorded(
    m: Map<Seq<char>, Seq<char>>,
    specs: Seq<DepsEntryView>,
    i: int,
)
    requires
        0 <= i < specs.len(),
        forall|j: int| i < j < specs.len() ==> (#[trigger] specs[j]).name != specs[i].name,
    ensures
        record_specs(m, specs).contains_key(specs[i].name),
        record_specs(m, specs)[specs[i].name] == specs[i].version,
    decreases specs.len(),
{
    if i < specs.len() - 1 {
        let shorter = specs.drop_last();
        assert(shorter[i] == specs[i]);
        assert forall|j: int| i < j < shorter.len() implies (#[trigger] shorter[j]).name
            != shorter[i].name by {
            assert(shorter[j] == specs[j]);
        }
        lemma_last_spec_recorded(m, shorter, i);
        assert(specs.last() == specs[specs.len() - 1]);
    }
}

/// Scanner for module manifests.
pub struct GoParser {
    root_path: String,
    exclude_patterns: PatternSet,
}

impl GoParser {
    /// The resolved root directory.
    pub closed spec fn root(&self) -> Seq<char> {
        self.root_path@
    }

    /// The exclusion patterns, tested against full paths.
    pub closed spec fn exclusions(&self) -> Seq<Seq<char>> {
        self.exclude_patterns@
    }

    /// Sets up a scan below `directory`, of which `resolved` is the
    /// canonical path, or `None` where the directory could not be resolved.
    pub fn new(directory: &str, resolved: Option<String>, exclude: &Option<Vec<String>>) -> (r:
        Result<GoParser, ScanError>)
        ensures
            match resolved {
                None => r matches Err(ScanError::InvalidDirectory(d)) && d@ == directory@,
                Some(root) => if acceptable(*exclude) {
                    &&& r is Ok
                    &&& r->Ok_0.root() == root@
                    &&& r->Ok_0.exclusions() == compiled_texts(*exclude)
                } else {
                    r is Err && r->Err_0 == ScanError::InvalidPattern
                },
            },
    {
        let root_path = match resolved {
            Some(root) => root,
            None => {
                return Err(ScanError::InvalidDirectory(directory.to_owned()));
            },
        };
        match compile_patterns(exclude) {
            Ok(exclude_patterns) => Ok(GoParser { root_path, exclude_patterns }),
            Err(e) => Err(e),
        }
    }

    /// The root directory of the scan.
    pub fn root_path(&self) -> (r: &String)
        ensures
            r@ == self.root(),
    {
        &self.root_path
    }

    /// Whether a walked entry is a module manifest to read.
    pub fn is_valid_go_mod(&self, entry: &WalkEntry) -> (r: bool)
        ensures
            r == is_manifest(*entry, self.exclusions(), GO_MOD_FILE@),
    {
        is_manifest_entry(entry, &self.exclude_patterns, GO_MOD_FILE)
    }

    fn record_require(&self, specs: &Vec<DepsEntry>, dependencies: &mut DependencyMap)
        ensures
            final(dependencies)@ == record_specs(old(dependencies)@, entry_views(specs@)),
    {
        let ghost start = dependencies@;
        let ghost all = entry_views(specs@);
        let mut j: usize = 0;
        assert(all.take(0) =~= Seq::<DepsEntryView>::empty());
        while j < specs.len()
            invariant
                0 <= j <= specs.len(),
                all == entry_views(specs@),
                dependencies@ == record_specs(start, all.take(j as int)),
            decreases specs.len() - j,
        {
            proof {
                assert(all.take(j + 1).drop_last() =~= all.take(j as int));
                assert(all.take(j + 1).last() == specs@[j as int]@);
            }
            dependencies.insert(specs[j].name.clone(), specs[j].version.clone());
            j += 1;
        }
        assert(all.take(specs.len() as int) =~= all);
    }

    /// Records every module that the `require` directives of one manifest
    /// list, later ones replacing earlier ones of the same name.
    pub fn extract_dependencies(&self, go_mod: &Vec<ModDirective>, dependencies: &mut DependencyMap)
        ensures
            final(dependencies)@ == record_directives(
                old(dependencies)@,
                directive_views(go_mod@),
            ),
    {
        let ghost start = dependencies@;
        let ghost all = directive_views(go_mod@);
        let mut i: usize = 0;
        assert(all.take(0) =~= Seq::<ModDirectiveView>::empty());
        while i < go_mod.len()
            invariant
                0 <= i <= go_mod.len(),
                all == directive_views(go_mod@),
                dependencies@ == record_directives(start, all.take(i as int)),
            decreases go_mod.len() - i,
        {
            proof {
                assert(all.take(i + 1).drop_last() =~= all.take(i as int));
                assert(all.take(i + 1).last() == go_mod@[i as int]@);
            }
            match &go_mod[i] {
                ModDirective::Require { specs } => {
                    self.record_require(specs, dependencies);
                },
                ModDirective::Other => {},
            }
            i += 1;
        }
        assert(all.take(go_mod.len() as int) =~= all);
    }

    /// Accumulates the dependencies of the manifests found, in the order
    /// given. The first manifest that the parser rejects ends the scan with
    /// an error that carries its path.
    pub fn parse(&self, manifests: &Vec<ManifestFile>) -> (r: Result<DependencyMap, ScanError>)
        ensures
            (r is Ok) == all_parse(manifests@),
            r matches Ok(deps) ==> deps@ == record_files(Map::empty(), manifests@),
            r matches Err(e) ==> exists|i: int|
                {
                    &&& 0 <= i < manifests@.len()
                    &&& gomod_parse(#[trigger] manifests@[i].content@) is None
                    &&& forall|j: int| 0 <= j < i ==> gomod_parse(manifests@[j].content@) is Some
                    &&& e matches ScanError::ManifestParseError(p) && p@ == manifests@[i].path@
                },
    {
        let mut dependencies = DependencyMap::new();
        let mut i: usize = 0;
        assert(manifests@.take(0) =~= Seq::<ManifestFile>::empty());
        while i < manifests.len()
            invariant
                0 <= i <= manifests.len(),
                forall|j: int| 0 <= j < i ==> gomod_parse(#[trigger] manifests@[j].content@) is Some,
                dependencies@ == record_files(Map::empty(), manifests@.take(i as int)),
            decreases manifests.len() - i,
        {
            proof {
                assert(manifests@.take(i + 1).drop_last() =~= manifests@.take(i as int));
                assert(manifests@.take(i + 1).last() == manifests@[i as int]);
            }
            match parse_directives(manifests[i].content.as_str()) {
                Some(directives) => {
                    self.extract_dependencies(&directives, &mut dependencies);
                },
                None => {
                    return Err(ScanError::ManifestParseError(manifests[i].path.clone()));
                },
            }
            i += 1;
        }
        assert(manifests@.take(manifests.len() as int) =~= manifests@);
        Ok(dependencies)
    }
}

} // verus!
