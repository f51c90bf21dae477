//! Which entries of a directory walk are manifests.

use vstd::prelude::*;
use crate::patterns::{any_match, PatternSet};

verus! {

/// File name of a module manifest.
pub const GO_MOD_FILE: &'static str = "go.mod";

/// File name of a package manifest.
pub const PACKAGE_JSON_FILE: &'static str = "package.json";

/// An entry met while walking the tree below the root.
pub struct WalkEntry {
    /// The entry is a directory.
    pub is_dir: bool,
    /// Names on the way from the root down to the entry, the entry's own
    /// name last. The root itself has no names.
    pub components: Vec<String>,
    /// The full path, where it can be shown as text.
    pub path: Option<String>,
}

/// A name is hidden when it starts with a dot.
pub open spec fn hidden_name(name: Seq<char>) -> bool {
    name.len() > 0 && name[0] == '.'
}

/// The entry, or a directory above it below the root, is hidden.
pub open spec fn under_hidden(e: WalkEntry) -> bool {
    exists|i: int| 0 <= i < e.components@.len() && hidden_name(#[trigger] e.components@[i]@)
}

/// The entry's full path matches an exclusion pattern.
pub open spec fn excluded(e: WalkEntry, exclude: Seq<Seq<char>>) -> bool {
    e.path matches Some(p) && any_match(exclude, p@)
}

/// The entry is a manifest named `filename`: a file of exactly that name,
/// not hidden, below no hidden directory, and not excluded.
pub open spec fn is_manifest(e: WalkEntry, exclude: Seq<Seq<char>>, filename: Seq<char>) -> bool {
    &&& !e.is_dir
    &&& e.components@.len() > 0
    &&& !under_hidden(e)
    &&& !excluded(e, exclude)
    &&& e.components@.last()@ == filename
}

/// Whether a name is hidden.
pub fn is_hidden(name: &str) -> (r: bool)
    ensures
        r == hidden_name(name@),
{
    name.unicode_len() > 0 && name.get_char(0) == '.'
}

/// Whether the walk goes down into a directory of this name.
pub fn should_descend(name: &str) -> (r: bool)
    ensures
        r == !hidden_name(name@),
{
    !is_hidden(name)
}

/// Decides whether a walked entry is a manifest named `filename`.
pub fn is_manifest_entry(entry: &WalkEntry, exclude: &PatternSet, filename: &str) -> (r: bool)
    ensures
        r == is_manifest(*entry, exclude@, filename@),
{
    if entry.is_dir || entry.components.len() == 0 {
        return false;
    }
    let mut i: usize = 0;
    while i < entry.components.len()
        invariant
            0 <= i <= entry.components.len(),
            forall|j: int| 0 <= j < i ==> !hidden_name(#[trigger] entry.components@[j]@),
        decreases entry.components.len() - i,
    {
        if is_hidden(entry.components[i].as_str()) {
            return false;
        }
        i += 1;
    }
    match &entry.path {
        Some(p) => {
            if exclude.matches_any(p.as_str()) {
                return false;
            }
        },
        None => {},
    }
    let wanted = filename.to_owned();
    entry.components[entry.components.len() - 1].eq(&wanted)
}

/// A file under another name is never taken for a manifest.
pub proof fn lemma_manifest_has_its_name(e: WalkEntry, exclude: Seq<Seq<char>>, filename: Seq<char>)
    requires
        e.components@.len() == 0 || e.components@.last()@ != filename,
    ensures
        !is_manifest(e, exclude, filename),
{
}

/// Nothing at or below a hidden directory is taken for a manifest, whatever
/// the exclusion patterns are.
pub proof fn lemma_hidden_directories_hide(
    e: WalkEntry,
    exclude: Seq<Seq<char>>,
    filename: Seq<char>,
    i: int,
)
    requires
        0 <= i < e.components@.len(),
        hidden_name(e.components@[i]@),
    ensures
        !is_manifest(e, exclude, filename),
{
}

} // verus!
