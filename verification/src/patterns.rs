//! User-supplied exclusion and skip patterns, compiled once and then tested
//! against paths and dependency names.

use vstd::prelude::*;
use regex::Regex;
use crate::error::ScanError;

verus! {

/// `regex::Regex`, a compiled matcher, carried as an opaque value.
#[verifier::external_type_specification]
#[verifier::external_body]
pub struct ExRegex(regex::Regex);

/// `regex::Error`, why a text was refused, carried as an opaque value.
#[verifier::external_type_specification]
#[verifier::external_body]
pub struct ExRegexError(regex::Error);

/// The pattern text of a matcher that `Regex::new` built, which `Regex::as_str`
/// gives back; `None` for a matcher that was built in any other way.
pub uninterp spec fn source_pattern(re: Regex) -> Option<Seq<char>>;

/// Whether `Regex::new` accepts the text as a regular expression.
pub uninterp spec fn compiles(pattern: Seq<char>) -> bool;

/// Whether a matcher that `Regex::new` built from `pattern` finds a match
/// somewhere in `text` (`Regex::is_match`).
pub uninterp spec fn matches(pattern: Seq<char>, text: Seq<char>) -> bool;

/// The text that capture group 1 took in the leftmost match that a matcher
/// built by `Regex::new` from `pattern` finds in `text`; `None` when there is
/// no match or the group took no part in it (`Regex::captures`).
pub uninterp spec fn group_one(pattern: Seq<char>, text: Seq<char>) -> Option<Seq<char>>;

/// Calls `Regex::new`. Claimed: it succeeds exactly on the texts for which
/// `compiles` holds, and the matcher it returns keeps the text it was built
/// from.
#[verifier::external_body]
pub(crate) fn compile(pattern: &str) -> (r: Result<Regex, regex::Error>)
    ensures
        (r is Ok) == compiles(pattern@),
        r matches Ok(re) ==> source_pattern(re) == Some(pattern@),
{
    Regex::new(pattern)
}

/// Calls `Regex::is_match`. Claimed: for a matcher that `Regex::new` built,
/// the answer depends only on its pattern text and on the text searched.
#[verifier::external_body]
pub(crate) fn is_match(re: &Regex, text: &str) -> (r: bool)
    requires
        source_pattern(*re) is Some,
    ensures
        r == matches(source_pattern(*re)->Some_0, text@),
{
    re.is_match(text)
}

/// Calls `Regex::captures` and takes group 1 of what it finds. Claimed: for
/// a matcher that `Regex::new` built, the answer depends only on its pattern
/// text and on the text searched.
#[verifier::external_body]
pub(crate) fn capture_group_one(re: &Regex, text: &str) -> (r: Option<String>)
    requires
        source_pattern(*re) is Some,
    ensures
        (r is Some) == (group_one(source_pattern(*re)->Some_0, text@) is Some),
        r matches Some(s) ==> group_one(source_pattern(*re)->Some_0, text@) == Some(s@),
{
    re.captures(text).and_then(|c| c.get(1)).map(|m| m.as_str().to_string())
}

/// Some pattern of `patterns` matches `text`.
pub open spec fn any_match(patterns: Seq<Seq<char>>, text: Seq<char>) -> bool {
    exists|i: int| 0 <= i < patterns.len() && matches(#[trigger] patterns[i], text)
}

/// Every text of `raw` is a regular expression.
pub open spec fn all_compile(raw: Seq<String>) -> bool {
    forall|i: int| 0 <= i < raw.len() ==> compiles(#[trigger] raw[i]@)
}

/// The texts of a list of strings.
pub open spec fn texts(raw: Seq<String>) -> Seq<Seq<char>> {
    Seq::new(raw.len(), |i: int| raw[i]@)
}

/// Every pattern of an optional list is a regular expression.
pub open spec fn acceptable(patterns: Option<Vec<String>>) -> bool {
    match patterns {
        Some(raw) => all_compile(raw@),
        None => true,
    }
}

/// The pattern texts that an optional list stands for.
pub open spec fn compiled_texts(patterns: Option<Vec<String>>) -> Seq<Seq<char>> {
    match patterns {
        Some(raw) => texts(raw@),
        None => Seq::empty(),
    }
}

/// A list of compiled patterns. An empty set matches nothing.
pub struct PatternSet {
    matchers: Vec<Regex>,
}

impl View for PatternSet {
    type V = Seq<Seq<char>>;

    closed spec fn view(&self) -> Seq<Seq<char>> {
        Seq::new(self.matchers@.len(), |i: int| source_pattern(self.matchers@[i])->Some_0)
    }
}

impl PatternSet {
    #[verifier::type_invariant]
    spec fn built_from_text(self) -> bool {
        forall|i: int|
            0 <= i < self.matchers@.len() ==> source_pattern(#[trigger] self.matchers@[i]) is Some
    }

    /// The set without patterns.
    pub fn empty() -> (r: PatternSet)
        ensures
            r@ == Seq::<Seq<char>>::empty(),
    {
        let r = PatternSet { matchers: Vec::new() };
        assert(r@ =~= Seq::<Seq<char>>::empty());
        r
    }

    /// Number of patterns held.
    pub fn len(&self) -> (n: usize)
        ensures
            n == self@.len(),
    {
        self.matchers.len()
    }

    /// Whether some pattern of the set matches `text`.
    pub fn matches_any(&self, text: &str) -> (r: bool)
        ensures
            r == any_match(self@, text@),
    {
        proof {
            use_type_invariant(self);
        }
        let mut i: usize = 0;
        while i < self.matchers.len()
            invariant
                0 <= i <= self.matchers.len(),
                self.built_from_text(),
                forall|j: int| 0 <= j < i ==> !matches(#[trigger] self@[j], text@),
            decreases self.matchers.len() - i,
        {
            assert(self@[i as int] == source_pattern(self.matchers@[i as int])->Some_0);
            if is_match(&self.matchers[i], text) {
                return true;
            }
            i += 1;
        }
        false
    }
}

/// Compiles each raw pattern, in order. An absent list gives the empty set.
/// One text that is not a regular expression fails the whole list.
pub fn compile_patterns(patterns: &Option<Vec<String>>) -> (r: Result<PatternSet, ScanError>)
    ensures
        acceptable(*patterns) ==> r is Ok && r->Ok_0@ == compiled_texts(*patterns),
        !acceptable(*patterns) ==> r == Err::<PatternSet, ScanError>(ScanError::InvalidPattern),
{
    match patterns {
        None => Ok(PatternSet::empty()),
        Some(raw) => {
            let mut matchers: Vec<Regex> = Vec::new();
            let mut i: usize = 0;
            while i < raw.len()
                invariant
                    *patterns == Some(*raw),
                    0 <= i <= raw.len(),
                    matchers@.len() == i,
                    forall|j: int| 0 <= j < i ==> compiles(#[trigger] raw@[j]@),
                    forall|j: int|
                        0 <= j < i ==> source_pattern(#[trigger] matchers@[j]) == Some(raw@[j]@),
                decreases raw.len() - i,
            {
                match compile(raw[i].as_str()) {
                    Ok(re) => {
                        matchers.push(re);
                    },
                    Err(_) => {
                        assert(!compiles(raw@[i as int]@));
                        return Err(ScanError::InvalidPattern);
                    },
                }
                i += 1;
            }
            let set = PatternSet { matchers };
            assert(set@ =~= texts(raw@));
            Ok(set)
        },
    }
}

} // verus!
