//! Decisions of the metadata lookups: which addresses are asked, and what
//! is made of the answers.

use vstd::prelude::*;
use regex::Regex;
use crate::error::ReportError;
use crate::patterns::{capture_group_one, compile, compiles, group_one, source_pattern};
use crate::report::GoLookup;
use crate::types::{DepsEntry, PackageInfo};

verus! {

/// The shape of a repository field: anything up to a colon, the part that
/// is kept, a dot, and a tail of lowercase letters, `#` and dots.
pub const REPO_PATTERN: &'static str = "^.*:(.*)\\.[a-z#\\.]*$";

/// Where a license page carries the name of the license.
pub const LICENSE_PATTERN: &'static str = "<div id=\"lic-0\">(.*)</div>";

/// Number of license file names that are probed.
pub const LICENSE_FILE_COUNT: usize = 6;

/// The license file names, in the order in which they are probed.
pub open spec fn spec_license_file(i: int) -> Seq<char> {
    if i == 0 {
        "LICENSE"@
    } else if i == 1 {
        "LICENSE.md"@
    } else if i == 2 {
        "LICENSE.txt"@
    } else if i == 3 {
        "license"@
    } else if i == 4 {
        "license.md"@
    } else {
        "license.txt"@
    }
}

/// The license file name at position `i` of the probing order, if there
/// are that many.
pub fn license_file(i: usize) -> (r: Option<&'static str>)
    ensures
        i < LICENSE_FILE_COUNT ==> (r matches Some(name) && name@ == spec_license_file(i as int)),
        i >= LICENSE_FILE_COUNT ==> r is None,
{
    if i == 0 {
        Some("LICENSE")
    } else if i == 1 {
        Some("LICENSE.md")
    } else if i == 2 {
        Some("LICENSE.txt")
    } else if i == 3 {
        Some("license")
    } else if i == 4 {
        Some("license.md")
    } else if i == 5 {
        Some("license.txt")
    } else {
        None
    }
}

/// Address of the registry entry of a package at a version.
pub open spec fn spec_npm_package_url(name: Seq<char>, version: Seq<char>) -> Seq<char> {
    "https://registry.npmjs.org/"@ + name + "/"@ + version
}

/// Address of the documentation of a module.
pub open spec fn spec_go_doc_url(name: Seq<char>) -> Seq<char> {
    "https://pkg.go.dev/"@ + name
}

/// Address of the license page of a module.
pub open spec fn spec_go_license_url(name: Seq<char>) -> Seq<char> {
    "https://pkg.go.dev/"@ + name + "?tab=licenses"@
}

/// Address at which a license file of a repository is probed.
pub open spec fn spec_license_probe_url(repo_url: Seq<char>, i: int) -> Seq<char> {
    repo_url + "/blob/master/"@ + spec_license_file(i)
}

/// The part of a repository field that was kept, as an `https:` address.
pub open spec fn spec_repo_url(kept: Seq<char>) -> Seq<char> {
    if kept.len() >= 2 && kept[0] == '/' && kept[1] == '/' {
        "https:"@ + kept
    } else {
        "https://"@ + kept
    }
}

/// Address of the registry entry of a dependency.
pub fn npm_package_url(dep: &DepsEntry) -> (r: String)
    ensures
        r@ == spec_npm_package_url(dep.name@, dep.version@),
{
    String::from_str("https://registry.npmjs.org/").concat(dep.name.as_str()).concat("/").concat(
        dep.version.as_str(),
    )
}

/// Address of the documentation of a module.
pub fn go_doc_url(name: &str) -> (r: String)
    ensures
        r@ == spec_go_doc_url(name@),
{
    String::from_str("https://pkg.go.dev/").concat(name)
}

/// Address of the license page of a module.
pub fn go_license_url(name: &str) -> (r: String)
    ensures
        r@ == spec_go_license_url(name@),
{
    String::from_str("https://pkg.go.dev/").concat(name).concat("?tab=licenses")
}

/// The address to probe after `tried` license file names gave nothing, or
/// `None` when every name was tried.
pub fn next_license_probe(repo_url: &str, tried: usize) -> (r: Option<String>)
    ensures
        tried < LICENSE_FILE_COUNT ==> (r matches Some(u) && u@ == spec_license_probe_url(
            repo_url@,
            tried as int,
        )),
        tried >= LICENSE_FILE_COUNT ==> r is None,
{
    match license_file(tried) {
        Some(name) => Some(String::from_str(repo_url).concat("/blob/master/").concat(name)),
        None => None,
    }
}

/// Turns what the repository pattern kept into the candidate address, or
/// reports that the field did not have the shape.
pub fn repo_url_from_capture(kept: Option<String>) -> (r: Result<String, ReportError>)
    ensures
        match kept {
            Some(k) => r matches Ok(u) && u@ == spec_repo_url(k@),
            None => r matches Err(ReportError::InvalidRepoUrl),
        },
{
    match kept {
        Some(k) => {
            let s = k.as_str();
            if s.unicode_len() >= 2 && s.get_char(0) == '/' && s.get_char(1) == '/' {
                Ok(String::from_str("https:").concat(s))
            } else {
                Ok(String::from_str("https://").concat(s))
            }
        },
        None => Err(ReportError::InvalidRepoUrl),
    }
}

/// A status code that stands for success: one of the two hundreds.
pub open spec fn success_status(status: u16) -> bool {
    200 <= status && status < 300
}

/// Whether an answer with this status code is a success.
pub fn is_success(status: u16) -> (r: bool)
    ensures
        r == success_status(status),
{
    200 <= status && status < 300
}

/// The text of a string that may be absent.
pub open spec fn text_of(s: Option<String>) -> Option<Seq<char>> {
    match s {
        Some(t) => Some(t@),
        None => None,
    }
}

/// What the registry said about a package, as far as it counts: the parsed
/// document of a successful answer. An answer with another status is a
/// failed lookup, whatever its body holds.
pub fn package_from_answer(status: u16, parsed: Option<PackageInfo>) -> (r: Option<PackageInfo>)
    ensures
        r == if success_status(status) {
            parsed
        } else {
            None
        },
{
    if is_success(status) {
        parsed
    } else {
        None
    }
}

/// The address that stands for a repository after it was asked: where the
/// answer was a success, the address the request ended at; otherwise the
/// candidate.
pub fn resolve_repo_url(candidate: String, status: u16, final_url: String) -> (r: String)
    ensures
        r@ == if success_status(status) {
            final_url@
        } else {
            candidate@
        },
{
    if is_success(status) {
        final_url
    } else {
        candidate
    }
}

/// What came back when the license page of a module was asked for.
pub enum PageAnswer {
    /// The request did not get through.
    Failed,
    /// The page answered with this status code and body.
    Answered { status: u16, body: String },
}

/// The license name that an answer gives: the one on the page of a
/// successful answer, if the page carries one; nothing otherwise.
pub open spec fn spec_page_license(answer: PageAnswer) -> Option<Seq<char>> {
    match answer {
        PageAnswer::Failed => None,
        PageAnswer::Answered { status, body } => if success_status(status) {
            group_one(LICENSE_PATTERN@, body@)
        } else {
            None
        },
    }
}

/// What follows the registry lookup of a package.
pub enum JsStep {
    /// The lookup failed: the package gets no row.
    Skip,
    /// The repository at this candidate address is asked next.
    Validate { candidate: String },
}

/// What follows the probe of one license file name.
pub enum ProbeStep {
    /// The file at this address answered: it is the license link.
    Found { url: String },
    /// The file at this address is probed next.
    Next { url: String },
    /// Every name was tried: the license link stays empty.
    GiveUp,
}

/// What the probe of file name number `tried` leads to: the address just
/// probed where it answered, else the next address, else nothing. Beyond
/// the last name there is nothing to go on with.
pub open spec fn spec_after_probe(repo_url: Seq<char>, tried: int, success: bool) -> Option<
    (bool, Seq<char>),
> {
    if tried >= LICENSE_FILE_COUNT {
        None
    } else if success {
        Some((true, spec_license_probe_url(repo_url, tried)))
    } else if tried + 1 < LICENSE_FILE_COUNT {
        Some((false, spec_license_probe_url(repo_url, tried + 1)))
    } else {
        None
    }
}

/// Value of a [`ProbeStep`]: whether a license file was found, and the
/// address concerned.
pub open spec fn probe_step_view(step: ProbeStep) -> Option<(bool, Seq<char>)> {
    match step {
        ProbeStep::Found { url } => Some((true, url@)),
        ProbeStep::Next { url } => Some((false, url@)),
        ProbeStep::GiveUp => None,
    }
}

/// Decides what follows the probe of license file name number `tried`,
/// which was answered with this status code.
pub fn after_license_probe(repo_url: &str, tried: usize, status: u16) -> (r: ProbeStep)
    ensures
        probe_step_view(r) == spec_after_probe(repo_url@, tried as int, success_status(status)),
{
    if tried >= LICENSE_FILE_COUNT {
        ProbeStep::GiveUp
    } else if is_success(status) {
        match next_license_probe(repo_url, tried) {
            Some(url) => ProbeStep::Found { url },
            None => ProbeStep::GiveUp,
        }
    } else {
        match next_license_probe(repo_url, tried + 1) {
            Some(url) => ProbeStep::Next { url },
            None => ProbeStep::GiveUp,
        }
    }
}

/// The two fixed patterns of the lookups, compiled.
pub struct ReportPatterns {
    repo: Regex,
    license: Regex,
}

impl ReportPatterns {
    #[verifier::type_invariant]
    spec fn built_from_text(self) -> bool {
        &&& source_pattern(self.repo) == Some(REPO_PATTERN@)
        &&& source_pattern(self.license) == Some(LICENSE_PATTERN@)
    }

    /// Compiles the two patterns; `None` where one of them is refused.
    pub fn new() -> (r: Option<ReportPatterns>)
        ensures
            (r is Some) == (compiles(REPO_PATTERN@) && compiles(LICENSE_PATTERN@)),
    {
        let repo = match compile(REPO_PATTERN) {
            Ok(re) => re,
            Err(_) => {
                return None;
            },
        };
        match compile(LICENSE_PATTERN) {
            Ok(license) => Some(ReportPatterns { repo, license }),
            Err(_) => None,
        }
    }

    /// The candidate repository address of a raw repository field.
    pub fn candidate_repo_url(&self, raw: &str) -> (r: Result<String, ReportError>)
        ensures
            match group_one(REPO_PATTERN@, raw@) {
                Some(k) => r matches Ok(u) && u@ == spec_repo_url(k),
                None => r matches Err(ReportError::InvalidRepoUrl),
            },
    {
        proof {
            use_type_invariant(self);
        }
        repo_url_from_capture(capture_group_one(&self.repo, raw))
    }

    /// Decides what follows the registry lookup of a package: nothing where
    /// it failed; else the repository is asked at the candidate address,
    /// unless the repository field does not have the shape, which is an
    /// error.
    pub fn after_package_lookup(&self, fetched: &Option<PackageInfo>) -> (r: Result<
        JsStep,
        ReportError,
    >)
        ensures
            match *fetched {
                None => r matches Ok(JsStep::Skip),
                Some(info) => match group_one(REPO_PATTERN@, info.repository.url@) {
                    Some(k) => r matches Ok(JsStep::Validate { candidate }) && candidate@
                        == spec_repo_url(k),
                    None => r matches Err(ReportError::InvalidRepoUrl),
                },
            },
    {
        match fetched {
            None => Ok(JsStep::Skip),
            Some(info) => match self.candidate_repo_url(info.repository.url.as_str()) {
                Ok(candidate) => Ok(JsStep::Validate { candidate }),
                Err(e) => Err(e),
            },
        }
    }

    /// The license name on a license page: `None` where the answer was no
    /// success or the page does not carry one.
    pub fn license_from_page(&self, status: u16, page: &str) -> (r: Option<String>)
        ensures
            text_of(r) == if success_status(status) {
                group_one(LICENSE_PATTERN@, page@)
            } else {
                None
            },
    {
        proof {
            use_type_invariant(self);
        }
        if is_success(status) {
            capture_group_one(&self.license, page)
        } else {
            None
        }
    }

    /// What the lookup of a module comes to. The module keeps its row
    /// whatever came back: a request that did not get through, an answer
    /// that was no success and a page without a license name all leave the
    /// license empty.
    pub fn module_lookup(&self, dep: &DepsEntry, answer: &PageAnswer) -> (r: GoLookup)
        ensures
            r.dep@ == dep@,
            text_of(r.license) == spec_page_license(*answer),
    {
        let license = match answer {
            PageAnswer::Failed => None,
            PageAnswer::Answered { status, body } => self.license_from_page(*status, body.as_str()),
        };
        GoLookup { dep: dep.duplicate(), license }
    }
}

} // verus!
