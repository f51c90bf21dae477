//! What can go wrong while scanning manifests and while building the report.

use vstd::prelude::*;

verus! {

/// Failures of the manifest scan. Each of them ends the run.
#[derive(Debug)]
pub enum ScanError {
    /// The root directory, as given, could not be resolved.
    InvalidDirectory(String),
    /// A user-supplied pattern is not a regular expression.
    InvalidPattern,
    /// The manifest at this path could not be read or understood.
    ManifestParseError(String),
}

/// Failures of the report builder.
#[derive(Debug)]
pub enum ReportError {
    /// The repository field of a package does not have the expected shape.
    InvalidRepoUrl,
    /// The registry could not be asked about a package.
    PackageFetchError(String),
    /// A cell could not be written.
    WorksheetError(String),
}

impl ScanError {
    /// The diagnostic shown to the user.
    pub fn message(&self) -> (r: String)
        ensures
            r@ == match *self {
                ScanError::InvalidDirectory(d) => "Failed to canonicalize directory: "@ + d@,
                ScanError::InvalidPattern => "Failed to compile regex pattern"@,
                ScanError::ManifestParseError(p) => "Failed to parse "@ + p@,
            },
    {
        match self {
            ScanError::InvalidDirectory(d) => String::from_str(
                "Failed to canonicalize directory: ",
            ).concat(d.as_str()),
            ScanError::InvalidPattern => String::from_str("Failed to compile regex pattern"),
            ScanError::ManifestParseError(p) => String::from_str("Failed to parse ").concat(
                p.as_str(),
            ),
        }
    }
}

impl ReportError {
    /// The diagnostic shown to the user.
    pub fn message(&self) -> (r: String)
        ensures
            r@ == match *self {
                ReportError::InvalidRepoUrl => "Invalid repository URL format"@,
                ReportError::PackageFetchError(m) => "Failed to fetch package information: "@
                    + m@,
                ReportError::WorksheetError(m) => "Worksheet operation failed: "@ + m@,
            },
    {
        match self {
            ReportError::InvalidRepoUrl => String::from_str("Invalid repository URL format"),
            ReportError::PackageFetchError(m) => String::from_str(
                "Failed to fetch package information: ",
            ).concat(m.as_str()),
            ReportError::WorksheetError(m) => String::from_str(
                "Worksheet operation failed: ",
            ).concat(m.as_str()),
        }
    }
}

} // verus!
