//! Dependency-license reporting: manifest scanning rules, dependency
//! accumulation, metadata enrichment decisions and report rows.

pub mod error;
pub mod types;
pub mod depmap;
pub mod patterns;
pub mod scan;
pub mod js_deps;
pub mod go_deps;
pub mod enrich;
pub mod report;
pub mod cli;
