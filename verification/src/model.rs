//! The structured form of an audit report: one record per vulnerable
//! package, each carrying a sequence of via entries that are either bare
//! package references or full advisories.

use vstd::prelude::*;

verus! {

/// A whole audit report: schema version, descriptive metadata, and one
/// vulnerability record per package name. The package names are the keys
/// of the report's vulnerability mapping; the metadata counts are
/// display-only and non-authoritative.
#[derive(Debug, Clone)]
pub struct NpmAudit {
    pub audit_report_version: u8,
    pub metadata: Metadata,
    pub vulnerabilities: Vec<(String, NpmVulnerability)>,
}

impl NpmAudit {
    /// The report's vulnerability mapping has one entry per package name.
    pub open spec fn keys_unique(&self) -> bool {
        forall|i: int, j: int|
            0 <= i < j < self.vulnerabilities@.len() ==> self.vulnerabilities@[i].0@
                != self.vulnerabilities@[j].0@
    }
}

/// Descriptive counts reported beside the vulnerability mapping.
#[derive(Debug, Clone, Default)]
pub struct Metadata {
    pub dependencies: DependencyCount,
    pub vulnerabilities: VulnerabilityCount,
}

#[derive(Debug, Clone, Default, PartialEq, Eq, Structural)]
pub struct DependencyCount {
    pub dev: u32,
    pub optional: u32,
    pub peer: u32,
    pub peer_optional: u32,
    pub prod: u32,
    pub total: u32,
}

#[derive(Debug, Clone, Default, PartialEq, Eq, Structural)]
pub struct VulnerabilityCount {
    pub critical: u32,
    pub high: u32,
    pub moderate: u32,
    pub low: u32,
    pub info: u32,
    pub total: u32,
}

/// One package's vulnerability record.
#[derive(Debug, Clone)]
pub struct NpmVulnerability {
    pub name: String,
    pub is_direct: bool,
    /// Headline severity string; not authoritative for ranking.
    pub severity: String,
    /// The report's fix-availability value, kept in its raw union form
    /// (boolean or detail object) and resolved by the classifier.
    pub fix_available: FixInfo,
    pub range: String,
    pub nodes: Vec<String>,
    pub via: Vec<ViaEntry>,
}

/// The shape of the report's fix-availability value: a plain boolean, a
/// non-null detail object, or anything else (absent, null, or another
/// value kind).
#[derive(Debug, Clone, Copy, PartialEq, Eq, Structural)]
pub enum FixInfo {
    Flag(bool),
    Detail,
    Missing,
}

/// One entry of a record's via sequence. The source data carries no tag:
/// a bare string is a transitive package reference, an object is a full
/// advisory.
#[derive(Debug, Clone)]
pub enum ViaEntry {
    /// Transitive dependency
    Package(String),
    /// Full advisory
    Advisory(ViaAdvisory),
}

/// A structured vulnerability disclosure.
#[derive(Debug)]
pub struct ViaAdvisory {
    pub name: String,
    pub severity: String,
    pub title: String,
    pub url: String,
    pub dependency: Option<String>,
    pub range: Option<String>,
}

impl Clone for ViaAdvisory {
    fn clone(&self) -> (r: Self)
        ensures
            r == *self,
    {
        ViaAdvisory {
            name: self.name.clone(),
            severity: self.severity.clone(),
            title: self.title.clone(),
            url: self.url.clone(),
            dependency: match &self.dependency {
                Some(d) => Some(d.clone()),
                None => None,
            },
            range: match &self.range {
                Some(g) => Some(g.clone()),
                None => None,
            },
        }
    }
}

} // verus!
