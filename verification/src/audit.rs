//! Parsing raw audit-report text into the structured report: whitespace
//! detection, schema validation, and field extraction, with unknown
//! fields ignored.

use vstd::prelude::*;

use crate::json::{json_of, obj_get, obj_lookup, parse_json_text, Json};
use crate::model::{
    DependencyCount, FixInfo, Metadata, NpmAudit, NpmVulnerability, ViaAdvisory, ViaEntry,
    VulnerabilityCount,
};

verus! {

/// Why a report could not be read: no usable input bytes at all, or a
/// schema or syntax violation with its description.
#[derive(Debug)]
pub enum AuditError {
    Empty,
    Malformed(String),
}

/// The human-readable description of a parse error.
pub open spec fn spec_error_message(e: AuditError) -> Seq<char> {
    match e {
        AuditError::Empty => "npm audit produced empty output"@,
        AuditError::Malformed(d) => "Failed to parse npm audit JSON: "@ + d@,
    }
}

impl AuditError {
    /// Describes the error as the original command-line tool worded it.
    pub fn message(&self) -> (r: String)
        ensures
            r@ == spec_error_message(*self),
    {
        match self {
            AuditError::Empty => String::from_str("npm audit produced empty output"),
            AuditError::Malformed(d) => {
                let mut m = String::from_str("Failed to parse npm audit JSON: ");
                m.append(d.as_str());
                m
            },
        }
    }
}

/// A schema violation with the given description.
fn malformed(detail: &str) -> (r: AuditError)
    ensures
        r matches AuditError::Malformed(d) && d@ == detail@,
{
    AuditError::Malformed(detail.to_owned())
}

/// The ASCII whitespace characters.
pub open spec fn is_space(c: char) -> bool {
    c == ' ' || c == '\t' || c == '\n' || c == '\r'
}

/// The text holds nothing but whitespace.
pub open spec fn all_whitespace(s: Seq<char>) -> bool {
    forall|i: int| 0 <= i < s.len() ==> is_space(#[trigger] s[i])
}

/// Decides whether the input text holds nothing but whitespace.
fn input_is_blank(s: &str) -> (r: bool)
    ensures
        r == all_whitespace(s@),
{
    let len = s.unicode_len();
    let mut i: usize = 0;
    while i < len
        invariant
            i <= len,
            len == s@.len(),
            forall|k: int| 0 <= k < i ==> is_space(#[trigger] s@[k]),
        decreases len - i,
    {
        let c = s.get_char(i);
        if !(c == ' ' || c == '\t' || c == '\n' || c == '\r') {
            return false;
        }
        i = i + 1;
    }
    true
}

/// How a fix-availability JSON value, or its absence, reads as a raw
/// fix-availability shape.
pub open spec fn spec_fix_of_json(j: Option<Json>) -> FixInfo {
    match j {
        Some(Json::Bool(b)) => FixInfo::Flag(b),
        Some(Json::Obj(_)) => FixInfo::Detail,
        _ => FixInfo::Missing,
    }
}

/// Reads the fix-availability member of a record object: a boolean stands
/// for itself, a detail object is kept as such, and any other shape, or an
/// absent member, reads as missing.
fn parse_fix(entries: &Vec<(String, Json)>) -> (r: FixInfo)
    ensures
        r == spec_fix_of_json(obj_lookup(entries@, "fixAvailable"@)),
{
    match obj_get(entries, "fixAvailable") {
        Some(Json::Bool(b)) => FixInfo::Flag(*b),
        Some(Json::Obj(_)) => FixInfo::Detail,
        _ => FixInfo::Missing,
    }
}

/// An optional text member is well-formed: absent, null, or a string.
pub open spec fn spec_opt_text_valid(j: Option<Json>) -> bool {
    match j {
        None => true,
        Some(Json::Null) => true,
        Some(Json::Text(_)) => true,
        _ => false,
    }
}

/// The characters of an optional text member, where it is a string.
pub open spec fn spec_opt_text(j: Option<Json>) -> Option<Seq<char>> {
    match j {
        Some(Json::Text(s)) => Some(s@),
        _ => None,
    }
}

/// An optional owned string holds exactly the given optional characters.
pub open spec fn spec_opt_str_eq(a: Option<String>, b: Option<Seq<char>>) -> bool {
    match (a, b) {
        (Option::None, Option::None) => true,
        (Option::Some(x), Option::Some(y)) => x@ == y,
        _ => false,
    }
}

/// Reads an optional text member: absent and null both read as nothing.
fn parse_opt_text(entries: &Vec<(String, Json)>, key: &str) -> (r: Result<
    Option<String>,
    AuditError,
>)
    ensures
        spec_opt_text_valid(obj_lookup(entries@, key@)) ==> (r matches Ok(v) && spec_opt_str_eq(
            v,
            spec_opt_text(obj_lookup(entries@, key@)),
        )),
        !spec_opt_text_valid(obj_lookup(entries@, key@)) ==> (r matches Err(e) && e matches
            AuditError::Malformed(_)),
{
    match obj_get(entries, key) {
        None => Ok(None),
        Some(Json::Null) => Ok(None),
        Some(Json::Text(s)) => Ok(Some(s.clone())),
        Some(_) => Err(malformed("expected a string or null")),
    }
}

/// Reads a required text member.
fn parse_text(entries: &Vec<(String, Json)>, key: &str) -> (r: Result<String, AuditError>)
    ensures
        (obj_lookup(entries@, key@) matches Some(Json::Text(s))) ==> (r matches Ok(v) && (
        obj_lookup(entries@, key@) matches Some(Json::Text(s)) && v@ == s@)),
        !(obj_lookup(entries@, key@) matches Some(Json::Text(_))) ==> (r matches Err(e)
            && e matches AuditError::Malformed(_)),
{
    match obj_get(entries, key) {
        Some(Json::Text(s)) => Ok(s.clone()),
        _ => Err(malformed("expected a string")),
    }
}

/// A count member is well-formed: an integer that fits 32 unsigned bits.
pub open spec fn spec_u32_valid(j: Option<Json>) -> bool {
    j matches Some(Json::UInt(u)) && u <= u32::MAX
}

/// The value of a count member, where it is well-formed.
pub open spec fn spec_u32_value(j: Option<Json>) -> u64 {
    match j {
        Some(Json::UInt(u)) => u,
        _ => 0,
    }
}

/// Reads a required count member.
fn parse_u32(entries: &Vec<(String, Json)>, key: &str) -> (r: Result<u32, AuditError>)
    ensures
        spec_u32_valid(obj_lookup(entries@, key@)) ==> (r matches Ok(u) && u as u64
            == spec_u32_value(obj_lookup(entries@, key@))),
        !spec_u32_valid(obj_lookup(entries@, key@)) ==> (r matches Err(e) && e matches
            AuditError::Malformed(_)),
{
    match obj_get(entries, key) {
        Some(Json::UInt(u)) => {
            if *u <= u32::MAX as u64 {
                Ok(*u as u32)
            } else {
                Err(malformed("count out of range"))
            }
        },
        _ => Err(malformed("expected an unsigned integer")),
    }
}

/// An advisory object is well-formed: name, severity, title and url are
/// strings, and dependency and range, where present, are strings or null.
pub open spec fn spec_advisory_valid(entries: Seq<(String, Json)>) -> bool {
    &&& obj_lookup(entries, "name"@) matches Some(Json::Text(_))
    &&& obj_lookup(entries, "severity"@) matches Some(Json::Text(_))
    &&& obj_lookup(entries, "title"@) matches Some(Json::Text(_))
    &&& obj_lookup(entries, "url"@) matches Some(Json::Text(_))
    &&& spec_opt_text_valid(obj_lookup(entries, "dependency"@))
    &&& spec_opt_text_valid(obj_lookup(entries, "range"@))
}

/// The advisory `a` reads exactly the members of the object `entries`.
pub open spec fn spec_advisory_matches(a: ViaAdvisory, entries: Seq<(String, Json)>) -> bool {
    &&& (obj_lookup(entries, "name"@) matches Some(Json::Text(s)) && a.name@ == s@)
    &&& (obj_lookup(entries, "severity"@) matches Some(Json::Text(s)) && a.severity@ == s@)
    &&& (obj_lookup(entries, "title"@) matches Some(Json::Text(s)) && a.title@ == s@)
    &&& (obj_lookup(entries, "url"@) matches Some(Json::Text(s)) && a.url@ == s@)
    &&& spec_opt_str_eq(a.dependency, spec_opt_text(obj_lookup(entries, "dependency"@)))
    &&& spec_opt_str_eq(a.range, spec_opt_text(obj_lookup(entries, "range"@)))
}

/// Reads a full advisory from an object's members.
fn parse_advisory(entries: &Vec<(String, Json)>) -> (r: Result<ViaAdvisory, AuditError>)
    ensures
        spec_advisory_valid(entries@) ==> (r matches Ok(a) && spec_advisory_matches(a, entries@)),
        !spec_advisory_valid(entries@) ==> (r matches Err(e) && e matches AuditError::Malformed(
            _,
        )),
{
    let name = match parse_text(entries, "name") {
        Ok(v) => v,
        Err(e) => {
            return Err(e);
        },
    };
    let severity = match parse_text(entries, "severity") {
        Ok(v) => v,
        Err(e) => {
            return Err(e);
        },
    };
    let title = match parse_text(entries, "title") {
        Ok(v) => v,
        Err(e) => {
            return Err(e);
        },
    };
    let url = match parse_text(entries, "url") {
        Ok(v) => v,
        Err(e) => {
            return Err(e);
        },
    };
    let dependency = match parse_opt_text(entries, "dependency") {
        Ok(v) => v,
        Err(e) => {
            return Err(e);
        },
    };
    let range = match parse_opt_text(entries, "range") {
        Ok(v) => v,
        Err(e) => {
            return Err(e);
        },
    };
    Ok(ViaAdvisory { name, severity, title, url, dependency, range })
}

/// A via entry is well-formed: a bare string, or a well-formed advisory
/// object. No other value kind is allowed.
pub open spec fn spec_via_valid(j: Json) -> bool {
    match j {
        Json::Text(_) => true,
        Json::Obj(e) => spec_advisory_valid(e@),
        _ => false,
    }
}

/// The via entry `v` reads exactly the JSON value `j`: a bare string reads
/// as a package reference, an object as a full advisory.
pub open spec fn spec_via_matches(v: ViaEntry, j: Json) -> bool {
    match j {
        Json::Text(s) => v matches ViaEntry::Package(p) && p@ == s@,
        Json::Obj(e) => v matches ViaEntry::Advisory(a) && spec_advisory_matches(a, e@),
        _ => false,
    }
}

/// A via entry read from a JSON value: the value is well-formed and the
/// entry reads it exactly.
pub open spec fn spec_via_entry_ok(v: ViaEntry, j: Json) -> bool {
    spec_via_matches(v, j) && spec_via_valid(j)
}

/// Reads one via entry, telling the two shapes apart by the value kind:
/// an object decodes as an advisory, a bare string as a package reference.
fn parse_via_entry(j: &Json) -> (r: Result<ViaEntry, AuditError>)
    ensures
        spec_via_valid(*j) ==> (r matches Ok(v) && spec_via_matches(v, *j)),
        !spec_via_valid(*j) ==> (r matches Err(e) && e matches AuditError::Malformed(_)),
{
    match j {
        Json::Text(s) => Ok(ViaEntry::Package(s.clone())),
        Json::Obj(entries) => match parse_advisory(entries) {
            Ok(a) => Ok(ViaEntry::Advisory(a)),
            Err(e) => Err(e),
        },
        _ => Err(malformed("via entry must be a string or an object")),
    }
}

/// A node entry and its JSON source agree: the JSON value is a string
/// holding exactly the entry's characters.
pub open spec fn spec_node_matches(s: String, j: Json) -> bool {
    j matches Json::Text(t) && s@ == t@
}

/// A vulnerability record object is well-formed: name, severity and range
/// are strings, isDirect a boolean, nodes an array of strings, and via an
/// array of well-formed via entries. The fixAvailable member may have any
/// shape, or be absent.
pub open spec fn spec_vuln_valid(j: Json) -> bool {
    match j {
        Json::Obj(e) => {
            &&& obj_lookup(e@, "name"@) matches Some(Json::Text(_))
            &&& obj_lookup(e@, "isDirect"@) matches Some(Json::Bool(_))
            &&& obj_lookup(e@, "severity"@) matches Some(Json::Text(_))
            &&& obj_lookup(e@, "range"@) matches Some(Json::Text(_))
            &&& (obj_lookup(e@, "nodes"@) matches Some(Json::Arr(items)) && (forall|i: int|
                0 <= i < items@.len() ==> (#[trigger] items@[i]) matches Json::Text(_)))
            &&& (obj_lookup(e@, "via"@) matches Some(Json::Arr(items)) && (forall|i: int|
                0 <= i < items@.len() ==> spec_via_valid(#[trigger] items@[i])))
        },
        _ => false,
    }
}

/// The record `v` reads exactly the members of the JSON object `j`.
pub open spec fn spec_vuln_matches(v: NpmVulnerability, j: Json) -> bool {
    match j {
        Json::Obj(e) => {
            &&& (obj_lookup(e@, "name"@) matches Some(Json::Text(s)) && v.name@ == s@)
            &&& (obj_lookup(e@, "isDirect"@) matches Some(Json::Bool(b)) && v.is_direct == b)
            &&& (obj_lookup(e@, "severity"@) matches Some(Json::Text(s)) && v.severity@ == s@)
            &&& v.fix_available == spec_fix_of_json(obj_lookup(e@, "fixAvailable"@))
            &&& (obj_lookup(e@, "range"@) matches Some(Json::Text(s)) && v.range@ == s@)
            &&& (obj_lookup(e@, "nodes"@) matches Some(Json::Arr(items)) && v.nodes@.len()
                == items@.len() && (forall|i: int|
                0 <= i < items@.len() ==> spec_node_matches(#[trigger] v.nodes@[i], items@[i])))
            &&& (obj_lookup(e@, "via"@) matches Some(Json::Arr(items)) && v.via@.len()
                == items@.len() && (forall|i: int|
                0 <= i < items@.len() ==> spec_via_matches(#[trigger] v.via@[i], items@[i])))
        },
        _ => false,
    }
}

/// Reads one vulnerability record from its JSON value.
#[verifier::loop_isolation(false)]
fn parse_vuln(j: &Json) -> (r: Result<NpmVulnerability, AuditError>)
    ensures
        spec_vuln_valid(*j) ==> (r matches Ok(v) && spec_vuln_matches(v, *j)),
        !spec_vuln_valid(*j) ==> (r matches Err(e) && e matches AuditError::Malformed(_)),
{
    let entries = match j {
        Json::Obj(entries) => entries,
        _ => {
            return Err(malformed("vulnerability record must be an object"));
        },
    };
    let name = match parse_text(entries, "name") {
        Ok(v) => v,
        Err(e) => {
            return Err(e);
        },
    };
    let is_direct = match obj_get(entries, "isDirect") {
        Some(Json::Bool(b)) => *b,
        _ => {
            return Err(malformed("isDirect must be a boolean"));
        },
    };
    let severity = match parse_text(entries, "severity") {
        Ok(v) => v,
        Err(e) => {
            return Err(e);
        },
    };
    let fix_available = parse_fix(entries);
    let range = match parse_text(entries, "range") {
        Ok(v) => v,
        Err(e) => {
            return Err(e);
        },
    };
    let node_items = match obj_get(entries, "nodes") {
        Some(Json::Arr(items)) => items,
        _ => {
            return Err(malformed("nodes must be an array"));
        },
    };
    let mut nodes: Vec<String> = Vec::new();
    let mut i: usize = 0;
    while i < node_items.len()
        invariant
            i <= node_items@.len(),
            nodes@.len() == i,
            forall|k: int|
                0 <= k < i ==> spec_node_matches(#[trigger] nodes@[k], node_items@[k]),
        decreases node_items@.len() - i,
    {
        match &node_items[i] {
            Json::Text(s) => {
                nodes.push(s.clone());
            },
            _ => {
                return Err(malformed("nodes must hold strings"));
            },
        }
        i = i + 1;
    }
    let via_items = match obj_get(entries, "via") {
        Some(Json::Arr(items)) => items,
        _ => {
            return Err(malformed("via must be an array"));
        },
    };
    let mut via_list: Vec<ViaEntry> = Vec::new();
    let mut i: usize = 0;
    while i < via_items.len()
        invariant
            i <= via_items@.len(),
            via_list@.len() == i,
            forall|k: int|
                0 <= k < i ==> spec_via_entry_ok(#[trigger] via_list@[k], via_items@[k]),
        decreases via_items@.len() - i,
    {
        match parse_via_entry(&via_items[i]) {
            Ok(v) => {
                via_list.push(v);
            },
            Err(e) => {
                return Err(e);
            },
        }
        i = i + 1;
    }
    proof {
        assert forall|k: int| 0 <= k < node_items@.len() implies (#[trigger] node_items@[k]) matches
            Json::Text(_) by {
            assert(spec_node_matches(nodes@[k], node_items@[k]));
        }
        assert forall|k: int| 0 <= k < via_items@.len() implies spec_via_valid(
            #[trigger] via_items@[k],
        ) by {
            assert(spec_via_entry_ok(via_list@[k], via_items@[k]));
        }
        assert forall|k: int| 0 <= k < via_items@.len() implies spec_via_matches(
            #[trigger] via_list@[k],
            via_items@[k],
        ) by {
            assert(spec_via_entry_ok(via_list@[k], via_items@[k]));
        }
    }
    Ok(NpmVulnerability { name, is_direct, severity, fix_available, range, nodes, via: via_list })
}

/// A dependency-count object is well-formed: all six counts are present
/// and fit 32 unsigned bits.
pub open spec fn spec_depcount_valid(e: Seq<(String, Json)>) -> bool {
    &&& spec_u32_valid(obj_lookup(e, "dev"@))
    &&& spec_u32_valid(obj_lookup(e, "optional"@))
    &&& spec_u32_valid(obj_lookup(e, "peer"@))
    &&& spec_u32_valid(obj_lookup(e, "peerOptional"@))
    &&& spec_u32_valid(obj_lookup(e, "prod"@))
    &&& spec_u32_valid(obj_lookup(e, "total"@))
}

/// The dependency counts `d` read exactly the members of `e`.
pub open spec fn spec_depcount_matches(d: DependencyCount, e: Seq<(String, Json)>) -> bool {
    &&& d.dev as u64 == spec_u32_value(obj_lookup(e, "dev"@))
    &&& d.optional as u64 == spec_u32_value(obj_lookup(e, "optional"@))
    &&& d.peer as u64 == spec_u32_value(obj_lookup(e, "peer"@))
    &&& d.peer_optional as u64 == spec_u32_value(obj_lookup(e, "peerOptional"@))
    &&& d.prod as u64 == spec_u32_value(obj_lookup(e, "prod"@))
    &&& d.total as u64 == spec_u32_value(obj_lookup(e, "total"@))
}

/// Reads the dependency counts from an object's members.
fn parse_depcount(entries: &Vec<(String, Json)>) -> (r: Result<DependencyCount, AuditError>)
    ensures
        spec_depcount_valid(entries@) ==> (r matches Ok(d) && spec_depcount_matches(d, entries@)),
        !spec_depcount_valid(entries@) ==> (r matches Err(e) && e matches AuditError::Malformed(
            _,
        )),
{
    let dev = match parse_u32(entries, "dev") {
        Ok(v) => v,
        Err(e) => {
            return Err(e);
        },
    };
    let optional = match parse_u32(entries, "optional") {
        Ok(v) => v,
        Err(e) => {
            return Err(e);
        },
    };
    let peer = match parse_u32(entries, "peer") {
        Ok(v) => v,
        Err(e) => {
            return Err(e);
        },
    };
    let peer_optional = match parse_u32(entries, "peerOptional") {
        Ok(v) => v,
        Err(e) => {
            return Err(e);
        },
    };
    let prod = match parse_u32(entries, "prod") {
        Ok(v) => v,
        Err(e) => {
            return Err(e);
        },
    };
    let total = match parse_u32(entries, "total") {
        Ok(v) => v,
        Err(e) => {
            return Err(e);
        },
    };
    Ok(DependencyCount { dev, optional, peer, peer_optional, prod, total })
}

/// A vulnerability-count object is well-formed: all six counts are present
/// and fit 32 unsigned bits.
pub open spec fn spec_vulncount_valid(e: Seq<(String, Json)>) -> bool {
    &&& spec_u32_valid(obj_lookup(e, "critical"@))
    &&& spec_u32_valid(obj_lookup(e, "high"@))
    &&& spec_u32_valid(obj_lookup(e, "moderate"@))
    &&& spec_u32_valid(obj_lookup(e, "low"@))
    &&& spec_u32_valid(obj_lookup(e, "info"@))
    &&& spec_u32_valid(obj_lookup(e, "total"@))
}

/// The vulnerability counts `d` read exactly the members of `e`.
pub open spec fn spec_vulncount_matches(d: VulnerabilityCount, e: Seq<(String, Json)>) -> bool {
    &&& d.critical as u64 == spec_u32_value(obj_lookup(e, "critical"@))
    &&& d.high as u64 == spec_u32_value(obj_lookup(e, "high"@))
    &&& d.moderate as u64 == spec_u32_value(obj_lookup(e, "moderate"@))
    &&& d.low as u64 == spec_u32_value(obj_lookup(e, "low"@))
    &&& d.info as u64 == spec_u32_value(obj_lookup(e, "info"@))
    &&& d.total as u64 == spec_u32_value(obj_lookup(e, "total"@))
}

/// Reads the vulnerability counts from an object's members.
fn parse_vulncount(entries: &Vec<(String, Json)>) -> (r: Result<VulnerabilityCount, AuditError>)
    ensures
        spec_vulncount_valid(entries@) ==> (r matches Ok(d) && spec_vulncount_matches(
            d,
            entries@,
        )),
        !spec_vulncount_valid(entries@) ==> (r matches Err(e) && e matches AuditError::Malformed(
            _,
        )),
{
    let critical = match parse_u32(entries, "critical") {
        Ok(v) => v,
        Err(e) => {
            return Err(e);
        },
    };
    let high = match parse_u32(entries, "high") {
        Ok(v) => v,
        Err(e) => {
            return Err(e);
        },
    };
    let moderate = match parse_u32(entries, "moderate") {
        Ok(v) => v,
        Err(e) => {
            return Err(e);
        },
    };
    let low = match parse_u32(entries, "low") {
        Ok(v) => v,
        Err(e) => {
            return Err(e);
        },
    };
    let info = match parse_u32(entries, "info") {
        Ok(v) => v,
        Err(e) => {
            return Err(e);
        },
    };
    let total = match parse_u32(entries, "total") {
        Ok(v) => v,
        Err(e) => {
            return Err(e);
        },
    };
    Ok(VulnerabilityCount { critical, high, moderate, low, info, total })
}

/// A metadata object is well-formed: it carries well-formed dependency and
/// vulnerability counts.
pub open spec fn spec_metadata_valid(e: Seq<(String, Json)>) -> bool {
    &&& (obj_lookup(e, "dependencies"@) matches Some(Json::Obj(d)) && spec_depcount_valid(d@))
    &&& (obj_lookup(e, "vulnerabilities"@) matches Some(Json::Obj(v)) && spec_vulncount_valid(v@))
}

/// The metadata `m` reads exactly the members of `e`.
pub open spec fn spec_metadata_matches(m: Metadata, e: Seq<(String, Json)>) -> bool {
    &&& (obj_lookup(e, "dependencies"@) matches Some(Json::Obj(d)) && spec_depcount_matches(
        m.dependencies,
        d@,
    ))
    &&& (obj_lookup(e, "vulnerabilities"@) matches Some(Json::Obj(v)) && spec_vulncount_matches(
        m.vulnerabilities,
        v@,
    ))
}

/// Reads the metadata from an object's members.
fn parse_metadata(entries: &Vec<(String, Json)>) -> (r: Result<Metadata, AuditError>)
    ensures
        spec_metadata_valid(entries@) ==> (r matches Ok(m) && spec_metadata_matches(m, entries@)),
        !spec_metadata_valid(entries@) ==> (r matches Err(e) && e matches AuditError::Malformed(
            _,
        )),
{
    let dependencies = match obj_get(entries, "dependencies") {
        Some(Json::Obj(d)) => match parse_depcount(d) {
            Ok(v) => v,
            Err(e) => {
                return Err(e);
            },
        },
        _ => {
            return Err(malformed("dependencies must be an object"));
        },
    };
    let vulnerabilities = match obj_get(entries, "vulnerabilities") {
        Some(Json::Obj(v)) => match parse_vulncount(v) {
            Ok(c) => c,
            Err(e) => {
                return Err(e);
            },
        },
        _ => {
            return Err(malformed("vulnerability counts must be an object"));
        },
    };
    Ok(Metadata { dependencies, vulnerabilities })
}

/// A report document is well-formed: an object whose version fits a byte,
/// whose metadata is well-formed, and whose vulnerability mapping is an
/// object of well-formed records.
pub open spec fn spec_audit_valid(doc: Json) -> bool {
    match doc {
        Json::Obj(e) => {
            &&& (obj_lookup(e@, "auditReportVersion"@) matches Some(Json::UInt(u)) && u <= u8::MAX)
            &&& (obj_lookup(e@, "metadata"@) matches Some(Json::Obj(m)) && spec_metadata_valid(m@))
            &&& (obj_lookup(e@, "vulnerabilities"@) matches Some(Json::Obj(vs)) && (forall|i: int|
                0 <= i < vs@.len() ==> spec_vuln_valid((#[trigger] vs@[i]).1)))
        },
        _ => false,
    }
}

/// A parsed mapping entry reads exactly its JSON source: the same key, and
/// a record read from a well-formed record object.
pub open spec fn spec_vuln_entry_ok(out: (String, NpmVulnerability), src: (String, Json)) -> bool {
    &&& out.0@ == src.0@
    &&& spec_vuln_matches(out.1, src.1)
    &&& spec_vuln_valid(src.1)
}

/// The report `a` reads exactly the document `doc`, entry by entry.
pub open spec fn spec_audit_matches(a: NpmAudit, doc: Json) -> bool {
    match doc {
        Json::Obj(e) => {
            &&& (obj_lookup(e@, "auditReportVersion"@) matches Some(Json::UInt(u))
                && a.audit_report_version as u64 == u)
            &&& (obj_lookup(e@, "metadata"@) matches Some(Json::Obj(m)) && spec_metadata_matches(
                a.metadata,
                m@,
            ))
            &&& (obj_lookup(e@, "vulnerabilities"@) matches Some(Json::Obj(vs))
                && a.vulnerabilities@.len() == vs@.len() && (forall|i: int|
                0 <= i < vs@.len() ==> spec_vuln_entry_ok(
                    #[trigger] a.vulnerabilities@[i],
                    vs@[i],
                )))
        },
        _ => false,
    }
}

/// Reads a whole report from its JSON document: unknown members are
/// ignored, and one record is read per entry of the vulnerability mapping,
/// in entry order.
#[verifier::loop_isolation(false)]
pub fn audit_from_json(doc: &Json) -> (r: Result<NpmAudit, AuditError>)
    ensures
        spec_audit_valid(*doc) ==> (r matches Ok(a) && spec_audit_matches(a, *doc)),
        !spec_audit_valid(*doc) ==> (r matches Err(e) && e matches AuditError::Malformed(_)),
{
    let entries = match doc {
        Json::Obj(entries) => entries,
        _ => {
            return Err(malformed("report must be an object"));
        },
    };
    let audit_report_version = match obj_get(entries, "auditReportVersion") {
        Some(Json::UInt(u)) => {
            if *u <= u8::MAX as u64 {
                *u as u8
            } else {
                return Err(malformed("auditReportVersion out of range"));
            }
        },
        _ => {
            return Err(malformed("auditReportVersion must be an unsigned integer"));
        },
    };
    let metadata = match obj_get(entries, "metadata") {
        Some(Json::Obj(m)) => match parse_metadata(m) {
            Ok(v) => v,
            Err(e) => {
                return Err(e);
            },
        },
        _ => {
            return Err(malformed("metadata must be an object"));
        },
    };
    let vuln_items = match obj_get(entries, "vulnerabilities") {
        Some(Json::Obj(vs)) => vs,
        _ => {
            return Err(malformed("vulnerabilities must be an object"));
        },
    };
    let mut vulnerabilities: Vec<(String, NpmVulnerability)> = Vec::new();
    let mut i: usize = 0;
    while i < vuln_items.len()
        invariant
            i <= vuln_items@.len(),
            vulnerabilities@.len() == i,
            forall|k: int|
                0 <= k < i ==> spec_vuln_entry_ok(#[trigger] vulnerabilities@[k], vuln_items@[k]),
        decreases vuln_items@.len() - i,
    {
        let key = vuln_items[i].0.clone();
        match parse_vuln(&vuln_items[i].1) {
            Ok(v) => vulnerabilities.push((key, v)),
            Err(e) => {
                return Err(e);
            },
        }
        i = i + 1;
    }
    proof {
        assert forall|k: int| 0 <= k < vuln_items@.len() implies spec_vuln_valid(
            (#[trigger] vuln_items@[k]).1,
        ) by {
            assert(spec_vuln_entry_ok(vulnerabilities@[k], vuln_items@[k]));
        }
    }
    Ok(NpmAudit { audit_report_version, metadata, vulnerabilities })
}

/// Reads a whole report from the audit command's raw text output. Empty
/// or whitespace-only text is rejected as such without any parse attempt;
/// any other text is read as JSON and then validated against the report
/// schema.
pub fn parse_npm_json(stdout: &str) -> (r: Result<NpmAudit, AuditError>)
    ensures
        all_whitespace(stdout@) ==> (r matches Err(e) && e is Empty),
        !all_whitespace(stdout@) ==> match json_of(stdout@) {
            Some(doc) => {
                &&& (spec_audit_valid(doc) ==> (r matches Ok(a) && spec_audit_matches(a, doc)))
                &&& (!spec_audit_valid(doc) ==> (r matches Err(e) && e matches
                    AuditError::Malformed(_)))
            },
            None => r matches Err(e) && e matches AuditError::Malformed(_),
        },
{
    if input_is_blank(stdout) {
        return Err(AuditError::Empty);
    }
    let doc = match parse_json_text(stdout) {
        Ok(d) => d,
        Err(detail) => {
            return Err(AuditError::Malformed(detail));
        },
    };
    audit_from_json(&doc)
}

} // verus!
