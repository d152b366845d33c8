use deptriage::audit::parse_npm_json;
use deptriage::model::{FixInfo, ViaEntry};
use deptriage::risk::{build_package_risk, Severity};

fn vuln_json(name: &str, is_direct: bool, fix: &str, via: &str) -> String {
    format!(
        "\"{}\": {{\"name\": \"{}\", \"isDirect\": {}, \"severity\": \"high\", \
         \"fixAvailable\": {}, \"range\": \"*\", \"nodes\": [\"node_modules/{}\"], \
         \"via\": [{}]}}",
        name, name, is_direct, fix, name, via
    )
}

fn advisory_json(severity: &str) -> String {
    format!(
        "{{\"name\": \"pkg\", \"severity\": \"{}\", \"title\": \"a title\", \
         \"url\": \"https://example.com/advisory\"}}",
        severity
    )
}

fn report_json(vulns: &[String], total: u32) -> String {
    format!(
        "{{\"auditReportVersion\": 2, \"metadata\": {{\"dependencies\": \
         {{\"dev\": 1, \"optional\": 0, \"peer\": 0, \"peerOptional\": 0, \"prod\": 5, \
         \"total\": 6}}, \"vulnerabilities\": {{\"critical\": 0, \"high\": 0, \
         \"moderate\": 0, \"low\": 0, \"info\": 0, \"total\": {}}}}}, \
         \"vulnerabilities\": {{{}}}}}",
        total,
        vulns.join(", ")
    )
}

#[test]
fn empty_output_is_error() {
    let err = parse_npm_json("").unwrap_err();
    assert!(err.message().contains("empty"));
}

#[test]
fn whitespace_only_output_is_empty_error() {
    let err = parse_npm_json(" \n\t  \r\n ").unwrap_err();
    assert!(err.message().contains("empty"));
}

#[test]
fn test_invalid_json_returns_error() {
    let result = parse_npm_json("{invalid json");
    assert!(result.is_err());
    assert!(result.unwrap_err().message().contains("parse"));
}

#[test]
fn valid_json_with_wrong_schema_is_malformed() {
    let err = parse_npm_json("[1, 2, 3]").unwrap_err();
    assert!(err.message().contains("parse"));
}

#[test]
fn missing_required_field_is_malformed() {
    // a record without "severity"
    let text = "{\"auditReportVersion\": 2, \"metadata\": {\"dependencies\": \
                {\"dev\": 0, \"optional\": 0, \"peer\": 0, \"peerOptional\": 0, \
                \"prod\": 0, \"total\": 0}, \"vulnerabilities\": {\"critical\": 0, \
                \"high\": 0, \"moderate\": 0, \"low\": 0, \"info\": 0, \"total\": 1}}, \
                \"vulnerabilities\": {\"p\": {\"name\": \"p\", \"isDirect\": false, \
                \"fixAvailable\": false, \"range\": \"*\", \"nodes\": [], \"via\": []}}}";
    assert!(parse_npm_json(text).is_err());
}

#[test]
fn parses_whole_report_with_whitespace_around() {
    let body = report_json(
        &[vuln_json("lodash", false, "true", &advisory_json("high"))],
        1,
    );
    let padded = format!("\n\n  {}  \n", body);
    let audit = parse_npm_json(&padded).expect("should handle whitespace");
    assert_eq!(audit.audit_report_version, 2);
    assert_eq!(audit.vulnerabilities.len(), 1);
    assert_eq!(audit.vulnerabilities[0].0, "lodash");
    let record = &audit.vulnerabilities[0].1;
    assert_eq!(record.name, "lodash");
    assert!(!record.is_direct);
    assert_eq!(record.fix_available, FixInfo::Flag(true));
    assert_eq!(record.nodes, vec!["node_modules/lodash".to_string()]);
    match &record.via[0] {
        ViaEntry::Advisory(a) => {
            assert_eq!(a.severity, "high");
            assert_eq!(a.title, "a title");
            assert_eq!(a.url, "https://example.com/advisory");
            assert_eq!(a.dependency, None);
            assert_eq!(a.range, None);
        }
        ViaEntry::Package(_) => panic!("expected an advisory"),
    }
}

#[test]
fn via_strings_decode_as_package_references() {
    let body = report_json(&[vuln_json("a", false, "false", "\"dep-of-a\"")], 1);
    let audit = parse_npm_json(&body).expect("should parse");
    match &audit.vulnerabilities[0].1.via[0] {
        ViaEntry::Package(p) => assert_eq!(p, "dep-of-a"),
        ViaEntry::Advisory(_) => panic!("expected a package reference"),
    }
}

#[test]
fn fix_available_shapes_resolve_per_table() {
    // boolean true / boolean false / object / other (null)
    let cases = [
        ("true", true),
        ("false", false),
        ("{\"name\": \"x\", \"version\": \"2.0.0\", \"isSemVerMajor\": true}", true),
        ("null", false),
    ];
    for (shape, expected) in cases {
        let body = report_json(&[vuln_json("p", false, shape, "")], 1);
        let audit = parse_npm_json(&body).expect("should parse");
        let risks = build_package_risk(audit);
        assert_eq!(risks[0].has_fix, expected, "shape {}", shape);
    }
}

#[test]
fn unknown_extra_fields_are_ignored() {
    let body = "{\"auditReportVersion\": 2, \"surprise\": [1, {}], \"metadata\": \
                {\"dependencies\": {\"dev\": 0, \"optional\": 0, \"peer\": 0, \
                \"peerOptional\": 0, \"prod\": 0, \"total\": 0, \"extra\": 9}, \
                \"vulnerabilities\": {\"critical\": 0, \"high\": 0, \"moderate\": 0, \
                \"low\": 0, \"info\": 0, \"total\": 0}}, \"vulnerabilities\": {}}";
    let audit = parse_npm_json(body).expect("should parse");
    assert_eq!(audit.vulnerabilities.len(), 0);
    assert_eq!(audit.metadata.dependencies.total, 0);
}

#[test]
fn thirteen_key_report_classifies_to_thirteen_risks() {
    let mut vulns = Vec::new();
    let mut vite_advisories = Vec::new();
    for i in 0..11 {
        let sev = if i % 2 == 0 { "moderate" } else { "low" };
        vite_advisories.push(advisory_json(sev));
    }
    vulns.push(vuln_json("vite", true, "true", &vite_advisories.join(", ")));
    for name in [
        "esbuild", "rollup", "postcss", "nanoid", "picocolors", "chokidar", "fsevents",
        "glob", "minimatch", "semver", "debug", "ms",
    ] {
        vulns.push(vuln_json(name, false, "false", &advisory_json("low")));
    }
    let body = report_json(&vulns, 13);

    let audit = parse_npm_json(&body).expect("failed to parse npm audit JSON");
    assert_eq!(audit.audit_report_version, 2);
    assert_eq!(audit.metadata.vulnerabilities.total, 13);

    let risks = build_package_risk(audit);
    assert_eq!(risks.len(), 13);
    let vite = risks.iter().find(|risk| risk.name == "vite").unwrap();
    assert_eq!(vite.name, "vite");
    assert_eq!(vite.vulnerability_count, 11);
    assert_eq!(vite.max_severity, Severity::Moderate);
    assert!(vite.is_direct);
    assert!(vite.has_fix);
}
