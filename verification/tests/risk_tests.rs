use deptriage::model::{FixInfo, Metadata, NpmAudit, NpmVulnerability, ViaAdvisory, ViaEntry};
use deptriage::risk::{
    build_package_risk, filter_risks, max_severity, risk_score, sort_by_priority, PackageRisk,
    Severity,
};

fn advisory(severity: &str) -> ViaAdvisory {
    ViaAdvisory {
        name: "pkg".into(),
        title: "test".into(),
        severity: severity.into(),
        url: "http://example.com".into(),
        dependency: None,
        range: None,
    }
}

fn sample_risks() -> Vec<PackageRisk> {
    vec![
        PackageRisk {
            name: "direct-fixable-high".into(),
            is_direct: true,
            max_severity: Severity::High,
            vulnerability_count: 2,
            has_fix: true,
            advisories: vec![],
        },
        PackageRisk {
            name: "direct-notfixable-high".into(),
            is_direct: true,
            max_severity: Severity::High,
            vulnerability_count: 1,
            has_fix: false,
            advisories: vec![],
        },
        PackageRisk {
            name: "transitive-fixable-low".into(),
            is_direct: false,
            max_severity: Severity::Low,
            vulnerability_count: 1,
            has_fix: true,
            advisories: vec![],
        },
    ]
}

#[test]
fn severity_ordering_is_correct() {
    assert!(Severity::Critical > Severity::High);
    assert!(Severity::High > Severity::Moderate);
    assert!(Severity::Moderate > Severity::Low);
}

#[test]
fn severity_base_is_strictly_increasing() {
    let base = |s: &PackageRisk| risk_score(s);
    let mk = |sev: Severity| PackageRisk {
        name: "p".into(),
        is_direct: false,
        max_severity: sev,
        vulnerability_count: 0,
        has_fix: false,
        advisories: vec![],
    };
    // base contribution alone: score is base - 20 here, so the bases are
    // 10 < 30 < 60 < 100 exactly when these increase by the same gaps.
    assert_eq!(base(&mk(Severity::Low)), 10 - 20);
    assert_eq!(base(&mk(Severity::Moderate)), 30 - 20);
    assert_eq!(base(&mk(Severity::High)), 60 - 20);
    assert_eq!(base(&mk(Severity::Critical)), 100 - 20);
}

#[test]
fn severity_from_npm_reads_labels() {
    assert_eq!(Severity::from_npm("low"), Some(Severity::Low));
    assert_eq!(Severity::from_npm("moderate"), Some(Severity::Moderate));
    assert_eq!(Severity::from_npm("high"), Some(Severity::High));
    assert_eq!(Severity::from_npm("critical"), Some(Severity::Critical));
    assert_eq!(Severity::from_npm("info"), None);
    assert_eq!(Severity::from_npm(""), None);
}

#[test]
fn max_severity_picks_highest_from_via() {
    let via = vec![
        ViaEntry::Package("dep-a".to_string()),
        ViaEntry::Advisory(advisory("moderate")),
        ViaEntry::Advisory(advisory("high")),
    ];

    assert_eq!(max_severity(&via), Some(Severity::High));
}

#[test]
fn max_severity_of_packages_only_is_none() {
    let via = vec![
        ViaEntry::Package("dep-a".to_string()),
        ViaEntry::Package("dep-b".to_string()),
    ];
    assert_eq!(max_severity(&via), None);
}

#[test]
fn builds_single_package_risk_per_package() {
    let mut vulnerabilities = Vec::new();

    vulnerabilities.push((
        "vite".to_string(),
        NpmVulnerability {
            name: "vite".into(),
            is_direct: true,
            severity: "high".into(),
            fix_available: FixInfo::Flag(true),
            range: ">=4.0.0".into(),
            nodes: vec![],
            via: vec![
                ViaEntry::Advisory(advisory("moderate")),
                ViaEntry::Advisory(advisory("high")),
            ],
        },
    ));

    let audit = NpmAudit {
        audit_report_version: 2,
        metadata: Metadata::default(),
        vulnerabilities,
    };

    let risks = build_package_risk(audit);

    assert_eq!(risks.len(), 1);
    assert_eq!(risks[0].name, "vite");
    assert_eq!(risks[0].vulnerability_count, 2);
    assert_eq!(risks[0].max_severity, Severity::High);
    assert!(risks[0].is_direct);
}

#[test]
fn builds_one_risk_per_distinct_key() {
    let mut vulnerabilities = Vec::new();
    for name in ["a", "b", "c", "d"] {
        vulnerabilities.push((
            name.to_string(),
            NpmVulnerability {
                name: name.into(),
                is_direct: false,
                severity: "low".into(),
                fix_available: FixInfo::Flag(false),
                range: "*".into(),
                nodes: vec![],
                via: vec![],
            },
        ));
    }
    let audit = NpmAudit {
        audit_report_version: 2,
        metadata: Metadata::default(),
        vulnerabilities,
    };
    let risks = build_package_risk(audit);
    assert_eq!(risks.len(), 4);
    let mut names: Vec<String> = risks.iter().map(|r| r.name.clone()).collect();
    names.sort();
    names.dedup();
    assert_eq!(names.len(), 4);
    // no advisory at all defaults to the lowest severity
    assert!(risks.iter().all(|r| r.max_severity == Severity::Low));
}

#[test]
fn has_fix_resolves_per_shape_table() {
    let shapes = [
        (FixInfo::Flag(true), true),
        (FixInfo::Flag(false), false),
        (FixInfo::Detail, true),
        (FixInfo::Missing, false),
    ];
    for (fix, expected) in shapes {
        let audit = NpmAudit {
            audit_report_version: 2,
            metadata: Metadata::default(),
            vulnerabilities: vec![(
                "p".to_string(),
                NpmVulnerability {
                    name: "p".into(),
                    is_direct: false,
                    severity: "low".into(),
                    fix_available: fix,
                    range: "*".into(),
                    nodes: vec![],
                    via: vec![],
                },
            )],
        };
        let risks = build_package_risk(audit);
        assert_eq!(risks[0].has_fix, expected);
    }
}

#[test]
fn higher_severity_and_direct_dependency_scores_higher() {
    let low_transitive = PackageRisk {
        name: "low".into(),
        is_direct: false,
        max_severity: Severity::Low,
        vulnerability_count: 1,
        has_fix: true,
        advisories: vec![],
    };

    let high_direct = PackageRisk {
        name: "high".into(),
        is_direct: true,
        max_severity: Severity::High,
        vulnerability_count: 1,
        has_fix: true,
        advisories: vec![],
    };

    assert!(risk_score(&high_direct) > risk_score(&low_transitive));
}

#[test]
fn direct_flag_adds_twenty_to_score() {
    let mut pkg = sample_risks().remove(2);
    pkg.is_direct = false;
    let before = risk_score(&pkg);
    pkg.is_direct = true;
    assert_eq!(risk_score(&pkg), before + 20);
}

#[test]
fn fix_flag_adds_thirty_to_score() {
    let mut pkg = sample_risks().remove(0);
    pkg.has_fix = false;
    let before = risk_score(&pkg);
    pkg.has_fix = true;
    assert_eq!(risk_score(&pkg), before + 30);
}

#[test]
fn severity_display_is_correct() {
    assert_eq!(Severity::Low.label(), "low");
    assert_eq!(Severity::Moderate.label(), "moderate");
    assert_eq!(Severity::High.label(), "high");
    assert_eq!(Severity::Critical.label(), "critical");
}

#[test]
fn no_filters_returns_all_packages() {
    let risks = sample_risks();

    let filtered = filter_risks(
        risks,
        Severity::Low,
        false, // only_direct
        false, // only_fixable
    );

    assert_eq!(filtered.len(), 3);
}

#[test]
fn only_fixable_filters_correctly() {
    let risks = sample_risks();

    let filtered = filter_risks(
        risks,
        Severity::Low,
        false,
        true, // only_fixable
    );

    assert_eq!(filtered.len(), 2);
    assert!(filtered.iter().all(|r| r.has_fix));
}

#[test]
fn only_direct_filters_correctly() {
    let risks = sample_risks();

    let filtered = filter_risks(
        risks,
        Severity::Low,
        true, // only_direct
        false,
    );

    assert_eq!(filtered.len(), 2);
    assert!(filtered.iter().all(|r| r.is_direct));
}

#[test]
fn severity_filter_applies_independently() {
    let risks = sample_risks();

    let filtered = filter_risks(risks, Severity::High, false, false);

    assert_eq!(filtered.len(), 2);
    assert!(filtered.iter().all(|r| r.max_severity >= Severity::High));
}

#[test]
fn severity_filter_combines_with_direct_filter() {
    let mut risks = sample_risks();
    risks[1].is_direct = false;
    let filtered = filter_risks(risks, Severity::High, true, false);
    assert_eq!(filtered.len(), 1);
    assert_eq!(filtered[0].name, "direct-fixable-high");
}

#[test]
fn sort_orders_by_descending_score() {
    let risks = sample_risks();
    let sorted = sort_by_priority(risks);
    assert_eq!(sorted.len(), 3);
    assert_eq!(sorted[0].name, "direct-fixable-high"); // 60+20+10 = 90
    assert_eq!(sorted[1].name, "direct-notfixable-high"); // 60+20-20 = 60
    assert_eq!(sorted[2].name, "transitive-fixable-low"); // 10+0+10 = 20
}

#[test]
fn sort_breaks_score_ties_by_name_ascending() {
    let mk = |name: &str| PackageRisk {
        name: name.into(),
        is_direct: false,
        max_severity: Severity::Low,
        vulnerability_count: 0,
        has_fix: false,
        advisories: vec![],
    };
    let sorted = sort_by_priority(vec![mk("pear"), mk("apple"), mk("mango")]);
    let names: Vec<&str> = sorted.iter().map(|r| r.name.as_str()).collect();
    assert_eq!(names, vec!["apple", "mango", "pear"]);
}
