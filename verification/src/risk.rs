//! Severity scale, per-package risk aggregates, scoring, filtering and
//! deterministic ordering.

use vstd::multiset::Multiset;
use vstd::prelude::*;

use crate::model::{FixInfo, NpmAudit, NpmVulnerability, ViaAdvisory, ViaEntry};

verus! {

/// Ordinal vulnerability impact rating: `Low < Moderate < High < Critical`.
#[derive(Debug, Clone, Copy, PartialEq, Eq, Structural)]
pub enum Severity {
    Low,
    Moderate,
    High,
    Critical,
}

/// The position of a severity on the ordinal scale.
pub open spec fn severity_rank(s: Severity) -> int {
    match s {
        Severity::Low => 0,
        Severity::Moderate => 1,
        Severity::High => 2,
        Severity::Critical => 3,
    }
}

/// The base contribution of a severity to the risk score.
pub open spec fn severity_base(s: Severity) -> int {
    match s {
        Severity::Low => 10,
        Severity::Moderate => 30,
        Severity::High => 60,
        Severity::Critical => 100,
    }
}

/// Which severity, if any, a headline severity string denotes.
pub open spec fn spec_severity_from_npm(s: Seq<char>) -> Option<Severity> {
    if s == "low"@ {
        Some(Severity::Low)
    } else if s == "moderate"@ {
        Some(Severity::Moderate)
    } else if s == "high"@ {
        Some(Severity::High)
    } else if s == "critical"@ {
        Some(Severity::Critical)
    } else {
        None
    }
}

/// The lower-case label of a severity, as the audit tool spells it.
pub open spec fn spec_severity_label(s: Severity) -> Seq<char> {
    match s {
        Severity::Low => "low"@,
        Severity::Moderate => "moderate"@,
        Severity::High => "high"@,
        Severity::Critical => "critical"@,
    }
}

impl Severity {
    /// The position of this severity on the ordinal scale.
    pub fn rank(&self) -> (r: u8)
        ensures
            r as int == severity_rank(*self),
    {
        match self {
            Severity::Low => 0,
            Severity::Moderate => 1,
            Severity::High => 2,
            Severity::Critical => 3,
        }
    }

    /// Reads a severity from the audit tool's lower-case spelling;
    /// any other string denotes no severity.
    pub fn from_npm(s: &str) -> (r: Option<Severity>)
        ensures
            r == spec_severity_from_npm(s@),
    {
        let owned = s.to_owned();
        if owned == String::from_str("low") {
            Some(Severity::Low)
        } else if owned == String::from_str("moderate") {
            Some(Severity::Moderate)
        } else if owned == String::from_str("high") {
            Some(Severity::High)
        } else if owned == String::from_str("critical") {
            Some(Severity::Critical)
        } else {
            None
        }
    }

    /// The textual label shown for this severity.
    pub fn label(&self) -> (r: &'static str)
        ensures
            r@ == spec_severity_label(*self),
    {
        match self {
            Severity::Low => "low",
            Severity::Moderate => "moderate",
            Severity::High => "high",
            Severity::Critical => "critical",
        }
    }
}

impl PartialOrd for Severity {
    fn partial_cmp(&self, other: &Self) -> (r: Option<core::cmp::Ordering>) {
        let a = self.rank();
        let b = other.rank();
        if a < b {
            Some(core::cmp::Ordering::Less)
        } else if a == b {
            Some(core::cmp::Ordering::Equal)
        } else {
            Some(core::cmp::Ordering::Greater)
        }
    }
}

impl vstd::std_specs::cmp::PartialOrdSpecImpl for Severity {
    open spec fn obeys_partial_cmp_spec() -> bool {
        true
    }

    open spec fn partial_cmp_spec(&self, other: &Self) -> Option<core::cmp::Ordering> {
        if severity_rank(*self) < severity_rank(*other) {
            Some(core::cmp::Ordering::Less)
        } else if severity_rank(*self) == severity_rank(*other) {
            Some(core::cmp::Ordering::Equal)
        } else {
            Some(core::cmp::Ordering::Greater)
        }
    }
}

/// The immutable risk aggregate derived for one package.
#[derive(Debug)]
pub struct PackageRisk {
    pub name: String,
    pub is_direct: bool,
    pub max_severity: Severity,
    /// Number of full advisories among the package's via entries; bare
    /// package references are not counted.
    pub vulnerability_count: usize,
    pub has_fix: bool,
    /// The full advisories themselves, in via order, for the detail view.
    pub advisories: Vec<ViaAdvisory>,
}

/// Two risk aggregates agree on every field, with the advisory sequences
/// compared element by element.
pub open spec fn spec_risk_eq(a: PackageRisk, b: PackageRisk) -> bool {
    &&& a.name == b.name
    &&& a.is_direct == b.is_direct
    &&& a.max_severity == b.max_severity
    &&& a.vulnerability_count == b.vulnerability_count
    &&& a.has_fix == b.has_fix
    &&& a.advisories@ == b.advisories@
}

impl Clone for PackageRisk {
    fn clone(&self) -> (r: Self)
        ensures
            spec_risk_eq(r, *self),
    {
        let advisories = self.advisories.clone();
        proof {
            assert forall|i: int| 0 <= i < advisories@.len() implies advisories@[i]
                == self.advisories@[i] by {
                assert(vstd::pervasive::cloned::<ViaAdvisory>(
                    self.advisories[i],
                    advisories[i],
                ));
            }
            assert(advisories@ =~= self.advisories@);
        }
        PackageRisk {
            name: self.name.clone(),
            is_direct: self.is_direct,
            max_severity: self.max_severity,
            vulnerability_count: self.vulnerability_count,
            has_fix: self.has_fix,
            advisories,
        }
    }
}

/// The severity an advisory entry carries; a bare package reference, or an
/// advisory whose severity string is not on the scale, carries none.
pub open spec fn spec_via_severity(entry: ViaEntry) -> Option<Severity> {
    match entry {
        ViaEntry::Advisory(a) => spec_severity_from_npm(a.severity@),
        ViaEntry::Package(_) => None,
    }
}

/// The greatest severity carried by any entry of a via sequence, if any
/// entry carries one.
pub open spec fn spec_max_severity(entries: Seq<ViaEntry>) -> Option<Severity>
    decreases entries.len(),
{
    if entries.len() == 0 {
        None
    } else {
        let rest = spec_max_severity(entries.drop_last());
        let cur = spec_via_severity(entries.last());
        match (rest, cur) {
            (Option::None, c) => c,
            (Option::Some(a), Option::None) => Some(a),
            (Option::Some(a), Option::Some(b)) => Some(
                if severity_rank(b) >= severity_rank(a) {
                    b
                } else {
                    a
                },
            ),
        }
    }
}

/// The full advisories of a via sequence, in order; bare package
/// references are dropped.
pub open spec fn spec_advisories(entries: Seq<ViaEntry>) -> Seq<ViaAdvisory>
    decreases entries.len(),
{
    if entries.len() == 0 {
        Seq::empty()
    } else {
        let rest = spec_advisories(entries.drop_last());
        match entries.last() {
            ViaEntry::Advisory(a) => rest.push(a),
            ViaEntry::Package(_) => rest,
        }
    }
}

/// The greatest severity carried by any via entry, with `Severity::Low`
/// when none carries one.
pub open spec fn spec_max_severity_or_low(entries: Seq<ViaEntry>) -> Severity {
    match spec_max_severity(entries) {
        Some(s) => s,
        None => Severity::Low,
    }
}

/// How a raw fix-availability value collapses to a boolean: a plain
/// boolean stands for itself, a detail object means a fix exists, and
/// anything else means none does.
pub open spec fn spec_resolve_fix(f: FixInfo) -> bool {
    match f {
        FixInfo::Flag(b) => b,
        FixInfo::Detail => true,
        FixInfo::Missing => false,
    }
}

/// The aggregate `risk` is exactly the one derived from the record `v`
/// filed under package name `name`.
pub open spec fn spec_risk_matches(risk: PackageRisk, name: String, v: NpmVulnerability) -> bool {
    &&& risk.name == name
    &&& risk.is_direct == v.is_direct
    &&& risk.max_severity == spec_max_severity_or_low(v.via@)
    &&& risk.vulnerability_count as nat == spec_advisories(v.via@).len()
    &&& risk.advisories@ == spec_advisories(v.via@)
    &&& risk.has_fix == spec_resolve_fix(v.fix_available)
}

/// The greatest severity carried by any entry of `via`, or none.
pub fn max_severity(entries: &[ViaEntry]) -> (r: Option<Severity>)
    ensures
        r == spec_max_severity(entries@),
{
    let mut best: Option<Severity> = None;
    let mut i: usize = 0;
    while i < entries.len()
        invariant
            i <= entries@.len(),
            best == spec_max_severity(entries@.subrange(0, i as int)),
        decreases entries@.len() - i,
    {
        let cur: Option<Severity> = match &entries[i] {
            ViaEntry::Advisory(a) => Severity::from_npm(a.severity.as_str()),
            ViaEntry::Package(_) => None,
        };
        best = match (best, cur) {
            (None, c) => c,
            (Some(a), None) => Some(a),
            (Some(a), Some(b)) => Some(
                if b.rank() >= a.rank() {
                    b
                } else {
                    a
                },
            ),
        };
        proof {
            assert(entries@.subrange(0, i + 1 as int).drop_last() =~= entries@.subrange(
                0,
                i as int,
            ));
            assert(entries@.subrange(0, i + 1 as int).last() == entries@[i as int]);
        }
        i = i + 1;
    }
    proof {
        assert(entries@.subrange(0, entries@.len() as int) =~= entries@);
    }
    best
}

/// Collapses a raw fix-availability value to a boolean, per the shape
/// table: `true` and a detail object mean a fix exists; `false` and every
/// other shape mean none does.
pub fn resolve_fix(f: FixInfo) -> (r: bool)
    ensures
        r == spec_resolve_fix(f),
{
    match f {
        FixInfo::Flag(b) => b,
        FixInfo::Detail => true,
        FixInfo::Missing => false,
    }
}

/// Derives one risk aggregate per entry of the report's vulnerability
/// mapping, in entry order: a bijection between map entries and
/// aggregates.
pub fn build_package_risk(audit: NpmAudit) -> (r: Vec<PackageRisk>)
    ensures
        r@.len() == audit.vulnerabilities@.len(),
        forall|i: int|
            0 <= i < r@.len() ==> spec_risk_matches(
                r@[i],
                audit.vulnerabilities@[i].0,
                audit.vulnerabilities@[i].1,
            ),
{
    let mut result: Vec<PackageRisk> = Vec::new();
    let mut i: usize = 0;
    while i < audit.vulnerabilities.len()
        invariant
            i <= audit.vulnerabilities@.len(),
            result@.len() == i,
            forall|k: int|
                0 <= k < i ==> spec_risk_matches(
                    result@[k],
                    audit.vulnerabilities@[k].0,
                    audit.vulnerabilities@[k].1,
                ),
        decreases audit.vulnerabilities@.len() - i,
    {
        let entry = &audit.vulnerabilities[i];
        let vulns = &entry.1;
        let mut advisories: Vec<ViaAdvisory> = Vec::new();
        let mut j: usize = 0;
        // Count only real advisories, not dependency strings.
        while j < vulns.via.len()
            invariant
                j <= vulns.via@.len(),
                advisories@ == spec_advisories(vulns.via@.subrange(0, j as int)),
            decreases vulns.via@.len() - j,
        {
            match &vulns.via[j] {
                ViaEntry::Advisory(a) => advisories.push(a.clone()),
                ViaEntry::Package(_) => (),
            }
            proof {
                assert(vulns.via@.subrange(0, j + 1 as int).drop_last() =~= vulns.via@.subrange(
                    0,
                    j as int,
                ));
                assert(vulns.via@.subrange(0, j + 1 as int).last() == vulns.via@[j as int]);
            }
            j = j + 1;
        }
        proof {
            assert(vulns.via@.subrange(0, vulns.via@.len() as int) =~= vulns.via@);
        }
        let has_fix = resolve_fix(vulns.fix_available);
        let max_sev = match max_severity(vulns.via.as_slice()) {
            Some(s) => s,
            None => Severity::Low,
        };
        let count = advisories.len();
        result.push(
            PackageRisk {
                name: entry.0.clone(),
                is_direct: vulns.is_direct,
                vulnerability_count: count,
                has_fix,
                max_severity: max_sev,
                advisories,
            },
        );
        i = i + 1;
    }
    result
}

/// The composite remediation-priority score of a risk aggregate.
pub open spec fn spec_risk_score(p: PackageRisk) -> int {
    severity_base(p.max_severity) + (if p.is_direct {
        20int
    } else {
        0int
    }) + (if p.has_fix {
        10int
    } else {
        -20int
    })
}

/// Scores a risk aggregate: the severity base, plus 20 for a direct
/// dependency, plus 10 when a fix exists and minus 20 when none does.
pub fn risk_score(pkg: &PackageRisk) -> (r: i32)
    ensures
        r as int == spec_risk_score(*pkg),
{
    let mut score: i32 = match pkg.max_severity {
        Severity::Critical => 100,
        Severity::High => 60,
        Severity::Moderate => 30,
        Severity::Low => 10,
    };
    if pkg.is_direct {
        score = score + 20;
    }
    if pkg.has_fix {
        score = score + 10;
    } else {
        score = score - 20;
    }
    score
}

/// Whether a risk aggregate passes the three independently toggleable
/// filters: severity at least `min_severity`, and, where demanded, direct
/// and fixable.
pub open spec fn spec_keep(
    p: PackageRisk,
    min_severity: Severity,
    only_direct: bool,
    only_fixable: bool,
) -> bool {
    &&& severity_rank(p.max_severity) >= severity_rank(min_severity)
    &&& (!only_direct || p.is_direct)
    &&& (!only_fixable || p.has_fix)
}

/// Keeps exactly the aggregates that pass all three filters, in their
/// given order.
pub fn filter_risks(
    risks: Vec<PackageRisk>,
    min_severity: Severity,
    only_direct: bool,
    only_fixable: bool,
) -> (r: Vec<PackageRisk>)
    ensures
        r@ == risks@.filter(
            |p: PackageRisk| spec_keep(p, min_severity, only_direct, only_fixable),
        ),
{
    let ghost orig = risks@;
    let ghost pred = |p: PackageRisk| spec_keep(p, min_severity, only_direct, only_fixable);
    let mut rest = risks;
    let mut rev: Vec<PackageRisk> = Vec::new();
    proof {
        assert(rest@ + rev@.reverse() =~= orig);
    }
    while rest.len() > 0
        invariant
            rest@ + rev@.reverse() == orig,
        decreases rest@.len(),
    {
        let ghost prev_rest = rest@;
        let ghost prev_rev = rev@;
        let x = rest.pop().unwrap();
        rev.push(x);
        proof {
            assert(prev_rev.push(x).reverse() =~= seq![x] + prev_rev.reverse());
            assert(rest@ + rev@.reverse() =~= prev_rest + prev_rev.reverse());
        }
    }
    let ghost total = orig.len();
    let mut out: Vec<PackageRisk> = Vec::new();
    proof {
        assert(rev@.reverse() =~= orig);
        assert(orig.subrange(0, 0).filter(pred) =~= Seq::<PackageRisk>::empty()) by {
            reveal(Seq::filter);
        }
    }
    while rev.len() > 0
        invariant
            pred == (|p: PackageRisk| spec_keep(p, min_severity, only_direct, only_fixable)),
            rev@.len() <= total,
            total == orig.len(),
            rev@ == orig.skip(total - rev@.len()).reverse(),
            out@ == orig.subrange(0, total - rev@.len()).filter(pred),
        decreases rev@.len(),
    {
        let ghost n = total - rev@.len();
        let ghost prev_rev = rev@;
        let x = rev.pop().unwrap();
        proof {
            assert(x == orig[n]) by {
                assert(x == prev_rev.last());
                assert(prev_rev.last() == orig.skip(n)[0]);
            }
            assert(rev@ =~= orig.skip(n + 1).reverse());
            reveal(Seq::filter);
            assert(orig.subrange(0, n + 1).drop_last() =~= orig.subrange(0, n));
            assert(orig.subrange(0, n + 1).last() == orig[n]);
            if pred(orig[n]) {
                assert(orig.subrange(0, n + 1).filter(pred) == orig.subrange(0, n).filter(
                    pred,
                ).push(orig[n]));
            } else {
                assert(orig.subrange(0, n + 1).filter(pred) == orig.subrange(0, n).filter(pred));
            }
        }
        let keep = x.max_severity >= min_severity && (!only_direct || x.is_direct) && (!only_fixable
            || x.has_fix);
        proof {
            assert(keep == pred(orig[n]));
        }
        if keep {
            out.push(x);
        }
    }
    proof {
        assert(orig.subrange(0, total as int) =~= orig);
    }
    out
}

/// Classification is a bijection with the report's vulnerability mapping:
/// where the mapping's keys are unique, the derived aggregates carry
/// pairwise distinct package names, one per key.
pub proof fn lemma_classification_bijective(audit: NpmAudit, risks: Seq<PackageRisk>)
    requires
        audit.keys_unique(),
        risks.len() == audit.vulnerabilities@.len(),
        forall|i: int|
            0 <= i < risks.len() ==> spec_risk_matches(
                #[trigger] risks[i],
                audit.vulnerabilities@[i].0,
                audit.vulnerabilities@[i].1,
            ),
    ensures
        forall|i: int, j: int| 0 <= i < j < risks.len() ==> risks[i].name@ != risks[j].name@,
{
    assert forall|i: int, j: int| 0 <= i < j < risks.len() implies risks[i].name@
        != risks[j].name@ by {
        assert(risks[i].name == audit.vulnerabilities@[i].0);
        assert(risks[j].name == audit.vulnerabilities@[j].0);
    }
}

/// Lexicographic order on character sequences, by code point, with a
/// prefix ordered before its extensions.
pub open spec fn lex_le(a: Seq<char>, b: Seq<char>) -> bool
    decreases a.len(),
{
    if a.len() == 0 {
        true
    } else if b.len() == 0 {
        false
    } else if a[0] as u32 == b[0] as u32 {
        lex_le(a.drop_first(), b.drop_first())
    } else {
        (a[0] as u32) < (b[0] as u32)
    }
}

/// The lexicographic order relates every pair of character sequences.
pub proof fn lemma_lex_le_total(a: Seq<char>, b: Seq<char>)
    ensures
        lex_le(a, b) || lex_le(b, a),
    decreases a.len(),
{
    if a.len() == 0 {
    } else if b.len() == 0 {
    } else if a[0] as u32 == b[0] as u32 {
        lemma_lex_le_total(a.drop_first(), b.drop_first());
    }
}

/// The lexicographic order is transitive.
pub proof fn lemma_lex_le_trans(a: Seq<char>, b: Seq<char>, c: Seq<char>)
    requires
        lex_le(a, b),
        lex_le(b, c),
    ensures
        lex_le(a, c),
    decreases a.len(),
{
    if a.len() == 0 {
    } else if a[0] as u32 == b[0] as u32 && b[0] as u32 == c[0] as u32 {
        lemma_lex_le_trans(a.drop_first(), b.drop_first(), c.drop_first());
    }
}

/// Compares two strings in the lexicographic order on their characters.
pub fn str_lex_le(a: &str, b: &str) -> (r: bool)
    ensures
        r == lex_le(a@, b@),
{
    let alen = a.unicode_len();
    let blen = b.unicode_len();
    let mut i: usize = 0;
    proof {
        assert(a@.skip(0) =~= a@);
        assert(b@.skip(0) =~= b@);
    }
    loop
        invariant
            i <= alen,
            i <= blen,
            alen == a@.len(),
            blen == b@.len(),
            lex_le(a@, b@) == lex_le(a@.skip(i as int), b@.skip(i as int)),
        decreases alen - i,
    {
        if i >= alen {
            proof {
                assert(a@.skip(i as int) =~= Seq::<char>::empty());
            }
            return true;
        }
        if i >= blen {
            proof {
                assert(b@.skip(i as int) =~= Seq::<char>::empty());
            }
            return false;
        }
        let ca = a.get_char(i) as u32;
        let cb = b.get_char(i) as u32;
        if ca != cb {
            return ca < cb;
        }
        proof {
            assert(a@.skip(i as int).drop_first() =~= a@.skip(i + 1));
            assert(b@.skip(i as int).drop_first() =~= b@.skip(i + 1));
        }
        i = i + 1;
    }
}

/// Remediation-priority order on risk aggregates: higher score first, and
/// equal scores broken by package name ascending, so that sorted output is
/// reproducible.
pub open spec fn spec_priority_le(a: PackageRisk, b: PackageRisk) -> bool {
    ||| spec_risk_score(a) > spec_risk_score(b)
    ||| (spec_risk_score(a) == spec_risk_score(b) && lex_le(a.name@, b.name@))
}

/// The priority order relates every pair of aggregates.
pub proof fn lemma_priority_le_total(a: PackageRisk, b: PackageRisk)
    ensures
        spec_priority_le(a, b) || spec_priority_le(b, a),
{
    lemma_lex_le_total(a.name@, b.name@);
}

/// The priority order is transitive.
pub proof fn lemma_priority_le_trans(a: PackageRisk, b: PackageRisk, c: PackageRisk)
    requires
        spec_priority_le(a, b),
        spec_priority_le(b, c),
    ensures
        spec_priority_le(a, c),
{
    if spec_risk_score(a) == spec_risk_score(b) && spec_risk_score(b) == spec_risk_score(c) {
        lemma_lex_le_trans(a.name@, b.name@, c.name@);
    }
}

/// Decides the priority order between two aggregates.
fn priority_le(a: &PackageRisk, b: &PackageRisk) -> (r: bool)
    ensures
        r == spec_priority_le(*a, *b),
{
    let sa = risk_score(a);
    let sb = risk_score(b);
    if sa > sb {
        true
    } else if sa == sb {
        str_lex_le(a.name.as_str(), b.name.as_str())
    } else {
        false
    }
}

/// Orders the aggregates by descending score, equal scores by package name
/// ascending: the same aggregates come out, in priority order.
pub fn sort_by_priority(risks: Vec<PackageRisk>) -> (r: Vec<PackageRisk>)
    ensures
        r@.to_multiset() == risks@.to_multiset(),
        vstd::relations::sorted_by(r@, |a: PackageRisk, b: PackageRisk| spec_priority_le(a, b)),
{
    broadcast use vstd::seq_lib::group_to_multiset_ensures;
    broadcast use vstd::multiset::group_multiset_axioms;

    let ghost leq = |a: PackageRisk, b: PackageRisk| spec_priority_le(a, b);
    let mut rest = risks;
    let mut out: Vec<PackageRisk> = Vec::new();
    while rest.len() > 0
        invariant
            leq == (|a: PackageRisk, b: PackageRisk| spec_priority_le(a, b)),
            out@.to_multiset().add(rest@.to_multiset()) == risks@.to_multiset(),
            vstd::relations::sorted_by(out@, leq),
        decreases rest@.len(),
    {
        broadcast use vstd::seq_lib::group_to_multiset_ensures;
        broadcast use vstd::multiset::group_multiset_axioms;

        let ghost prev_rest = rest@;
        let ghost prev_out = out@;
        let x = rest.pop().unwrap();
        proof {
            assert(rest@.push(x) =~= prev_rest);
            assert(prev_rest.to_multiset() =~= rest@.to_multiset().insert(x));
        }
        let mut j: usize = 0;
        while j < out.len() && priority_le(&out[j], &x)
            invariant
                leq == (|a: PackageRisk, b: PackageRisk| spec_priority_le(a, b)),
                j <= out@.len(),
                forall|k: int| 0 <= k < j ==> #[trigger] leq(out@[k], x),
            decreases out@.len() - j,
        {
            j = j + 1;
        }
        proof {
            if j < out@.len() {
                lemma_priority_le_total(out@[j as int], x);
                assert(leq(x, out@[j as int]));
                assert forall|k: int| j <= k < out@.len() implies #[trigger] leq(x, out@[k]) by {
                    if k > j {
                        assert(leq(out@[j as int], out@[k]));
                        lemma_priority_le_trans(x, out@[j as int], out@[k]);
                    }
                }
            }
        }
        out.insert(j, x);
        proof {
            let inserted = prev_out.insert(j as int, x);
            assert(out@ == inserted);
            let front = prev_out.subrange(0, j as int);
            let back = prev_out.subrange(j as int, prev_out.len() as int);
            vstd::seq_lib::lemma_multiset_commutative(front.push(x), back);
            vstd::seq_lib::lemma_multiset_commutative(front, back);
            assert(front + back =~= prev_out);
            assert(out@.to_multiset() =~= prev_out.to_multiset().insert(x));
            assert(out@.to_multiset().add(rest@.to_multiset()) =~= prev_out.to_multiset().add(
                prev_rest.to_multiset(),
            ));
            assert forall|i1: int, i2: int| 0 <= i1 < i2 < out@.len() implies #[trigger] leq(
                out@[i1],
                out@[i2],
            ) by {
                if i2 < j {
                    assert(leq(prev_out[i1], prev_out[i2]));
                } else if i1 > j {
                    assert(leq(prev_out[i1 - 1], prev_out[i2 - 1]));
                } else if i1 < j && i2 == j {
                    assert(leq(prev_out[i1], x));
                } else if i1 == j {
                    assert(leq(x, prev_out[i2 - 1]));
                } else if i1 < j && i2 > j {
                    assert(leq(prev_out[i1], prev_out[i2 - 1]));
                }
            }
        }
    }
    proof {
        assert(rest@.to_multiset() =~= Multiset::<PackageRisk>::empty());
        assert(out@.to_multiset().add(Multiset::<PackageRisk>::empty()) =~= out@.to_multiset());
    }
    out
}

/// Flipping `is_direct` from false to true, holding the other fields
/// fixed, raises the score by exactly 20.
pub proof fn lemma_direct_flip_adds_twenty(p: PackageRisk, q: PackageRisk)
    requires
        !p.is_direct,
        q.is_direct,
        q.max_severity == p.max_severity,
        q.has_fix == p.has_fix,
    ensures
        spec_risk_score(q) == spec_risk_score(p) + 20,
{
}

/// Flipping `has_fix` from false to true, holding the other fields fixed,
/// raises the score by exactly 30: a -20 contribution becomes +10.
pub proof fn lemma_fix_flip_adds_thirty(p: PackageRisk, q: PackageRisk)
    requires
        !p.has_fix,
        q.has_fix,
        q.max_severity == p.max_severity,
        q.is_direct == p.is_direct,
    ensures
        spec_risk_score(q) == spec_risk_score(p) + 30,
{
}

/// The severity base values strictly increase along the ordinal scale.
pub proof fn lemma_severity_base_strictly_increasing(a: Severity, b: Severity)
    requires
        severity_rank(a) < severity_rank(b),
    ensures
        severity_base(a) < severity_base(b),
{
}

} // verus!
