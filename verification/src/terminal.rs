//! The one-shot tabular report: the textual cells of one row per risk
//! aggregate, rendered identically to the interactive list.

use vstd::prelude::*;

use crate::risk::{spec_severity_label, PackageRisk};
use crate::tui::{decimal_string, spec_decimal};

verus! {

/// The textual cells of one report row.
#[derive(Debug)]
pub struct RiskRow {
    pub package: String,
    pub direct: String,
    pub severity: String,
    pub count: String,
    pub fix: String,
}

/// Lays out one report row: the package name, a filled marker for a direct
/// dependency and a hollow one otherwise, the severity label, the advisory
/// count, and a check mark exactly when a fix exists.
pub fn risk_row_cells(pkg: &PackageRisk) -> (r: RiskRow)
    ensures
        r.package@ == pkg.name@,
        r.direct@ == (if pkg.is_direct {
            "\u{25cf}"@
        } else {
            "\u{25cb}"@
        }),
        r.severity@ == spec_severity_label(pkg.max_severity),
        r.count@ == spec_decimal(pkg.vulnerability_count as nat),
        r.fix@ == (if pkg.has_fix {
            "\u{2713}"@
        } else {
            ""@
        }),
{
    let direct: &'static str = if pkg.is_direct {
        "\u{25cf}"
    } else {
        "\u{25cb}"
    };
    let fix: &'static str = if pkg.has_fix {
        "\u{2713}"
    } else {
        ""
    };
    RiskRow {
        package: pkg.name.clone(),
        direct: direct.to_owned(),
        severity: pkg.max_severity.label().to_owned(),
        count: decimal_string(pkg.vulnerability_count as u64),
        fix: fix.to_owned(),
    }
}

} // verus!
