//! Risk triage for dependency-vulnerability audit reports.
//!
//! The crate parses the JSON report of a package-manager audit command,
//! folds each package's vulnerability entries into one immutable risk
//! aggregate, scores, filters and orders those aggregates, and drives the
//! state machine behind the interactive terminal view.

pub mod audit;
pub mod cli;
pub mod json;
pub mod model;
pub mod risk;
pub mod terminal;
pub mod tui;
