//! The run configuration as the flag parser hands it over.

use vstd::prelude::*;

use crate::risk::Severity;

verus! {

/// Which presentation to run: the one-shot table or the interactive view.
#[derive(Debug, Clone, Copy, PartialEq, Eq, Structural)]
pub enum InterfaceMode {
    Terminal,
    Tui,
}

/// The label of an interface mode, as the flag parser spells it.
pub open spec fn spec_interface_label(m: InterfaceMode) -> Seq<char> {
    match m {
        InterfaceMode::Terminal => "terminal"@,
        InterfaceMode::Tui => "tui"@,
    }
}

impl InterfaceMode {
    /// The textual label of this mode.
    pub fn label(&self) -> (r: &'static str)
        ensures
            r@ == spec_interface_label(*self),
    {
        match self {
            InterfaceMode::Terminal => "terminal",
            InterfaceMode::Tui => "tui",
        }
    }
}

/// The run configuration: the three filter toggles and the interface mode.
#[derive(Debug, Clone, Copy)]
pub struct Args {
    pub only_direct: bool,
    pub min_severity: Severity,
    pub only_fixable: bool,
    pub interface: InterfaceMode,
}

impl Default for Args {
    /// The defaults: keep everything from severity low up, show it
    /// interactively.
    fn default() -> (r: Args)
        ensures
            !r.only_direct,
            r.min_severity == Severity::Low,
            !r.only_fixable,
            r.interface == InterfaceMode::Tui,
    {
        Args {
            only_direct: false,
            min_severity: Severity::Low,
            only_fixable: false,
            interface: InterfaceMode::Tui,
        }
    }
}

} // verus!
