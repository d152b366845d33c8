use deptriage::cli::{Args, InterfaceMode};
use deptriage::risk::Severity;

#[test]
fn default_args_keep_everything_interactive() {
    let args = Args::default();
    assert!(!args.only_direct);
    assert!(!args.only_fixable);
    assert_eq!(args.min_severity, Severity::Low);
    assert_eq!(args.interface, InterfaceMode::Tui);
}

#[test]
fn interface_mode_labels() {
    assert_eq!(InterfaceMode::Tui.label(), "tui");
    assert_eq!(InterfaceMode::Terminal.label(), "terminal");
}
