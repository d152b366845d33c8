use deptriage::model::ViaAdvisory;
use deptriage::risk::{PackageRisk, Severity};
use deptriage::terminal::risk_row_cells;
use deptriage::tui::{
    compute_max_scroll, count_wrapped_lines, decimal_string, formatted_advisory, App, InputKey,
};

fn mk_risk(name: &str) -> PackageRisk {
    PackageRisk {
        name: name.into(),
        is_direct: name.starts_with("direct"),
        max_severity: Severity::Moderate,
        vulnerability_count: 1,
        has_fix: true,
        advisories: vec![],
    }
}

fn three_row_app() -> App {
    App::new(vec![mk_risk("direct-a"), mk_risk("b"), mk_risk("c")])
}

#[test]
fn selection_starts_at_zero_when_rows_exist() {
    let app = three_row_app();
    assert_eq!(app.selected, Some(0));
    assert!(!app.is_popup_open);
    assert!(!app.should_quit);
}

#[test]
fn selection_stays_unset_with_zero_rows() {
    let mut app = App::new(vec![]);
    assert_eq!(app.selected, None);
    app.handle_key(InputKey::Down);
    assert_eq!(app.selected, None);
    app.handle_key(InputKey::Up);
    assert_eq!(app.selected, None);
    app.handle_key(InputKey::Enter);
    assert!(!app.is_popup_open);
}

#[test]
fn selection_wraps_down_from_last_row() {
    let mut app = three_row_app();
    app.handle_key(InputKey::Down);
    app.handle_key(InputKey::Down);
    assert_eq!(app.selected, Some(2));
    app.handle_key(InputKey::Down);
    assert_eq!(app.selected, Some(0));
}

#[test]
fn selection_wraps_up_from_first_row() {
    let mut app = three_row_app();
    app.handle_key(InputKey::Up);
    assert_eq!(app.selected, Some(2));
}

#[test]
fn j_and_k_move_the_selection() {
    let mut app = three_row_app();
    app.handle_key(InputKey::Char('j'));
    assert_eq!(app.selected, Some(1));
    app.handle_key(InputKey::Char('k'));
    assert_eq!(app.selected, Some(0));
}

#[test]
fn enter_opens_popup_and_resets_scroll() {
    let mut app = three_row_app();
    app.handle_key(InputKey::Enter);
    assert!(app.is_popup_open);
    assert_eq!(app.popup_scroll, 0);
    app.handle_key(InputKey::Escape);
    assert!(!app.is_popup_open);
    assert!(!app.should_quit);
}

#[test]
fn escape_from_list_quits_and_q_quits_anywhere() {
    let mut app = three_row_app();
    app.handle_key(InputKey::Escape);
    assert!(app.should_quit);

    let mut app = three_row_app();
    app.handle_key(InputKey::Enter);
    app.handle_key(InputKey::Char('q'));
    assert!(app.should_quit);
    assert!(app.is_popup_open);
}

#[test]
fn popup_scroll_clamps_at_both_ends() {
    let mut app = three_row_app();
    app.handle_key(InputKey::Enter);
    app.set_popup_max_scroll(2);

    // up at 0 stays at 0
    app.handle_key(InputKey::Up);
    assert_eq!(app.popup_scroll, 0);

    // down is clamped at the bound
    app.handle_key(InputKey::Down);
    app.handle_key(InputKey::Down);
    assert_eq!(app.popup_scroll, 2);
    app.handle_key(InputKey::Down);
    assert_eq!(app.popup_scroll, 2);
    assert!(app.popup_scroll <= app.popup_max_scroll);
}

#[test]
fn shrinking_the_scroll_bound_pulls_the_scroll_back() {
    let mut app = three_row_app();
    app.handle_key(InputKey::Enter);
    app.set_popup_max_scroll(5);
    for _ in 0..5 {
        app.handle_key(InputKey::Down);
    }
    assert_eq!(app.popup_scroll, 5);
    app.set_popup_max_scroll(3);
    assert_eq!(app.popup_scroll, 3);
    assert!(app.popup_scroll <= app.popup_max_scroll);
}

#[test]
fn count_wrapped_lines_rounds_up_per_line() {
    // widths 0 (empty line), 10, 11, 20 at wrap width 10:
    // 1 + 1 + 2 + 2 visual lines
    let widths = vec![0usize, 10, 11, 20];
    assert_eq!(count_wrapped_lines(&widths, 10), 6);
}

#[test]
fn count_wrapped_lines_zero_width_counts_logical_lines() {
    let widths = vec![7usize, 0, 3];
    assert_eq!(count_wrapped_lines(&widths, 0), 3);
}

#[test]
fn max_scroll_is_overflow_beyond_window() {
    assert_eq!(compute_max_scroll(10, 4), 6);
    assert_eq!(compute_max_scroll(3, 4), 0);
    assert_eq!(compute_max_scroll(4, 4), 0);
}

#[test]
fn decimal_string_writes_numerals() {
    assert_eq!(decimal_string(0), "0");
    assert_eq!(decimal_string(7), "7");
    assert_eq!(decimal_string(13), "13");
    assert_eq!(decimal_string(105), "105");
    assert_eq!(decimal_string(18446744073709551615), "18446744073709551615");
}

#[test]
fn formatted_advisory_numbers_blocks_and_separates_them() {
    let advisories = vec![
        ViaAdvisory {
            name: "a".into(),
            severity: "high".into(),
            title: "First title".into(),
            url: "https://example.com/1".into(),
            dependency: None,
            range: None,
        },
        ViaAdvisory {
            name: "b".into(),
            severity: "low".into(),
            title: "Second title".into(),
            url: "https://example.com/2".into(),
            dependency: None,
            range: None,
        },
    ];
    let lines = formatted_advisory(Some(advisories));
    assert_eq!(
        lines,
        vec![
            "1. First title".to_string(),
            "https://example.com/1".to_string(),
            "".to_string(),
            "2. Second title".to_string(),
            "https://example.com/2".to_string(),
        ]
    );
}

#[test]
fn formatted_advisory_without_list_shows_notice() {
    let lines = formatted_advisory(None);
    assert_eq!(lines, vec!["No advisory found".to_string()]);
}

#[test]
fn risk_row_cells_render_markers_and_labels() {
    let mut pkg = mk_risk("direct-a");
    pkg.vulnerability_count = 12;
    let row = risk_row_cells(&pkg);
    assert_eq!(row.package, "direct-a");
    assert_eq!(row.direct, "●");
    assert_eq!(row.severity, "moderate");
    assert_eq!(row.count, "12");
    assert_eq!(row.fix, "✓");

    let mut pkg = mk_risk("b");
    pkg.has_fix = false;
    let row = risk_row_cells(&pkg);
    assert_eq!(row.direct, "○");
    assert_eq!(row.fix, "");
}
