use collab_cli::keys::Modifiers;
use collab_cli::layout::{centered_box, centering_columns, centering_rows, error_strip, side_margin, split_area, Constraint, Direction, Rect};
use collab_cli::screen::{config_rows, dialog_area, review_box_height, target_line, worker_list_height, worker_rows, workers_box_height, workers_hint};
use collab_cli::wizard::{Step, WizardState};

fn rect(x: u16, y: u16, width: u16, height: u16) -> Rect {
    Rect { x, y, width, height }
}

#[test]
fn side_margin_values() {
    assert_eq!(side_margin(56), 22);
    assert_eq!(side_margin(62), 19);
    assert_eq!(side_margin(68), 16);
    assert_eq!(side_margin(100), 0);
    assert_eq!(side_margin(150), 0);
}

#[test]
fn centering_constraints() {
    assert_eq!(centering_rows(12), vec![Constraint::Fill(1), Constraint::Length(12), Constraint::Fill(1)]);
    assert_eq!(
        centering_columns(56),
        vec![Constraint::Percentage(22), Constraint::Percentage(56), Constraint::Percentage(22)]
    );
}

#[test]
fn centered_box_on_full_screen() {
    assert_eq!(centered_box(56, 12, rect(0, 0, 100, 40)), rect(22, 14, 56, 12));
}

#[test]
fn split_area_keeps_cross_extent() {
    let parts = split_area(Direction::Vertical, &config_rows(), rect(3, 2, 50, 20));
    assert_eq!(parts.len(), 7);
    for p in &parts {
        assert_eq!(p.x, 3);
        assert_eq!(p.width, 50);
    }
    assert_eq!(parts[0], rect(3, 2, 50, 1));
    assert_eq!(parts[2], rect(3, 4, 50, 3));
    assert_eq!(parts[6], rect(3, 21, 50, 1));
}

#[test]
fn worker_rows_put_list_first() {
    assert_eq!(worker_rows(5)[0], Constraint::Length(5));
    assert_eq!(worker_rows(5).len(), 7);
}

#[test]
fn list_height_is_clamped() {
    assert_eq!(worker_list_height(0), 3);
    assert_eq!(worker_list_height(1), 3);
    assert_eq!(worker_list_height(3), 5);
    assert_eq!(worker_list_height(6), 8);
    assert_eq!(worker_list_height(40), 8);
}

#[test]
fn dialog_heights() {
    assert_eq!(workers_box_height(0, 40), 15);
    assert_eq!(workers_box_height(10, 40), 20);
    assert_eq!(workers_box_height(10, 12), 10);
    assert_eq!(workers_box_height(0, 1), 0);
    assert_eq!(review_box_height(2, 40), 16);
    assert_eq!(review_box_height(2, 10), 6);
}

#[test]
fn dialog_area_per_step() {
    let mut w = WizardState::new();
    let area = rect(0, 0, 100, 40);
    assert_eq!(dialog_area(&w, area), centered_box(56, 12, area));
    w.step = Step::Config;
    assert_eq!(dialog_area(&w, area), centered_box(62, 16, area));
    w.step = Step::Workers;
    assert_eq!(dialog_area(&w, area), centered_box(68, 15, area));
    w.step = Step::Review;
    assert_eq!(dialog_area(&w, area), centered_box(62, 12, area));
}

#[test]
fn error_strip_below_box() {
    assert_eq!(error_strip(rect(5, 10, 30, 8), rect(0, 0, 80, 24)), Some(rect(5, 18, 30, 1)));
    assert_eq!(error_strip(rect(5, 10, 30, 14), rect(0, 0, 80, 24)), None);
    assert_eq!(error_strip(rect(0, 65000, 10, 1000), rect(0, 0, 80, 65535)), None);
}

#[test]
fn hints_and_lines() {
    assert_eq!(workers_hint(true), "  Tab switch  ·  Enter add worker  ·  Esc back");
    assert_eq!(workers_hint(false), "  Tab switch  ·  Enter add  ·  Empty Enter → review  ·  Esc back");
    assert_eq!(
        target_line(&"team".to_string(), &"alice".to_string(), "AGENTS.md"),
        "      → team/alice/AGENTS.md"
    );
}

#[test]
fn control_bit_is_read() {
    assert!(Modifiers { bits: 2 }.has_control());
    assert!(Modifiers { bits: 7 }.has_control());
    assert!(!Modifiers { bits: 5 }.has_control());
    assert!(!Modifiers { bits: 0 }.has_control());
}
