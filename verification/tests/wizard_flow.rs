use collab_cli::keys::{Key, Modifiers};
use collab_cli::wizard::{Field, Step, WizardState};

fn plain() -> Modifiers {
    Modifiers { bits: 0 }
}

fn ctrl() -> Modifiers {
    Modifiers { bits: 2 }
}

fn press(w: &mut WizardState, k: Key) {
    w.handle(k, plain());
}

fn type_text(w: &mut WizardState, s: &str) {
    for c in s.chars() {
        press(w, Key::Char(c));
    }
}

fn erase(w: &mut WizardState, n: usize) {
    for _ in 0..n {
        press(w, Key::Backspace);
    }
}

fn at_workers() -> WizardState {
    let mut w = WizardState::new();
    press(&mut w, Key::Enter);
    press(&mut w, Key::Enter);
    w
}

#[test]
fn new_state_proposes_defaults() {
    let w = WizardState::new();
    assert_eq!(w.step, Step::Welcome);
    assert_eq!(w.server, "http://localhost:8000");
    assert_eq!(w.output_dir, ".");
    assert!(w.workers.is_empty());
    assert_eq!(w.name_buf, "");
    assert_eq!(w.role_buf, "");
    assert_eq!(w.active, Field::Server);
    assert_eq!(w.error, None);
    assert!(!w.quit);
    assert!(!w.done);
}

#[test]
fn welcome_enter_and_space_open_config() {
    let mut w = WizardState::new();
    press(&mut w, Key::Enter);
    assert_eq!(w.step, Step::Config);
    assert_eq!(w.active, Field::Server);
    let mut w = WizardState::new();
    press(&mut w, Key::Char(' '));
    assert_eq!(w.step, Step::Config);
}

#[test]
fn welcome_esc_and_q_quit() {
    let mut w = WizardState::new();
    press(&mut w, Key::Esc);
    assert!(w.quit);
    let mut w = WizardState::new();
    press(&mut w, Key::Char('q'));
    assert!(w.quit);
    let mut w = WizardState::new();
    press(&mut w, Key::Char('x'));
    assert!(!w.quit);
    assert_eq!(w.step, Step::Welcome);
}

#[test]
fn config_typing_edits_active_field() {
    let mut w = WizardState::new();
    press(&mut w, Key::Enter);
    erase(&mut w, 4);
    type_text(&mut w, "9000");
    assert_eq!(w.server, "http://localhost:9000");
    press(&mut w, Key::Tab);
    assert_eq!(w.active, Field::OutputDir);
    erase(&mut w, 1);
    type_text(&mut w, "out");
    assert_eq!(w.output_dir, "out");
    assert_eq!(w.server, "http://localhost:9000");
    press(&mut w, Key::Tab);
    assert_eq!(w.active, Field::Server);
}

#[test]
fn control_characters_are_not_typed() {
    let mut w = WizardState::new();
    press(&mut w, Key::Enter);
    w.handle(Key::Char('c'), ctrl());
    assert_eq!(w.server, "http://localhost:8000");
    w.handle(Key::Char('c'), Modifiers { bits: 1 });
    assert_eq!(w.server, "http://localhost:8000c");
}

#[test]
fn backspace_on_empty_field_does_nothing() {
    let mut w = WizardState::new();
    press(&mut w, Key::Enter);
    press(&mut w, Key::Tab);
    erase(&mut w, 3);
    assert_eq!(w.output_dir, "");
    assert_eq!(w.step, Step::Config);
}

#[test]
fn blank_config_fields_get_defaults() {
    let mut w = WizardState::new();
    press(&mut w, Key::Enter);
    erase(&mut w, 30);
    type_text(&mut w, "   ");
    press(&mut w, Key::Tab);
    erase(&mut w, 1);
    press(&mut w, Key::Enter);
    assert_eq!(w.server, "http://localhost:8000");
    assert_eq!(w.output_dir, ".");
    assert_eq!(w.step, Step::Workers);
    assert_eq!(w.active, Field::WorkerName);
}

#[test]
fn config_esc_goes_back_to_welcome() {
    let mut w = WizardState::new();
    press(&mut w, Key::Enter);
    press(&mut w, Key::Tab);
    press(&mut w, Key::Esc);
    assert_eq!(w.step, Step::Welcome);
    assert_eq!(w.active, Field::OutputDir);
    press(&mut w, Key::Enter);
    assert_eq!(w.active, Field::Server);
}

#[test]
fn empty_enter_without_workers_is_an_error() {
    let mut w = at_workers();
    press(&mut w, Key::Enter);
    assert_eq!(w.error.as_deref(), Some("Add at least one worker before continuing."));
    assert_eq!(w.step, Step::Workers);
    press(&mut w, Key::Tab);
    assert_eq!(w.error, None);
}

#[test]
fn role_without_name_is_an_error() {
    let mut w = at_workers();
    press(&mut w, Key::Tab);
    type_text(&mut w, "writer");
    press(&mut w, Key::Enter);
    assert_eq!(w.error.as_deref(), Some("Worker name is required."));
    assert_eq!(w.active, Field::WorkerName);
    assert!(w.workers.is_empty());
}

#[test]
fn name_without_role_moves_to_role() {
    let mut w = at_workers();
    type_text(&mut w, "alice");
    press(&mut w, Key::Enter);
    assert_eq!(w.error, None);
    assert_eq!(w.active, Field::WorkerRole);
    assert!(w.workers.is_empty());
}

#[test]
fn worker_is_added_trimmed() {
    let mut w = at_workers();
    type_text(&mut w, "  alice ");
    press(&mut w, Key::Tab);
    type_text(&mut w, "\tbackend dev  ");
    press(&mut w, Key::Enter);
    assert_eq!(w.workers.len(), 1);
    assert_eq!(w.workers[0].name, "alice");
    assert_eq!(w.workers[0].role, "backend dev");
    assert_eq!(w.workers[0].tasks, None);
    assert_eq!(w.workers[0].avatar, None);
    assert_eq!(w.workers[0].color, None);
    assert_eq!(w.name_buf, "");
    assert_eq!(w.role_buf, "");
    assert_eq!(w.active, Field::WorkerName);
}

#[test]
fn duplicate_name_is_refused() {
    let mut w = at_workers();
    type_text(&mut w, "alice");
    press(&mut w, Key::Tab);
    type_text(&mut w, "dev");
    press(&mut w, Key::Enter);
    type_text(&mut w, " alice");
    press(&mut w, Key::Tab);
    type_text(&mut w, "qa");
    press(&mut w, Key::Enter);
    assert_eq!(w.error.as_deref(), Some("'alice' is already in the list."));
    assert_eq!(w.workers.len(), 1);
    assert_eq!(w.name_buf, " alice");
    assert_eq!(w.role_buf, "qa");
}

#[test]
fn full_run_produces_config() {
    let mut w = WizardState::new();
    press(&mut w, Key::Enter);
    press(&mut w, Key::Tab);
    erase(&mut w, 1);
    type_text(&mut w, "team");
    press(&mut w, Key::Enter);
    type_text(&mut w, "alice");
    press(&mut w, Key::Tab);
    type_text(&mut w, "dev");
    press(&mut w, Key::Enter);
    type_text(&mut w, "bob");
    press(&mut w, Key::Tab);
    type_text(&mut w, "qa");
    press(&mut w, Key::Enter);
    press(&mut w, Key::Enter);
    assert_eq!(w.step, Step::Review);
    press(&mut w, Key::Char('y'));
    assert!(w.done);
    let c = w.to_config();
    assert_eq!(c.server, "http://localhost:8000");
    assert_eq!(c.output_dir.as_deref(), Some("team"));
    assert_eq!(c.workers.len(), 2);
    assert_eq!(c.workers[0].name, "alice");
    assert_eq!(c.workers[1].name, "bob");
    assert_eq!(c.workers[1].role, "qa");
}

#[test]
fn review_back_keys_return_to_workers() {
    for k in [Key::Esc, Key::Char('q'), Key::Char('n')] {
        let mut w = at_workers();
        type_text(&mut w, "a");
        press(&mut w, Key::Tab);
        type_text(&mut w, "b");
        press(&mut w, Key::Enter);
        press(&mut w, Key::Tab);
        press(&mut w, Key::Enter);
        assert_eq!(w.step, Step::Review);
        press(&mut w, k);
        assert_eq!(w.step, Step::Workers);
        assert_eq!(w.active, Field::WorkerName);
        assert!(!w.done);
    }
}

#[test]
fn workers_esc_returns_to_config() {
    let mut w = at_workers();
    press(&mut w, Key::Esc);
    assert_eq!(w.step, Step::Config);
    assert_eq!(w.active, Field::Server);
}

#[test]
fn to_config_drops_current_directory() {
    let w = WizardState::new();
    assert_eq!(w.to_config().output_dir, None);
    let mut w = WizardState::new();
    w.output_dir = String::new();
    assert_eq!(w.to_config().output_dir, None);
    w.output_dir = "./x".to_string();
    assert_eq!(w.to_config().output_dir.as_deref(), Some("./x"));
}

#[test]
fn active_buf_follows_active_field() {
    let mut w = WizardState::new();
    w.active_buf().push('!');
    assert_eq!(w.server, "http://localhost:8000!");
    w.active = Field::WorkerRole;
    w.active_buf().push_str("ops");
    assert_eq!(w.role_buf, "ops");
    assert_eq!(w.name_buf, "");
}
