use collab_cli::keys::{Key, Modifiers};
use collab_cli::wizard::{Field, Step, WizardState};

fn press(w: &mut WizardState, k: Key) {
    w.handle(k, Modifiers { bits: 0 });
}

#[test]
fn backspace_undoes_typing_on_values() {
    let mut w = WizardState::new();
    press(&mut w, Key::Enter);
    let before = w.server.clone();
    press(&mut w, Key::Char('é'));
    press(&mut w, Key::Backspace);
    assert_eq!(w.server, before);
}

#[test]
fn tab_twice_returns_on_values() {
    let mut w = WizardState::new();
    press(&mut w, Key::Enter);
    press(&mut w, Key::Enter);
    press(&mut w, Key::Tab);
    assert_eq!(w.active, Field::WorkerRole);
    press(&mut w, Key::Tab);
    assert_eq!(w.active, Field::WorkerName);
}

#[test]
fn quit_stays_set() {
    let mut w = WizardState::new();
    press(&mut w, Key::Esc);
    press(&mut w, Key::Enter);
    assert!(w.quit);
    assert_eq!(w.step, Step::Config);
}

#[test]
fn done_only_with_workers() {
    let mut w = WizardState::new();
    press(&mut w, Key::Enter);
    press(&mut w, Key::Enter);
    press(&mut w, Key::Enter);
    press(&mut w, Key::Char('y'));
    assert!(!w.done);
    assert_eq!(w.step, Step::Workers);
}

#[test]
fn workers_only_grow_on_values() {
    let mut w = WizardState::new();
    press(&mut w, Key::Enter);
    press(&mut w, Key::Enter);
    for k in ["x", "y"] {
        press(&mut w, Key::Char(k.chars().next().unwrap()));
        press(&mut w, Key::Tab);
        press(&mut w, Key::Char('r'));
        press(&mut w, Key::Enter);
    }
    press(&mut w, Key::Esc);
    press(&mut w, Key::Esc);
    assert_eq!(w.workers.len(), 2);
    assert_eq!(w.workers[0].name, "x");
    assert_eq!(w.workers[1].name, "y");
}
