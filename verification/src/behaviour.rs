//! What each key does on each screen, stated over the wizard's plain state:
//! the screen shown, the text of the four fields, the workers, the error and
//! the two flags.

use crate::config::WorkerView;
use crate::keys::Key;
use crate::text::trimmed;
use crate::wizard::{after_key, config_of, initial_state, Field, Step, WizardView};
use vstd::prelude::*;

verus! {

/// The four text fields of `a` and `b` hold the same text.
pub open spec fn same_text(a: WizardView, b: WizardView) -> bool {
    &&& a.server == b.server
    &&& a.output_dir == b.output_dir
    &&& a.name_buf == b.name_buf
    &&& a.role_buf == b.role_buf
}

/// The text of field `f` in `s`, read field by field.
pub open spec fn text_in(s: WizardView, f: Field) -> Seq<char> {
    if f == Field::Server {
        s.server
    } else if f == Field::OutputDir {
        s.output_dir
    } else if f == Field::WorkerName {
        s.name_buf
    } else {
        s.role_buf
    }
}

/// The wizard starts on the welcome screen with `http://localhost:8000` and
/// `.` proposed, the server field active, no worker, nothing typed, no error,
/// and neither quitting nor finished.
pub proof fn lemma_initial_values()
    ensures
        initial_state().step == Step::Welcome,
        initial_state().server == "http://localhost:8000"@,
        initial_state().output_dir == "."@,
        initial_state().workers.len() == 0,
        initial_state().name_buf.len() == 0,
        initial_state().role_buf.len() == 0,
        initial_state().active == Field::Server,
        initial_state().error is None,
        !initial_state().quit,
        !initial_state().done,
{
}

/// A key press never changes the workers, except Enter on the workers
/// screen; it never ends a quit or undoes a finish; and it clears any error
/// unless it is that Enter.
pub proof fn lemma_keys_leave_workers(s: WizardView, key: Key, ctrl: bool)
    ensures
        !(s.step == Step::Workers && key == Key::Enter) ==> after_key(s, key, ctrl).workers
            == s.workers && after_key(s, key, ctrl).error is None,
        s.quit ==> after_key(s, key, ctrl).quit,
        s.done ==> after_key(s, key, ctrl).done,
        after_key(s, key, ctrl).quit ==> s.quit || (s.step == Step::Welcome && (key == Key::Esc
            || key == Key::Char('q'))),
        after_key(s, key, ctrl).done ==> s.done || (s.step == Step::Review && (key == Key::Enter
            || key == Key::Char('y'))),
{
}

/// Welcome screen: Enter or Space opens the configuration screen on the
/// server field; Esc or `q` quits; nothing there edits text.
pub proof fn lemma_welcome_keys(s: WizardView, key: Key, ctrl: bool)
    requires
        s.step == Step::Welcome,
    ensures
        same_text(after_key(s, key, ctrl), s),
        key == Key::Enter || key == Key::Char(' ') ==> after_key(s, key, ctrl).step
            == Step::Config && after_key(s, key, ctrl).active == Field::Server && after_key(
            s,
            key,
            ctrl,
        ).quit == s.quit,
        key == Key::Esc || key == Key::Char('q') ==> after_key(s, key, ctrl).quit && after_key(
            s,
            key,
            ctrl,
        ).step == Step::Welcome,
        !(key == Key::Enter || key == Key::Char(' ')) ==> after_key(s, key, ctrl).step
            == Step::Welcome && after_key(s, key, ctrl).active == s.active,
        after_key(s, key, ctrl).done == s.done,
{
}

/// Review screen: Enter or `y` finishes the wizard; Esc, `q` or `n` go back
/// to the workers screen on the name field; nothing there edits text or
/// workers.
pub proof fn lemma_review_keys(s: WizardView, key: Key, ctrl: bool)
    requires
        s.step == Step::Review,
    ensures
        same_text(after_key(s, key, ctrl), s),
        after_key(s, key, ctrl).workers == s.workers,
        after_key(s, key, ctrl).quit == s.quit,
        key == Key::Enter || key == Key::Char('y') ==> after_key(s, key, ctrl).done && after_key(
            s,
            key,
            ctrl,
        ).step == Step::Review,
        key == Key::Esc || key == Key::Char('q') || key == Key::Char('n') ==> after_key(
            s,
            key,
            ctrl,
        ).step == Step::Workers && after_key(s, key, ctrl).active == Field::WorkerName
            && after_key(s, key, ctrl).done == s.done,
        !(key == Key::Enter || key == Key::Char('y') || key == Key::Esc || key == Key::Char('q')
            || key == Key::Char('n')) ==> after_key(s, key, ctrl).step == Step::Review
            && after_key(s, key, ctrl).done == s.done && after_key(s, key, ctrl).active
            == s.active,
{
}

/// Enter on the configuration screen opens the workers screen on the name
/// field; a server or directory that is not blank is kept exactly as typed,
/// a blank one gets `http://localhost:8000` or `.` back; nothing else
/// changes.
pub proof fn lemma_config_enter(s: WizardView, ctrl: bool)
    requires
        s.step == Step::Config,
    ensures
        after_key(s, Key::Enter, ctrl).step == Step::Workers,
        after_key(s, Key::Enter, ctrl).active == Field::WorkerName,
        trimmed(s.server).len() > 0 ==> after_key(s, Key::Enter, ctrl).server == s.server,
        trimmed(s.server).len() == 0 ==> after_key(s, Key::Enter, ctrl).server
            == "http://localhost:8000"@,
        trimmed(s.output_dir).len() > 0 ==> after_key(s, Key::Enter, ctrl).output_dir
            == s.output_dir,
        trimmed(s.output_dir).len() == 0 ==> after_key(s, Key::Enter, ctrl).output_dir == "."@,
        after_key(s, Key::Enter, ctrl).name_buf == s.name_buf,
        after_key(s, Key::Enter, ctrl).role_buf == s.role_buf,
        after_key(s, Key::Enter, ctrl).workers == s.workers,
        after_key(s, Key::Enter, ctrl).error is None,
        after_key(s, Key::Enter, ctrl).quit == s.quit,
        after_key(s, Key::Enter, ctrl).done == s.done,
{
}

/// Tab on the configuration screen switches between the server and the
/// directory field, and on the workers screen between name and role; Esc
/// leaves the configuration screen for the welcome screen, and the workers
/// screen for the configuration screen on the server field. Neither edits
/// text.
pub proof fn lemma_tab_and_esc(s: WizardView, ctrl: bool)
    ensures
        s.step == Step::Config && s.active == Field::Server ==> after_key(s, Key::Tab, ctrl).active
            == Field::OutputDir,
        s.step == Step::Config && s.active == Field::OutputDir ==> after_key(
            s,
            Key::Tab,
            ctrl,
        ).active == Field::Server,
        s.step == Step::Workers && s.active == Field::WorkerName ==> after_key(
            s,
            Key::Tab,
            ctrl,
        ).active == Field::WorkerRole,
        s.step == Step::Workers && s.active == Field::WorkerRole ==> after_key(
            s,
            Key::Tab,
            ctrl,
        ).active == Field::WorkerName,
        s.step == Step::Config || s.step == Step::Workers ==> after_key(s, Key::Tab, ctrl).step
            == s.step && same_text(after_key(s, Key::Tab, ctrl), s),
        s.step == Step::Config ==> after_key(s, Key::Esc, ctrl).step == Step::Welcome
            && after_key(s, Key::Esc, ctrl).active == s.active && same_text(
            after_key(s, Key::Esc, ctrl),
            s,
        ),
        s.step == Step::Workers ==> after_key(s, Key::Esc, ctrl).step == Step::Config
            && after_key(s, Key::Esc, ctrl).active == Field::Server && same_text(
            after_key(s, Key::Esc, ctrl),
            s,
        ),
{
}

/// A character typed without Control on the configuration or workers screen
/// is appended to the active field and to no other; with Control held, or on
/// the welcome and review screens, no text changes.
pub proof fn lemma_typing(s: WizardView, c: char, ctrl: bool, f: Field)
    ensures
        (s.step == Step::Config || s.step == Step::Workers) && !ctrl ==> text_in(
            after_key(s, Key::Char(c), ctrl),
            f,
        ) == if f == s.active {
            text_in(s, f).push(c)
        } else {
            text_in(s, f)
        },
        ctrl ==> text_in(after_key(s, Key::Char(c), ctrl), f) == text_in(s, f),
        s.step == Step::Welcome || s.step == Step::Review ==> text_in(
            after_key(s, Key::Char(c), ctrl),
            f,
        ) == text_in(s, f),
        (s.step == Step::Config || s.step == Step::Workers) ==> after_key(
            s,
            Key::Char(c),
            ctrl,
        ).step == s.step && after_key(s, Key::Char(c), ctrl).active == s.active,
{
}

/// Backspace on the configuration or workers screen removes the last
/// character of the active field, if any, and touches no other field.
pub proof fn lemma_backspace(s: WizardView, ctrl: bool, f: Field)
    requires
        s.step == Step::Config || s.step == Step::Workers,
    ensures
        text_in(after_key(s, Key::Backspace, ctrl), f) == if f == s.active && text_in(s, f).len()
            > 0 {
            text_in(s, f).drop_last()
        } else {
            text_in(s, f)
        },
        after_key(s, Key::Backspace, ctrl).step == s.step,
        after_key(s, Key::Backspace, ctrl).active == s.active,
{
}

/// Enter on the workers screen: with name and role both non-blank and the
/// name free, the worker (name and role trimmed, nothing else set) is
/// appended and both fields are emptied for the next one; in every other case
/// no worker is added and both fields keep their text.
pub proof fn lemma_workers_enter_adds(s: WizardView, ctrl: bool)
    requires
        s.step == Step::Workers,
    ensures
        after_key(s, Key::Enter, ctrl).workers.len() == s.workers.len() ==> after_key(
            s,
            Key::Enter,
            ctrl,
        ).name_buf == s.name_buf && after_key(s, Key::Enter, ctrl).role_buf == s.role_buf,
        after_key(s, Key::Enter, ctrl).workers.len() != s.workers.len() ==> after_key(
            s,
            Key::Enter,
            ctrl,
        ).workers == s.workers.push(
            WorkerView {
                name: trimmed(s.name_buf),
                role: trimmed(s.role_buf),
                tasks: None,
                avatar: None,
                color: None,
            },
        ) && after_key(s, Key::Enter, ctrl).name_buf.len() == 0 && after_key(
            s,
            Key::Enter,
            ctrl,
        ).role_buf.len() == 0 && after_key(s, Key::Enter, ctrl).active == Field::WorkerName
            && after_key(s, Key::Enter, ctrl).error is None,
        trimmed(s.name_buf).len() > 0 && trimmed(s.role_buf).len() > 0 && (forall|i: int|
            0 <= i < s.workers.len() ==> #[trigger] s.workers[i].name != trimmed(s.name_buf))
            ==> after_key(s, Key::Enter, ctrl).workers.len() == s.workers.len() + 1,
        after_key(s, Key::Enter, ctrl).server == s.server,
        after_key(s, Key::Enter, ctrl).output_dir == s.output_dir,
        after_key(s, Key::Enter, ctrl).quit == s.quit,
        after_key(s, Key::Enter, ctrl).done == s.done,
{
}

/// Enter on the workers screen when no worker is added: what is shown next.
pub proof fn lemma_workers_enter_refuses(s: WizardView, ctrl: bool)
    requires
        s.step == Step::Workers,
    ensures
        trimmed(s.name_buf).len() == 0 && trimmed(s.role_buf).len() == 0 && s.workers.len() == 0
            ==> after_key(s, Key::Enter, ctrl).error == Some(
            "Add at least one worker before continuing."@,
        ) && after_key(s, Key::Enter, ctrl).step == Step::Workers,
        trimmed(s.name_buf).len() == 0 && trimmed(s.role_buf).len() == 0 && s.workers.len() > 0
            ==> after_key(s, Key::Enter, ctrl).step == Step::Review && after_key(
            s,
            Key::Enter,
            ctrl,
        ).error is None,
        trimmed(s.name_buf).len() == 0 && trimmed(s.role_buf).len() > 0 ==> after_key(
            s,
            Key::Enter,
            ctrl,
        ).error == Some("Worker name is required."@) && after_key(s, Key::Enter, ctrl).active
            == Field::WorkerName && after_key(s, Key::Enter, ctrl).step == Step::Workers,
        trimmed(s.name_buf).len() > 0 && trimmed(s.role_buf).len() == 0 ==> after_key(
            s,
            Key::Enter,
            ctrl,
        ).error is None && after_key(s, Key::Enter, ctrl).active == Field::WorkerRole
            && after_key(s, Key::Enter, ctrl).step == Step::Workers,
        forall|i: int|
            0 <= i < s.workers.len() && trimmed(s.role_buf).len() > 0 && #[trigger] s.workers[i].name
                == trimmed(s.name_buf) && trimmed(s.name_buf).len() > 0 ==> after_key(
                s,
                Key::Enter,
                ctrl,
            ).error == Some("'"@ + trimmed(s.name_buf) + "' is already in the list."@)
                && after_key(s, Key::Enter, ctrl).workers == s.workers && after_key(
                s,
                Key::Enter,
                ctrl,
            ).step == Step::Workers,
        trimmed(s.name_buf).len() > 0 || trimmed(s.role_buf).len() > 0 ==> after_key(
            s,
            Key::Enter,
            ctrl,
        ).step == Step::Workers,
{
}

/// The configuration handed over keeps the server and the workers as they
/// are, and names the output directory unless it is `.` or empty.
pub proof fn lemma_config_contents(s: WizardView)
    ensures
        config_of(s).server == s.server,
        config_of(s).workers == s.workers,
        (s.output_dir == "."@ || s.output_dir.len() == 0) ==> config_of(s).output_dir is None,
        !(s.output_dir == "."@ || s.output_dir.len() == 0) ==> config_of(s).output_dir == Some(
            s.output_dir,
        ),
{
}

} // verus!
