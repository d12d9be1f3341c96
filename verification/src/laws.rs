//! What holds of the wizard across key presses.

use crate::config::WorkerView;
use crate::keys::Key;
use crate::text::{is_trimmed, is_white_space, lemma_trimmed, trim_start, trimmed};
use crate::wizard::{
    after_key, config_of, default_output_dir, default_server, initial_state, Field, Step,
    WizardView,
};
use vstd::prelude::*;

verus! {

/// A worker as the wizard records it: a name and a role, neither blank nor
/// with whitespace at either end, and nothing else set.
pub open spec fn worker_well_formed(w: WorkerView) -> bool {
    &&& w.name.len() > 0
    &&& is_trimmed(w.name)
    &&& w.role.len() > 0
    &&& is_trimmed(w.role)
    &&& w.tasks is None
    &&& w.avatar is None
    &&& w.color is None
}

/// No two workers share a name.
pub open spec fn names_distinct(workers: Seq<WorkerView>) -> bool {
    forall|i: int, j: int|
        0 <= i < j < workers.len() ==> #[trigger] workers[i].name != #[trigger] workers[j].name
}

/// What every state the wizard can reach satisfies.
pub open spec fn well_formed(s: WizardView) -> bool {
    &&& (s.step == Step::Welcome || s.step == Step::Config) ==> (s.active == Field::Server
        || s.active == Field::OutputDir)
    &&& (s.step == Step::Workers || s.step == Step::Review) ==> (s.active == Field::WorkerName
        || s.active == Field::WorkerRole)
    &&& (s.step == Step::Workers || s.step == Step::Review) ==> trimmed(s.server).len() > 0
        && trimmed(s.output_dir).len() > 0
    &&& s.step == Step::Review ==> s.workers.len() > 0
    &&& forall|i: int| 0 <= i < s.workers.len() ==> worker_well_formed(#[trigger] s.workers[i])
    &&& names_distinct(s.workers)
}

/// Text whose first character is not whitespace is not blank.
proof fn lemma_not_blank(s: Seq<char>)
    requires
        s.len() > 0,
        !is_white_space(s[0]),
    ensures
        trimmed(s).len() > 0,
{
    assert(trim_start(s) == s);
    if s.len() > 0 && is_white_space(s.last()) {
        lemma_trimmed(s);
        assert(!crate::text::all_white_space(s));
    }
}

/// Neither default is blank.
proof fn lemma_defaults_not_blank()
    ensures
        trimmed(default_server()).len() > 0,
        trimmed(default_output_dir()).len() > 0,
{
    reveal_strlit("http://localhost:8000");
    reveal_strlit(".");
    lemma_not_blank(default_server());
    lemma_not_blank(default_output_dir());
}

/// The wizard starts in a well-formed state.
pub proof fn lemma_initial_well_formed()
    ensures
        well_formed(initial_state()),
{
}

/// Every key press keeps the wizard well formed: the active field belongs to
/// the screen shown, the server and directory are not blank once confirmed,
/// the review screen is reached only with a worker, and every recorded worker
/// has a trimmed, non-blank name and role, under a name no other worker has.
pub proof fn lemma_key_keeps_well_formed(s: WizardView, key: Key, ctrl: bool)
    requires
        well_formed(s),
    ensures
        well_formed(after_key(s, key, ctrl)),
{
    let t = WizardView { error: None, ..s };
    let n = after_key(s, key, ctrl);
    lemma_defaults_not_blank();
    if s.step == Step::Workers && key == Key::Enter {
        let name = trimmed(t.name_buf);
        let role = trimmed(t.role_buf);
        lemma_trimmed(t.name_buf);
        lemma_trimmed(t.role_buf);
        if name.len() > 0 && role.len() > 0 && !crate::wizard::name_taken(t.workers, name) {
            let w = crate::wizard::new_worker(name, role);
            assert(n.workers == t.workers.push(w));
            assert forall|i: int| 0 <= i < n.workers.len() implies worker_well_formed(
                #[trigger] n.workers[i],
            ) by {
                if i < t.workers.len() {
                    assert(n.workers[i] == t.workers[i]);
                }
            }
            assert forall|i: int, j: int|
                0 <= i < j < n.workers.len() implies #[trigger] n.workers[i].name
                != #[trigger] n.workers[j].name by {
                if j < t.workers.len() {
                    assert(n.workers[i] == t.workers[i]);
                    assert(n.workers[j] == t.workers[j]);
                } else {
                    assert(n.workers[i] == t.workers[i]);
                    assert(n.workers[j] == w);
                    if t.workers[i].name == name {
                        assert(crate::wizard::name_taken(t.workers, name));
                    }
                }
            }
        }
    }
}

/// Workers are only ever added, one at a time, at the end of the list.
pub proof fn lemma_workers_only_grow(s: WizardView, key: Key, ctrl: bool)
    ensures
        s.workers.len() <= after_key(s, key, ctrl).workers.len() <= s.workers.len() + 1,
        after_key(s, key, ctrl).workers.subrange(0, s.workers.len() as int) == s.workers,
{
    let n = after_key(s, key, ctrl);
    assert(n.workers.subrange(0, s.workers.len() as int) =~= s.workers);
}

/// Once the wizard is told to quit, or has finished, it stays so.
pub proof fn lemma_flags_stay_set(s: WizardView, key: Key, ctrl: bool)
    ensures
        s.quit ==> after_key(s, key, ctrl).quit,
        s.done ==> after_key(s, key, ctrl).done,
{
}

/// Every key press clears the error shown; a new one appears only on Enter on
/// the workers screen.
pub proof fn lemma_error_only_on_submit(s: WizardView, key: Key, ctrl: bool)
    ensures
        after_key(s, key, ctrl).error is Some ==> s.step == Step::Workers && key == Key::Enter,
{
}

/// The wizard finishes only from the review screen, and with at least one
/// worker.
pub proof fn lemma_done_has_workers(s: WizardView, key: Key, ctrl: bool)
    requires
        well_formed(s),
        !s.done,
        after_key(s, key, ctrl).done,
    ensures
        s.step == Step::Review,
        after_key(s, key, ctrl).workers.len() > 0,
{
}

/// On the screens with text fields, Backspace erases what a typed character
/// added.
pub proof fn lemma_backspace_undoes_typing(s: WizardView, c: char)
    requires
        s.step == Step::Config || s.step == Step::Workers,
    ensures
        after_key(after_key(s, Key::Char(c), false), Key::Backspace, false) == (WizardView {
            error: None,
            ..s
        }),
{
    let t = WizardView { error: None, ..s };
    let u = after_key(s, Key::Char(c), false);
    assert(u == t.typed(c));
    assert(u.buffer(u.active) == t.buffer(t.active).push(c));
    assert(u.buffer(u.active).drop_last() =~= t.buffer(t.active));
}

/// Tab twice comes back to the field it started from.
pub proof fn lemma_tab_twice(s: WizardView)
    requires
        well_formed(s),
        s.step == Step::Config || s.step == Step::Workers,
    ensures
        after_key(after_key(s, Key::Tab, false), Key::Tab, false) == (WizardView {
            error: None,
            ..s
        }),
{
}

/// The configuration handed over from the review screen names a server that
/// is not blank and at least one worker, every one with a trimmed, non-blank
/// name and role, no two with the same name.
pub proof fn lemma_finished_config(s: WizardView)
    requires
        well_formed(s),
        s.step == Step::Review,
    ensures
        trimmed(config_of(s).server).len() > 0,
        config_of(s).workers.len() > 0,
        forall|i: int|
            0 <= i < config_of(s).workers.len() ==> worker_well_formed(
                #[trigger] config_of(s).workers[i],
            ),
        names_distinct(config_of(s).workers),
{
}

} // verus!
