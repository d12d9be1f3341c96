//! The wizard's state and how each key press moves it.

use crate::config::{workers_view, copy_workers, ProjectConfig, ProjectView, WorkerConfig, WorkerView};
use crate::keys::{Key, Modifiers};
use crate::text::trimmed;
use vstd::prelude::*;

verus! {

/// The screens of the wizard, in order.
#[derive(Clone, Copy, Debug, PartialEq, Eq, Structural)]
pub enum Step {
    Welcome,
    Config,
    Workers,
    Review,
}

/// The text fields; the active one receives what is typed.
#[derive(Clone, Copy, Debug, PartialEq, Eq, Structural)]
pub enum Field {
    Server,
    OutputDir,
    WorkerName,
    WorkerRole,
}

/// Everything the wizard holds between two key presses.
pub struct WizardState {
    pub step: Step,
    pub server: String,
    pub output_dir: String,
    pub workers: Vec<WorkerConfig>,
    pub name_buf: String,
    pub role_buf: String,
    pub active: Field,
    pub error: Option<String>,
    pub quit: bool,
    pub done: bool,
}

/// The wizard's state as plain values.
pub struct WizardView {
    pub step: Step,
    pub server: Seq<char>,
    pub output_dir: Seq<char>,
    pub workers: Seq<WorkerView>,
    pub name_buf: Seq<char>,
    pub role_buf: Seq<char>,
    pub active: Field,
    pub error: Option<Seq<char>>,
    pub quit: bool,
    pub done: bool,
}

impl View for WizardState {
    type V = WizardView;

    open spec fn view(&self) -> WizardView {
        WizardView {
            step: self.step,
            server: self.server@,
            output_dir: self.output_dir@,
            workers: workers_view(self.workers@),
            name_buf: self.name_buf@,
            role_buf: self.role_buf@,
            active: self.active,
            error: match self.error {
                Some(e) => Some(e@),
                None => None,
            },
            quit: self.quit,
            done: self.done,
        }
    }
}

/// The server proposed at first, and put back when the field is left blank.
pub open spec fn default_server() -> Seq<char> {
    "http://localhost:8000"@
}

/// The output directory proposed at first, and put back when the field is
/// left blank: the current directory.
pub open spec fn default_output_dir() -> Seq<char> {
    "."@
}

/// The error shown when the worker list is left empty.
pub open spec fn no_workers_message() -> Seq<char> {
    "Add at least one worker before continuing."@
}

/// The error shown when a role is given without a name.
pub open spec fn name_required_message() -> Seq<char> {
    "Worker name is required."@
}

/// The error shown when a name is already taken.
pub open spec fn duplicate_message(name: Seq<char>) -> Seq<char> {
    "'"@ + name + "' is already in the list."@
}

/// The worker the wizard records for a name and a role.
pub open spec fn new_worker(name: Seq<char>, role: Seq<char>) -> WorkerView {
    WorkerView { name: name, role: role, tasks: None, avatar: None, color: None }
}

/// Some worker in the list has this name.
pub open spec fn name_taken(workers: Seq<WorkerView>, name: Seq<char>) -> bool {
    exists|i: int| 0 <= i < workers.len() && #[trigger] workers[i].name == name
}

impl WizardView {
    /// The text of field `f`.
    pub open spec fn buffer(self, f: Field) -> Seq<char> {
        match f {
            Field::Server => self.server,
            Field::OutputDir => self.output_dir,
            Field::WorkerName => self.name_buf,
            Field::WorkerRole => self.role_buf,
        }
    }

    /// The state with the text of field `f` replaced by `b`.
    pub open spec fn with_buffer(self, f: Field, b: Seq<char>) -> WizardView {
        match f {
            Field::Server => WizardView { server: b, ..self },
            Field::OutputDir => WizardView { output_dir: b, ..self },
            Field::WorkerName => WizardView { name_buf: b, ..self },
            Field::WorkerRole => WizardView { role_buf: b, ..self },
        }
    }

    /// The state after `c` is typed into the active field.
    pub open spec fn typed(self, c: char) -> WizardView {
        self.with_buffer(self.active, self.buffer(self.active).push(c))
    }

    /// The state after the last character of the active field is erased.
    pub open spec fn erased(self) -> WizardView {
        if self.buffer(self.active).len() == 0 {
            self
        } else {
            self.with_buffer(self.active, self.buffer(self.active).drop_last())
        }
    }

    /// Enter on the configuration screen: blank fields get their defaults back
    /// and the workers screen opens on the name field.
    pub open spec fn config_confirmed(self) -> WizardView {
        WizardView {
            server: if trimmed(self.server).len() == 0 {
                default_server()
            } else {
                self.server
            },
            output_dir: if trimmed(self.output_dir).len() == 0 {
                default_output_dir()
            } else {
                self.output_dir
            },
            step: Step::Workers,
            active: Field::WorkerName,
            ..self
        }
    }

    /// Enter on the workers screen.
    pub open spec fn worker_submitted(self) -> WizardView {
        let name = trimmed(self.name_buf);
        let role = trimmed(self.role_buf);
        if name.len() == 0 && role.len() == 0 {
            if self.workers.len() == 0 {
                WizardView { error: Some(no_workers_message()), ..self }
            } else {
                WizardView { step: Step::Review, ..self }
            }
        } else if name.len() == 0 {
            WizardView {
                error: Some(name_required_message()),
                active: Field::WorkerName,
                ..self
            }
        } else if role.len() == 0 {
            WizardView { active: Field::WorkerRole, ..self }
        } else if name_taken(self.workers, name) {
            WizardView { error: Some(duplicate_message(name)), ..self }
        } else {
            WizardView {
                workers: self.workers.push(new_worker(name, role)),
                name_buf: Seq::empty(),
                role_buf: Seq::empty(),
                active: Field::WorkerName,
                ..self
            }
        }
    }
}

/// The state after key `key` is pressed in state `s`, Control held or not.
/// Any error shown is cleared first.
pub open spec fn after_key(s: WizardView, key: Key, ctrl: bool) -> WizardView {
    let s = WizardView { error: None, ..s };
    match s.step {
        Step::Welcome => match key {
            Key::Enter => WizardView { step: Step::Config, active: Field::Server, ..s },
            Key::Char(c) => if c == ' ' {
                WizardView { step: Step::Config, active: Field::Server, ..s }
            } else if c == 'q' {
                WizardView { quit: true, ..s }
            } else {
                s
            },
            Key::Esc => WizardView { quit: true, ..s },
            _ => s,
        },
        Step::Config => match key {
            Key::Tab => WizardView {
                active: if s.active == Field::Server {
                    Field::OutputDir
                } else {
                    Field::Server
                },
                ..s
            },
            Key::Enter => s.config_confirmed(),
            Key::Esc => WizardView { step: Step::Welcome, ..s },
            Key::Backspace => s.erased(),
            Key::Char(c) => if ctrl {
                s
            } else {
                s.typed(c)
            },
            _ => s,
        },
        Step::Workers => match key {
            Key::Tab => WizardView {
                active: if s.active == Field::WorkerName {
                    Field::WorkerRole
                } else {
                    Field::WorkerName
                },
                ..s
            },
            Key::Enter => s.worker_submitted(),
            Key::Esc => WizardView { step: Step::Config, active: Field::Server, ..s },
            Key::Backspace => s.erased(),
            Key::Char(c) => if ctrl {
                s
            } else {
                s.typed(c)
            },
            _ => s,
        },
        Step::Review => match key {
            Key::Enter => WizardView { done: true, ..s },
            Key::Char(c) => if c == 'y' {
                WizardView { done: true, ..s }
            } else if c == 'q' || c == 'n' {
                WizardView { step: Step::Workers, active: Field::WorkerName, ..s }
            } else {
                s
            },
            Key::Esc => WizardView { step: Step::Workers, active: Field::WorkerName, ..s },
            _ => s,
        },
    }
}

/// The configuration a finished wizard hands over: the output directory is
/// left out when it is the current directory (`.` or empty).
pub open spec fn config_of(s: WizardView) -> ProjectView {
    ProjectView {
        server: s.server,
        output_dir: if s.output_dir == default_output_dir() || s.output_dir.len() == 0 {
            None
        } else {
            Some(s.output_dir)
        },
        workers: s.workers,
    }
}

/// The state the wizard starts in.
pub open spec fn initial_state() -> WizardView {
    WizardView {
        step: Step::Welcome,
        server: default_server(),
        output_dir: default_output_dir(),
        workers: Seq::empty(),
        name_buf: Seq::empty(),
        role_buf: Seq::empty(),
        active: Field::Server,
        error: None,
        quit: false,
        done: false,
    }
}

/// Whether a worker in the list is called `name`.
fn has_worker_named(workers: &Vec<WorkerConfig>, name: &String) -> (res: bool)
    ensures
        res == name_taken(workers_view(workers@), name@),
{
    let n = workers.len();
    for i in 0..n
        invariant
            n == workers.len(),
            forall|j: int| 0 <= j < i ==> workers@[j].name@ != name@,
    {
        if workers[i].name == *name {
            assert(workers_view(workers@)[i as int].name == name@);
            return true;
        }
    }
    assert forall|j: int| 0 <= j < workers_view(workers@).len() implies #[trigger] workers_view(
        workers@,
    )[j].name != name@ by {
        assert(workers_view(workers@)[j] == workers@[j]@);
    }
    false
}

/// The message for a name that is already taken.
fn duplicate_error(name: &String) -> (res: String)
    ensures
        res@ == duplicate_message(name@),
{
    let mut msg = String::from_str("'");
    msg.append(name.as_str());
    msg.append("' is already in the list.");
    msg
}

impl WizardState {
    /// The wizard on its welcome screen, with the default server and the
    /// current directory proposed, and no workers.
    pub fn new() -> (res: WizardState)
        ensures
            res@ == initial_state(),
    {
        let res = WizardState {
            step: Step::Welcome,
            server: String::from_str("http://localhost:8000"),
            output_dir: String::from_str("."),
            workers: Vec::new(),
            name_buf: String::new(),
            role_buf: String::new(),
            active: Field::Server,
            error: None,
            quit: false,
            done: false,
        };
        assert(res@.workers =~= Seq::<WorkerView>::empty());
        res
    }

    /// The text of the active field, to be edited in place.
    pub fn active_buf(&mut self) -> (buf: &mut String)
        ensures
            buf@ == old(self)@.buffer(old(self).active),
            final(self)@ == old(self)@.with_buffer(old(self).active, final(buf)@),
    {
        match self.active {
            Field::Server => &mut self.server,
            Field::OutputDir => &mut self.output_dir,
            Field::WorkerName => &mut self.name_buf,
            Field::WorkerRole => &mut self.role_buf,
        }
    }

    /// Enter on the configuration screen.
    fn confirm_config(&mut self)
        ensures
            final(self)@ == old(self)@.config_confirmed(),
    {
        if self.server.as_str().trim().is_empty() {
            self.server = String::from_str("http://localhost:8000");
        }
        if self.output_dir.as_str().trim().is_empty() {
            self.output_dir = String::from_str(".");
        }
        self.step = Step::Workers;
        self.active = Field::WorkerName;
    }

    /// Enter on the workers screen.
    fn submit_worker(&mut self)
        ensures
            final(self)@ == old(self)@.worker_submitted(),
    {
        let name = String::from_str(self.name_buf.as_str().trim());
        let role = String::from_str(self.role_buf.as_str().trim());
        let no_name = name.as_str().is_empty();
        let no_role = role.as_str().is_empty();
        if no_name && no_role {
            if self.workers.len() == 0 {
                self.error = Some(String::from_str("Add at least one worker before continuing."));
            } else {
                self.step = Step::Review;
            }
            return;
        }
        if no_name {
            self.error = Some(String::from_str("Worker name is required."));
            self.active = Field::WorkerName;
            return;
        }
        if no_role {
            self.active = Field::WorkerRole;
            return;
        }
        if has_worker_named(&self.workers, &name) {
            self.error = Some(duplicate_error(&name));
            return;
        }
        let ghost before = self@;
        self.workers.push(WorkerConfig::new(name, role));
        self.name_buf = String::new();
        self.role_buf = String::new();
        self.active = Field::WorkerName;
        assert(self@.workers =~= before.workers.push(new_worker(name@, role@)));
    }

    /// Moves the wizard on by one key press: `code` with modifiers `mods`.
    pub fn handle(&mut self, code: Key, mods: Modifiers)
        ensures
            final(self)@ == after_key(old(self)@, code, mods.control()),
    {
        self.error = None;
        let ctrl = mods.has_control();
        match self.step {
            Step::Welcome => match code {
                Key::Enter | Key::Char(' ') => {
                    self.step = Step::Config;
                    self.active = Field::Server;
                },
                Key::Esc | Key::Char('q') => self.quit = true,
                _ => {},
            },
            Step::Config => match code {
                Key::Tab => {
                    self.active = match self.active {
                        Field::Server => Field::OutputDir,
                        _ => Field::Server,
                    };
                },
                Key::Enter => {
                    self.confirm_config();
                },
                Key::Esc => {
                    self.step = Step::Welcome;
                },
                Key::Backspace => {
                    self.active_buf().pop();
                },
                Key::Char(c) => {
                    if !ctrl {
                        self.active_buf().push(c);
                    }
                },
                _ => {},
            },
            Step::Workers => match code {
                Key::Tab => {
                    self.active = match self.active {
                        Field::WorkerName => Field::WorkerRole,
                        _ => Field::WorkerName,
                    };
                },
                Key::Enter => {
                    self.submit_worker();
                },
                Key::Esc => {
                    self.step = Step::Config;
                    self.active = Field::Server;
                },
                Key::Backspace => {
                    self.active_buf().pop();
                },
                Key::Char(c) => {
                    if !ctrl {
                        self.active_buf().push(c);
                    }
                },
                _ => {},
            },
            Step::Review => match code {
                Key::Enter | Key::Char('y') => self.done = true,
                Key::Esc | Key::Char('q') | Key::Char('n') => {
                    self.step = Step::Workers;
                    self.active = Field::WorkerName;
                },
                _ => {},
            },
        }
    }

    /// The configuration gathered so far.
    pub fn to_config(&self) -> (res: ProjectConfig)
        ensures
            res@ == config_of(self@),
    {
        let dot = String::from_str(".");
        let output_dir = if self.output_dir == dot || self.output_dir.as_str().is_empty() {
            None
        } else {
            Some(self.output_dir.clone())
        };
        ProjectConfig::new(self.server.clone(), output_dir, copy_workers(&self.workers))
    }
}

} // verus!
