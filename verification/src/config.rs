//! The project configuration that the wizard produces.

use vstd::prelude::*;

verus! {

/// One worker of the team: its name and role, and the optional settings that
/// the wizard leaves unset.
pub struct WorkerConfig {
    pub name: String,
    pub role: String,
    pub tasks: Option<String>,
    pub avatar: Option<String>,
    pub color: Option<String>,
}

/// A worker as plain text.
pub struct WorkerView {
    pub name: Seq<char>,
    pub role: Seq<char>,
    pub tasks: Option<Seq<char>>,
    pub avatar: Option<Seq<char>>,
    pub color: Option<Seq<char>>,
}

/// The text of an optional string.
pub open spec fn text_of(o: Option<String>) -> Option<Seq<char>> {
    match o {
        Some(s) => Some(s@),
        None => None,
    }
}

/// A whole list of workers as plain text.
pub open spec fn workers_view(workers: Seq<WorkerConfig>) -> Seq<WorkerView> {
    workers.map_values(|w: WorkerConfig| w@)
}

impl View for WorkerConfig {
    type V = WorkerView;

    open spec fn view(&self) -> WorkerView {
        WorkerView {
            name: self.name@,
            role: self.role@,
            tasks: text_of(self.tasks),
            avatar: text_of(self.avatar),
            color: text_of(self.color),
        }
    }
}

/// A copy of an optional string.
fn copy_text(o: &Option<String>) -> (res: Option<String>)
    ensures
        text_of(res) == text_of(*o),
{
    match o {
        Some(s) => Some(s.clone()),
        None => None,
    }
}

impl WorkerConfig {
    /// A worker with this name and role and nothing else set.
    pub fn new(name: String, role: String) -> (res: WorkerConfig)
        ensures
            res@ == (WorkerView { name: name@, role: role@, tasks: None, avatar: None, color: None }),
    {
        WorkerConfig { name, role, tasks: None, avatar: None, color: None }
    }

    /// A copy of this worker.
    pub fn duplicate(&self) -> (res: WorkerConfig)
        ensures
            res@ == self@,
    {
        WorkerConfig {
            name: self.name.clone(),
            role: self.role.clone(),
            tasks: copy_text(&self.tasks),
            avatar: copy_text(&self.avatar),
            color: copy_text(&self.color),
        }
    }
}

/// A copy of a list of workers, in the same order.
pub fn copy_workers(workers: &Vec<WorkerConfig>) -> (res: Vec<WorkerConfig>)
    ensures
        workers_view(res@) == workers_view(workers@),
{
    let mut res: Vec<WorkerConfig> = Vec::new();
    let n = workers.len();
    for i in 0..n
        invariant
            n == workers.len(),
            res@.len() == i,
            forall|j: int| 0 <= j < i ==> #[trigger] res@[j]@ == workers@[j]@,
    {
        res.push(workers[i].duplicate());
    }
    assert(workers_view(res@) =~= workers_view(workers@));
    res
}

/// What `collab init` writes out: the collab server, the directory to write
/// into (`None` for the current one), and the team.
pub struct ProjectConfig {
    pub server: String,
    pub output_dir: Option<String>,
    pub workers: Vec<WorkerConfig>,
}

/// A project configuration as plain text.
pub struct ProjectView {
    pub server: Seq<char>,
    pub output_dir: Option<Seq<char>>,
    pub workers: Seq<WorkerView>,
}

impl View for ProjectConfig {
    type V = ProjectView;

    open spec fn view(&self) -> ProjectView {
        ProjectView {
            server: self.server@,
            output_dir: text_of(self.output_dir),
            workers: workers_view(self.workers@),
        }
    }
}

impl ProjectConfig {
    /// A configuration of these parts.
    pub fn new(server: String, output_dir: Option<String>, workers: Vec<WorkerConfig>) -> (res:
        ProjectConfig)
        ensures
            res@ == (ProjectView {
                server: server@,
                output_dir: text_of(output_dir),
                workers: workers_view(workers@),
            }),
    {
        ProjectConfig { server, output_dir, workers }
    }
}

} // verus!
