//! The atomic units of a plan.

use vstd::prelude::*;
use vstd::string::*;

verus! {

/// One effect to perform: a command, a notice, a filesystem check or
/// mutation, or a group of these. A task owns its texts and is not changed
/// once it is made.
#[derive(Debug, PartialEq, Eq)]
pub enum Task {
    /// Run a shell command line as it stands.
    SimpleCommand { command: String },
    /// Print a message.
    Notify { message: String },
    /// Check that a path exists.
    FileExists { path: String, description: String },
    /// Create a directory and those above it.
    DirCreate { path: String, description: String },
    /// Remove a directory and what it holds.
    DirRemove { path: String, description: String },
    /// Perform the children in order, as if they stood in the list itself.
    Sequence(Vec<Task>),
}

/// The mathematical value of a task.
pub enum TaskView {
    SimpleCommand { command: Seq<char> },
    Notify { message: Seq<char> },
    FileExists { path: Seq<char>, description: Seq<char> },
    DirCreate { path: Seq<char>, description: Seq<char> },
    DirRemove { path: Seq<char>, description: Seq<char> },
    Sequence(Seq<TaskView>),
}

/// The value of `task`: its texts as sequences of characters and, for a
/// group, the values of its children.
pub open spec fn task_view(task: Task) -> TaskView
    decreases task,
{
    match task {
        Task::SimpleCommand { command } => TaskView::SimpleCommand { command: command@ },
        Task::Notify { message } => TaskView::Notify { message: message@ },
        Task::FileExists { path, description } => TaskView::FileExists {
            path: path@,
            description: description@,
        },
        Task::DirCreate { path, description } => TaskView::DirCreate {
            path: path@,
            description: description@,
        },
        Task::DirRemove { path, description } => TaskView::DirRemove {
            path: path@,
            description: description@,
        },
        Task::Sequence(children) => TaskView::Sequence(
            Seq::new(
                children.len() as nat,
                |i: int|
                    if 0 <= i < children.len() {
                        task_view(children[i])
                    } else {
                        arbitrary()
                    },
            ),
        ),
    }
}

impl DeepView for Task {
    type V = TaskView;

    open spec fn deep_view(&self) -> TaskView {
        task_view(*self)
    }
}

/// The plan that reports a planning failure: one notice with the message.
pub open spec fn failure_plan(message: Seq<char>) -> Seq<TaskView> {
    seq![TaskView::Notify { message }]
}

/// The plan to carry out: the given one, or the notice of why there is
/// none.
pub open spec fn plan_or_failure(planned: Result<Seq<TaskView>, Seq<char>>) -> Seq<TaskView> {
    match planned {
        Ok(tasks) => tasks,
        Err(message) => failure_plan(message),
    }
}

/// A group's value holds the values of its children, in order.
pub proof fn lemma_sequence_view(children: Vec<Task>)
    ensures
        Task::Sequence(children).deep_view() == TaskView::Sequence(children.deep_view()),
{
    let shown = Task::Sequence(children).deep_view();
    match shown {
        TaskView::Sequence(kids) => {
            assert(kids =~= children.deep_view());
        },
        _ => {},
    }
}

impl Task {
    /// A task that runs `command`.
    pub fn simple_command(command: &str) -> (task: Task)
        ensures
            task.deep_view() == (TaskView::SimpleCommand { command: command@ }),
    {
        Task::SimpleCommand { command: command.to_owned() }
    }

    /// A task that prints `message`.
    pub fn notify(message: &str) -> (task: Task)
        ensures
            task.deep_view() == (TaskView::Notify { message: message@ }),
    {
        Task::Notify { message: message.to_owned() }
    }

    /// A task that reports the failure `message`.
    pub fn notify_error(message: &str) -> (task: Task)
        ensures
            task.deep_view() == (TaskView::Notify { message: message@ }),
    {
        Task::Notify { message: message.to_owned() }
    }

    /// A task that checks that `path` exists.
    pub fn file_exists(path: &str, description: &str) -> (task: Task)
        ensures
            task.deep_view() == (TaskView::FileExists {
                path: path@,
                description: description@,
            }),
    {
        Task::FileExists { path: path.to_owned(), description: description.to_owned() }
    }

    /// A task that creates the directory `path`.
    pub fn dir_create(path: &str, description: &str) -> (task: Task)
        ensures
            task.deep_view() == (TaskView::DirCreate {
                path: path@,
                description: description@,
            }),
    {
        Task::DirCreate { path: path.to_owned(), description: description.to_owned() }
    }

    /// A task that removes the directory `path`.
    pub fn dir_remove(path: &str, description: &str) -> (task: Task)
        ensures
            task.deep_view() == (TaskView::DirRemove {
                path: path@,
                description: description@,
            }),
    {
        Task::DirRemove { path: path.to_owned(), description: description.to_owned() }
    }

    /// A task that performs `children` in order.
    pub fn sequence(children: Vec<Task>) -> (task: Task)
        ensures
            task.deep_view() == TaskView::Sequence(children.deep_view()),
    {
        proof {
            lemma_sequence_view(children);
        }
        Task::Sequence(children)
    }

    /// The plan that reports the planning failure `message` and does
    /// nothing else.
    pub fn task_err_vec(message: String) -> (plan: Vec<Task>)
        ensures
            plan.deep_view() == failure_plan(message@),
    {
        let mut plan: Vec<Task> = Vec::new();
        put(&mut plan, Task::notify_error(message.as_str()));
        plan
    }

    /// The plan itself where planning succeeded; where it failed, the plan
    /// that reports the failure. A caller never needs a second channel for
    /// planning errors.
    pub fn plan_or_notice(planned: Result<Vec<Task>, String>) -> (plan: Vec<Task>)
        ensures
            plan.deep_view() == plan_or_failure(
                match planned {
                    Ok(tasks) => Ok(tasks.deep_view()),
                    Err(message) => Err(message@),
                },
            ),
    {
        match planned {
            Ok(tasks) => tasks,
            Err(message) => Task::task_err_vec(message),
        }
    }
}

impl Clone for Task {
    /// The same task, written anew.
    fn clone(&self) -> (task: Task)
        ensures
            task.deep_view() == self.deep_view(),
        decreases self,
    {
        match self {
            Task::SimpleCommand { command } => Task::SimpleCommand { command: command.clone() },
            Task::Notify { message } => Task::Notify { message: message.clone() },
            Task::FileExists { path, description } => Task::FileExists {
                path: path.clone(),
                description: description.clone(),
            },
            Task::DirCreate { path, description } => Task::DirCreate {
                path: path.clone(),
                description: description.clone(),
            },
            Task::DirRemove { path, description } => Task::DirRemove {
                path: path.clone(),
                description: description.clone(),
            },
            Task::Sequence(children) => {
                let copies = clone_all(children);
                proof {
                    lemma_sequence_view(*children);
                    lemma_sequence_view(copies);
                }
                Task::Sequence(copies)
            },
        }
    }
}

/// The same tasks, written anew.
fn clone_all(tasks: &Vec<Task>) -> (copies: Vec<Task>)
    ensures
        copies.deep_view() == tasks.deep_view(),
    decreases tasks,
{
    let mut copies: Vec<Task> = Vec::new();
    let mut i: usize = 0;
    while i < tasks.len()
        invariant
            i <= tasks.len(),
            copies.len() == i,
            forall|k: int|
                0 <= k < i ==> (#[trigger] copies[k]).deep_view() == tasks[k].deep_view(),
        decreases tasks.len() - i,
    {
        copies.push(tasks[i].clone());
        i += 1;
    }
    copies
}

/// Puts `task` at the end of `plan`.
pub fn put(plan: &mut Vec<Task>, task: Task)
    ensures
        final(plan).deep_view() == old(plan).deep_view().push(task.deep_view()),
{
    plan.push(task);
}

/// Puts the tasks of `more` at the end of `plan`, in their order.
pub fn put_all(plan: &mut Vec<Task>, more: Vec<Task>)
    ensures
        final(plan).deep_view() == old(plan).deep_view() + more.deep_view(),
{
    let mut more = more;
    plan.append(&mut more);
}

} // verus!
