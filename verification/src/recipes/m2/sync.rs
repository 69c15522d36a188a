//! Moving files between the host and the PHP container.
//!
//! A plan is made of phase batches: every path goes through one phase
//! before any path goes through the next. A failure then leaves behind no
//! more than the batches before it and the paths of its own batch that
//! came first.

use crate::context::{Context, ContextView};
use crate::paths;
use crate::recipes::m2::php_container::{container_name, PhpContainer};
use crate::recipes::m2::M2Recipe;
use crate::snapshot::{shows_directory, LocalEntryView, Snapshot};
use crate::task::{put, put_all, Task, TaskView};
use vstd::prelude::*;
use vstd::string::*;

verus! {

/// The directory inside the container that host paths are mapped under.
pub const REMOTE_ROOT: &'static str = "/var/www";

/// The phases of a push, in the order in which they are planned.
#[derive(Debug, Clone, Copy, PartialEq, Eq, Structural)]
pub enum PushPhase {
    /// Check that the source is there on the host.
    Exists,
    /// Delete the target in the container.
    Delete,
    /// Make the target's parent directory in the container.
    Recreate,
    /// Copy the source into the container.
    Copy,
}

/// The phases of a pull, in the order in which they are planned.
#[derive(Debug, Clone, Copy, PartialEq, Eq, Structural)]
pub enum PullPhase {
    /// Check that the source is there in the container.
    Exists,
    /// Make the local target ready.
    Reconcile,
    /// Copy the source out of the container.
    Copy,
}

/// Where `path` lies on the host.
pub open spec fn host_path(ctx: ContextView, path: Seq<char>) -> Seq<char> {
    paths::joined(ctx.cwd, path)
}

/// Where `path` lies in the container.
pub open spec fn remote_path(path: Seq<char>) -> Seq<char> {
    paths::joined(REMOTE_ROOT@, path)
}

/// The PHP container of the project.
pub open spec fn php_container(ctx: ContextView) -> Seq<char> {
    container_name(ctx.name, "php"@)
}

/// The command line that deletes `remote` in `container`.
pub open spec fn remote_delete_command(container: Seq<char>, remote: Seq<char>) -> Seq<char> {
    "docker exec "@ + container + " rm -rf "@ + remote
}

/// The command line that makes the directory `dir` in `container`.
pub open spec fn remote_mkdir_command(container: Seq<char>, dir: Seq<char>) -> Seq<char> {
    "docker exec -u www-data "@ + container + " mkdir -p "@ + dir
}

/// The command line that tests whether `remote` is there in `container`.
pub open spec fn remote_exists_command(container: Seq<char>, remote: Seq<char>) -> Seq<char> {
    "docker exec "@ + container + " test -e "@ + remote
}

/// The command line that copies `host` into the directory `dir` of
/// `container`.
pub open spec fn copy_in_command(host: Seq<char>, container: Seq<char>, dir: Seq<char>) -> Seq<
    char,
> {
    "docker cp "@ + host + " "@ + container + ":"@ + dir
}

/// The command line that copies `remote` out of `container` into the
/// local directory `dir`.
pub open spec fn copy_out_command(container: Seq<char>, remote: Seq<char>, dir: Seq<char>) -> Seq<
    char,
> {
    "docker cp "@ + container + ":"@ + remote + " "@ + dir
}

/// Every path has a parent in the container, so that it can be pushed.
pub open spec fn pushable(trailing: Seq<Seq<char>>) -> bool {
    forall|i: int|
        0 <= i < trailing.len() ==> paths::parent_of(remote_path(#[trigger] trailing[i])) is Some
}

/// Every path has a parent on the host, so that it can be pulled.
pub open spec fn pullable(ctx: ContextView, trailing: Seq<Seq<char>>) -> bool {
    forall|i: int|
        0 <= i < trailing.len() ==> paths::parent_of(host_path(ctx, #[trigger] trailing[i]))
            is Some
}

/// What one phase of a push plans for one path.
pub open spec fn push_tasks(phase: PushPhase, ctx: ContextView, path: Seq<char>) -> Seq<
    TaskView,
> {
    let container = php_container(ctx);
    let remote = remote_path(path);
    match phase {
        PushPhase::Exists => seq![
            TaskView::FileExists {
                path: host_path(ctx, path),
                description: "File exists check before 'push'"@,
            },
        ],
        PushPhase::Delete => seq![
            TaskView::SimpleCommand { command: remote_delete_command(container, remote) },
            TaskView::Notify { message: "- (remote) "@ + path },
        ],
        PushPhase::Recreate => if paths::component_count(path) > 1 {
            seq![
                TaskView::SimpleCommand {
                    command: remote_mkdir_command(container, paths::parent_of(remote).unwrap()),
                },
            ]
        } else {
            Seq::empty()
        },
        PushPhase::Copy => seq![
            TaskView::SimpleCommand {
                command: copy_in_command(
                    host_path(ctx, path),
                    container,
                    paths::parent_of(remote).unwrap(),
                ),
            },
            TaskView::Notify { message: "+ (remote) "@ + path },
        ],
    }
}

/// What one phase of a pull plans for one path, given what was seen of the
/// local filesystem.
pub open spec fn pull_tasks(
    phase: PullPhase,
    ctx: ContextView,
    snapshot: Seq<LocalEntryView>,
    path: Seq<char>,
) -> Seq<TaskView> {
    let container = php_container(ctx);
    let remote = remote_path(path);
    let local = host_path(ctx, path);
    match phase {
        PullPhase::Exists => seq![
            TaskView::SimpleCommand { command: remote_exists_command(container, remote) },
        ],
        PullPhase::Reconcile => if shows_directory(snapshot, local) {
            seq![
                TaskView::DirRemove { path: local, description: "Directory Removal"@ },
                TaskView::Notify { message: "- "@ + path },
                TaskView::DirCreate { path: local, description: "Directory creation"@ },
            ]
        } else if paths::component_count(path) == 1 {
            Seq::empty()
        } else {
            seq![
                TaskView::DirCreate {
                    path: paths::parent_of(local).unwrap(),
                    description: "Directory creation"@,
                },
            ]
        },
        PullPhase::Copy => seq![
            TaskView::Sequence(
                seq![
                    TaskView::SimpleCommand {
                        command: copy_out_command(
                            container,
                            remote,
                            paths::parent_of(local).unwrap(),
                        ),
                    },
                    TaskView::Notify { message: "+ "@ + path },
                ],
            ),
        ],
    }
}

/// The batch of one push phase: what the phase plans for each path, in
/// the order of the paths.
pub open spec fn push_batch(phase: PushPhase, ctx: ContextView, trailing: Seq<Seq<char>>) -> Seq<
    TaskView,
>
    decreases trailing.len(),
{
    if trailing.len() == 0 {
        Seq::empty()
    } else {
        push_batch(phase, ctx, trailing.drop_last()) + push_tasks(phase, ctx, trailing.last())
    }
}

/// The batch of one pull phase.
pub open spec fn pull_batch(
    phase: PullPhase,
    ctx: ContextView,
    snapshot: Seq<LocalEntryView>,
    trailing: Seq<Seq<char>>,
) -> Seq<TaskView>
    decreases trailing.len(),
{
    if trailing.len() == 0 {
        Seq::empty()
    } else {
        pull_batch(phase, ctx, snapshot, trailing.drop_last()) + pull_tasks(
            phase,
            ctx,
            snapshot,
            trailing.last(),
        )
    }
}

/// The plan of a push: the four batches, one after another.
pub open spec fn push_plan(ctx: ContextView, trailing: Seq<Seq<char>>) -> Seq<TaskView> {
    push_batch(PushPhase::Exists, ctx, trailing) + push_batch(PushPhase::Delete, ctx, trailing)
        + push_batch(PushPhase::Recreate, ctx, trailing) + push_batch(
        PushPhase::Copy,
        ctx,
        trailing,
    )
}

/// The plan of a pull: the three batches, one after another.
pub open spec fn pull_plan(
    ctx: ContextView,
    snapshot: Seq<LocalEntryView>,
    trailing: Seq<Seq<char>>,
) -> Seq<TaskView> {
    pull_batch(PullPhase::Exists, ctx, snapshot, trailing) + pull_batch(
        PullPhase::Reconcile,
        ctx,
        snapshot,
        trailing,
    ) + pull_batch(PullPhase::Copy, ctx, snapshot, trailing)
}

/// The remote root has a parent.
pub proof fn lemma_remote_root_has_parent()
    ensures
        paths::parent_of(REMOTE_ROOT@) is Some,
{
    reveal_strlit("/var/www");
    reveal_with_fuel(paths::last_segment_start, 4);
    assert(paths::last_segment_start(REMOTE_ROOT@, 1) == 5);
}

/// Every list of relative paths can be pushed.
pub proof fn lemma_relative_paths_are_pushable(trailing: Seq<Seq<char>>)
    requires
        forall|i: int| 0 <= i < trailing.len() ==> !paths::is_absolute(#[trigger] trailing[i]),
    ensures
        pushable(trailing),
{
    lemma_remote_root_has_parent();
    assert forall|i: int| 0 <= i < trailing.len() implies paths::parent_of(
        remote_path(#[trigger] trailing[i]),
    ) is Some by {
        paths::lemma_joined_has_parent(REMOTE_ROOT@, trailing[i]);
    }
}

/// Every list of relative paths can be pulled into a working directory
/// that has a parent.
pub proof fn lemma_relative_paths_are_pullable(ctx: ContextView, trailing: Seq<Seq<char>>)
    requires
        paths::parent_of(ctx.cwd) is Some,
        forall|i: int| 0 <= i < trailing.len() ==> !paths::is_absolute(#[trigger] trailing[i]),
    ensures
        pullable(ctx, trailing),
{
    assert forall|i: int| 0 <= i < trailing.len() implies paths::parent_of(
        host_path(ctx, #[trigger] trailing[i]),
    ) is Some by {
        paths::lemma_joined_has_parent(ctx.cwd, trailing[i]);
    }
}

/// Plans one phase of a push for one path.
fn plan_push_tasks(phase: PushPhase, ctx: &Context, path: &str) -> (tasks: Vec<Task>)
    requires
        paths::parent_of(remote_path(path@)) is Some,
    ensures
        tasks.deep_view() == push_tasks(phase, ctx@, path@),
{
    let container = PhpContainer::from_ctx(ctx).name;
    let remote = paths::join(REMOTE_ROOT, path);
    let mut tasks: Vec<Task> = Vec::new();
    match phase {
        PushPhase::Exists => {
            let host = paths::join(ctx.cwd.as_str(), path);
            put(
                &mut tasks,
                Task::file_exists(host.as_str(), "File exists check before 'push'"),
            );
        },
        PushPhase::Delete => {
            let mut line = String::from_str("docker exec ");
            line.append(container.as_str());
            line.append(" rm -rf ");
            line.append(remote.as_str());
            let mut note = String::from_str("- (remote) ");
            note.append(path);
            put(&mut tasks, Task::simple_command(line.as_str()));
            put(&mut tasks, Task::notify(note.as_str()));
        },
        PushPhase::Recreate => {
            if paths::count_components(path) > 1 {
                match paths::parent(remote.as_str()) {
                    Some(dir) => {
                        let mut line = String::from_str("docker exec -u www-data ");
                        line.append(container.as_str());
                        line.append(" mkdir -p ");
                        line.append(dir.as_str());
                        put(&mut tasks, Task::simple_command(line.as_str()));
                    },
                    None => {},
                }
            }
        },
        PushPhase::Copy => {
            let host = paths::join(ctx.cwd.as_str(), path);
            match paths::parent(remote.as_str()) {
                Some(dir) => {
                    let mut line = String::from_str("docker cp ");
                    line.append(host.as_str());
                    line.append(" ");
                    line.append(container.as_str());
                    line.append(":");
                    line.append(dir.as_str());
                    let mut note = String::from_str("+ (remote) ");
                    note.append(path);
                    put(&mut tasks, Task::simple_command(line.as_str()));
                    put(&mut tasks, Task::notify(note.as_str()));
                },
                None => {},
            }
        },
    }
    tasks
}

/// Plans one phase of a pull for one path.
fn plan_pull_tasks(phase: PullPhase, ctx: &Context, snapshot: &Snapshot, path: &str) -> (tasks:
    Vec<Task>)
    requires
        paths::parent_of(host_path(ctx@, path@)) is Some,
    ensures
        tasks.deep_view() == pull_tasks(phase, ctx@, snapshot.deep_view(), path@),
{
    let container = PhpContainer::from_ctx(ctx).name;
    let remote = paths::join(REMOTE_ROOT, path);
    let local = paths::join(ctx.cwd.as_str(), path);
    let mut tasks: Vec<Task> = Vec::new();
    match phase {
        PullPhase::Exists => {
            let mut line = String::from_str("docker exec ");
            line.append(container.as_str());
            line.append(" test -e ");
            line.append(remote.as_str());
            put(&mut tasks, Task::simple_command(line.as_str()));
        },
        PullPhase::Reconcile => {
            if snapshot.is_directory(local.as_str()) {
                let mut note = String::from_str("- ");
                note.append(path);
                put(&mut tasks, Task::dir_remove(local.as_str(), "Directory Removal"));
                put(&mut tasks, Task::notify(note.as_str()));
                put(&mut tasks, Task::dir_create(local.as_str(), "Directory creation"));
            } else if paths::count_components(path) != 1 {
                match paths::parent(local.as_str()) {
                    Some(dir) => {
                        put(&mut tasks, Task::dir_create(dir.as_str(), "Directory creation"));
                    },
                    None => {},
                }
            }
        },
        PullPhase::Copy => {
            match paths::parent(local.as_str()) {
                Some(dir) => {
                    let mut line = String::from_str("docker cp ");
                    line.append(container.as_str());
                    line.append(":");
                    line.append(remote.as_str());
                    line.append(" ");
                    line.append(dir.as_str());
                    let mut note = String::from_str("+ ");
                    note.append(path);
                    let mut pair: Vec<Task> = Vec::new();
                    put(&mut pair, Task::simple_command(line.as_str()));
                    put(&mut pair, Task::notify(note.as_str()));
                    proof {
                        assert(pair.deep_view() =~= seq![
                            TaskView::SimpleCommand { command: line@ },
                            TaskView::Notify { message: note@ },
                        ]);
                    }
                    put(&mut tasks, Task::sequence(pair));
                },
                None => {},
            }
        },
    }
    tasks
}

/// Plans the batch of one push phase.
fn plan_push_batch(phase: PushPhase, ctx: &Context, trailing: &Vec<String>) -> (batch: Vec<Task>)
    requires
        pushable(trailing.deep_view()),
    ensures
        batch.deep_view() == push_batch(phase, ctx@, trailing.deep_view()),
{
    let mut batch: Vec<Task> = Vec::new();
    let mut i: usize = 0;
    while i < trailing.len()
        invariant
            i <= trailing.len(),
            pushable(trailing.deep_view()),
            batch.deep_view() == push_batch(phase, ctx@, trailing.deep_view().take(i as int)),
        decreases trailing.len() - i,
    {
        proof {
            let next = trailing.deep_view().take(i + 1);
            assert(next.drop_last() == trailing.deep_view().take(i as int));
            assert(next.last() == trailing[i as int]@);
        }
        let tasks = plan_push_tasks(phase, ctx, trailing[i].as_str());
        put_all(&mut batch, tasks);
        i += 1;
    }
    proof {
        assert(trailing.deep_view().take(trailing.len() as int) == trailing.deep_view());
    }
    batch
}

/// Plans the batch of one pull phase.
fn plan_pull_batch(
    phase: PullPhase,
    ctx: &Context,
    snapshot: &Snapshot,
    trailing: &Vec<String>,
) -> (batch: Vec<Task>)
    requires
        pullable(ctx@, trailing.deep_view()),
    ensures
        batch.deep_view() == pull_batch(
            phase,
            ctx@,
            snapshot.deep_view(),
            trailing.deep_view(),
        ),
{
    let mut batch: Vec<Task> = Vec::new();
    let mut i: usize = 0;
    while i < trailing.len()
        invariant
            i <= trailing.len(),
            pullable(ctx@, trailing.deep_view()),
            batch.deep_view() == pull_batch(
                phase,
                ctx@,
                snapshot.deep_view(),
                trailing.deep_view().take(i as int),
            ),
        decreases trailing.len() - i,
    {
        proof {
            let next = trailing.deep_view().take(i + 1);
            assert(next.drop_last() == trailing.deep_view().take(i as int));
            assert(next.last() == trailing[i as int]@);
        }
        let tasks = plan_pull_tasks(phase, ctx, snapshot, trailing[i].as_str());
        put_all(&mut batch, tasks);
        i += 1;
    }
    proof {
        assert(trailing.deep_view().take(trailing.len() as int) == trailing.deep_view());
    }
    batch
}

impl M2Recipe {
    /// Tells whether every path has a parent in the container.
    pub fn can_push(&self, trailing: &Vec<String>) -> (ok: bool)
        ensures
            ok == pushable(trailing.deep_view()),
    {
        let mut i: usize = 0;
        while i < trailing.len()
            invariant
                i <= trailing.len(),
                forall|k: int|
                    0 <= k < i ==> paths::parent_of(
                        remote_path(#[trigger] trailing.deep_view()[k]),
                    ) is Some,
            decreases trailing.len() - i,
        {
            let remote = paths::join(REMOTE_ROOT, trailing[i].as_str());
            proof {
                assert(trailing.deep_view()[i as int] == trailing[i as int]@);
            }
            if !paths::has_parent(remote.as_str()) {
                return false;
            }
            i += 1;
        }
        true
    }

    /// Tells whether every path has a parent on the host.
    pub fn can_pull(&self, ctx: &Context, trailing: &Vec<String>) -> (ok: bool)
        ensures
            ok == pullable(ctx@, trailing.deep_view()),
    {
        let mut i: usize = 0;
        while i < trailing.len()
            invariant
                i <= trailing.len(),
                forall|k: int|
                    0 <= k < i ==> paths::parent_of(
                        host_path(ctx@, #[trigger] trailing.deep_view()[k]),
                    ) is Some,
            decreases trailing.len() - i,
        {
            let local = paths::join(ctx.cwd.as_str(), trailing[i].as_str());
            proof {
                assert(trailing.deep_view()[i as int] == trailing[i as int]@);
            }
            if !paths::has_parent(local.as_str()) {
                return false;
            }
            i += 1;
        }
        true
    }

    /// The local paths that a pull of `trailing` writes to: the ones to
    /// look at when the snapshot is taken.
    pub fn pull_targets(&self, ctx: &Context, trailing: &Vec<String>) -> (targets: Vec<String>)
        ensures
            targets.len() == trailing.len(),
            forall|i: int|
                0 <= i < trailing.len() ==> (#[trigger] targets[i])@ == host_path(
                    ctx@,
                    trailing[i]@,
                ),
    {
        let mut targets: Vec<String> = Vec::new();
        let mut i: usize = 0;
        while i < trailing.len()
            invariant
                i <= trailing.len(),
                targets.len() == i,
                forall|k: int|
                    0 <= k < i ==> (#[trigger] targets[k])@ == host_path(ctx@, trailing[k]@),
            decreases trailing.len() - i,
        {
            targets.push(paths::join(ctx.cwd.as_str(), trailing[i].as_str()));
            i += 1;
        }
        targets
    }

    /// Pushes files from the host into the PHP container. The sources are
    /// checked first, then the targets are deleted, then their parent
    /// directories are made, then the files are copied; each step is
    /// planned for every path before the next step is planned for any.
    /// Every path must have a parent in the container; `can_push` tells
    /// whether that is so, and relative paths always have one.
    pub fn push(&self, ctx: &Context, trailing: Vec<String>) -> (plan: Vec<Task>)
        requires
            pushable(trailing.deep_view()),
        ensures
            plan.deep_view() == push_plan(ctx@, trailing.deep_view()),
    {
        let mut plan = plan_push_batch(PushPhase::Exists, ctx, &trailing);
        put_all(&mut plan, plan_push_batch(PushPhase::Delete, ctx, &trailing));
        put_all(&mut plan, plan_push_batch(PushPhase::Recreate, ctx, &trailing));
        put_all(&mut plan, plan_push_batch(PushPhase::Copy, ctx, &trailing));
        plan
    }

    /// Pulls files out of the PHP container. The sources are checked
    /// first, then the local targets are made ready, then the files are
    /// copied. What is done to a local target goes by `snapshot`, which
    /// was taken before planning and is not looked at again. Every path
    /// must have a parent on the host; `can_pull` tells whether that is
    /// so.
    pub fn pull(&self, ctx: &Context, trailing: Vec<String>, snapshot: &Snapshot) -> (plan: Vec<
        Task,
    >)
        requires
            pullable(ctx@, trailing.deep_view()),
        ensures
            plan.deep_view() == pull_plan(ctx@, snapshot.deep_view(), trailing.deep_view()),
    {
        let mut plan = plan_pull_batch(PullPhase::Exists, ctx, snapshot, &trailing);
        put_all(&mut plan, plan_pull_batch(PullPhase::Reconcile, ctx, snapshot, &trailing));
        put_all(&mut plan, plan_pull_batch(PullPhase::Copy, ctx, snapshot, &trailing));
        plan
    }
}

} // verus!
