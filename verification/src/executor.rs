//! Carrying out a plan, one task at a time.
//!
//! The executor decides; the caller acts. The caller asks for the task
//! that is due, performs it, and reports what it saw. The report is
//! judged, and the executor moves on or halts. A halt is final: no task is
//! handed out after it, and the reason of the first failure is the one
//! that is kept.

use crate::task::{put, task_view, Task, TaskView};
use crate::text;
use vstd::prelude::*;
use vstd::string::*;

verus! {

/// How the performing of one task went.
#[derive(Debug, Clone, PartialEq, Eq)]
pub enum Outcome {
    Success,
    Failure(String),
}

/// The mathematical value of an outcome.
pub enum OutcomeView {
    Success,
    Failure(Seq<char>),
}

impl DeepView for Outcome {
    type V = OutcomeView;

    open spec fn deep_view(&self) -> OutcomeView {
        match self {
            Outcome::Success => OutcomeView::Success,
            Outcome::Failure(reason) => OutcomeView::Failure(reason@),
        }
    }
}

/// What was seen when a task was performed.
#[derive(Debug, Clone, PartialEq, Eq)]
pub enum Report {
    /// The task was performed.
    Done,
    /// The command ran and ended with this exit code; with none when a
    /// signal ended it.
    Exited { code: Option<i32> },
    /// The path was looked at, and something is there or nothing is.
    Found { exists: bool },
    /// The task could not be performed, for the reason given.
    Failed { error: String },
}

/// The mathematical value of a report.
pub enum ReportView {
    Done,
    Exited { code: Option<i32> },
    Found { exists: bool },
    Failed { error: Seq<char> },
}

impl DeepView for Report {
    type V = ReportView;

    open spec fn deep_view(&self) -> ReportView {
        match self {
            Report::Done => ReportView::Done,
            Report::Exited { code } => ReportView::Exited { code: *code },
            Report::Found { exists } => ReportView::Found { exists: *exists },
            Report::Failed { error } => ReportView::Failed { error: error@ },
        }
    }
}

/// Whether the executor goes on.
#[derive(Debug, Clone, PartialEq, Eq)]
pub enum State {
    Running,
    Halted(String),
}

/// The mathematical value of a state.
pub enum StateView {
    Running,
    Halted(Seq<char>),
}

impl DeepView for State {
    type V = StateView;

    open spec fn deep_view(&self) -> StateView {
        match self {
            State::Running => StateView::Running,
            State::Halted(reason) => StateView::Halted(reason@),
        }
    }
}

/// The mathematical value of an executor.
pub struct ExecutorView {
    /// The tasks to perform, groups dissolved, in order.
    pub queue: Seq<TaskView>,
    /// How many of them were performed.
    pub done: int,
    pub state: StateView,
}

/// The tasks of a plan in the order in which they are performed: each
/// group gives way to its children, as if they stood in the list
/// themselves.
pub open spec fn leaves(plan: Seq<TaskView>) -> Seq<TaskView>
    decreases plan,
{
    if plan.len() == 0 {
        Seq::empty()
    } else {
        leaves(plan.drop_last()) + match plan.last() {
            TaskView::Sequence(children) => leaves(children),
            task => seq![task],
        }
    }
}

/// The executor at the start: everything queued, nothing performed.
pub open spec fn initial(plan: Seq<TaskView>) -> ExecutorView {
    ExecutorView { queue: leaves(plan), done: 0, state: StateView::Running }
}

/// The task that is due, if the executor runs and one is left.
pub open spec fn current(e: ExecutorView) -> Option<TaskView> {
    if e.state is Running && 0 <= e.done < e.queue.len() {
        Some(e.queue[e.done])
    } else {
        None
    }
}

/// The executor after the outcome of the task that was due. A success
/// moves on to the next task. So does anything reported of a notice: a
/// notice cannot halt. A failure of any other task halts with its reason.
/// Where no task was due, nothing changes.
pub open spec fn step(e: ExecutorView, outcome: OutcomeView) -> ExecutorView {
    match current(e) {
        None => e,
        Some(task) => match outcome {
            OutcomeView::Failure(reason) if !(task is Notify) => ExecutorView {
                state: StateView::Halted(reason),
                ..e
            },
            _ => ExecutorView { done: e.done + 1, ..e },
        },
    }
}

/// The executor after a row of outcomes.
pub open spec fn run(e: ExecutorView, outcomes: Seq<OutcomeView>) -> ExecutorView
    decreases outcomes.len(),
{
    if outcomes.len() == 0 {
        e
    } else {
        step(run(e, outcomes.drop_last()), outcomes.last())
    }
}

/// The outcome lets the executor move on from `task`.
pub open spec fn passes(task: TaskView, outcome: OutcomeView) -> bool {
    outcome is Success || task is Notify
}

/// What a failure is told of: the command, the message, or the
/// description of the check or change with its path.
pub open spec fn subject_of(task: TaskView) -> Seq<char> {
    match task {
        TaskView::SimpleCommand { command } => command,
        TaskView::Notify { message } => message,
        TaskView::FileExists { path, description } => description + ": "@ + path,
        TaskView::DirCreate { path, description } => description + ": "@ + path,
        TaskView::DirRemove { path, description } => description + ": "@ + path,
        TaskView::Sequence(_) => Seq::empty(),
    }
}

/// What went wrong according to a report; `None` where nothing did. A
/// command fails unless its exit code is zero, a look at a path fails
/// when nothing is there, and what could not be performed has failed.
pub open spec fn fault_of(report: ReportView) -> Option<Seq<char>> {
    match report {
        ReportView::Done => None,
        ReportView::Exited { code } => match code {
            Some(n) => if n == 0 {
                None
            } else {
                Some("exit code "@ + text::signed_decimal(n as int))
            },
            None => Some("ended by a signal"@),
        },
        ReportView::Found { exists } => if exists {
            None
        } else {
            Some("does not exist"@)
        },
        ReportView::Failed { error } => Some(error),
    }
}

/// The outcome that a report comes to for a task: a success where
/// nothing went wrong, and also for every notice; otherwise a failure
/// whose reason names the task and what went wrong.
pub open spec fn judged(task: TaskView, report: ReportView) -> OutcomeView {
    match fault_of(report) {
        Some(fault) if !(task is Notify) => OutcomeView::Failure(
            subject_of(task) + ": "@ + fault,
        ),
        _ => OutcomeView::Success,
    }
}

/// The leaves of two plans, one after the other, are the leaves of the
/// plans joined.
pub proof fn lemma_leaves_concat(a: Seq<TaskView>, b: Seq<TaskView>)
    ensures
        leaves(a + b) == leaves(a) + leaves(b),
    decreases b.len(),
{
    if b.len() > 0 {
        lemma_leaves_concat(a, b.drop_last());
        assert((a + b).drop_last() =~= a + b.drop_last());
    }
}

/// No group is left among the leaves of a plan.
pub proof fn lemma_leaves_hold_no_group(plan: Seq<TaskView>)
    ensures
        forall|i: int| 0 <= i < leaves(plan).len() ==> !(#[trigger] leaves(plan)[i] is Sequence),
    decreases plan,
{
    if plan.len() > 0 {
        lemma_leaves_hold_no_group(plan.drop_last());
        match plan.last() {
            TaskView::Sequence(children) => {
                lemma_leaves_hold_no_group(children);
            },
            _ => {},
        }
    }
}

/// A group fails and succeeds as a flat list does: a plan with a group in
/// it is performed as the plan with the group's children in its place.
pub proof fn lemma_group_is_flat(
    before: Seq<TaskView>,
    children: Seq<TaskView>,
    after: Seq<TaskView>,
)
    ensures
        initial(before + seq![TaskView::Sequence(children)] + after) == initial(
            before + children + after,
        ),
{
    let group = seq![TaskView::Sequence(children)];
    lemma_leaves_concat(before + group, after);
    lemma_leaves_concat(before, group);
    lemma_leaves_concat(before + children, after);
    lemma_leaves_concat(before, children);
    assert(leaves(group.drop_last()) =~= Seq::<TaskView>::empty());
}

/// A halt is final. Whatever is reported to a halted executor, it stays
/// as it is: no further task is handed out, and the reason of the halt is
/// not replaced.
pub proof fn lemma_halt_is_final(e: ExecutorView, outcomes: Seq<OutcomeView>)
    requires
        e.state is Halted,
    ensures
        run(e, outcomes) == e,
        current(run(e, outcomes)) is None,
    decreases outcomes.len(),
{
    if outcomes.len() > 0 {
        lemma_halt_is_final(e, outcomes.drop_last());
    }
}

/// While every outcome lets the executor move on, it performs the tasks
/// in order, one for each outcome.
pub proof fn lemma_run_passing(plan: Seq<TaskView>, outcomes: Seq<OutcomeView>)
    requires
        outcomes.len() <= leaves(plan).len(),
        forall|i: int| 0 <= i < outcomes.len() ==> passes(leaves(plan)[i], #[trigger] outcomes[i]),
    ensures
        run(initial(plan), outcomes) == (ExecutorView {
            queue: leaves(plan),
            done: outcomes.len() as int,
            state: StateView::Running,
        }),
    decreases outcomes.len(),
{
    if outcomes.len() > 0 {
        lemma_run_passing(plan, outcomes.drop_last());
    }
}

/// When the task at place `n` is the first to fail, the executor halts
/// there with the reason of that failure, whatever is reported
/// afterwards: the tasks behind place `n` are never due, and no later
/// reason takes the place of the first.
pub proof fn lemma_first_failure_halts(
    plan: Seq<TaskView>,
    outcomes: Seq<OutcomeView>,
    n: int,
    reason: Seq<char>,
)
    requires
        0 <= n < outcomes.len(),
        n < leaves(plan).len(),
        forall|i: int| 0 <= i < n ==> passes(leaves(plan)[i], #[trigger] outcomes[i]),
        outcomes[n] == OutcomeView::Failure(reason),
        !(leaves(plan)[n] is Notify),
    ensures
        run(initial(plan), outcomes) == (ExecutorView {
            queue: leaves(plan),
            done: n,
            state: StateView::Halted(reason),
        }),
        current(run(initial(plan), outcomes)) is None,
    decreases outcomes.len(),
{
    let front = outcomes.drop_last();
    if outcomes.len() == n + 1 {
        lemma_run_passing(plan, front);
    } else {
        lemma_first_failure_halts(plan, front, n, reason);
    }
}

/// A notice never halts the executor, whatever is reported of it and
/// whatever its message is.
pub proof fn lemma_notify_never_halts(e: ExecutorView, outcome: OutcomeView)
    requires
        current(e) matches Some(task) && task is Notify,
    ensures
        step(e, outcome).state is Running,
        step(e, outcome).done == e.done + 1,
        step(e, outcome).queue == e.queue,
{
}

/// Judges what was seen when `task` was performed.
pub fn judge(task: &Task, report: &Report) -> (outcome: Outcome)
    ensures
        outcome.deep_view() == judged(task.deep_view(), report.deep_view()),
{
    let fault = match report {
        Report::Done => {
            return Outcome::Success;
        },
        Report::Exited { code } => match code {
            Some(n) => {
                if *n == 0 {
                    return Outcome::Success;
                }
                let mut fault = String::from_str("exit code ");
                fault.append(text::signed_decimal_string(*n).as_str());
                fault
            },
            None => String::from_str("ended by a signal"),
        },
        Report::Found { exists } => {
            if *exists {
                return Outcome::Success;
            }
            String::from_str("does not exist")
        },
        Report::Failed { error } => error.clone(),
    };
    let mut reason = match task {
        Task::Notify { .. } => {
            return Outcome::Success;
        },
        Task::SimpleCommand { command } => command.clone(),
        Task::FileExists { path, description } => described(description, path),
        Task::DirCreate { path, description } => described(description, path),
        Task::DirRemove { path, description } => described(description, path),
        Task::Sequence(_) => String::new(),
    };
    reason.append(": ");
    reason.append(fault.as_str());
    Outcome::Failure(reason)
}

/// A description with the path it is about.
fn described(description: &String, path: &String) -> (out: String)
    ensures
        out@ == description@ + ": "@ + path@,
{
    let mut out = description.clone();
    out.append(": ");
    out.append(path.as_str());
    out
}

/// The executor of one plan.
#[derive(Debug)]
pub struct Executor {
    queue: Vec<Task>,
    done: usize,
    state: State,
}

impl Executor {
    /// The queue holds no group.
    #[verifier::type_invariant]
    spec fn queue_is_flat(self) -> bool {
        forall|i: int|
            0 <= i < self.queue.len() ==> !(#[trigger] self.queue.deep_view()[i] is Sequence)
    }
}

impl DeepView for Executor {
    type V = ExecutorView;

    closed spec fn deep_view(&self) -> ExecutorView {
        ExecutorView {
            queue: self.queue.deep_view(),
            done: self.done as int,
            state: self.state.deep_view(),
        }
    }
}

/// Puts the leaves of `plan` at the end of `out`.
fn gather_leaves(plan: &Vec<Task>, out: &mut Vec<Task>)
    ensures
        final(out).deep_view() == old(out).deep_view() + leaves(plan.deep_view()),
    decreases plan,
{
    let mut i: usize = 0;
    while i < plan.len()
        invariant
            i <= plan.len(),
            out.deep_view() == old(out).deep_view() + leaves(plan.deep_view().take(i as int)),
        decreases plan.len() - i,
    {
        let ghost next = plan.deep_view().take(i + 1);
        proof {
            assert(next.drop_last() == plan.deep_view().take(i as int));
        }
        match &plan[i] {
            Task::Sequence(children) => {
                proof {
                    crate::task::lemma_sequence_view(*children);
                }
                gather_leaves(children, out);
            },
            leaf => {
                put(out, leaf.clone());
            },
        }
        i += 1;
    }
    proof {
        assert(plan.deep_view().take(plan.len() as int) == plan.deep_view());
    }
}

impl Executor {
    /// The executor of `plan`, about to start.
    pub fn new(plan: Vec<Task>) -> (e: Executor)
        ensures
            e.deep_view() == initial(plan.deep_view()),
    {
        let mut queue: Vec<Task> = Vec::new();
        gather_leaves(&plan, &mut queue);
        proof {
            lemma_leaves_hold_no_group(plan.deep_view());
        }
        Executor { queue, done: 0, state: State::Running }
    }

    /// The task to perform now. There is none once the executor has
    /// halted or every task was performed. The task is never a group:
    /// groups are dissolved when the executor is made.
    pub fn current(&self) -> (task: Option<&Task>)
        ensures
            task.deep_view() == current(self.deep_view()),
            task matches Some(due) ==> !(due is Sequence),
    {
        proof {
            use_type_invariant(self);
        }
        match self.state {
            State::Running => {
                if self.done < self.queue.len() {
                    Some(&self.queue[self.done])
                } else {
                    None
                }
            },
            State::Halted(_) => None,
        }
    }

    /// Takes note of how the task that was due went, and moves on or
    /// halts.
    pub fn record(&mut self, outcome: Outcome)
        ensures
            final(self).deep_view() == step(old(self).deep_view(), outcome.deep_view()),
    {
        proof {
            use_type_invariant(&*self);
        }
        let due = match self.state {
            State::Running => self.done < self.queue.len(),
            State::Halted(_) => false,
        };
        if !due {
            return ;
        }
        let notice = match &self.queue[self.done] {
            Task::Notify { .. } => true,
            _ => false,
        };
        match outcome {
            Outcome::Failure(reason) => {
                if notice {
                    self.done = self.done + 1;
                } else {
                    self.state = State::Halted(reason);
                }
            },
            Outcome::Success => {
                self.done = self.done + 1;
            },
        }
    }

    /// Takes note of what was seen when the task that was due was
    /// performed: judges the report, and moves on or halts.
    pub fn report(&mut self, report: &Report)
        ensures
            final(self).deep_view() == match current(old(self).deep_view()) {
                Some(task) => step(old(self).deep_view(), judged(task, report.deep_view())),
                None => old(self).deep_view(),
            },
    {
        let outcome = match self.current() {
            Some(task) => judge(task, report),
            None => {
                return ;
            },
        };
        self.record(outcome);
    }

    /// Whether the executor runs or has halted, and why.
    pub fn state(&self) -> (state: &State)
        ensures
            state.deep_view() == self.deep_view().state,
    {
        &self.state
    }

    /// How many tasks were performed.
    pub fn performed(&self) -> (n: usize)
        ensures
            n == self.deep_view().done,
    {
        self.done
    }

    /// Tells whether the executor has halted.
    pub fn is_halted(&self) -> (halted: bool)
        ensures
            halted == (self.deep_view().state is Halted),
    {
        match self.state {
            State::Running => false,
            State::Halted(_) => true,
        }
    }

    /// Tells whether every task was performed without a halt.
    pub fn is_finished(&self) -> (finished: bool)
        ensures
            finished == (self.deep_view().state is Running && self.deep_view().done
                >= self.deep_view().queue.len()),
    {
        match self.state {
            State::Running => self.done >= self.queue.len(),
            State::Halted(_) => false,
        }
    }
}

} // verus!
