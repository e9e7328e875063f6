//! The kernel's vocabulary: what the server asks of it and what it answers.

use vstd::prelude::*;

verus! {

/// A task's number in the kernel.
#[derive(Clone, Copy, Debug, PartialEq, Eq, Hash, Structural)]
pub struct TaskId(pub usize);

/// How a task's process ended.
#[derive(Clone, Copy, Debug, PartialEq, Eq, Structural)]
pub struct ExitInfo {
    pub code: Option<i32>,
    pub signal: Option<i32>,
}

/// Where a task is in its life.
#[derive(Clone, Copy, Debug, PartialEq, Eq, Structural)]
pub enum TaskState {
    Idle,
    Starting,
    Running,
    Ready,
    Stopping,
    Backoff,
    Done(ExitInfo),
    Exited(ExitInfo),
}

/// A task's path, resolved against the root of all tasks.
#[derive(Clone, Debug, PartialEq, Eq)]
pub struct TaskPath {
    pub text: String,
}

impl View for TaskPath {
    type V = Seq<char>;

    open spec fn view(&self) -> Seq<char> {
        self.text@
    }
}

/// Which tasks a command is about.
#[derive(Clone, Debug, PartialEq, Eq)]
pub enum TaskSelector {
    /// Every task.
    All,
    /// The tasks with a tag.
    Tag(String),
    /// The tasks whose path fits. The text is a path or a glob, resolved against
    /// the root of all tasks.
    Glob(String),
}

/// The mathematical content of a [`TaskSelector`].
pub enum SelectorView {
    All,
    Tag(Seq<char>),
    Glob(Seq<char>),
}

impl View for TaskSelector {
    type V = SelectorView;

    open spec fn view(&self) -> SelectorView {
        match *self {
            TaskSelector::All => SelectorView::All,
            TaskSelector::Tag(tag) => SelectorView::Tag(tag@),
            TaskSelector::Glob(glob) => SelectorView::Glob(glob@),
        }
    }
}

/// What a command does with the selected tasks.
#[derive(Clone, Copy, Debug, PartialEq, Eq, Structural)]
pub enum TaskVerb {
    Start,
    Stop,
    Down,
    Kill,
    Veto,
    Restart,
}

/// The command that does what the verb says with the selected tasks.
pub open spec fn command_of(verb: TaskVerb, selector: SelectorView) -> CommandView {
    match verb {
        TaskVerb::Start => CommandView::Start(selector),
        TaskVerb::Stop => CommandView::Stop(selector),
        TaskVerb::Down => CommandView::Down(selector),
        TaskVerb::Kill => CommandView::Kill(selector),
        TaskVerb::Veto => CommandView::Veto(selector),
        TaskVerb::Restart => CommandView::Restart(selector),
    }
}

impl TaskVerb {
    pub fn command(self, selector: TaskSelector) -> (command: KernelCommand)
        ensures
            command@ == command_of(self, selector@),
    {
        match self {
            TaskVerb::Start => KernelCommand::Start(selector),
            TaskVerb::Stop => KernelCommand::Stop(selector),
            TaskVerb::Down => KernelCommand::Down(selector),
            TaskVerb::Kill => KernelCommand::Kill(selector),
            TaskVerb::Veto => KernelCommand::Veto(selector),
            TaskVerb::Restart => KernelCommand::Restart(selector),
        }
    }
}

/// A command that acts on the selected tasks and counts them.
#[derive(Clone, Debug, PartialEq, Eq)]
pub enum KernelCommand {
    Start(TaskSelector),
    Stop(TaskSelector),
    Down(TaskSelector),
    Kill(TaskSelector),
    Veto(TaskSelector),
    Restart(TaskSelector),
}

/// The mathematical content of a [`KernelCommand`].
pub enum CommandView {
    Start(SelectorView),
    Stop(SelectorView),
    Down(SelectorView),
    Kill(SelectorView),
    Veto(SelectorView),
    Restart(SelectorView),
}

impl View for KernelCommand {
    type V = CommandView;

    open spec fn view(&self) -> CommandView {
        match *self {
            KernelCommand::Start(selector) => CommandView::Start(selector@),
            KernelCommand::Stop(selector) => CommandView::Stop(selector@),
            KernelCommand::Down(selector) => CommandView::Down(selector@),
            KernelCommand::Kill(selector) => CommandView::Kill(selector@),
            KernelCommand::Veto(selector) => CommandView::Veto(selector@),
            KernelCommand::Restart(selector) => CommandView::Restart(selector@),
        }
    }
}

/// A question to the kernel.
#[derive(Clone, Debug, PartialEq, Eq)]
pub enum KernelQuery {
    /// The tasks whose path fits, or all. The text is a path or a glob, resolved
    /// against the root of all tasks.
    ListTasks(Option<String>),
    /// Why a task is (not) running.
    Explain(TaskPath),
    /// What a task's screen shows.
    GetScreen(TaskPath),
    /// The task at a path.
    ResolvePath(TaskPath),
}

/// The mathematical content of a [`KernelQuery`].
pub enum QueryView {
    ListTasks(Option<Seq<char>>),
    Explain(Seq<char>),
    GetScreen(Seq<char>),
    ResolvePath(Seq<char>),
}

impl View for KernelQuery {
    type V = QueryView;

    open spec fn view(&self) -> QueryView {
        match *self {
            KernelQuery::ListTasks(glob) => QueryView::ListTasks(glob.deep_view()),
            KernelQuery::Explain(path) => QueryView::Explain(path@),
            KernelQuery::GetScreen(path) => QueryView::GetScreen(path@),
            KernelQuery::ResolvePath(path) => QueryView::ResolvePath(path@),
        }
    }
}

/// A task as the kernel lists it.
#[derive(Clone, Debug)]
pub struct TaskInfo {
    pub id: TaskId,
    pub path: Option<TaskPath>,
    pub label: Option<String>,
    pub state: TaskState,
}

/// One thing that a task depends on, as the kernel explains it.
#[derive(Clone, Debug)]
pub struct ExplainDep {
    pub name: String,
    pub state: TaskState,
    pub wanted: bool,
    pub satisfied: bool,
}

/// Why a task is (not) running.
#[derive(Clone, Debug)]
pub struct Explain {
    pub state: TaskState,
    pub wanted: bool,
    pub supported: bool,
    pub vetoed: bool,
    pub pinned: bool,
    pub required_by: Vec<String>,
    pub deps: Vec<ExplainDep>,
    pub attempts: u32,
}

/// The kernel's answer to a question.
#[derive(Clone, Debug)]
pub enum KernelQueryResponse {
    TaskList(Vec<TaskInfo>),
    Explain(Option<Explain>),
    Screen(Option<String>),
    ResolvedPath(Option<TaskId>),
    /// An answer to a question that the server never asks.
    Other,
}

/// What became of the registration of a new task.
#[derive(Clone, Copy, Debug, PartialEq, Eq, Structural)]
pub enum Registration {
    /// The task is registered under its path.
    Accepted,
    /// Another task has the path.
    Refused,
    /// The kernel went away without an answer.
    Dropped,
}

} // verus!
