//! What the server does about a request.
//!
//! A request is handled in steps. Each [`Step`] is the reply, or one thing to
//! be done outside together with what waits for its outcome: hand the outcome
//! to the waiting part's `resume`, and it gives the next step.

use crate::json::{env_entries, env_entry, env_len, json, no_fields, Json};
use crate::kernel::{
    command_of, CommandView, Explain, ExplainDep, KernelCommand, KernelQuery, KernelQueryResponse,
    QueryView, Registration, SelectorView, TaskId, TaskInfo, TaskPath, TaskSelector, TaskState,
    TaskVerb,
};
use crate::protocol::ctl::{internal_error, outcome_view, ErrorCode, ErrorView, RpcError};
use crate::protocol::request::RpcRequest;
use crate::protocol::results::{
    act_json, ok_result, screen_json, spawn_json, task_list_json, why_json, ActResult, RpcState,
    RpcTaskInfo, RpcWhy, RpcWhyDep, ScreenResult, SpawnResult, StateView, TaskInfoView,
    TaskListResult, WhyDepView, WhyView,
};
use crate::text::{decimal, strip_mark, write_decimal};
use indexmap::IndexMap;
use serde_json::Value;
use vstd::prelude::*;
use vstd::string::*;

verus! {

/// An environment change: a name and what it is set to, or nothing to unset it.
pub type Change = (Seq<char>, Option<Seq<char>>);

/// The tags that the system gives a meaning to.
pub struct SystemTags {
    /// The tag of tasks that start on their own.
    pub autostart: String,
    /// The tag of tasks that a client spawned.
    pub user: String,
}

// ---------------------------------------------------------------------------
// States, selectors and paths.
// ---------------------------------------------------------------------------

/// The token of a state on the wire.
pub open spec fn state_token(state: TaskState) -> Seq<char> {
    match state {
        TaskState::Idle => "idle"@,
        TaskState::Starting => "starting"@,
        TaskState::Running => "running"@,
        TaskState::Ready => "ready"@,
        TaskState::Stopping => "stopping"@,
        TaskState::Backoff => "backoff"@,
        TaskState::Done(_) => "done"@,
        TaskState::Exited(_) => "exited"@,
    }
}

/// A state on the wire: its token, and the exit detail if it has ended.
pub open spec fn state_of(state: TaskState) -> StateView {
    StateView {
        state: state_token(state),
        exit_code: match state {
            TaskState::Done(info) | TaskState::Exited(info) => info.code,
            _ => None,
        },
        signal: match state {
            TaskState::Done(info) | TaskState::Exited(info) => info.signal,
            _ => None,
        },
    }
}

pub fn task_state(state: TaskState) -> (wire: RpcState)
    ensures
        wire.deep_view() == state_of(state),
{
    let (token, info) = match state {
        TaskState::Idle => ("idle", None),
        TaskState::Starting => ("starting", None),
        TaskState::Running => ("running", None),
        TaskState::Ready => ("ready", None),
        TaskState::Stopping => ("stopping", None),
        TaskState::Backoff => ("backoff", None),
        TaskState::Done(info) => ("done", Some(info)),
        TaskState::Exited(info) => ("exited", Some(info)),
    };
    let (exit_code, signal) = match info {
        Some(info) => (info.code, info.signal),
        None => (None, None),
    };
    RpcState { state: token.to_owned(), exit_code, signal }
}

/// Whether a pattern names a tag: it begins with `#`.
pub open spec fn names_tag(pattern: Seq<char>) -> bool {
    pattern.len() > 0 && pattern[0] == '#'
}

/// A pattern that begins with `#` is a tag, any other a path or a glob. `spec`
/// is the pattern as it resolves against the root of all tasks; a tag does not
/// depend on it.
pub open spec fn selector_of(pattern: Seq<char>, spec: Seq<char>) -> SelectorView {
    if names_tag(pattern) {
        SelectorView::Tag(pattern.skip(1))
    } else {
        SelectorView::Glob(spec)
    }
}

/// What a pattern selects, given the pattern as it resolves against the root of
/// all tasks.
pub fn parse_selector(pattern: &str, spec: String) -> (selector: TaskSelector)
    ensures
        selector@ == selector_of(pattern@, spec@),
{
    match strip_mark(pattern, '#') {
        Some(tag) => {
            assert(pattern@.skip(1) =~= tag@);
            TaskSelector::Tag(tag)
        },
        None => TaskSelector::Glob(spec),
    }
}

/// A path that could not be resolved is a bad path.
pub open spec fn path_of(resolved: Result<TaskPath, String>) -> Result<Seq<char>, ErrorView> {
    match resolved {
        Ok(path) => Ok(path@),
        Err(message) => Err(ErrorView { code: ErrorCode::BadPath, message: message@ }),
    }
}

pub fn parse_path(resolved: Result<TaskPath, String>) -> (path: Result<TaskPath, RpcError>)
    ensures
        match path {
            Ok(path) => resolved == Result::<TaskPath, String>::Ok(path),
            Err(error) => path_of(resolved) == Result::<Seq<char>, ErrorView>::Err(error@),
        },
{
    match resolved {
        Ok(path) => Ok(path),
        Err(message) => Err(RpcError::new(ErrorCode::BadPath, message)),
    }
}

/// A command's outcome: how many tasks it acted on. Zero is a success too.
pub fn acted(matched: usize) -> (result: Value)
    ensures
        json(result) == act_json(matched),
{
    ActResult { matched }.to_value()
}

// ---------------------------------------------------------------------------
// The steps.
// ---------------------------------------------------------------------------

/// What a client wants spawned.
pub struct SpawnOrder {
    pub path: String,
    pub cmd: Vec<String>,
    pub cwd: Option<String>,
    pub env: Option<IndexMap<String, Option<String>>>,
    pub deps: Vec<String>,
    pub tags: Vec<String>,
    /// The tag that every spawned task gets.
    pub user_tag: String,
}

/// The mathematical content of a [`SpawnOrder`].
pub struct OrderView {
    pub path: Seq<char>,
    pub cmd: Seq<Seq<char>>,
    pub cwd: Option<Seq<char>>,
    pub env: Seq<Change>,
    pub deps: Seq<Seq<char>>,
    pub tags: Seq<Seq<char>>,
    pub user_tag: Seq<char>,
}

/// The changes that an optional environment makes, in its order.
pub open spec fn changes_of(env: Option<IndexMap<String, Option<String>>>) -> Seq<Change> {
    match env {
        Some(env) => env_entries(env),
        None => Seq::empty(),
    }
}

impl View for SpawnOrder {
    type V = OrderView;

    open spec fn view(&self) -> OrderView {
        OrderView {
            path: self.path@,
            cmd: self.cmd.deep_view(),
            cwd: self.cwd.deep_view(),
            env: changes_of(self.env),
            deps: self.deps.deep_view(),
            tags: self.tags.deep_view(),
            user_tag: self.user_tag@,
        }
    }
}

/// A spawn whose path is resolved, with the tasks that its first dependencies
/// resolved to.
pub struct Pending {
    order: SpawnOrder,
    path: TaskPath,
    dep_ids: Vec<TaskId>,
}

/// The mathematical content of a [`Pending`] spawn.
pub struct PendingView {
    pub order: OrderView,
    pub path: Seq<char>,
    pub dep_ids: Seq<TaskId>,
}

impl View for Pending {
    type V = PendingView;

    closed spec fn view(&self) -> PendingView {
        PendingView { order: self.order@, path: self.path@, dep_ids: self.dep_ids@ }
    }
}

/// A spawn that has a dependency left to resolve.
pub struct NextDep {
    pending: Pending,
}

impl NextDep {
    #[verifier::type_invariant]
    spec fn has_next(self) -> bool {
        self.pending.dep_ids@.len() < self.pending.order.deps@.len()
    }
}

impl View for NextDep {
    type V = PendingView;

    closed spec fn view(&self) -> PendingView {
        self.pending@
    }
}

/// One change to a process's environment.
#[derive(Clone, Debug, PartialEq, Eq)]
pub enum EnvChange {
    Assign { name: String, value: String },
    Unset { name: String },
}

impl DeepView for EnvChange {
    type V = Change;

    open spec fn deep_view(&self) -> Change {
        match *self {
            EnvChange::Assign { name, value } => (name@, Some(value@)),
            EnvChange::Unset { name } => (name@, None),
        }
    }
}

/// The task that the kernel is to register and start.
pub struct SpawnPlan {
    pub path: TaskPath,
    pub argv: Vec<String>,
    pub cwd: Option<String>,
    pub env: Vec<EnvChange>,
    pub deps: Vec<TaskId>,
    pub tags: Vec<String>,
    pub pinned: bool,
}

/// The mathematical content of a [`SpawnPlan`].
pub struct PlanView {
    pub path: Seq<char>,
    pub argv: Seq<Seq<char>>,
    pub cwd: Option<Seq<char>>,
    pub env: Seq<Change>,
    pub deps: Seq<TaskId>,
    pub tags: Seq<Seq<char>>,
    pub pinned: bool,
}

impl View for SpawnPlan {
    type V = PlanView;

    open spec fn view(&self) -> PlanView {
        PlanView {
            path: self.path@,
            argv: self.argv.deep_view(),
            cwd: self.cwd.deep_view(),
            env: self.env.deep_view(),
            deps: self.deps@,
            tags: self.tags.deep_view(),
            pinned: self.pinned,
        }
    }
}

/// What waits for a path to be resolved.
pub enum OnPath {
    Why { path: String },
    Screen { path: String },
    Spawn(SpawnOrder),
    Dep(NextDep),
}

/// The mathematical content of an [`OnPath`].
pub enum OnPathView {
    Why { path: Seq<char> },
    Screen { path: Seq<char> },
    Spawn(OrderView),
    Dep(PendingView),
}

impl View for OnPath {
    type V = OnPathView;

    open spec fn view(&self) -> OnPathView {
        match *self {
            OnPath::Why { path } => OnPathView::Why { path: path@ },
            OnPath::Screen { path } => OnPathView::Screen { path: path@ },
            OnPath::Spawn(order) => OnPathView::Spawn(order@),
            OnPath::Dep(next) => OnPathView::Dep(next@),
        }
    }
}

/// What waits for a pattern to be resolved.
pub enum OnSpec {
    List,
    Act { verb: TaskVerb, pattern: String },
}

/// The mathematical content of an [`OnSpec`].
pub enum OnSpecView {
    List,
    Act { verb: TaskVerb, pattern: Seq<char> },
}

impl View for OnSpec {
    type V = OnSpecView;

    open spec fn view(&self) -> OnSpecView {
        match *self {
            OnSpec::List => OnSpecView::List,
            OnSpec::Act { verb, pattern } => OnSpecView::Act { verb, pattern: pattern@ },
        }
    }
}

/// What waits for the kernel to answer.
pub enum OnAnswer {
    List,
    Why { path: String },
    Screen { path: String },
    Dep(NextDep),
}

/// The mathematical content of an [`OnAnswer`].
pub enum OnAnswerView {
    List,
    Why { path: Seq<char> },
    Screen { path: Seq<char> },
    Dep(PendingView),
}

impl View for OnAnswer {
    type V = OnAnswerView;

    open spec fn view(&self) -> OnAnswerView {
        match *self {
            OnAnswer::List => OnAnswerView::List,
            OnAnswer::Why { path } => OnAnswerView::Why { path: path@ },
            OnAnswer::Screen { path } => OnAnswerView::Screen { path: path@ },
            OnAnswer::Dep(next) => OnAnswerView::Dep(next@),
        }
    }
}

/// What waits for the count of a command.
pub struct OnCount;

/// What waits for the server's current directory.
pub struct OnDir {
    pending: Pending,
}

impl View for OnDir {
    type V = PendingView;

    closed spec fn view(&self) -> PendingView {
        self.pending@
    }
}

/// What waits for a registration.
pub struct OnRegistered {
    pub path: String,
}

/// The next thing to do about a request.
pub enum Step {
    /// The request is answered.
    Reply(Result<Value, RpcError>),
    /// Resolve a path against the root of all tasks.
    Resolve { path: String, waiting: OnPath },
    /// Resolve a path or a glob against the root of all tasks. That cannot fail.
    ResolveSpec { pattern: String, waiting: OnSpec },
    /// Ask the kernel.
    Query { query: KernelQuery, waiting: OnAnswer },
    /// Send a command to the kernel and wait for its count.
    Act { command: KernelCommand, waiting: OnCount },
    /// Tell the kernel to quit, and then the request is answered.
    Quit { reply: Value },
    /// Find out the server's current directory.
    CurrentDir { waiting: OnDir },
    /// Have a task registered and started.
    Spawn { plan: SpawnPlan, waiting: OnRegistered },
}

/// The mathematical content of a [`Step`].
pub enum StepView {
    Reply(Result<Json, ErrorView>),
    Resolve { path: Seq<char>, waiting: OnPathView },
    ResolveSpec { pattern: Seq<char>, waiting: OnSpecView },
    Query { query: QueryView, waiting: OnAnswerView },
    Act { command: CommandView },
    Quit { reply: Json },
    CurrentDir { waiting: PendingView },
    Spawn { plan: PlanView, waiting: Seq<char> },
}

impl View for Step {
    type V = StepView;

    open spec fn view(&self) -> StepView {
        match *self {
            Step::Reply(outcome) => StepView::Reply(outcome_view(outcome)),
            Step::Resolve { path, waiting } => StepView::Resolve { path: path@, waiting: waiting@ },
            Step::ResolveSpec { pattern, waiting } => StepView::ResolveSpec {
                pattern: pattern@,
                waiting: waiting@,
            },
            Step::Query { query, waiting } => StepView::Query { query: query@, waiting: waiting@ },
            Step::Act { command, .. } => StepView::Act { command: command@ },
            Step::Quit { reply } => StepView::Quit { reply: json(reply) },
            Step::CurrentDir { waiting } => StepView::CurrentDir { waiting: waiting@ },
            Step::Spawn { plan, waiting } => StepView::Spawn {
                plan: plan@,
                waiting: waiting.path@,
            },
        }
    }
}

pub open spec fn refused(code: ErrorCode, message: Seq<char>) -> StepView {
    StepView::Reply(Err(ErrorView { code, message }))
}

pub open spec fn failed(message: Seq<char>) -> StepView {
    StepView::Reply(Err(internal_error(message)))
}

// ---------------------------------------------------------------------------
// The first step of each request.
// ---------------------------------------------------------------------------

/// A verb on the tasks that a pattern selects: a tag is acted on at once, any
/// other pattern is resolved first.
pub open spec fn verb_step(verb: TaskVerb, pattern: Seq<char>) -> StepView {
    if names_tag(pattern) {
        StepView::Act { command: command_of(verb, SelectorView::Tag(pattern.skip(1))) }
    } else {
        StepView::ResolveSpec { pattern, waiting: OnSpecView::Act { verb, pattern } }
    }
}

pub open spec fn first_step(request: RpcRequest, tags: SystemTags) -> StepView {
    match request {
        RpcRequest::TuiAttach { .. } => failed(
            "tui_attach must be the first request on a connection"@,
        ),
        RpcRequest::Ls { pattern } => match pattern {
            Some(pattern) => StepView::ResolveSpec {
                pattern: pattern@,
                waiting: OnSpecView::List,
            },
            None => StepView::Query {
                query: QueryView::ListTasks(None),
                waiting: OnAnswerView::List,
            },
        },
        RpcRequest::Up { pattern } => match pattern {
            Some(pattern) => verb_step(TaskVerb::Start, pattern@),
            None => StepView::Act {
                command: CommandView::Start(SelectorView::Tag(tags.autostart@)),
            },
        },
        RpcRequest::Start { pattern } => verb_step(TaskVerb::Start, pattern@),
        RpcRequest::Stop { pattern } => verb_step(TaskVerb::Stop, pattern@),
        RpcRequest::Veto { pattern } => verb_step(TaskVerb::Veto, pattern@),
        RpcRequest::Down { pattern } => match pattern {
            Some(pattern) => verb_step(TaskVerb::Down, pattern@),
            None => StepView::Act { command: CommandView::Down(SelectorView::All) },
        },
        RpcRequest::Kill { pattern } => verb_step(TaskVerb::Kill, pattern@),
        RpcRequest::Restart { pattern } => verb_step(TaskVerb::Restart, pattern@),
        RpcRequest::Why { path } => StepView::Resolve {
            path: path@,
            waiting: OnPathView::Why { path: path@ },
        },
        RpcRequest::Screen { path } => StepView::Resolve {
            path: path@,
            waiting: OnPathView::Screen { path: path@ },
        },
        RpcRequest::Shutdown {  } => StepView::Quit { reply: Json::Object(no_fields()) },
        RpcRequest::Spawn { path, cmd, cwd, env, deps, tags: own_tags } => StepView::Resolve {
            path: path@,
            waiting: OnPathView::Spawn(
                OrderView {
                    path: path@,
                    cmd: cmd.deep_view(),
                    cwd: cwd.deep_view(),
                    env: changes_of(env),
                    deps: deps.deep_view(),
                    tags: own_tags.deep_view(),
                    user_tag: tags.user@,
                },
            ),
        },
    }
}

fn begin_verb(verb: TaskVerb, pattern: String) -> (step: Step)
    ensures
        step@ == verb_step(verb, pattern@),
{
    match strip_mark(pattern.as_str(), '#') {
        Some(tag) => {
            assert(pattern@.skip(1) =~= tag@);
            Step::Act { command: verb.command(TaskSelector::Tag(tag)), waiting: OnCount }
        },
        None => Step::ResolveSpec {
            pattern: pattern.clone(),
            waiting: OnSpec::Act { verb, pattern },
        },
    }
}

/// Begins to handle a request.
pub fn handle_rpc(request: RpcRequest, tags: &SystemTags) -> (step: Step)
    ensures
        step@ == first_step(request, *tags),
{
    match request {
        RpcRequest::TuiAttach { .. } => Step::Reply(
            Err(
                RpcError::internal(
                    "tui_attach must be the first request on a connection".to_owned(),
                ),
            ),
        ),
        RpcRequest::Ls { pattern } => match pattern {
            Some(pattern) => Step::ResolveSpec { pattern, waiting: OnSpec::List },
            None => Step::Query {
                query: KernelQuery::ListTasks(None),
                waiting: OnAnswer::List,
            },
        },
        RpcRequest::Up { pattern } => match pattern {
            Some(pattern) => begin_verb(TaskVerb::Start, pattern),
            None => Step::Act {
                command: KernelCommand::Start(TaskSelector::Tag(tags.autostart.clone())),
                waiting: OnCount,
            },
        },
        RpcRequest::Start { pattern } => begin_verb(TaskVerb::Start, pattern),
        RpcRequest::Stop { pattern } => begin_verb(TaskVerb::Stop, pattern),
        RpcRequest::Veto { pattern } => begin_verb(TaskVerb::Veto, pattern),
        RpcRequest::Down { pattern } => match pattern {
            Some(pattern) => begin_verb(TaskVerb::Down, pattern),
            None => Step::Act {
                command: KernelCommand::Down(TaskSelector::All),
                waiting: OnCount,
            },
        },
        RpcRequest::Kill { pattern } => begin_verb(TaskVerb::Kill, pattern),
        RpcRequest::Restart { pattern } => begin_verb(TaskVerb::Restart, pattern),
        RpcRequest::Why { path } => Step::Resolve {
            path: path.clone(),
            waiting: OnPath::Why { path },
        },
        RpcRequest::Screen { path } => Step::Resolve {
            path: path.clone(),
            waiting: OnPath::Screen { path },
        },
        RpcRequest::Shutdown {  } => Step::Quit { reply: ok_result() },
        RpcRequest::Spawn { path, cmd, cwd, env, deps, tags: own_tags } => Step::Resolve {
            path: path.clone(),
            waiting: OnPath::Spawn(
                SpawnOrder {
                    path,
                    cmd,
                    cwd,
                    env,
                    deps,
                    tags: own_tags,
                    user_tag: tags.user.clone(),
                },
            ),
        },
    }
}

// ---------------------------------------------------------------------------
// Spawning: one dependency after another, and then the task itself.
// ---------------------------------------------------------------------------

/// The plan for a spawn whose dependencies are all resolved.
pub open spec fn plan_of(pending: PendingView, cwd: Option<Seq<char>>) -> PlanView {
    PlanView {
        path: pending.path,
        argv: pending.order.cmd,
        cwd,
        env: pending.order.env,
        deps: pending.dep_ids,
        tags: seq![pending.order.user_tag] + pending.order.tags,
        pinned: true,
    }
}

/// Resolves the next dependency if there is one, else has the task spawned, in
/// the directory that was asked for or in the server's own.
pub open spec fn advance_of(pending: PendingView) -> StepView {
    if pending.dep_ids.len() < pending.order.deps.len() {
        StepView::Resolve {
            path: pending.order.deps[pending.dep_ids.len() as int],
            waiting: OnPathView::Dep(pending),
        }
    } else {
        match pending.order.cwd {
            Some(cwd) => StepView::Spawn {
                plan: plan_of(pending, Some(cwd)),
                waiting: pending.order.path,
            },
            None => StepView::CurrentDir { waiting: pending },
        }
    }
}

fn env_changes(env: &Option<IndexMap<String, Option<String>>>) -> (changes: Vec<EnvChange>)
    ensures
        changes.deep_view() == changes_of(*env),
{
    let mut changes: Vec<EnvChange> = Vec::new();
    if let Some(env) = env {
        let ghost entries = env_entries(*env);
        let len: usize = env_len(env);
        for i in 0..len
            invariant
                len == entries.len(),
                entries == env_entries(*env),
                changes@.len() == i,
                forall|j: int|
                    0 <= j < i ==> (#[trigger] changes@[j]).deep_view() == entries[j],
        {
            if let Some((name, setting)) = env_entry(env, i) {
                match setting {
                    Some(value) => {
                        changes.push(EnvChange::Assign { name, value });
                    },
                    None => {
                        changes.push(EnvChange::Unset { name });
                    },
                }
            }
        }
    }
    assert(changes.deep_view() =~= changes_of(*env));
    changes
}

impl Pending {
    fn plan(self, cwd: Option<String>) -> (plan: SpawnPlan)
        ensures
            plan@ == plan_of(self@, cwd.deep_view()),
    {
        let ghost own_tags = self.order.tags.deep_view();
        let ghost user_tag = self.order.user_tag@;
        let env = env_changes(&self.order.env);
        let mut tags: Vec<String> = Vec::new();
        tags.push(self.order.user_tag);
        let mut own = self.order.tags;
        tags.append(&mut own);
        assert(tags.deep_view() =~= seq![user_tag] + own_tags);
        SpawnPlan {
            path: self.path,
            argv: self.order.cmd,
            cwd,
            env,
            deps: self.dep_ids,
            tags,
            pinned: true,
        }
    }

    fn advance(self) -> (step: Step)
        ensures
            step@ == advance_of(self@),
    {
        let done: usize = self.dep_ids.len();
        if done < self.order.deps.len() {
            let path = self.order.deps[done].clone();
            Step::Resolve { path, waiting: OnPath::Dep(NextDep { pending: self }) }
        } else {
            match &self.order.cwd {
                Some(cwd) => {
                    let cwd = cwd.clone();
                    let waiting = OnRegistered { path: self.order.path.clone() };
                    Step::Spawn { plan: self.plan(Some(cwd)), waiting }
                },
                None => Step::CurrentDir { waiting: OnDir { pending: self } },
            }
        }
    }
}

// ---------------------------------------------------------------------------
// What follows each outcome.
// ---------------------------------------------------------------------------

/// The resolved pattern is what tasks are listed by, or selected by.
pub open spec fn after_spec(waiting: OnSpecView, spec: Seq<char>) -> StepView {
    match waiting {
        OnSpecView::List => StepView::Query {
            query: QueryView::ListTasks(Some(spec)),
            waiting: OnAnswerView::List,
        },
        OnSpecView::Act { verb, pattern } => StepView::Act {
            command: command_of(verb, selector_of(pattern, spec)),
        },
    }
}

impl OnSpec {
    pub fn resume(self, spec: String) -> (step: Step)
        ensures
            step@ == after_spec(self@, spec@),
    {
        match self {
            OnSpec::List => Step::Query {
                query: KernelQuery::ListTasks(Some(spec)),
                waiting: OnAnswer::List,
            },
            OnSpec::Act { verb, pattern } => Step::Act {
                command: verb.command(parse_selector(pattern.as_str(), spec)),
                waiting: OnCount,
            },
        }
    }
}

pub open spec fn after_path(waiting: OnPathView, resolved: Result<TaskPath, String>) -> StepView {
    match path_of(resolved) {
        Err(error) => StepView::Reply(Err(error)),
        Ok(resolved) => match waiting {
            OnPathView::Why { path } => StepView::Query {
                query: QueryView::Explain(resolved),
                waiting: OnAnswerView::Why { path },
            },
            OnPathView::Screen { path } => StepView::Query {
                query: QueryView::GetScreen(resolved),
                waiting: OnAnswerView::Screen { path },
            },
            OnPathView::Spawn(order) => if order.cmd.len() == 0 {
                refused(ErrorCode::InvalidParams, "cmd must not be empty"@)
            } else {
                advance_of(PendingView { order, path: resolved, dep_ids: Seq::empty() })
            },
            OnPathView::Dep(pending) => StepView::Query {
                query: QueryView::ResolvePath(resolved),
                waiting: OnAnswerView::Dep(pending),
            },
        },
    }
}

impl OnPath {
    pub fn resume(self, resolved: Result<TaskPath, String>) -> (step: Step)
        ensures
            step@ == after_path(self@, resolved),
    {
        let resolved = match parse_path(resolved) {
            Ok(resolved) => resolved,
            Err(error) => {
                return Step::Reply(Err(error));
            },
        };
        match self {
            OnPath::Why { path } => Step::Query {
                query: KernelQuery::Explain(resolved),
                waiting: OnAnswer::Why { path },
            },
            OnPath::Screen { path } => Step::Query {
                query: KernelQuery::GetScreen(resolved),
                waiting: OnAnswer::Screen { path },
            },
            OnPath::Spawn(order) => {
                if order.cmd.len() == 0 {
                    Step::Reply(
                        Err(
                            RpcError::new(
                                ErrorCode::InvalidParams,
                                "cmd must not be empty".to_owned(),
                            ),
                        ),
                    )
                } else {
                    let dep_ids: Vec<TaskId> = Vec::new();
                    Pending { order, path: resolved, dep_ids }.advance()
                }
            },
            OnPath::Dep(next) => Step::Query {
                query: KernelQuery::ResolvePath(resolved),
                waiting: OnAnswer::Dep(next),
            },
        }
    }
}

/// A listed task on the wire. One without a path goes by its number.
pub open spec fn info_of(task: TaskInfo) -> TaskInfoView {
    TaskInfoView {
        path: match task.path {
            Some(path) => path@,
            None => "<task:"@ + decimal(task.id.0 as nat) + ">"@,
        },
        label: task.label.deep_view(),
        state: state_of(task.state),
    }
}

pub open spec fn why_dep_of(dep: ExplainDep) -> WhyDepView {
    WhyDepView {
        path: dep.name@,
        state: state_of(dep.state),
        wanted: dep.wanted,
        satisfied: dep.satisfied,
    }
}

/// An explanation on the wire, under the path that the client asked for.
pub open spec fn why_of(path: Seq<char>, explain: Explain) -> WhyView {
    WhyView {
        path,
        state: state_of(explain.state),
        wanted: explain.wanted,
        supported: explain.supported,
        vetoed: explain.vetoed,
        pinned: explain.pinned,
        required_by: explain.required_by.deep_view(),
        deps: Seq::new(explain.deps@.len(), |i: int| why_dep_of(explain.deps@[i])),
        attempts: explain.attempts,
    }
}

/// The kernel's answer is of a kind that the question does not have.
pub open spec fn unexpected_answer() -> StepView {
    failed("unexpected query response"@)
}

pub open spec fn after_answer(
    waiting: OnAnswerView,
    answer: Result<KernelQueryResponse, String>,
) -> StepView {
    match answer {
        Err(message) => failed(message@),
        Ok(answer) => match waiting {
            OnAnswerView::List => match answer {
                KernelQueryResponse::TaskList(tasks) => StepView::Reply(
                    Ok(
                        task_list_json(
                            Seq::new(tasks@.len(), |i: int| info_of(tasks@[i])),
                        ),
                    ),
                ),
                _ => unexpected_answer(),
            },
            OnAnswerView::Why { path } => match answer {
                KernelQueryResponse::Explain(Some(explain)) => StepView::Reply(
                    Ok(why_json(why_of(path, explain))),
                ),
                KernelQueryResponse::Explain(None) => refused(
                    ErrorCode::NoMatch,
                    "no task at '"@ + path + "'"@,
                ),
                _ => unexpected_answer(),
            },
            OnAnswerView::Screen { path } => match answer {
                KernelQueryResponse::Screen(Some(content)) => StepView::Reply(
                    Ok(screen_json(Some(content@))),
                ),
                KernelQueryResponse::Screen(None) => refused(
                    ErrorCode::NoScreen,
                    "no screen content for '"@ + path + "'"@,
                ),
                _ => unexpected_answer(),
            },
            OnAnswerView::Dep(pending) => match answer {
                KernelQueryResponse::ResolvedPath(Some(id)) => advance_of(
                    PendingView {
                        order: pending.order,
                        path: pending.path,
                        dep_ids: pending.dep_ids.push(id),
                    },
                ),
                KernelQueryResponse::ResolvedPath(None) => refused(
                    ErrorCode::BadPath,
                    "no task at dep '"@ + pending.order.deps[pending.dep_ids.len() as int] + "'"@,
                ),
                _ => unexpected_answer(),
            },
        },
    }
}

fn unexpected() -> (step: Step)
    ensures
        step@ == unexpected_answer(),
{
    Step::Reply(Err(RpcError::internal("unexpected query response".to_owned())))
}

/// `text` between `before` and a closing quote.
fn quoted(before: &str, text: &str) -> (message: String)
    ensures
        message@ == before@ + text@ + "'"@,
{
    let mut message = before.to_owned();
    message.append(text);
    message.append("'");
    message
}

fn task_info(task: TaskInfo) -> (info: RpcTaskInfo)
    ensures
        info.deep_view() == info_of(task),
{
    let path = match task.path {
        Some(path) => path.text,
        None => {
            let mut path = "<task:".to_owned();
            path.append(write_decimal(task.id.0 as u64).as_str());
            path.append(">");
            path
        },
    };
    RpcTaskInfo { path, label: task.label, state: task_state(task.state) }
}

fn task_infos(tasks: Vec<TaskInfo>) -> (infos: Vec<RpcTaskInfo>)
    ensures
        infos.deep_view() == Seq::new(tasks@.len(), |i: int| info_of(tasks@[i])),
{
    let ghost all = tasks@;
    let mut infos: Vec<RpcTaskInfo> = Vec::new();
    for task in iter: tasks
        invariant
            iter.seq() == all,
            infos@.len() == iter.index(),
            forall|i: int|
                0 <= i < iter.index() ==> (#[trigger] infos@[i]).deep_view() == info_of(all[i]),
    {
        infos.push(task_info(task));
    }
    assert(infos.deep_view() =~= Seq::new(all.len(), |i: int| info_of(all[i])));
    infos
}

fn why_deps(deps: Vec<ExplainDep>) -> (wire: Vec<RpcWhyDep>)
    ensures
        wire.deep_view() == Seq::new(deps@.len(), |i: int| why_dep_of(deps@[i])),
{
    let ghost all = deps@;
    let mut wire: Vec<RpcWhyDep> = Vec::new();
    for dep in iter: deps
        invariant
            iter.seq() == all,
            wire@.len() == iter.index(),
            forall|i: int|
                0 <= i < iter.index() ==> (#[trigger] wire@[i]).deep_view() == why_dep_of(all[i]),
    {
        wire.push(
            RpcWhyDep {
                path: dep.name,
                state: task_state(dep.state),
                wanted: dep.wanted,
                satisfied: dep.satisfied,
            },
        );
    }
    assert(wire.deep_view() =~= Seq::new(all.len(), |i: int| why_dep_of(all[i])));
    wire
}

fn explained(path: String, explain: Explain) -> (why: RpcWhy)
    ensures
        why.deep_view() == why_of(path@, explain),
{
    RpcWhy {
        path,
        state: task_state(explain.state),
        wanted: explain.wanted,
        supported: explain.supported,
        vetoed: explain.vetoed,
        pinned: explain.pinned,
        required_by: explain.required_by,
        deps: why_deps(explain.deps),
        attempts: explain.attempts,
    }
}

impl OnAnswer {
    pub fn resume(self, answer: Result<KernelQueryResponse, String>) -> (step: Step)
        ensures
            step@ == after_answer(self@, answer),
    {
        let answer = match answer {
            Ok(answer) => answer,
            Err(message) => {
                return Step::Reply(Err(RpcError::internal(message)));
            },
        };
        match self {
            OnAnswer::List => match answer {
                KernelQueryResponse::TaskList(tasks) => Step::Reply(
                    Ok(TaskListResult { tasks: task_infos(tasks) }.to_value()),
                ),
                _ => unexpected(),
            },
            OnAnswer::Why { path } => match answer {
                KernelQueryResponse::Explain(Some(explain)) => Step::Reply(
                    Ok(explained(path, explain).to_value()),
                ),
                KernelQueryResponse::Explain(None) => Step::Reply(
                    Err(
                        RpcError::new(
                            ErrorCode::NoMatch,
                            quoted("no task at '", path.as_str()),
                        ),
                    ),
                ),
                _ => unexpected(),
            },
            OnAnswer::Screen { path } => match answer {
                KernelQueryResponse::Screen(Some(content)) => Step::Reply(
                    Ok(ScreenResult { screen: Some(content) }.to_value()),
                ),
                KernelQueryResponse::Screen(None) => Step::Reply(
                    Err(
                        RpcError::new(
                            ErrorCode::NoScreen,
                            quoted("no screen content for '", path.as_str()),
                        ),
                    ),
                ),
                _ => unexpected(),
            },
            OnAnswer::Dep(next) => {
                proof {
                    use_type_invariant(&next);
                }
                let Pending { order, path, dep_ids } = next.pending;
                match answer {
                    KernelQueryResponse::ResolvedPath(Some(id)) => {
                        let mut dep_ids = dep_ids;
                        dep_ids.push(id);
                        Pending { order, path, dep_ids }.advance()
                    },
                    KernelQueryResponse::ResolvedPath(None) => Step::Reply(
                        Err(
                            RpcError::new(
                                ErrorCode::BadPath,
                                quoted("no task at dep '", order.deps[dep_ids.len()].as_str()),
                            ),
                        ),
                    ),
                    _ => unexpected(),
                }
            },
        }
    }
}

/// A count is a success, however small; a kernel that went away is not.
pub open spec fn after_count(count: Result<usize, String>) -> StepView {
    match count {
        Ok(matched) => StepView::Reply(Ok(act_json(matched))),
        Err(message) => failed(message@),
    }
}

impl OnCount {
    pub fn resume(self, count: Result<usize, String>) -> (step: Step)
        ensures
            step@ == after_count(count),
    {
        match count {
            Ok(matched) => Step::Reply(Ok(acted(matched))),
            Err(message) => Step::Reply(Err(RpcError::internal(message))),
        }
    }
}

/// The task runs in the server's directory, if that could be found out.
pub open spec fn after_dir(pending: PendingView, dir: Option<Seq<char>>) -> StepView {
    StepView::Spawn { plan: plan_of(pending, dir), waiting: pending.order.path }
}

impl OnDir {
    pub fn resume(self, dir: Option<String>) -> (step: Step)
        ensures
            step@ == after_dir(self@, dir.deep_view()),
    {
        let waiting = OnRegistered { path: self.pending.order.path.clone() };
        Step::Spawn { plan: self.pending.plan(dir), waiting }
    }
}

pub open spec fn after_registration(path: Seq<char>, outcome: Registration) -> StepView {
    match outcome {
        Registration::Accepted => StepView::Reply(Ok(spawn_json(path))),
        Registration::Refused => refused(
            ErrorCode::PathTaken,
            "a task already exists at '"@ + path + "'"@,
        ),
        Registration::Dropped => failed("kernel dropped the registration"@),
    }
}

impl OnRegistered {
    pub fn resume(self, outcome: Registration) -> (step: Step)
        ensures
            step@ == after_registration(self.path@, outcome),
    {
        match outcome {
            Registration::Accepted => Step::Reply(
                Ok(SpawnResult { path: self.path }.to_value()),
            ),
            Registration::Refused => Step::Reply(
                Err(
                    RpcError::new(
                        ErrorCode::PathTaken,
                        quoted("a task already exists at '", self.path.as_str()),
                    ),
                ),
            ),
            Registration::Dropped => Step::Reply(
                Err(RpcError::internal("kernel dropped the registration".to_owned())),
            ),
        }
    }
}

} // verus!
