//! Laws of whole runs of the request handler: what was asked, what the kernel
//! was told, what it answered and what the client then reads, tied to each other
//! from end to end.

use crate::dekit::handler::{
    after_registration, after_spec, first_step, info_of, state_of, why_of, EnvChange, OnAnswerView,
    OnPathView, OnRegistered, OrderView, SpawnPlan, Step, StepView, SystemTags,
};
use crate::dekit::laws::{awaited, next_step, play, Outcome};
use crate::json::{env_entries, no_fields, Json};
use crate::kernel::{
    Explain, KernelCommand, KernelQuery, KernelQueryResponse, QueryView, Registration,
    SelectorView, TaskId, TaskInfo, TaskPath, TaskSelector, TaskState,
};
use crate::protocol::ctl::ErrorCode;
use crate::protocol::laws::{
    law_act_round_trip, law_screen_round_trip, law_spawn_round_trip, law_task_list_round_trip,
    law_why_round_trip,
};
use crate::protocol::request::RpcRequest;
use crate::protocol::results::{
    act_read, screen_read, spawned_read, task_list_read, why_read, StateView,
};
use crate::text::{decimal, law_decimals_say_their_number, number_said};
use vstd::prelude::*;

verus! {

/// Whether each outcome, when it comes, is one that the run waits for.
pub open spec fn heeded(step: StepView, outcomes: Seq<Outcome>) -> bool {
    forall|k: int|
        #![trigger outcomes[k]]
        0 <= k < outcomes.len() ==> awaited(play(step, outcomes.take(k)), outcomes[k])
}

proof fn lemma_heeded_before(step: StepView, outcomes: Seq<Outcome>)
    requires
        heeded(step, outcomes),
        outcomes.len() > 0,
    ensures
        heeded(step, outcomes.drop_last()),
        awaited(play(step, outcomes.drop_last()), outcomes.last()),
{
    let before = outcomes.drop_last();
    assert(outcomes.take(outcomes.len() - 1) =~= before);
    assert(awaited(play(step, outcomes.take(outcomes.len() - 1)), outcomes[outcomes.len() - 1]));
    assert forall|k: int| #![trigger before[k]] 0 <= k < before.len() implies awaited(
        play(step, before.take(k)),
        before[k],
    ) by {
        assert(before.take(k) =~= outcomes.take(k));
        assert(outcomes[k] == before[k]);
    }
}

// ---------------------------------------------------------------------------
// Spawning.
// ---------------------------------------------------------------------------

/// Whether the outcome is the kernel's answer that the task is `id`.
pub open spec fn answered(outcome: Outcome, id: TaskId) -> bool {
    outcome == Outcome::Answer(Ok(KernelQueryResponse::ResolvedPath(Some(id))))
}

/// Whether the path and the ids are those that came in.
spec fn gathered(outcomes: Seq<Outcome>, path: Seq<char>, ids: Seq<TaskId>) -> bool {
    &&& outcomes.len() >= 1 + 2 * ids.len()
    &&& outcomes[0] matches Outcome::Path(Ok(resolved)) && resolved.text@ == path
    &&& forall|i: int| 0 <= i < ids.len() ==> answered(outcomes[2 + 2 * i], #[trigger] ids[i])
}

/// Where a spawn stands after the outcomes.
spec fn stands(step: StepView, outcomes: Seq<Outcome>, order: OrderView) -> bool {
    let n = order.deps.len() as int;
    match step {
        StepView::Reply(_) => true,
        StepView::Resolve { path, waiting } => match waiting {
            OnPathView::Spawn(own) => outcomes.len() == 0 && own == order && path == order.path,
            OnPathView::Dep(pending) => {
                let k = pending.dep_ids.len() as int;
                &&& pending.order == order
                &&& order.cmd.len() > 0
                &&& k < n
                &&& outcomes.len() == 1 + 2 * k
                &&& path == order.deps[k]
                &&& gathered(outcomes, pending.path, pending.dep_ids)
            },
            _ => false,
        },
        StepView::Query { query, waiting } => match waiting {
            OnAnswerView::Dep(pending) => {
                let k = pending.dep_ids.len() as int;
                &&& pending.order == order
                &&& order.cmd.len() > 0
                &&& k < n
                &&& outcomes.len() == 2 + 2 * k
                &&& outcomes.last() matches Outcome::Path(Ok(resolved)) && query
                    == QueryView::ResolvePath(resolved.text@)
                &&& gathered(outcomes, pending.path, pending.dep_ids)
            },
            _ => false,
        },
        StepView::CurrentDir { waiting } => {
            &&& waiting.order == order
            &&& order.cmd.len() > 0
            &&& order.cwd is None
            &&& waiting.dep_ids.len() == n
            &&& outcomes.len() == 1 + 2 * n
            &&& gathered(outcomes, waiting.path, waiting.dep_ids)
        },
        StepView::Spawn { plan, waiting } => {
            &&& order.cmd.len() > 0
            &&& plan.deps.len() == n
            &&& gathered(outcomes, plan.path, plan.deps)
            &&& plan.argv == order.cmd
            &&& plan.env == order.env
            &&& plan.tags == seq![order.user_tag] + order.tags
            &&& plan.pinned
            &&& waiting == order.path
            &&& match order.cwd {
                Some(cwd) => plan.cwd == Some(cwd) && outcomes.len() == 1 + 2 * n,
                None => outcomes.len() == 2 + 2 * n && (outcomes.last() matches Outcome::Dir(dir)
                    && plan.cwd == dir.deep_view()),
            }
        },
        _ => false,
    }
}

proof fn lemma_gathered_more(
    before: Seq<Outcome>,
    outcome: Outcome,
    path: Seq<char>,
    ids: Seq<TaskId>,
)
    requires
        gathered(before, path, ids),
    ensures
        gathered(before.push(outcome), path, ids),
{
    let after = before.push(outcome);
    assert forall|i: int| 0 <= i < ids.len() implies answered(
        after[2 + 2 * i],
        #[trigger] ids[i],
    ) by {
        assert(answered(before[2 + 2 * i], ids[i]));
        assert(after[2 + 2 * i] == before[2 + 2 * i]);
    }
}

proof fn lemma_gathered_id(
    before: Seq<Outcome>,
    path: Seq<char>,
    ids: Seq<TaskId>,
    id: TaskId,
)
    requires
        gathered(before, path, ids),
        before.len() == 2 + 2 * ids.len(),
    ensures
        gathered(
            before.push(Outcome::Answer(Ok(KernelQueryResponse::ResolvedPath(Some(id))))),
            path,
            ids.push(id),
        ),
{
    let after = before.push(Outcome::Answer(Ok(KernelQueryResponse::ResolvedPath(Some(id)))));
    let more = ids.push(id);
    assert forall|i: int| 0 <= i < more.len() implies answered(
        after[2 + 2 * i],
        #[trigger] more[i],
    ) by {
        if i < ids.len() {
            assert(answered(before[2 + 2 * i], ids[i]));
            assert(after[2 + 2 * i] == before[2 + 2 * i]);
        }
    }
}

proof fn lemma_spawn_stands(step: StepView, outcomes: Seq<Outcome>, order: OrderView)
    requires
        step == (StepView::Resolve { path: order.path, waiting: OnPathView::Spawn(order) }),
        heeded(step, outcomes),
    ensures
        stands(play(step, outcomes), outcomes, order),
    decreases outcomes.len(),
{
    if outcomes.len() > 0 {
        let before = outcomes.drop_last();
        let outcome = outcomes.last();
        lemma_heeded_before(step, outcomes);
        lemma_spawn_stands(step, before, order);
        assert(before.push(outcome) =~= outcomes);
        let reached = play(step, before);
        match reached {
            StepView::Resolve { waiting: OnPathView::Dep(pending), .. } => {
                lemma_gathered_more(before, outcome, pending.path, pending.dep_ids);
            },
            StepView::Query { waiting: OnAnswerView::Dep(pending), .. } => {
                if let Outcome::Answer(Ok(KernelQueryResponse::ResolvedPath(Some(id)))) = outcome {
                    lemma_gathered_id(before, pending.path, pending.dep_ids, id);
                }
            },
            StepView::CurrentDir { waiting } => {
                lemma_gathered_more(before, outcome, waiting.path, waiting.dep_ids);
            },
            _ => {},
        }
    }
}

spec fn order_of(request: RpcRequest, tags: SystemTags) -> OrderView {
    match first_step(request, tags) {
        StepView::Resolve { waiting: OnPathView::Spawn(order), .. } => order,
        _ => arbitrary(),
    }
}

/// The task that a spawn registers has the path that the asked path resolved to,
/// and depends on exactly the tasks that the kernel named for the dependencies,
/// each in its place; with or without a directory that was asked for.
pub proof fn law_spawn_depends_on_what_was_resolved(
    request: RpcRequest,
    tags: SystemTags,
    outcomes: Seq<Outcome>,
    plan: SpawnPlan,
    waiting: OnRegistered,
)
    requires
        request is Spawn,
        heeded(first_step(request, tags), outcomes),
        (Step::Spawn { plan, waiting })@ == play(first_step(request, tags), outcomes),
    ensures
        outcomes[0] matches Outcome::Path(Ok(resolved)) && plan.path.text@ == resolved.text@,
        plan.deps@.len() == request->Spawn_deps@.len(),
        outcomes.len() > 2 * plan.deps@.len(),
        forall|i: int|
            0 <= i < plan.deps@.len() ==> answered(
                outcomes[2 + 2 * i],
                #[trigger] plan.deps@[i],
            ),
{
    lemma_spawn_stands(first_step(request, tags), outcomes, order_of(request, tags));
}

/// The paths that are resolved on the way are those of the dependencies, one
/// after another, and what the kernel is asked for is what each resolved to.
pub proof fn law_spawn_asks_for_each_dep(
    request: RpcRequest,
    tags: SystemTags,
    outcomes: Seq<Outcome>,
    k: int,
)
    requires
        request is Spawn,
        heeded(first_step(request, tags), outcomes),
        0 <= k,
    ensures
        ({
            let step = play(first_step(request, tags), outcomes);
            let deps = request->Spawn_deps@;
            &&& outcomes.len() == 0 ==> step is Resolve && step->Resolve_path
                == request->Spawn_path@
            &&& outcomes.len() == 1 + 2 * k && step is Resolve ==> k < deps.len()
                && step->Resolve_path == deps[k]@
            &&& outcomes.len() == 1 + 2 * k && k < deps.len() ==> step is Resolve || step is Reply
            &&& step is Query ==> (outcomes.last() matches Outcome::Path(Ok(resolved))
                && step->Query_query == QueryView::ResolvePath(resolved.text@))
        }),
{
    let order = order_of(request, tags);
    lemma_spawn_stands(first_step(request, tags), outcomes, order);
    assert(order.deps == request->Spawn_deps.deep_view());
}

/// The task that a spawn registers runs the command that was asked for, in the
/// directory that was asked for or else in the server's own; its environment
/// changes as asked, in order; its tags are the user tag and those that were
/// asked for; and it is pinned. The client is answered under the path that it
/// asked for.
pub proof fn law_spawn_runs_what_was_asked(
    request: RpcRequest,
    tags: SystemTags,
    outcomes: Seq<Outcome>,
    plan: SpawnPlan,
    waiting: OnRegistered,
)
    requires
        request is Spawn,
        heeded(first_step(request, tags), outcomes),
        (Step::Spawn { plan, waiting })@ == play(first_step(request, tags), outcomes),
    ensures
        plan.argv@.len() > 0,
        plan.argv@.len() == request->Spawn_cmd@.len(),
        forall|i: int|
            0 <= i < plan.argv@.len() ==> (#[trigger] plan.argv@[i])@ == request->Spawn_cmd@[i]@,
        match request->Spawn_cwd {
            Some(cwd) => plan.cwd matches Some(chosen) && chosen@ == cwd@,
            None => match outcomes.last() {
                Outcome::Dir(Some(dir)) => plan.cwd matches Some(chosen) && chosen@ == dir@,
                Outcome::Dir(None) => plan.cwd is None,
                _ => false,
            },
        },
        plan.tags@.len() == request->Spawn_tags@.len() + 1,
        plan.tags@[0]@ == tags.user@,
        forall|i: int|
            0 < i < plan.tags@.len() ==> (#[trigger] plan.tags@[i])@ == request->Spawn_tags@[i
                - 1]@,
        plan.pinned,
        waiting.path@ == request->Spawn_path@,
{
    let order = order_of(request, tags);
    lemma_spawn_stands(first_step(request, tags), outcomes, order);
    let cmd = request->Spawn_cmd;
    let own = request->Spawn_tags;
    assert(plan.argv.deep_view() == cmd.deep_view());
    assert(plan.argv.deep_view().len() == plan.argv@.len());
    assert(cmd.deep_view().len() == cmd@.len());
    assert forall|i: int| 0 <= i < plan.argv@.len() implies (#[trigger] plan.argv@[i])@
        == cmd@[i]@ by {
        assert(plan.argv.deep_view()[i] == plan.argv@[i]@);
        assert(cmd.deep_view()[i] == cmd@[i]@);
    }
    let all = seq![tags.user@] + own.deep_view();
    assert(plan.tags.deep_view() == all);
    assert(plan.tags.deep_view().len() == plan.tags@.len());
    assert(own.deep_view().len() == own@.len());
    assert(plan.tags.deep_view()[0] == plan.tags@[0]@);
    assert forall|i: int| 0 < i < plan.tags@.len() implies (#[trigger] plan.tags@[i])@ == own@[i
        - 1]@ by {
        assert(plan.tags.deep_view()[i] == plan.tags@[i]@);
        assert(all[i] == own.deep_view()[i - 1]);
    }
}

/// The environment of the task changes as was asked, one change for each, in the
/// order of the request: a name with a value is set to it, one without is unset.
pub proof fn law_spawn_changes_the_environment_as_asked(
    request: RpcRequest,
    tags: SystemTags,
    outcomes: Seq<Outcome>,
    plan: SpawnPlan,
    waiting: OnRegistered,
)
    requires
        request is Spawn,
        heeded(first_step(request, tags), outcomes),
        (Step::Spawn { plan, waiting })@ == play(first_step(request, tags), outcomes),
    ensures
        request->Spawn_env is None ==> plan.env@.len() == 0,
        request->Spawn_env matches Some(env) ==> {
            &&& plan.env@.len() == env_entries(env).len()
            &&& forall|i: int|
                0 <= i < plan.env@.len() ==> match #[trigger] plan.env@[i] {
                    EnvChange::Assign { name, value } => env_entries(env)[i] == (
                        name@,
                        Some(value@),
                    ),
                    EnvChange::Unset { name } => env_entries(env)[i] == (name@, None::<Seq<char>>),
                }
        },
{
    lemma_spawn_stands(first_step(request, tags), outcomes, order_of(request, tags));
    assert(plan.env.deep_view().len() == plan.env@.len());
    if let Some(env) = request->Spawn_env {
        assert forall|i: int| 0 <= i < plan.env@.len() implies match #[trigger] plan.env@[i] {
            EnvChange::Assign { name, value } => env_entries(env)[i] == (name@, Some(value@)),
            EnvChange::Unset { name } => env_entries(env)[i] == (name@, None::<Seq<char>>),
        } by {
            assert(plan.env.deep_view()[i] == plan.env@[i].deep_view());
        }
    }
}

/// A spawn without a command is refused once its path is resolved, and one with
/// a command is not.
pub proof fn law_spawn_needs_a_command(request: RpcRequest, tags: SystemTags, resolved: TaskPath)
    requires
        request is Spawn,
    ensures
        ({
            let step = next_step(first_step(request, tags), Outcome::Path(Ok(resolved)));
            &&& step is Reply <==> request->Spawn_cmd@.len() == 0
            &&& step matches StepView::Reply(reply) ==> reply is Err && reply->Err_0.code
                == ErrorCode::InvalidParams && reply->Err_0.message == "cmd must not be empty"@
        }),
{
    assert(request->Spawn_cmd.deep_view().len() == request->Spawn_cmd@.len());
}

/// A registered task is reported under the path that was asked for.
pub proof fn law_spawns_are_answered_with_their_path(path: Seq<char>)
    ensures
        after_registration(path, Registration::Accepted) matches StepView::Reply(Ok(value))
            && spawned_read(value) == Result::<Seq<char>, Seq<char>>::Ok(path),
{
    law_spawn_round_trip(path);
}

// ---------------------------------------------------------------------------
// Failures.
// ---------------------------------------------------------------------------

/// A path that does not resolve ends the request, whatever it was for: the path
/// is bad, and the message says why.
pub proof fn law_unresolved_paths_are_bad(step: StepView, message: String)
    requires
        step is Resolve,
    ensures
        next_step(step, Outcome::Path(Err(message))) matches StepView::Reply(Err(error))
            && error.code == ErrorCode::BadPath && error.message == message@,
{
}

/// A kernel that does not answer ends the request, whatever it was for: that is
/// an internal error, and the message says why.
pub proof fn law_silent_kernels_are_internal(step: StepView, message: String)
    ensures
        step is Query ==> (next_step(step, Outcome::Answer(Err(message))) matches StepView::Reply(
            Err(error),
        ) && error.code == ErrorCode::Internal && error.message == message@),
        step is Act ==> (next_step(step, Outcome::Count(Err(message))) matches StepView::Reply(
            Err(error),
        ) && error.code == ErrorCode::Internal && error.message == message@),
{
}

/// Whether the reply is a refusal with this code and message.
pub open spec fn refuses(step: StepView, code: ErrorCode, message: Seq<char>) -> bool {
    step matches StepView::Reply(Err(error)) && error.code == code && error.message == message
}

/// A question is answered only by an answer of its own kind; any other answer is
/// an internal error, and an answer that there is nothing is a refusal.
pub proof fn law_answers_fit_their_questions(
    waiting: OnAnswerView,
    query: QueryView,
    answer: KernelQueryResponse,
)
    ensures
        ({
            let step = next_step(
                StepView::Query { query, waiting },
                Outcome::Answer(Ok(answer)),
            );
            let odd = refuses(step, ErrorCode::Internal, "unexpected query response"@);
            match waiting {
                OnAnswerView::List => match answer {
                    KernelQueryResponse::TaskList(_) => step matches StepView::Reply(reply)
                        && reply is Ok,
                    _ => odd,
                },
                OnAnswerView::Why { path } => match answer {
                    KernelQueryResponse::Explain(Some(_)) => step matches StepView::Reply(reply)
                        && reply is Ok,
                    KernelQueryResponse::Explain(None) => refuses(
                        step,
                        ErrorCode::NoMatch,
                        "no task at '"@ + path + "'"@,
                    ),
                    _ => odd,
                },
                OnAnswerView::Screen { path } => match answer {
                    KernelQueryResponse::Screen(Some(_)) => step matches StepView::Reply(reply)
                        && reply is Ok,
                    KernelQueryResponse::Screen(None) => refuses(
                        step,
                        ErrorCode::NoScreen,
                        "no screen content for '"@ + path + "'"@,
                    ),
                    _ => odd,
                },
                OnAnswerView::Dep(_) => match answer {
                    KernelQueryResponse::ResolvedPath(Some(_)) => step !is Reply,
                    KernelQueryResponse::ResolvedPath(None) => step matches StepView::Reply(reply)
                        && reply is Err && reply->Err_0.code == ErrorCode::BadPath,
                    _ => odd,
                },
            }
        }),
{
}

// ---------------------------------------------------------------------------
// Verbs.
// ---------------------------------------------------------------------------

/// The pattern of a request, if it has one.
pub open spec fn asked_pattern(request: RpcRequest) -> Option<String> {
    match request {
        RpcRequest::Ls { pattern } => pattern,
        RpcRequest::Up { pattern } => pattern,
        RpcRequest::Down { pattern } => pattern,
        RpcRequest::Start { pattern } => Some(pattern),
        RpcRequest::Stop { pattern } => Some(pattern),
        RpcRequest::Kill { pattern } => Some(pattern),
        RpcRequest::Veto { pattern } => Some(pattern),
        RpcRequest::Restart { pattern } => Some(pattern),
        _ => None,
    }
}

/// Whether the command does what the request is called; `up` starts.
pub open spec fn does_as_asked(command: KernelCommand, request: RpcRequest) -> bool {
    &&& command is Start <==> request is Start || request is Up
    &&& command is Stop <==> request is Stop
    &&& command is Down <==> request is Down
    &&& command is Kill <==> request is Kill
    &&& command is Veto <==> request is Veto
    &&& command is Restart <==> request is Restart
}

/// The tasks that a command is about.
pub open spec fn target(command: KernelCommand) -> TaskSelector {
    match command {
        KernelCommand::Start(selector) => selector,
        KernelCommand::Stop(selector) => selector,
        KernelCommand::Down(selector) => selector,
        KernelCommand::Kill(selector) => selector,
        KernelCommand::Veto(selector) => selector,
        KernelCommand::Restart(selector) => selector,
    }
}

/// A verb with a pattern commands what it is called, on the tag behind `#` or on
/// what the pattern resolves to; it is the pattern as given that is resolved. A
/// bare `up` starts the autostart tag, a bare `down` puts down every task.
pub proof fn law_verbs_command_what_was_asked(
    request: RpcRequest,
    tags: SystemTags,
    step: Step,
    spec: String,
    next: Step,
)
    requires
        request is Up || request is Down || request is Start || request is Stop || request is Kill
            || request is Veto || request is Restart,
        step@ == first_step(request, tags),
        step matches Step::ResolveSpec { waiting, .. } ==> next@ == after_spec(waiting@, spec@),
    ensures
        match asked_pattern(request) {
            Some(pattern) => if pattern@.len() > 0 && pattern@[0] == '#' {
                step matches Step::Act { command, .. } && does_as_asked(command, request) && (
                target(command) matches TaskSelector::Tag(tag) && tag@ == pattern@.skip(1))
            } else {
                &&& step matches Step::ResolveSpec { pattern: resolving, .. } && resolving@
                    == pattern@
                &&& next matches Step::Act { command, .. } && does_as_asked(command, request) && (
                target(command) matches TaskSelector::Glob(glob) && glob@ == spec@)
            },
            None => step matches Step::Act { command, .. } && does_as_asked(command, request) && (
            request is Up ==> (target(command) matches TaskSelector::Tag(tag) && tag@
                == tags.autostart@)) && (request is Down ==> target(command) is All),
        },
{
}

/// However many tasks a command acted on, the client reads that number.
pub proof fn law_counts_are_passed_on(step: StepView, matched: usize)
    requires
        step is Act,
    ensures
        next_step(step, Outcome::Count(Ok(matched))) matches StepView::Reply(Ok(value))
            && act_read(value) == Result::<usize, Seq<char>>::Ok(matched),
{
    law_act_round_trip(matched);
}

// ---------------------------------------------------------------------------
// Questions.
// ---------------------------------------------------------------------------

/// Whether the wire says of a task the state that it is in, with the exit detail
/// of one that has ended and none of one that has not.
pub open spec fn says(wire: StateView, state: TaskState) -> bool {
    &&& wire.state == "idle"@ <==> state is Idle
    &&& wire.state == "starting"@ <==> state is Starting
    &&& wire.state == "running"@ <==> state is Running
    &&& wire.state == "ready"@ <==> state is Ready
    &&& wire.state == "stopping"@ <==> state is Stopping
    &&& wire.state == "backoff"@ <==> state is Backoff
    &&& wire.state == "done"@ <==> state is Done
    &&& wire.state == "exited"@ <==> state is Exited
    &&& match state {
        TaskState::Done(info) | TaskState::Exited(info) => wire.exit_code == info.code
            && wire.signal == info.signal,
        _ => wire.exit_code is None && wire.signal is None,
    }
}

/// The wire says of every task the state that it is in.
pub proof fn law_states_are_said(state: TaskState)
    ensures
        says(state_of(state), state),
{
    reveal_strlit("idle");
    reveal_strlit("starting");
    reveal_strlit("running");
    reveal_strlit("ready");
    reveal_strlit("stopping");
    reveal_strlit("backoff");
    reveal_strlit("done");
    reveal_strlit("exited");
    assert("idle"@[0] == 'i');
    assert("starting"@[2] == 'a');
    assert("stopping"@[2] == 'o');
    assert("running"@[1] == 'u');
    assert("ready"@[1] == 'e');
    assert("backoff"@[0] == 'b');
    assert("done"@[0] == 'd');
    assert("exited"@[0] == 'e');
    assert("starting"@[0] == 's');
    assert("stopping"@[0] == 's');
    assert("running"@[0] == 'r');
    assert("ready"@[0] == 'r');
}

/// `ls` asks for every task, or for what the pattern resolves to.
pub proof fn law_lists_ask_for_what_was_asked(
    pattern: Option<String>,
    tags: SystemTags,
    step: Step,
    spec: String,
    next: Step,
)
    requires
        step@ == first_step(RpcRequest::Ls { pattern }, tags),
        step matches Step::ResolveSpec { waiting, .. } ==> next@ == after_spec(waiting@, spec@),
    ensures
        match pattern {
            None => step matches Step::Query { query: KernelQuery::ListTasks(None), .. },
            Some(pattern) => {
                &&& step matches Step::ResolveSpec { pattern: resolving, .. } && resolving@
                    == pattern@
                &&& next matches Step::Query {
                    query: KernelQuery::ListTasks(Some(glob)),
                    waiting,
                } && glob@ == spec@ && waiting@ is List
            },
        },
{
}

/// The client reads of each task of the kernel's list, in its place, its path,
/// label and state; a task without a path goes by its number.
pub proof fn law_lists_tell_of_each_task(query: QueryView, tasks: Vec<TaskInfo>, i: int)
    requires
        0 <= i < tasks@.len(),
    ensures
        next_step(
            StepView::Query { query, waiting: OnAnswerView::List },
            Outcome::Answer(Ok(KernelQueryResponse::TaskList(tasks))),
        ) matches StepView::Reply(Ok(value)) && (task_list_read(value) matches Ok(infos) && {
            let path = infos[i].path;
            let len = path.len() as int;
            &&& infos.len() == tasks@.len()
            &&& tasks@[i].path matches Some(own) ==> path == own.text@
            &&& tasks@[i].path is None ==> len > 7 && path.take(6) == "<task:"@ && path.last()
                == '>' && number_said(path.subrange(6, len - 1)) == tasks@[i].id.0
            &&& infos[i].label == tasks@[i].label.deep_view()
            &&& says(infos[i].state, tasks@[i].state)
        }),
{
    let infos = Seq::new(tasks@.len(), |j: int| info_of(tasks@[j]));
    law_task_list_round_trip(infos);
    law_states_are_said(tasks@[i].state);
    law_decimals_say_their_number(tasks@[i].id.0 as nat);
    reveal_strlit("<task:");
    reveal_strlit(">");
    let path = infos[i].path;
    if tasks@[i].path is None {
        let number = decimal(tasks@[i].id.0 as nat);
        assert(path.take(6) =~= "<task:"@);
        assert(path.subrange(6, path.len() - 1) =~= number);
    }
}

/// `why` resolves the path and asks the kernel about what it resolved to; the
/// client then reads, under the path that it asked for, all that the kernel
/// explained.
pub proof fn law_why_tells_what_the_kernel_explains(
    path: String,
    tags: SystemTags,
    resolved: TaskPath,
    explain: Explain,
)
    ensures
        ({
            let asked = first_step(RpcRequest::Why { path }, tags);
            let query = next_step(asked, Outcome::Path(Ok(resolved)));
            let reply = next_step(
                query,
                Outcome::Answer(Ok(KernelQueryResponse::Explain(Some(explain)))),
            );
            &&& asked is Resolve && asked->Resolve_path == path@
            &&& query is Query && query->Query_query == QueryView::Explain(resolved.text@)
            &&& reply matches StepView::Reply(Ok(value)) && (why_read(value) matches Ok(why) && {
                &&& why.path == path@
                &&& says(why.state, explain.state)
                &&& why.wanted == explain.wanted
                &&& why.supported == explain.supported
                &&& why.vetoed == explain.vetoed
                &&& why.pinned == explain.pinned
                &&& why.required_by == explain.required_by.deep_view()
                &&& why.attempts == explain.attempts
                &&& why.deps.len() == explain.deps@.len()
                &&& forall|i: int|
                    0 <= i < why.deps.len() ==> {
                        let dep = #[trigger] why.deps[i];
                        &&& dep.path == explain.deps@[i].name@
                        &&& says(dep.state, explain.deps@[i].state)
                        &&& dep.wanted == explain.deps@[i].wanted
                        &&& dep.satisfied == explain.deps@[i].satisfied
                    }
            })
        }),
{
    let why = why_of(path@, explain);
    law_why_round_trip(why);
    law_states_are_said(explain.state);
    assert forall|i: int| 0 <= i < why.deps.len() implies says(
        (#[trigger] why.deps[i]).state,
        explain.deps@[i].state,
    ) by {
        law_states_are_said(explain.deps@[i].state);
    }
}

/// `screen` resolves the path and asks the kernel for the screen of what it
/// resolved to; the client then reads that screen.
pub proof fn law_screen_shows_what_the_kernel_gives(
    path: String,
    tags: SystemTags,
    resolved: TaskPath,
    content: String,
)
    ensures
        ({
            let asked = first_step(RpcRequest::Screen { path }, tags);
            let query = next_step(asked, Outcome::Path(Ok(resolved)));
            let reply = next_step(
                query,
                Outcome::Answer(Ok(KernelQueryResponse::Screen(Some(content)))),
            );
            &&& asked is Resolve && asked->Resolve_path == path@
            &&& query is Query && query->Query_query == QueryView::GetScreen(resolved.text@)
            &&& reply matches StepView::Reply(Ok(value)) && screen_read(value) == Result::<
                Option<Seq<char>>,
                Seq<char>,
            >::Ok(Some(content@))
        }),
{
    law_screen_round_trip(Some(content@));
}

/// When a question about a path finds nothing, the refusal names the path that
/// the client asked for.
pub proof fn law_nothing_found_is_said(path: String, tags: SystemTags, resolved: TaskPath)
    ensures
        ({
            let why = next_step(
                first_step(RpcRequest::Why { path }, tags),
                Outcome::Path(Ok(resolved)),
            );
            let screen = next_step(
                first_step(RpcRequest::Screen { path }, tags),
                Outcome::Path(Ok(resolved)),
            );
            &&& refuses(
                next_step(why, Outcome::Answer(Ok(KernelQueryResponse::Explain(None)))),
                ErrorCode::NoMatch,
                "no task at '"@ + path@ + "'"@,
            )
            &&& refuses(
                next_step(screen, Outcome::Answer(Ok(KernelQueryResponse::Screen(None)))),
                ErrorCode::NoScreen,
                "no screen content for '"@ + path@ + "'"@,
            )
        }),
{
}

/// A dependency without a task is named in the refusal as the client wrote it.
pub proof fn law_unknown_deps_are_named(
    request: RpcRequest,
    tags: SystemTags,
    outcomes: Seq<Outcome>,
)
    requires
        request is Spawn,
        heeded(first_step(request, tags), outcomes),
        play(first_step(request, tags), outcomes) is Query,
    ensures
        outcomes.len() >= 2,
        (outcomes.len() - 2) / 2 < request->Spawn_deps@.len(),
        refuses(
            next_step(
                play(first_step(request, tags), outcomes),
                Outcome::Answer(Ok(KernelQueryResponse::ResolvedPath(None))),
            ),
            ErrorCode::BadPath,
            "no task at dep '"@ + request->Spawn_deps@[(outcomes.len() - 2) / 2]@ + "'"@,
        ),
{
    let order = order_of(request, tags);
    lemma_spawn_stands(first_step(request, tags), outcomes, order);
    assert(order.deps == request->Spawn_deps.deep_view());
}

/// What is asked of the kernel is taken at its word: a question, a command or a
/// selector says of itself what it is.
pub proof fn law_the_kernel_is_asked_in_plain_words(
    query: KernelQuery,
    command: KernelCommand,
    selector: TaskSelector,
)
    ensures
        query@ == match query {
            KernelQuery::ListTasks(None) => QueryView::ListTasks(None),
            KernelQuery::ListTasks(Some(glob)) => QueryView::ListTasks(Some(glob@)),
            KernelQuery::Explain(path) => QueryView::Explain(path.text@),
            KernelQuery::GetScreen(path) => QueryView::GetScreen(path.text@),
            KernelQuery::ResolvePath(path) => QueryView::ResolvePath(path.text@),
        },
        command is Start <==> command@ is Start,
        command is Stop <==> command@ is Stop,
        command is Down <==> command@ is Down,
        command is Kill <==> command@ is Kill,
        command is Veto <==> command@ is Veto,
        command is Restart <==> command@ is Restart,
        selector is All <==> selector@ is All,
        selector matches TaskSelector::Tag(tag) ==> selector@ == SelectorView::Tag(tag@),
        selector matches TaskSelector::Glob(glob) ==> selector@ == SelectorView::Glob(glob@),
{
}

/// An attach that is not the first request is refused, a shutdown is answered
/// with an empty object, and a kernel that goes away during a registration is an
/// internal error.
pub proof fn law_the_rest_is_answered(width: u16, height: u16, tags: SystemTags, path: Seq<char>)
    ensures
        refuses(
            first_step(RpcRequest::TuiAttach { width, height }, tags),
            ErrorCode::Internal,
            "tui_attach must be the first request on a connection"@,
        ),
        first_step(RpcRequest::Shutdown {  }, tags) matches StepView::Quit { reply } && (
        reply matches Json::Object(object) && object.dom() == Set::<Seq<char>>::empty()),
        refuses(
            after_registration(path, Registration::Dropped),
            ErrorCode::Internal,
            "kernel dropped the registration"@,
        ),
        refuses(
            after_registration(path, Registration::Refused),
            ErrorCode::PathTaken,
            "a task already exists at '"@ + path + "'"@,
        ),
{
    assert(no_fields().dom() =~= Set::<Seq<char>>::empty());
}

} // verus!
