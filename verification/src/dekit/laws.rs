//! Laws of the request handler: what holds of every way in which a request can
//! be handled, whatever the kernel answers.

use crate::dekit::handler::{
    advance_of, after_answer, after_count, after_dir, after_path, after_registration, after_spec,
    first_step, names_tag, refused, selector_of, state_of, state_token, OnAnswerView, OnPathView,
    OrderView, PendingView, StepView, SystemTags,
};
use crate::kernel::{
    command_of, CommandView, KernelQueryResponse, QueryView, Registration, SelectorView, TaskId,
    TaskPath, TaskState, TaskVerb,
};
use crate::protocol::ctl::ErrorCode;
use crate::protocol::request::RpcRequest;
use crate::protocol::results::{act_json, spawn_json};
use vstd::prelude::*;

verus! {

// ---------------------------------------------------------------------------
// States, selectors and counts.
// ---------------------------------------------------------------------------

/// The wire tells every two states apart.
pub proof fn law_states_are_told_apart(left: TaskState, right: TaskState)
    ensures
        state_of(left) == state_of(right) <==> left == right,
{
    reveal_strlit("idle");
    reveal_strlit("starting");
    reveal_strlit("running");
    reveal_strlit("ready");
    reveal_strlit("stopping");
    reveal_strlit("backoff");
    reveal_strlit("done");
    reveal_strlit("exited");
    if state_of(left) == state_of(right) {
        let left_token = state_token(left);
        let right_token = state_token(right);
        assert(left_token.len() == right_token.len());
        assert(left_token[0] == right_token[0]);
        assert(left_token[1] == right_token[1]);
        assert(left_token[2] == right_token[2]);
    }
}

/// The token is one of eight, and only a state that has ended has exit detail.
pub proof fn law_states_on_the_wire(state: TaskState)
    ensures
        seq![
            "idle"@,
            "starting"@,
            "running"@,
            "ready"@,
            "stopping"@,
            "backoff"@,
            "done"@,
            "exited"@,
        ].contains(state_of(state).state),
        state_of(state).exit_code is Some || state_of(state).signal is Some
            ==> state_of(state).state == "done"@ || state_of(state).state == "exited"@,
{
    let tokens = seq![
        "idle"@,
        "starting"@,
        "running"@,
        "ready"@,
        "stopping"@,
        "backoff"@,
        "done"@,
        "exited"@,
    ];
    match state {
        TaskState::Idle => assert(tokens[0] == state_of(state).state),
        TaskState::Starting => assert(tokens[1] == state_of(state).state),
        TaskState::Running => assert(tokens[2] == state_of(state).state),
        TaskState::Ready => assert(tokens[3] == state_of(state).state),
        TaskState::Stopping => assert(tokens[4] == state_of(state).state),
        TaskState::Backoff => assert(tokens[5] == state_of(state).state),
        TaskState::Done(_) => assert(tokens[6] == state_of(state).state),
        TaskState::Exited(_) => assert(tokens[7] == state_of(state).state),
    }
}

/// A pattern selects by tag exactly when it begins with `#`, and the tag is what
/// is left of it; any other pattern, an empty one too, selects what it resolves
/// to. No pattern selects every task outright.
pub proof fn law_selectors(pattern: Seq<char>, spec: Seq<char>)
    ensures
        selector_of(seq!['#'] + pattern, spec) == SelectorView::Tag(pattern),
        selector_of(pattern, spec) is Tag <==> pattern.len() > 0 && pattern[0] == '#',
        pattern.len() == 0 || pattern[0] != '#' ==> selector_of(pattern, spec)
            == SelectorView::Glob(spec),
        selector_of(pattern, spec) !is All,
{
    assert((seq!['#'] + pattern).skip(1) =~= pattern);
}

/// Acting on any number of tasks, zero among them, succeeds and reports the
/// number.
pub proof fn law_every_count_is_a_success(matched: usize)
    ensures
        after_count(Ok(matched)) == StepView::Reply(Ok(act_json(matched))),
{
}

// ---------------------------------------------------------------------------
// Runs of the handler.
// ---------------------------------------------------------------------------

/// What came of a step's outside work.
pub enum Outcome {
    Path(Result<TaskPath, String>),
    Spec(String),
    Answer(Result<KernelQueryResponse, String>),
    Count(Result<usize, String>),
    Dir(Option<String>),
    Registered(Registration),
}

/// Whether the outcome is of the kind that the step waits for.
pub open spec fn awaited(step: StepView, outcome: Outcome) -> bool {
    match step {
        StepView::Resolve { .. } => outcome is Path,
        StepView::ResolveSpec { .. } => outcome is Spec,
        StepView::Query { .. } => outcome is Answer,
        StepView::Act { .. } => outcome is Count,
        StepView::CurrentDir { .. } => outcome is Dir,
        StepView::Spawn { .. } => outcome is Registered,
        _ => false,
    }
}

/// The step that follows. A step that waits for nothing, or not for this
/// outcome, stays.
pub open spec fn next_step(step: StepView, outcome: Outcome) -> StepView {
    match (step, outcome) {
        (StepView::Resolve { waiting, .. }, Outcome::Path(resolved)) => after_path(
            waiting,
            resolved,
        ),
        (StepView::ResolveSpec { waiting, .. }, Outcome::Spec(spec)) => after_spec(waiting, spec@),
        (StepView::Query { waiting, .. }, Outcome::Answer(answer)) => after_answer(waiting, answer),
        (StepView::Act { .. }, Outcome::Count(count)) => after_count(count),
        (StepView::CurrentDir { waiting }, Outcome::Dir(dir)) => after_dir(
            waiting,
            dir.deep_view(),
        ),
        (StepView::Spawn { waiting, .. }, Outcome::Registered(outcome)) => after_registration(
            waiting,
            outcome,
        ),
        _ => step,
    }
}

/// The step that is reached when the outcomes come one after another.
pub open spec fn play(step: StepView, outcomes: Seq<Outcome>) -> StepView
    decreases outcomes.len(),
{
    if outcomes.len() == 0 {
        step
    } else {
        next_step(play(step, outcomes.drop_last()), outcomes.last())
    }
}

/// What holds of every step that [`first_step`] leads to: a spawn waits for no
/// dependency that it does not have, and is planned with all that it has.
pub open spec fn sound(step: StepView) -> bool {
    match step {
        StepView::Resolve { waiting: OnPathView::Dep(pending), .. } => pending.dep_ids.len()
            < pending.order.deps.len(),
        StepView::Query { waiting: OnAnswerView::Dep(pending), .. } => pending.dep_ids.len()
            < pending.order.deps.len(),
        StepView::CurrentDir { waiting } => waiting.dep_ids.len() == waiting.order.deps.len(),
        _ => true,
    }
}

/// How many outcomes a step waits for at most before the request is answered.
pub open spec fn outcomes_left(step: StepView) -> int {
    match step {
        StepView::Reply(_) => 0,
        StepView::Quit { .. } => 0,
        StepView::Act { .. } => 1,
        StepView::Spawn { .. } => 1,
        StepView::CurrentDir { .. } => 2,
        StepView::ResolveSpec { .. } => 2,
        StepView::Query { waiting, .. } => match waiting {
            OnAnswerView::Dep(pending) => 2 * (pending.order.deps.len() - pending.dep_ids.len())
                + 1,
            _ => 1,
        },
        StepView::Resolve { waiting, .. } => match waiting {
            OnPathView::Dep(pending) => 2 * (pending.order.deps.len() - pending.dep_ids.len())
                + 2,
            OnPathView::Spawn(order) => 2 * (order.deps.len() as int) + 3,
            _ => 2,
        },
    }
}

/// Every request is answered: each awaited outcome leaves fewer to wait for,
/// and when none is left the request has its answer.
pub proof fn law_requests_are_answered(step: StepView, outcome: Outcome)
    requires
        sound(step),
    ensures
        outcomes_left(step) >= 0,
        outcomes_left(step) == 0 <==> step is Reply || step is Quit,
        sound(next_step(step, outcome)),
        awaited(step, outcome) ==> outcomes_left(next_step(step, outcome)) < outcomes_left(step),
{
}

/// Every request begins with a sound step.
pub proof fn law_first_steps_are_sound(request: RpcRequest, tags: SystemTags)
    ensures
        sound(first_step(request, tags)),
{
}

/// An answer is final: nothing that happens later changes it.
pub proof fn law_answers_are_final(step: StepView, outcomes: Seq<Outcome>)
    requires
        step is Reply,
    ensures
        play(step, outcomes) == step,
    decreases outcomes.len(),
{
    if outcomes.len() > 0 {
        law_answers_are_final(step, outcomes.drop_last());
    }
}

// ---------------------------------------------------------------------------
// Who may act.
// ---------------------------------------------------------------------------

/// Whether the step only looks: it changes no task and ends nothing.
pub open spec fn only_looks(step: StepView) -> bool {
    match step {
        StepView::Reply(_) => true,
        StepView::Resolve { waiting, .. } => waiting is Why || waiting is Screen,
        StepView::ResolveSpec { waiting, .. } => waiting is List,
        StepView::Query { waiting, .. } => waiting !is Dep,
        _ => false,
    }
}

/// `ls`, `why` and `screen` change no task, however they go.
pub proof fn law_questions_change_nothing(
    request: RpcRequest,
    tags: SystemTags,
    outcomes: Seq<Outcome>,
)
    requires
        request is Ls || request is Why || request is Screen,
    ensures
        only_looks(play(first_step(request, tags), outcomes)),
    decreases outcomes.len(),
{
    if outcomes.len() > 0 {
        law_questions_change_nothing(request, tags, outcomes.drop_last());
    }
}

/// Only `shutdown` makes the kernel quit, and it does so at once.
pub proof fn law_only_shutdown_quits(
    request: RpcRequest,
    tags: SystemTags,
    outcomes: Seq<Outcome>,
)
    ensures
        play(first_step(request, tags), outcomes) is Quit <==> request is Shutdown,
    decreases outcomes.len(),
{
    if outcomes.len() > 0 {
        law_only_shutdown_quits(request, tags, outcomes.drop_last());
    }
}

/// A bare `up` starts the autostart tasks, a bare `down` puts down every task;
/// with a pattern `up` is `start`.
pub proof fn law_bare_verbs(pattern: String, tags: SystemTags)
    ensures
        first_step(RpcRequest::Up { pattern: None }, tags) == (StepView::Act {
            command: CommandView::Start(SelectorView::Tag(tags.autostart@)),
        }),
        first_step(RpcRequest::Down { pattern: None }, tags) == (StepView::Act {
            command: CommandView::Down(SelectorView::All),
        }),
        first_step(RpcRequest::Up { pattern: Some(pattern) }, tags) == first_step(
            RpcRequest::Start { pattern },
            tags,
        ),
{
}

/// The verb and the pattern of a request that acts on what a pattern selects.
pub open spec fn verb_of(request: RpcRequest) -> Option<(TaskVerb, Seq<char>)> {
    match request {
        RpcRequest::Up { pattern: Some(pattern) } => Some((TaskVerb::Start, pattern@)),
        RpcRequest::Down { pattern: Some(pattern) } => Some((TaskVerb::Down, pattern@)),
        RpcRequest::Start { pattern } => Some((TaskVerb::Start, pattern@)),
        RpcRequest::Stop { pattern } => Some((TaskVerb::Stop, pattern@)),
        RpcRequest::Kill { pattern } => Some((TaskVerb::Kill, pattern@)),
        RpcRequest::Veto { pattern } => Some((TaskVerb::Veto, pattern@)),
        RpcRequest::Restart { pattern } => Some((TaskVerb::Restart, pattern@)),
        _ => None,
    }
}

/// A verb becomes one command, on the tag that the pattern names or on what the
/// pattern resolves to. It is the pattern itself that is resolved.
pub proof fn law_verbs_act_on_the_resolved_pattern(
    request: RpcRequest,
    tags: SystemTags,
    spec: String,
)
    requires
        verb_of(request) is Some,
    ensures
        ({
            let (verb, pattern) = verb_of(request)->0;
            let step = first_step(request, tags);
            let command = command_of(verb, selector_of(pattern, spec@));
            if names_tag(pattern) {
                step == (StepView::Act { command })
            } else {
                &&& step is ResolveSpec
                &&& step->ResolveSpec_pattern == pattern
                &&& next_step(step, Outcome::Spec(spec)) == (StepView::Act { command })
            }
        }),
{
}

/// Tasks are listed by what the pattern resolves to.
pub proof fn law_lists_go_by_the_resolved_pattern(
    pattern: String,
    tags: SystemTags,
    spec: String,
)
    ensures
        ({
            let step = first_step(RpcRequest::Ls { pattern: Some(pattern) }, tags);
            &&& step is ResolveSpec
            &&& step->ResolveSpec_pattern == pattern@
            &&& next_step(step, Outcome::Spec(spec)) == (StepView::Query {
                query: QueryView::ListTasks(Some(spec@)),
                waiting: OnAnswerView::List,
            })
        }),
{
}

// ---------------------------------------------------------------------------
// Spawning.
// ---------------------------------------------------------------------------

/// Whether the step belongs to the spawn that `order` asks for, with whatever
/// it has gathered so far.
pub open spec fn spawns(step: StepView, order: OrderView) -> bool {
    match step {
        StepView::Reply(_) => true,
        StepView::Resolve { waiting, .. } => match waiting {
            OnPathView::Spawn(own) => own == order,
            OnPathView::Dep(pending) => pending.order == order && order.cmd.len() > 0,
            _ => false,
        },
        StepView::Query { waiting, .. } => match waiting {
            OnAnswerView::Dep(pending) => pending.order == order && order.cmd.len() > 0,
            _ => false,
        },
        StepView::CurrentDir { waiting } => {
            &&& waiting.order == order
            &&& order.cmd.len() > 0
            &&& order.cwd is None
        },
        StepView::Spawn { plan, waiting } => {
            &&& waiting == order.path
            &&& order.cmd.len() > 0
            &&& plan.argv == order.cmd
            &&& plan.env == order.env
            &&& plan.deps.len() == order.deps.len()
            &&& plan.tags == seq![order.user_tag] + order.tags
            &&& plan.pinned
            &&& order.cwd is Some ==> plan.cwd == order.cwd
        },
        _ => false,
    }
}

/// Whatever happens on the way, a task is registered only with the command
/// that was asked for, which is not empty, with the environment, directory and
/// tags that were asked for behind the user tag, pinned, and with one task for
/// each dependency.
pub proof fn law_spawn_as_ordered(
    request: RpcRequest,
    tags: SystemTags,
    order: OrderView,
    outcomes: Seq<Outcome>,
)
    requires
        first_step(request, tags) == (StepView::Resolve {
            path: order.path,
            waiting: OnPathView::Spawn(order),
        }),
    ensures
        spawns(play(first_step(request, tags), outcomes), order),
    decreases outcomes.len(),
{
    if outcomes.len() > 0 {
        law_spawn_as_ordered(request, tags, order, outcomes.drop_last());
        lemma_play_is_sound(first_step(request, tags), outcomes.drop_last());
    }
}

proof fn lemma_play_is_sound(step: StepView, outcomes: Seq<Outcome>)
    requires
        sound(step),
    ensures
        sound(play(step, outcomes)),
    decreases outcomes.len(),
{
    if outcomes.len() > 0 {
        lemma_play_is_sound(step, outcomes.drop_last());
    }
}

/// The outcomes of a spawn whose next dependencies all resolve.
pub open spec fn resolutions(paths: Seq<TaskPath>, ids: Seq<TaskId>) -> Seq<Outcome>
    decreases ids.len(),
{
    if ids.len() == 0 {
        Seq::empty()
    } else {
        resolutions(paths.drop_last(), ids.drop_last()).push(Outcome::Path(Ok(paths.last()))).push(
            Outcome::Answer(Ok(KernelQueryResponse::ResolvedPath(Some(ids.last())))),
        )
    }
}

/// The tasks of the dependencies are gathered in the order of the dependencies.
pub proof fn law_deps_keep_their_order(
    pending: PendingView,
    paths: Seq<TaskPath>,
    ids: Seq<TaskId>,
)
    requires
        paths.len() == ids.len(),
        pending.dep_ids.len() + ids.len() <= pending.order.deps.len(),
    ensures
        play(advance_of(pending), resolutions(paths, ids)) == advance_of(
            PendingView {
                order: pending.order,
                path: pending.path,
                dep_ids: pending.dep_ids + ids,
            },
        ),
    decreases ids.len(),
{
    let start = advance_of(pending);
    if ids.len() == 0 {
        assert(pending.dep_ids + ids =~= pending.dep_ids);
    } else {
        let before = resolutions(paths.drop_last(), ids.drop_last());
        let asked = before.push(Outcome::Path(Ok(paths.last())));
        let all = resolutions(paths, ids);
        law_deps_keep_their_order(pending, paths.drop_last(), ids.drop_last());
        assert(asked.drop_last() =~= before);
        assert(all.drop_last() =~= asked);
        let gathered = PendingView {
            order: pending.order,
            path: pending.path,
            dep_ids: pending.dep_ids + ids.drop_last(),
        };
        assert(play(start, before) == advance_of(gathered));
        assert(play(start, asked) == next_step(advance_of(gathered), asked.last()));
        assert(play(start, all) == next_step(play(start, asked), all.last()));
        assert((pending.dep_ids + ids.drop_last()).push(ids.last()) =~= pending.dep_ids + ids);
    }
}

/// A dependency without a task refuses the spawn, and so does a path that is
/// none: no task is registered.
pub proof fn law_bad_deps_refuse_the_spawn(pending: PendingView, message: String)
    ensures
        after_answer(
            OnAnswerView::Dep(pending),
            Ok(KernelQueryResponse::ResolvedPath(None)),
        ) == refused(
            ErrorCode::BadPath,
            "no task at dep '"@ + pending.order.deps[pending.dep_ids.len() as int] + "'"@,
        ),
        after_path(OnPathView::Dep(pending), Err(message)) == refused(
            ErrorCode::BadPath,
            message@,
        ),
{
}

/// A spawn succeeds exactly when its registration is accepted, and is told that
/// the path is taken exactly when it is refused.
pub proof fn law_registration_decides(path: Seq<char>, outcome: Registration)
    ensures
        after_registration(path, outcome) is Reply,
        after_registration(path, outcome)->Reply_0 is Ok <==> outcome is Accepted,
        after_registration(path, outcome) == refused(
            ErrorCode::PathTaken,
            "a task already exists at '"@ + path + "'"@,
        ) <==> outcome is Refused,
{
}

/// What a kernel answers that gives each path to one task only, when the paths
/// in `taken` have theirs.
pub open spec fn registration(taken: Set<Seq<char>>, path: Seq<char>) -> Registration {
    if taken.contains(path) {
        Registration::Refused
    } else {
        Registration::Accepted
    }
}

/// The paths that have a task after a registration.
pub open spec fn registered(taken: Set<Seq<char>>, path: Seq<char>) -> Set<Seq<char>> {
    taken.insert(path)
}

/// Whether `part` stands somewhere in `text`.
pub open spec fn holds_text(text: Seq<char>, part: Seq<char>) -> bool {
    exists|at: int|
        #![trigger text.subrange(at, at + part.len())]
        0 <= at && at + part.len() <= text.len() && text.subrange(at, at + part.len()) == part
}

/// Two clients race for a path that no task has. Whatever happened to each on
/// the way to its registration, exactly one of them succeeds: the one whose
/// registration the kernel takes first. The other is told that a task already
/// exists. The kernel is one that gives each path to one task only and takes one
/// registration after another.
pub proof fn law_two_spawns_have_one_winner(
    first: RpcRequest,
    second: RpcRequest,
    tags: SystemTags,
    first_run: Seq<Outcome>,
    second_run: Seq<Outcome>,
    taken: Set<Seq<char>>,
    path: Seq<char>,
)
    requires
        play(first_step(first, tags), first_run) is Spawn,
        play(first_step(first, tags), first_run)->Spawn_plan.path == path,
        play(first_step(second, tags), second_run) is Spawn,
        play(first_step(second, tags), second_run)->Spawn_plan.path == path,
        !taken.contains(path),
    ensures
        ({
            let winner = play(
                first_step(first, tags),
                first_run.push(Outcome::Registered(registration(taken, path))),
            );
            let loser = play(
                first_step(second, tags),
                second_run.push(
                    Outcome::Registered(registration(registered(taken, path), path)),
                ),
            );
            let asked = play(first_step(first, tags), first_run)->Spawn_waiting;
            &&& winner == StepView::Reply(Ok(spawn_json(asked)))
            &&& loser is Reply
            &&& loser->Reply_0 is Err
            &&& loser->Reply_0->Err_0.code == ErrorCode::PathTaken
            &&& holds_text(loser->Reply_0->Err_0.message, "already exists"@)
        }),
{
    let won = first_run.push(Outcome::Registered(registration(taken, path)));
    let lost = second_run.push(Outcome::Registered(registration(registered(taken, path), path)));
    assert(won.drop_last() =~= first_run);
    assert(lost.drop_last() =~= second_run);
    let loser = play(first_step(second, tags), lost);
    let asked = play(first_step(second, tags), second_run)->Spawn_waiting;
    let message = "a task already exists at '"@ + asked + "'"@;
    assert(loser == refused(ErrorCode::PathTaken, message));
    reveal_strlit("a task already exists at '");
    reveal_strlit("already exists");
    let at: int = 7;
    assert(message.subrange(at, at + "already exists"@.len()) =~= "already exists"@);
}

} // verus!
