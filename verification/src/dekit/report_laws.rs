//! Laws of the reports: what a reader of each report learns, and from where in
//! the text.

use crate::codec::{texts_json, Read};
use crate::dekit::cli::{reported, Report, Verb};
use crate::dekit::report::{
    acted_report, acted_text, dep_lines, dep_notes, dep_text, human_text, line, object_text,
    only_if, report_text, screen_report, spawned_report, task_info_json_text, task_info_members,
    task_lines, task_list_json_text, task_list_report, task_list_text, why_dep_json_text,
    why_dep_members, why_json_text, why_members, why_report, why_text,
};
use crate::json::{json_text, signed, unsigned, Json};
use crate::protocol::results::{
    act_read, screen_json, screen_read, spawned_read, task_list_read, why_read, StateView,
    TaskInfoView, WhyDepView, WhyView,
};
use crate::text::{
    bool_text, decimal, join, law_joining_one_more, law_numbers_are_spelled, signed_decimal,
    spells,
};
use vstd::prelude::*;

verus! {

// ---------------------------------------------------------------------------
// States and counts.
// ---------------------------------------------------------------------------

/// A state without exit detail is its token alone. With an exit code it is the
/// token and the code, and then the signal does not matter; with a signal alone
/// it is the token and the signal.
pub proof fn law_states_read_well(state: StateView, other: Option<i32>)
    ensures
        state.exit_code is None && state.signal is None ==> human_text(state) == state.state,
        state.exit_code matches Some(code) ==> {
            &&& exists|number: Seq<char>| #[trigger]
                spells(number, code as int) && human_text(state) == state.state + " (code "@
                    + number + ")"@
            &&& human_text(StateView { signal: other, ..state }) == human_text(state)
        },
        state.exit_code is None && state.signal is Some ==> exists|number: Seq<char>| #[trigger]
            spells(number, state.signal->0 as int) && human_text(state) == state.state
                + " (signal "@ + number + ")"@,
{
    if let Some(code) = state.exit_code {
        law_numbers_are_spelled(code as int);
        assert(spells(signed_decimal(code as int), code as int));
    }
    if let Some(signal) = state.signal {
        law_numbers_are_spelled(signal as int);
        assert(spells(signed_decimal(signal as int), signal as int));
    }
}

/// No task is reported in the words for none, one task in the singular, and more
/// by their number.
pub proof fn law_counts_read_well(matched: usize, verb: Seq<char>, zero: Seq<char>)
    ensures
        matched == 0 ==> acted_text(matched, verb, zero) == zero + "\n"@,
        matched == 1 ==> acted_text(matched, verb, zero) == verb + " 1 task."@ + "\n"@,
        matched > 1 ==> exists|number: Seq<char>| #[trigger]
            spells(number, matched as int) && acted_text(matched, verb, zero) == verb + " "@
                + number + " tasks."@ + "\n"@,
{
    law_numbers_are_spelled(matched as int);
    assert(spells(decimal(matched as nat), matched as int));
}

/// A short report is a line for people or the compact text of a value for
/// programs.
pub proof fn law_short_reports(value: Json, text: Seq<char>)
    ensures
        report_text(false, value, text) == text + "\n"@,
        report_text(true, value, text) == json_text(value) + "\n"@,
{
}

/// For programs, the result of a verb or a spawn is passed on as it came, even
/// one that could not be read.
pub proof fn law_results_are_passed_on_to_programs(value: Json, verb: Seq<char>, zero: Seq<char>)
    ensures
        acted_report(value, true, verb, zero) == Read::<Seq<char>>::Ok(json_text(value) + "\n"@),
        spawned_report(value, true) == Read::<Seq<char>>::Ok(json_text(value) + "\n"@),
{
}

/// For people, a result that can be read is put in words, and one that cannot is
/// an error in the reader's words.
pub proof fn law_results_are_put_in_words(value: Json, verb: Seq<char>, zero: Seq<char>)
    ensures
        match act_read(value) {
            Ok(matched) => acted_report(value, false, verb, zero) == Read::<Seq<char>>::Ok(
                acted_text(matched, verb, zero),
            ),
            Err(message) => acted_report(value, false, verb, zero) == Read::<Seq<char>>::Err(
                message,
            ),
        },
        match spawned_read(value) {
            Ok(path) => spawned_report(value, false) == Read::<Seq<char>>::Ok(
                "Spawned "@ + path + "."@ + "\n"@,
            ),
            Err(message) => spawned_report(value, false) == Read::<Seq<char>>::Err(message),
        },
        task_list_read(value) matches Err(message) ==> task_list_report(value, false) == Read::<
            Seq<char>,
        >::Err(message) && task_list_report(value, true) == Read::<Seq<char>>::Err(message),
        why_read(value) matches Err(message) ==> why_report(value, false) == Read::<
            Seq<char>,
        >::Err(message) && why_report(value, true) == Read::<Seq<char>>::Err(message),
        screen_read(value) matches Err(message) ==> screen_report(value, false) == Read::<
            Seq<char>,
        >::Err(message) && screen_report(value, true) == Read::<Seq<char>>::Err(message),
        task_list_report(value, false) is Ok <==> task_list_read(value) is Ok,
        task_list_report(value, true) is Ok <==> task_list_read(value) is Ok,
        why_report(value, false) is Ok <==> why_read(value) is Ok,
        why_report(value, true) is Ok <==> why_read(value) is Ok,
        screen_report(value, true) is Ok <==> screen_read(value) is Ok,
        screen_report(value, false) is Ok <==> screen_read(value) is Ok && screen_read(
            value,
        )->Ok_0 is Some,
        screen_read(value) matches Ok(Some(content)) ==> screen_report(value, false) == Read::<
            Seq<char>,
        >::Ok(content + "\x1b[0m\n"@),
{
}

/// Each verb is reported in its own word.
pub proof fn law_verbs_are_reported_in_their_words(value: Json, matched: usize)
    requires
        act_read(value) == Read::<usize>::Ok(matched),
        matched == 1,
    ensures
        reported(Report::Acted(Verb::Started), value, false) == Read::<Seq<char>>::Ok(
            "Started"@ + " 1 task."@ + "\n"@,
        ),
        reported(Report::Acted(Verb::Stopped), value, false) == Read::<Seq<char>>::Ok(
            "Stopped"@ + " 1 task."@ + "\n"@,
        ),
        reported(Report::Acted(Verb::Killed), value, false) == Read::<Seq<char>>::Ok(
            "Killed"@ + " 1 task."@ + "\n"@,
        ),
        reported(Report::Acted(Verb::Vetoed), value, false) == Read::<Seq<char>>::Ok(
            "Vetoed"@ + " 1 task."@ + "\n"@,
        ),
        reported(Report::Acted(Verb::Restarted), value, false) == Read::<Seq<char>>::Ok(
            "Restarted"@ + " 1 task."@ + "\n"@,
        ),
        reported(Report::Acted(Verb::PutDown), value, false) == Read::<Seq<char>>::Ok(
            "Put down"@ + " 1 task."@ + "\n"@,
        ),
{
}

// ---------------------------------------------------------------------------
// Task lists.
// ---------------------------------------------------------------------------

/// The line of a task: its path, a tab and its state.
pub open spec fn line_of_task(task: TaskInfoView) -> Seq<char> {
    task.path + "\t"@ + human_text(task.state) + "\n"@
}

proof fn lemma_task_lines(tasks: Seq<TaskInfoView>)
    ensures
        task_lines(tasks) == Seq::new(tasks.len(), |i: int| line_of_task(tasks[i])).flatten_alt(),
    decreases tasks.len(),
{
    let lines = Seq::new(tasks.len(), |i: int| line_of_task(tasks[i]));
    if tasks.len() > 0 {
        let before = tasks.drop_last();
        lemma_task_lines(before);
        assert(lines.drop_last() =~= Seq::new(before.len(), |i: int| line_of_task(before[i])));
    }
}

/// A task list for people says that there are no tasks exactly when there are
/// none. Otherwise it is one line for each task, in order, with the task's path, a
/// tab and its state.
pub proof fn law_task_lists_read_well(tasks: Seq<TaskInfoView>)
    ensures
        task_list_text(tasks) == "No tasks.\n"@ <==> tasks.len() == 0,
        tasks.len() > 0 ==> task_list_text(tasks) == Seq::new(
            tasks.len(),
            |i: int| line_of_task(tasks[i]),
        ).flatten(),
{
    let lines = Seq::new(tasks.len(), |i: int| line_of_task(tasks[i]));
    lemma_task_lines(tasks);
    lines.lemma_flatten_and_flatten_alt_are_equivalent();
    reveal_strlit("No tasks.\n");
    reveal_strlit("No tasks.");
    reveal_strlit("\n");
    reveal_strlit("\t");
    if tasks.len() == 0 {
        assert(task_list_text(tasks) =~= "No tasks.\n"@);
    } else {
        let text = task_list_text(tasks);
        let at = tasks[0].path.len() as int;
        assert(lines.first() == line_of_task(tasks[0]));
        assert(text == lines.first() + lines.drop_first().flatten());
        assert(text[at] == '\t');
        if text == "No tasks.\n"@ {
            assert("No tasks.\n"@[at] == '\t');
            assert(at < 10);
            assert(false);
        }
    }
}

/// A task list that is reported is the one that was read.
pub proof fn law_lists_report_what_was_read(value: Json, tasks: Seq<TaskInfoView>)
    requires
        task_list_read(value) == Read::<Seq<TaskInfoView>>::Ok(tasks),
    ensures
        task_list_report(value, false) == Read::<Seq<char>>::Ok(task_list_text(tasks)),
        task_list_report(value, true) == Read::<Seq<char>>::Ok(
            task_list_json_text(tasks) + "\n"@,
        ),
{
}

/// An explanation or a screen that is reported is the one that was read.
pub proof fn law_answers_report_what_was_read(
    value: Json,
    why: WhyView,
    screen: Option<Seq<char>>,
)
    ensures
        why_read(value) == Read::<WhyView>::Ok(why) ==> why_report(value, false) == Read::<
            Seq<char>,
        >::Ok(why_text(why)) && why_report(value, true) == Read::<Seq<char>>::Ok(
            why_json_text(why) + "\n"@,
        ),
        screen_read(value) == Read::<Option<Seq<char>>>::Ok(screen) ==> screen_report(value, true)
            == Read::<Seq<char>>::Ok(json_text(screen_json(screen)) + "\n"@),
        screen_read(value) == Read::<Option<Seq<char>>>::Ok(None) ==> screen_report(value, false)
            == Read::<Seq<char>>::Err("no screen content for this"@ + " task"@),
{
}

// ---------------------------------------------------------------------------
// Explanations.
// ---------------------------------------------------------------------------

/// The two lines that every explanation begins with.
pub open spec fn why_head(why: WhyView) -> Seq<char> {
    why.path + ": "@ + human_text(why.state) + "\n"@ + "  wanted: "@ + bool_text(why.wanted)
        + "\n"@
}

/// The text with a line put in at a place.
pub open spec fn with_line(text: Seq<char>, at: int, line: Seq<char>) -> Seq<char> {
    text.take(at) + line + "\n"@ + text.skip(at)
}

/// A task that is wanted without support is said to be blocked, right behind the
/// line that says that it is wanted; in all else the explanation is the same as
/// of a task with support. One that is not wanted is never said to be blocked.
pub proof fn law_blocked_is_said_of_the_unsupported(why: WhyView)
    ensures
        ({
            let wanted = WhyView { wanted: true, ..why };
            let unwanted = WhyView { wanted: false, ..why };
            let supported = WhyView { supported: true, ..wanted };
            let unsupported = WhyView { supported: false, ..wanted };
            &&& why_text(unsupported) == with_line(
                why_text(supported),
                why_head(wanted).len() as int,
                "  blocked: a dependency is not ready"@,
            )
            &&& why_text(WhyView { supported: true, ..unwanted }) == why_text(
                WhyView { supported: false, ..unwanted },
            )
            &&& why_text(supported).take(why_head(wanted).len() as int) == why_head(wanted)
        }),
{
    let wanted = WhyView { wanted: true, ..why };
    let unwanted = WhyView { wanted: false, ..why };
    let supported = WhyView { supported: true, ..wanted };
    let unsupported = WhyView { supported: false, ..wanted };
    lemma_why_parts(supported);
    lemma_why_parts(unsupported);
    lemma_why_parts(WhyView { supported: true, ..unwanted });
    lemma_why_parts(WhyView { supported: false, ..unwanted });
    let blocked = "  blocked: a dependency is not ready"@;
    let tail = veto_part(why) + rest_part(why);
    lemma_nothing(why_head(wanted));
    lemma_put_in(why_head(wanted), blocked, tail);
}

/// The line about being blocked, if it is due.
spec fn blocked_part(why: WhyView) -> Seq<char> {
    only_if(why.wanted && !why.supported, line("  blocked: a dependency is not ready"@))
}

/// The line about a veto, if it is due.
spec fn veto_part(why: WhyView) -> Seq<char> {
    only_if(why.vetoed, line("  vetoed: yes (start it to clear)"@))
}

spec fn pinned_part(why: WhyView) -> Seq<char> {
    line("  pinned: "@ + bool_text(why.pinned))
}

spec fn required_part(why: WhyView) -> Seq<char> {
    only_if(why.required_by.len() > 0, line("  required by: "@ + join(why.required_by, ", "@)))
}

spec fn attempts_part(why: WhyView) -> Seq<char> {
    only_if(why.attempts > 0, line("  restart attempts: "@ + decimal(why.attempts as nat)))
}

spec fn deps_part(why: WhyView) -> Seq<char> {
    only_if(why.deps.len() > 0, line("  deps:"@) + dep_lines(why.deps))
}

/// What comes behind the line about a veto.
spec fn rest_part(why: WhyView) -> Seq<char> {
    pinned_part(why) + required_part(why) + attempts_part(why) + deps_part(why)
}

/// What comes in front of the details.
spec fn front_part(why: WhyView) -> Seq<char> {
    why_head(why) + blocked_part(why) + veto_part(why) + pinned_part(why)
}

proof fn lemma_shift<A>(x: Seq<A>, y: Seq<A>, z: Seq<A>)
    ensures
        x + y + z == x + (y + z),
{
    assert(x + y + z =~= x + (y + z));
}

proof fn lemma_nothing(x: Seq<char>)
    ensures
        x + Seq::<char>::empty() == x,
        Seq::<char>::empty() + x == x,
{
    assert(x + Seq::<char>::empty() =~= x);
    assert(Seq::<char>::empty() + x =~= x);
}

proof fn lemma_put_in(before: Seq<char>, text: Seq<char>, behind: Seq<char>)
    ensures
        with_line(before + behind, before.len() as int, text) == before + line(text) + behind,
        (before + behind).take(before.len() as int) == before,
{
    assert((before + behind).take(before.len() as int) =~= before);
    assert((before + behind).skip(before.len() as int) =~= behind);
    lemma_shift(before, text, "\n"@);
}

/// The text is its front and the details.
proof fn lemma_why_front(why: WhyView)
    ensures
        why_text(why) == front_part(why) + required_part(why) + attempts_part(why) + deps_part(
            why,
        ),
{
    let first = why.path + ": "@ + human_text(why.state);
    let second = "  wanted: "@ + bool_text(why.wanted);
    assert(line(first) + line(second) =~= why_head(why));
}

/// The text is its head, the line about being blocked, the line about a veto and
/// the rest.
proof fn lemma_why_parts(why: WhyView)
    ensures
        why_text(why) == why_head(why) + blocked_part(why) + (veto_part(why) + rest_part(why)),
        why_text(why) == why_head(why) + blocked_part(why) + veto_part(why) + rest_part(why),
{
    lemma_why_front(why);
    let x = why_head(why) + blocked_part(why) + veto_part(why);
    let p = pinned_part(why);
    let r = required_part(why);
    let a = attempts_part(why);
    let d = deps_part(why);
    lemma_shift(x, p, r);
    lemma_shift(x, p + r, a);
    lemma_shift(x, p + r + a, d);
    lemma_shift(why_head(why) + blocked_part(why), veto_part(why), rest_part(why));
}

/// An explanation without anything special is three lines: the state, whether
/// the task is wanted, and whether it is pinned.
pub proof fn law_plain_explanations(why: WhyView)
    requires
        !(why.wanted && !why.supported),
        !why.vetoed,
        why.required_by.len() == 0,
        why.attempts == 0,
        why.deps.len() == 0,
    ensures
        why_text(why) == why_head(why) + "  pinned: "@ + bool_text(why.pinned) + "\n"@,
{
    lemma_why_front(why);
    lemma_nothing(why_head(why));
    lemma_nothing(why_head(why) + pinned_part(why));
    let flag = bool_text(why.pinned);
    lemma_shift(why_head(why), "  pinned: "@ + flag, "\n"@);
    lemma_shift(why_head(why), "  pinned: "@, flag);
}

/// A veto adds one line, in front of the line that says whether the task is
/// pinned, and changes nothing else.
pub proof fn law_vetoes_are_said(why: WhyView)
    ensures
        ({
            let vetoed = WhyView { vetoed: true, ..why };
            let free = WhyView { vetoed: false, ..why };
            let at = why_head(why).len() + if why.wanted && !why.supported {
                ("  blocked: a dependency is not ready"@ + "\n"@).len()
            } else {
                0
            };
            why_text(vetoed) == with_line(
                why_text(free),
                at as int,
                "  vetoed: yes (start it to clear)"@,
            )
        }),
{
    let vetoed = WhyView { vetoed: true, ..why };
    let free = WhyView { vetoed: false, ..why };
    let at = why_head(why).len() + if why.wanted && !why.supported {
        ("  blocked: a dependency is not ready"@ + "\n"@).len()
    } else {
        0
    };
    lemma_why_parts(vetoed);
    lemma_why_parts(free);
    let front = why_head(why) + blocked_part(why);
    lemma_nothing(front);
    lemma_put_in(front, "  vetoed: yes (start it to clear)"@, rest_part(why));
}

/// What needs the task, how often it was restarted and what it depends on each
/// add lines at the end, in this order and only if there is something to say.
pub proof fn law_explanations_end_with_the_details(why: WhyView)
    ensures
        ({
            let bare = WhyView { required_by: Seq::empty(), attempts: 0, deps: Seq::empty(), ..why };
            let needed = WhyView { attempts: 0, deps: Seq::empty(), ..why };
            let tried = WhyView { deps: Seq::empty(), ..why };
            &&& why.required_by.len() == 0 ==> why_text(needed) == why_text(bare)
            &&& why.required_by.len() > 0 ==> why_text(needed) == why_text(bare)
                + "  required by: "@ + join(why.required_by, ", "@) + "\n"@
            &&& why.attempts == 0 ==> why_text(tried) == why_text(needed)
            &&& why.attempts > 0 ==> exists|number: Seq<char>| #[trigger]
                spells(number, why.attempts as int) && why_text(tried) == why_text(needed)
                    + "  restart attempts: "@ + number + "\n"@
            &&& why.deps.len() == 0 ==> why_text(why) == why_text(tried)
            &&& why.deps.len() > 0 ==> why_text(why) == why_text(tried) + "  deps:"@ + "\n"@
                + Seq::new(why.deps.len(), |i: int| dep_text(why.deps[i])).flatten()
        }),
{
    let bare = WhyView { required_by: Seq::empty(), attempts: 0, deps: Seq::empty(), ..why };
    let needed = WhyView { attempts: 0, deps: Seq::empty(), ..why };
    let tried = WhyView { deps: Seq::empty(), ..why };
    let lines = Seq::new(why.deps.len(), |i: int| dep_text(why.deps[i]));
    lemma_dep_lines(why.deps);
    lines.lemma_flatten_and_flatten_alt_are_equivalent();
    law_numbers_are_spelled(why.attempts as int);
    let front = front_part(why);
    let required = required_part(why);
    let attempts = attempts_part(why);
    lemma_why_front(why);
    lemma_why_front(bare);
    lemma_why_front(needed);
    lemma_why_front(tried);
    lemma_nothing(front);
    lemma_nothing(front + required);
    lemma_nothing(front + required + attempts);
    if why.required_by.len() > 0 {
        let names = join(why.required_by, ", "@);
        lemma_shift(front, "  required by: "@ + names, "\n"@);
        lemma_shift(front, "  required by: "@, names);
    }
    if why.attempts > 0 {
        let number = decimal(why.attempts as nat);
        assert(spells(number, why.attempts as int));
        lemma_shift(front + required, "  restart attempts: "@ + number, "\n"@);
        lemma_shift(front + required, "  restart attempts: "@, number);
    }
    if why.deps.len() > 0 {
        let before = front + required + attempts;
        lemma_shift(before, "  deps:"@ + "\n"@, lines.flatten());
        lemma_shift(before, "  deps:"@, "\n"@);
    }
}

proof fn lemma_dep_lines(deps: Seq<WhyDepView>)
    ensures
        dep_lines(deps) == Seq::new(deps.len(), |i: int| dep_text(deps[i])).flatten_alt(),
    decreases deps.len(),
{
    let lines = Seq::new(deps.len(), |i: int| dep_text(deps[i]));
    if deps.len() > 0 {
        let before = deps.drop_last();
        lemma_dep_lines(before);
        assert(lines.drop_last() =~= Seq::new(before.len(), |i: int| dep_text(before[i])));
    }
}

/// The line of a dependency is its path, a tab and its state, and a note exactly
/// of what is amiss with it.
pub proof fn law_deps_read_well(dep: WhyDepView)
    ensures
        ({
            let start = "    "@ + dep.path + "\t"@ + human_text(dep.state);
            &&& dep.wanted && dep.satisfied ==> dep_text(dep) == start + "\n"@
            &&& !dep.wanted && dep.satisfied ==> dep_text(dep) == start + " (not wanted)"@ + "\n"@
            &&& dep.wanted && !dep.satisfied ==> dep_text(dep) == start + " (not satisfied)"@
                + "\n"@
            &&& !dep.wanted && !dep.satisfied ==> dep_text(dep) == start
                + " (not wanted, not satisfied)"@ + "\n"@
        }),
{
    let start = "    "@ + dep.path + "\t"@ + human_text(dep.state);
    reveal_strlit(" (");
    reveal_strlit(")");
    reveal_strlit(", ");
    reveal_strlit("not wanted");
    reveal_strlit("not satisfied");
    reveal_strlit(" (not wanted)");
    reveal_strlit(" (not satisfied)");
    reveal_strlit(" (not wanted, not satisfied)");
    let none = Seq::<Seq<char>>::empty();
    law_joining_one_more(none, "not wanted"@, ", "@);
    law_joining_one_more(none, "not satisfied"@, ", "@);
    law_joining_one_more(none.push("not wanted"@), "not satisfied"@, ", "@);
    if dep.wanted && dep.satisfied {
        assert(dep_notes(dep) =~= none);
        assert(dep_text(dep) =~= start + "\n"@);
    } else if !dep.wanted && dep.satisfied {
        assert(dep_notes(dep) =~= none.push("not wanted"@));
        assert(" ("@ + "not wanted"@ + ")"@ =~= " (not wanted)"@);
    } else if dep.wanted && !dep.satisfied {
        assert(dep_notes(dep) =~= none.push("not satisfied"@));
        assert(" ("@ + "not satisfied"@ + ")"@ =~= " (not satisfied)"@);
    } else {
        assert(dep_notes(dep) =~= none.push("not wanted"@).push("not satisfied"@));
        assert(" ("@ + ("not wanted"@ + ", "@ + "not satisfied"@) + ")"@
            =~= " (not wanted, not satisfied)"@);
    }
}

// ---------------------------------------------------------------------------
// Reports for programs.
// ---------------------------------------------------------------------------

/// A field of an object, as programs are shown it.
pub open spec fn shown(key: Seq<char>, value: Json) -> Seq<char> {
    json_text(Json::Text(key)) + ":"@ + json_text(value)
}

/// Whether the fields of a state stand at a place among the members: its token,
/// and behind it the exit detail that there is. `len` is how many they are.
pub open spec fn shows_state(
    members: Seq<Seq<char>>,
    at: int,
    state: StateView,
    len: int,
) -> bool {
    &&& members[at] == shown("state"@, Json::Text(state.state))
    &&& match (state.exit_code, state.signal) {
        (None, None) => len == 1,
        (Some(code), None) => len == 2 && members[at + 1] == shown("exit_code"@, signed(code)),
        (None, Some(signal)) => len == 2 && members[at + 1] == shown("signal"@, signed(signal)),
        (Some(code), Some(signal)) => len == 3 && members[at + 1] == shown(
            "exit_code"@,
            signed(code),
        ) && members[at + 2] == shown("signal"@, signed(signal)),
    }
}

/// An object is shown as its members between braces, with commas between them.
pub proof fn law_objects_are_framed(members: Seq<Seq<char>>)
    ensures
        object_text(members) == "{"@ + join(members, ","@) + "}"@,
{
}

/// A listed task is shown with its path first, its label behind that if it has
/// one, and its state at the end.
pub proof fn law_listed_tasks_are_shown(info: TaskInfoView)
    ensures
        ({
            let members = task_info_members(info);
            let at: int = if info.label is Some {
                2
            } else {
                1
            };
            &&& task_info_json_text(info) == "{"@ + join(members, ","@) + "}"@
            &&& members[0] == shown("path"@, Json::Text(info.path))
            &&& info.label matches Some(label) ==> members[1] == shown("label"@, Json::Text(label))
            &&& shows_state(members, at, info.state, members.len() - at)
        }),
{
}

/// A dependency is shown with its path first, then its state, and the two flags
/// at the end.
pub proof fn law_explained_deps_are_shown(dep: WhyDepView)
    ensures
        ({
            let members = why_dep_members(dep);
            let len = members.len() as int;
            &&& why_dep_json_text(dep) == "{"@ + join(members, ","@) + "}"@
            &&& members[0] == shown("path"@, Json::Text(dep.path))
            &&& shows_state(members, 1, dep.state, len - 3)
            &&& members[len - 2] == shown("wanted"@, Json::Bool(dep.wanted))
            &&& members[len - 1] == shown("satisfied"@, Json::Bool(dep.satisfied))
        }),
{
}

/// An explanation is shown with its path first, then its state, and then the
/// rest in one fixed order.
pub proof fn law_explanations_are_shown(why: WhyView)
    ensures
        ({
            let members = why_members(why);
            let len = members.len() as int;
            &&& why_json_text(why) == "{"@ + join(members, ","@) + "}"@
            &&& members[0] == shown("path"@, Json::Text(why.path))
            &&& shows_state(members, 1, why.state, len - 8)
            &&& members[len - 7] == shown("wanted"@, Json::Bool(why.wanted))
            &&& members[len - 6] == shown("supported"@, Json::Bool(why.supported))
            &&& members[len - 5] == shown("vetoed"@, Json::Bool(why.vetoed))
            &&& members[len - 4] == shown("pinned"@, Json::Bool(why.pinned))
            &&& members[len - 3] == shown("required_by"@, texts_json(why.required_by))
            &&& members[len - 2] == json_text(Json::Text("deps"@)) + ":"@ + ("["@ + join(
                Seq::new(why.deps.len(), |i: int| why_dep_json_text(why.deps[i])),
                ","@,
            ) + "]"@)
            &&& members[len - 1] == shown("attempts"@, unsigned(why.attempts as u64))
        }),
{
}

/// A task list is shown as one list of its tasks, in order.
pub proof fn law_task_lists_are_shown(tasks: Seq<TaskInfoView>)
    ensures
        task_list_json_text(tasks) == "{"@ + json_text(Json::Text("tasks"@)) + ":"@ + "["@ + join(
            Seq::new(tasks.len(), |i: int| task_info_json_text(tasks[i])),
            ","@,
        ) + "]"@ + "}"@,
{
    let items = Seq::new(tasks.len(), |i: int| task_info_json_text(tasks[i]));
    assert(task_list_json_text(tasks) =~= "{"@ + json_text(Json::Text("tasks"@)) + ":"@ + "["@
        + join(items, ","@) + "]"@ + "}"@);
}

} // verus!
