//! What the command line tells its user about the server's results.
//!
//! A report is the whole text to be printed, with the newlines that end its
//! lines.

use crate::codec::{
    maybe_field, maybe_number_field, read_view, texts_json, texts_value, Read,
};
use crate::json::{
    bool_value, fields, json, json_text, object_value, signed_value, text_value, unsigned,
    unsigned_value, write_text, Json,
};
use crate::protocol::laws::{
    law_act_round_trip, law_screen_round_trip, law_spawn_round_trip, law_task_list_round_trip,
    law_why_round_trip,
};
use crate::protocol::results::{
    act_json, act_read, screen_json, screen_read, spawn_json, spawned_read, task_list_json,
    task_list_read, why_json, why_read, ActResult, RpcState, RpcTaskInfo, RpcWhy, RpcWhyDep,
    ScreenResult, SpawnResult, StateView, TaskInfoView, TaskListResult, WhyDepView, WhyView,
};
use crate::text::{
    bool_text, decimal, join, join_texts, signed_decimal, write_bool, write_decimal, write_signed,
};
use serde_json::Value;
use vstd::prelude::*;
use vstd::string::*;

verus! {

/// A line and its end.
pub open spec fn line(text: Seq<char>) -> Seq<char> {
    text + "\n"@
}

// ---------------------------------------------------------------------------
// For people.
// ---------------------------------------------------------------------------

/// A wire state for people: the token, and the exit code or else the signal if
/// there is one.
pub open spec fn human_text(state: StateView) -> Seq<char> {
    match (state.exit_code, state.signal) {
        (Some(code), _) => state.state + " (code "@ + signed_decimal(code as int) + ")"@,
        (None, Some(signal)) => state.state + " (signal "@ + signed_decimal(signal as int) + ")"@,
        (None, None) => state.state,
    }
}

/// Renders a wire state (token and optional exit detail) for people.
pub fn human_state(s: &RpcState) -> (text: String)
    ensures
        text@ == human_text(s.deep_view()),
{
    let mut text = s.state.clone();
    match (s.exit_code, s.signal) {
        (Some(code), _) => {
            text.append(" (code ");
            text.append(write_signed(code).as_str());
            text.append(")");
        },
        (None, Some(signal)) => {
            text.append(" (signal ");
            text.append(write_signed(signal).as_str());
            text.append(")");
        },
        (None, None) => {},
    }
    text
}

/// How many tasks a verb acted on.
pub open spec fn acted_text(matched: usize, verb: Seq<char>, zero: Seq<char>) -> Seq<char> {
    if matched == 0 {
        line(zero)
    } else if matched == 1 {
        line(verb + " 1 task."@)
    } else {
        line(verb + " "@ + decimal(matched as nat) + " tasks."@)
    }
}

fn acted_line(matched: usize, verb: &str, zero: &str) -> (text: String)
    ensures
        text@ == acted_text(matched, verb@, zero@),
{
    let mut text = String::new();
    if matched == 0 {
        text.append(zero);
        assert(text@ =~= zero@);
    } else {
        text.append(verb);
        assert(text@ =~= verb@);
        if matched == 1 {
            text.append(" 1 task.");
        } else {
            text.append(" ");
            text.append(write_decimal(matched as u64).as_str());
            text.append(" tasks.");
        }
    }
    text.append("\n");
    text
}

/// One line for each task, with a tab between its path and its state.
pub open spec fn task_lines(tasks: Seq<TaskInfoView>) -> Seq<char>
    decreases tasks.len(),
{
    if tasks.len() == 0 {
        Seq::empty()
    } else {
        task_lines(tasks.drop_last()) + line(
            tasks.last().path + "\t"@ + human_text(tasks.last().state),
        )
    }
}

pub open spec fn task_list_text(tasks: Seq<TaskInfoView>) -> Seq<char> {
    if tasks.len() == 0 {
        line("No tasks."@)
    } else {
        task_lines(tasks)
    }
}

fn task_list_lines(tasks: &Vec<RpcTaskInfo>) -> (text: String)
    ensures
        text@ == task_list_text(tasks.deep_view()),
{
    if tasks.len() == 0 {
        let mut text = "No tasks.".to_owned();
        text.append("\n");
        return text;
    }
    let mut text = String::new();
    let ghost views = tasks.deep_view();
    assert(views.take(0) =~= Seq::<TaskInfoView>::empty());
    for i in 0..tasks.len()
        invariant
            views == tasks.deep_view(),
            text@ == task_lines(views.take(i as int)),
    {
        text.append(tasks[i].path.as_str());
        text.append("\t");
        text.append(human_state(&tasks[i].state).as_str());
        text.append("\n");
        proof {
            let done = views.take(i + 1);
            assert(done.drop_last() =~= views.take(i as int));
            assert(text@ =~= task_lines(done));
        }
    }
    assert(views.take(tasks@.len() as int) =~= views);
    text
}

/// What keeps a dependency from doing its part.
pub open spec fn dep_notes(dep: WhyDepView) -> Seq<Seq<char>> {
    let unwanted = if dep.wanted {
        Seq::empty()
    } else {
        seq!["not wanted"@]
    };
    let unsatisfied = if dep.satisfied {
        Seq::empty()
    } else {
        seq!["not satisfied"@]
    };
    unwanted + unsatisfied
}

pub open spec fn notes_text(notes: Seq<Seq<char>>) -> Seq<char> {
    if notes.len() == 0 {
        Seq::empty()
    } else {
        " ("@ + join(notes, ", "@) + ")"@
    }
}

pub open spec fn dep_text(dep: WhyDepView) -> Seq<char> {
    line("    "@ + dep.path + "\t"@ + human_text(dep.state) + notes_text(dep_notes(dep)))
}

pub open spec fn dep_lines(deps: Seq<WhyDepView>) -> Seq<char>
    decreases deps.len(),
{
    if deps.len() == 0 {
        Seq::empty()
    } else {
        dep_lines(deps.drop_last()) + dep_text(deps.last())
    }
}

/// The text if the condition holds, else nothing.
pub open spec fn only_if(condition: bool, text: Seq<char>) -> Seq<char> {
    if condition {
        text
    } else {
        Seq::empty()
    }
}

/// Why a task is (not) running. A line that would say nothing is left out.
pub open spec fn why_text(why: WhyView) -> Seq<char> {
    line(why.path + ": "@ + human_text(why.state))
        + line("  wanted: "@ + bool_text(why.wanted))
        + only_if(why.wanted && !why.supported, line("  blocked: a dependency is not ready"@))
        + only_if(why.vetoed, line("  vetoed: yes (start it to clear)"@))
        + line("  pinned: "@ + bool_text(why.pinned))
        + only_if(
            why.required_by.len() > 0,
            line("  required by: "@ + join(why.required_by, ", "@)),
        )
        + only_if(
            why.attempts > 0,
            line("  restart attempts: "@ + decimal(why.attempts as nat)),
        )
        + only_if(why.deps.len() > 0, line("  deps:"@) + dep_lines(why.deps))
}

/// Appends a line.
fn add_line(text: &mut String, before: &str, behind: &str)
    ensures
        final(text)@ == old(text)@ + line(before@ + behind@),
{
    text.append(before);
    text.append(behind);
    text.append("\n");
    assert(text@ =~= old(text)@ + line(before@ + behind@));
}

fn dep_line(dep: &RpcWhyDep) -> (text: String)
    ensures
        text@ == dep_text(dep.deep_view()),
{
    let mut notes: Vec<String> = Vec::new();
    if !dep.wanted {
        notes.push("not wanted".to_owned());
    }
    if !dep.satisfied {
        notes.push("not satisfied".to_owned());
    }
    assert(notes.deep_view() =~= dep_notes(dep.deep_view()));
    let mut text = "    ".to_owned();
    text.append(dep.path.as_str());
    text.append("\t");
    text.append(human_state(&dep.state).as_str());
    let ghost head = text@;
    if notes.len() > 0 {
        text.append(" (");
        text.append(join_texts(&notes, ", ").as_str());
        text.append(")");
    }
    assert(text@ =~= head + notes_text(dep_notes(dep.deep_view())));
    text.append("\n");
    text
}

/// Appends a line if the condition holds.
fn add_line_if(text: &mut String, condition: bool, before: &str, behind: &str)
    ensures
        final(text)@ == old(text)@ + only_if(condition, line(before@ + behind@)),
{
    if condition {
        add_line(text, before, behind);
    }
    assert(text@ =~= old(text)@ + only_if(condition, line(before@ + behind@)));
}

/// Appends a line without parts if the condition holds.
fn add_note_if(text: &mut String, condition: bool, note: &str)
    ensures
        final(text)@ == old(text)@ + only_if(condition, line(note@)),
{
    if condition {
        text.append(note);
        text.append("\n");
    }
    assert(text@ =~= old(text)@ + only_if(condition, line(note@)));
}

fn dep_section(deps: &Vec<RpcWhyDep>) -> (text: String)
    ensures
        text@ == only_if(deps@.len() > 0, line("  deps:"@) + dep_lines(deps.deep_view())),
{
    let ghost views = deps.deep_view();
    let mut text = String::new();
    if deps.len() > 0 {
        text.append("  deps:");
        text.append("\n");
        let ghost head = line("  deps:"@);
        assert(text@ =~= head + dep_lines(views.take(0)));
        for i in 0..deps.len()
            invariant
                views == deps.deep_view(),
                text@ == head + dep_lines(views.take(i as int)),
        {
            text.append(dep_line(&deps[i]).as_str());
            proof {
                let done = views.take(i + 1);
                assert(done.drop_last() =~= views.take(i as int));
                assert(text@ =~= head + dep_lines(done));
            }
        }
        assert(views.take(deps@.len() as int) =~= views);
    }
    assert(text@ =~= only_if(deps@.len() > 0, line("  deps:"@) + dep_lines(views)));
    text
}

fn why_lines(why: &RpcWhy) -> (text: String)
    ensures
        text@ == why_text(why.deep_view()),
{
    let mut text = why.path.clone();
    text.append(": ");
    text.append(human_state(&why.state).as_str());
    text.append("\n");
    add_line(&mut text, "  wanted: ", write_bool(why.wanted));
    add_note_if(
        &mut text,
        why.wanted && !why.supported,
        "  blocked: a dependency is not ready",
    );
    add_note_if(&mut text, why.vetoed, "  vetoed: yes (start it to clear)");
    add_line(&mut text, "  pinned: ", write_bool(why.pinned));
    add_line_if(
        &mut text,
        why.required_by.len() > 0,
        "  required by: ",
        join_texts(&why.required_by, ", ").as_str(),
    );
    add_line_if(
        &mut text,
        why.attempts > 0,
        "  restart attempts: ",
        write_decimal(why.attempts as u64).as_str(),
    );
    text.append(dep_section(&why.deps).as_str());
    text
}

// ---------------------------------------------------------------------------
// For programs. An object's fields stand in the order of the type's own.
// ---------------------------------------------------------------------------

pub open spec fn field_text(key: Seq<char>, value: Seq<char>) -> Seq<char> {
    json_text(Json::Text(key)) + ":"@ + value
}

pub open spec fn object_text(members: Seq<Seq<char>>) -> Seq<char> {
    "{"@ + join(members, ","@) + "}"@
}

pub open spec fn list_text(items: Seq<Seq<char>>) -> Seq<char> {
    "["@ + join(items, ","@) + "]"@
}

/// The field if it has a value, else nothing.
pub open spec fn maybe_member(key: Seq<char>, value: Option<Json>) -> Seq<Seq<char>> {
    match value {
        Some(value) => seq![field_text(key, json_text(value))],
        None => Seq::empty(),
    }
}

pub open spec fn text_member(key: Seq<char>, text: Seq<char>) -> Seq<char> {
    field_text(key, json_text(Json::Text(text)))
}

pub open spec fn bool_member(key: Seq<char>, flag: bool) -> Seq<char> {
    field_text(key, json_text(Json::Bool(flag)))
}

pub open spec fn state_members(state: StateView) -> Seq<Seq<char>> {
    seq![text_member("state"@, state.state)] + maybe_member(
        "exit_code"@,
        maybe_number_field(state.exit_code),
    ) + maybe_member("signal"@, maybe_number_field(state.signal))
}

pub open spec fn task_info_members(info: TaskInfoView) -> Seq<Seq<char>> {
    seq![text_member("path"@, info.path)] + maybe_member("label"@, maybe_field(info.label))
        + state_members(info.state)
}

pub open spec fn task_info_json_text(info: TaskInfoView) -> Seq<char> {
    object_text(task_info_members(info))
}

pub open spec fn task_list_json_text(tasks: Seq<TaskInfoView>) -> Seq<char> {
    object_text(
        seq![
            field_text(
                "tasks"@,
                list_text(Seq::new(tasks.len(), |i: int| task_info_json_text(tasks[i]))),
            ),
        ],
    )
}

pub open spec fn why_dep_members(dep: WhyDepView) -> Seq<Seq<char>> {
    seq![text_member("path"@, dep.path)] + state_members(dep.state) + seq![
        bool_member("wanted"@, dep.wanted),
        bool_member("satisfied"@, dep.satisfied),
    ]
}

pub open spec fn why_dep_json_text(dep: WhyDepView) -> Seq<char> {
    object_text(why_dep_members(dep))
}

/// The members of an explanation behind its path and state.
pub open spec fn why_detail_members(why: WhyView) -> Seq<Seq<char>> {
    seq![
        bool_member("wanted"@, why.wanted),
        bool_member("supported"@, why.supported),
        bool_member("vetoed"@, why.vetoed),
        bool_member("pinned"@, why.pinned),
        field_text("required_by"@, json_text(texts_json(why.required_by))),
        field_text(
            "deps"@,
            list_text(Seq::new(why.deps.len(), |i: int| why_dep_json_text(why.deps[i]))),
        ),
        field_text("attempts"@, json_text(unsigned(why.attempts as u64))),
    ]
}

pub open spec fn why_members(why: WhyView) -> Seq<Seq<char>> {
    seq![text_member("path"@, why.path)] + state_members(why.state) + why_detail_members(why)
}

pub open spec fn why_json_text(why: WhyView) -> Seq<char> {
    object_text(why_members(why))
}

/// A value's compact text.
pub(crate) fn compact(value: &Value) -> (text: String)
    ensures
        text@ == json_text(json(*value)),
{
    match write_text(value) {
        Ok(text) => text,
        Err(text) => text,
    }
}

/// A report: the compact text of a value for programs, or a line for people.
pub open spec fn report_text(as_json: bool, value: Json, text: Seq<char>) -> Seq<char> {
    if as_json {
        line(json_text(value))
    } else {
        line(text)
    }
}

/// Ends a report for programs or for people.
pub(crate) fn report(
    as_json: bool,
    object: serde_json::Map<String, Value>,
    text: String,
) -> (report: String)
    ensures
        report@ == report_text(as_json, Json::Object(fields(object)), text@),
{
    let mut report = if as_json {
        compact(&object_value(object))
    } else {
        text
    };
    report.append("\n");
    report
}

fn add_field(members: &mut Vec<String>, key: &str, value: &str)
    ensures
        final(members).deep_view() == old(members).deep_view().push(field_text(key@, value@)),
{
    let mut text = compact(&text_value(key.to_owned()));
    text.append(":");
    text.append(value);
    members.push(text);
    assert(members.deep_view() =~= old(members).deep_view().push(field_text(key@, value@)));
}

fn add_value(members: &mut Vec<String>, key: &str, value: &Value)
    ensures
        final(members).deep_view() == old(members).deep_view().push(
            field_text(key@, json_text(json(*value))),
        ),
{
    add_field(members, key, compact(value).as_str());
}

fn add_maybe_number(members: &mut Vec<String>, key: &str, number: Option<i32>)
    ensures
        final(members).deep_view() == old(members).deep_view() + maybe_member(
            key@,
            maybe_number_field(number),
        ),
{
    if let Some(number) = number {
        add_value(members, key, &signed_value(number));
    }
    assert(members.deep_view() =~= old(members).deep_view() + maybe_member(
        key@,
        maybe_number_field(number),
    ));
}

fn add_state(members: &mut Vec<String>, state: &RpcState)
    ensures
        final(members).deep_view() == old(members).deep_view() + state_members(state.deep_view()),
{
    add_value(members, "state", &text_value(state.state.clone()));
    add_maybe_number(members, "exit_code", state.exit_code);
    add_maybe_number(members, "signal", state.signal);
    assert(members.deep_view() =~= old(members).deep_view() + state_members(state.deep_view()));
}

fn framed(open: &str, items: &Vec<String>, close: &str) -> (text: String)
    ensures
        text@ == open@ + join(items.deep_view(), ","@) + close@,
{
    let mut text = open.to_owned();
    text.append(join_texts(items, ",").as_str());
    text.append(close);
    text
}

fn task_info_object(info: &RpcTaskInfo) -> (text: String)
    ensures
        text@ == task_info_json_text(info.deep_view()),
{
    let ghost view = info.deep_view();
    let mut members: Vec<String> = Vec::new();
    add_value(&mut members, "path", &text_value(info.path.clone()));
    if let Some(label) = &info.label {
        add_value(&mut members, "label", &text_value(label.clone()));
    }
    assert(members.deep_view() =~= seq![text_member("path"@, view.path)] + maybe_member(
        "label"@,
        maybe_field(view.label),
    ));
    add_state(&mut members, &info.state);
    framed("{", &members, "}")
}

fn task_list_object(tasks: &Vec<RpcTaskInfo>) -> (text: String)
    ensures
        text@ == task_list_json_text(tasks.deep_view()),
{
    let mut items: Vec<String> = Vec::new();
    for i in 0..tasks.len()
        invariant
            items@.len() == i,
            forall|j: int|
                0 <= j < i ==> (#[trigger] items@[j])@ == task_info_json_text(
                    tasks@[j].deep_view(),
                ),
    {
        items.push(task_info_object(&tasks[i]));
    }
    let ghost views = tasks.deep_view();
    assert(items.deep_view() =~= Seq::new(views.len(), |i: int| task_info_json_text(views[i])));
    let mut members: Vec<String> = Vec::new();
    add_field(&mut members, "tasks", framed("[", &items, "]").as_str());
    assert(members.deep_view() =~= seq![
        field_text(
            "tasks"@,
            list_text(Seq::new(views.len(), |i: int| task_info_json_text(views[i]))),
        ),
    ]);
    framed("{", &members, "}")
}

fn why_dep_object(dep: &RpcWhyDep) -> (text: String)
    ensures
        text@ == why_dep_json_text(dep.deep_view()),
{
    let ghost view = dep.deep_view();
    let mut members: Vec<String> = Vec::new();
    add_value(&mut members, "path", &text_value(dep.path.clone()));
    add_state(&mut members, &dep.state);
    add_value(&mut members, "wanted", &bool_value(dep.wanted));
    add_value(&mut members, "satisfied", &bool_value(dep.satisfied));
    assert(members.deep_view() =~= seq![text_member("path"@, view.path)] + state_members(view.state)
        + seq![
        bool_member("wanted"@, view.wanted),
        bool_member("satisfied"@, view.satisfied),
    ]);
    framed("{", &members, "}")
}

fn why_dep_list(deps: &Vec<RpcWhyDep>) -> (text: String)
    ensures
        text@ == list_text(
            Seq::new(deps.deep_view().len(), |i: int| why_dep_json_text(deps.deep_view()[i])),
        ),
{
    let ghost views = deps.deep_view();
    let mut items: Vec<String> = Vec::new();
    for i in 0..deps.len()
        invariant
            items@.len() == i,
            forall|j: int|
                0 <= j < i ==> (#[trigger] items@[j])@ == why_dep_json_text(deps@[j].deep_view()),
    {
        items.push(why_dep_object(&deps[i]));
    }
    assert(items.deep_view() =~= Seq::new(views.len(), |i: int| why_dep_json_text(views[i])));
    framed("[", &items, "]")
}

/// The members of an explanation behind its path and state.
fn why_details(why: &RpcWhy) -> (members: Vec<String>)
    ensures
        members.deep_view() == why_detail_members(why.deep_view()),
{
    let mut members: Vec<String> = Vec::new();
    add_value(&mut members, "wanted", &bool_value(why.wanted));
    add_value(&mut members, "supported", &bool_value(why.supported));
    add_value(&mut members, "vetoed", &bool_value(why.vetoed));
    add_value(&mut members, "pinned", &bool_value(why.pinned));
    add_value(&mut members, "required_by", &texts_value(&why.required_by));
    add_field(&mut members, "deps", why_dep_list(&why.deps).as_str());
    add_value(&mut members, "attempts", &unsigned_value(why.attempts as u64));
    assert(members.deep_view() =~= why_detail_members(why.deep_view()));
    members
}

fn why_object(why: &RpcWhy) -> (text: String)
    ensures
        text@ == why_json_text(why.deep_view()),
{
    let ghost view = why.deep_view();
    let mut members: Vec<String> = Vec::new();
    add_value(&mut members, "path", &text_value(why.path.clone()));
    add_state(&mut members, &why.state);
    let ghost head = members.deep_view();
    assert(head =~= seq![text_member("path"@, view.path)] + state_members(view.state));
    let mut details = why_details(why);
    members.append(&mut details);
    assert(members.deep_view() =~= head + why_detail_members(view));
    framed("{", &members, "}")
}

// ---------------------------------------------------------------------------
// The reports.
// ---------------------------------------------------------------------------

/// A result passed on as it came.
pub open spec fn raw_report(value: Json) -> Read<Seq<char>> {
    Ok(line(json_text(value)))
}

pub open spec fn acted_report(
    value: Json,
    as_json: bool,
    verb: Seq<char>,
    zero: Seq<char>,
) -> Read<Seq<char>> {
    if as_json {
        raw_report(value)
    } else {
        match act_read(value) {
            Ok(matched) => Ok(acted_text(matched, verb, zero)),
            Err(message) => Err(message),
        }
    }
}

pub open spec fn spawned_report(value: Json, as_json: bool) -> Read<Seq<char>> {
    if as_json {
        raw_report(value)
    } else {
        match spawned_read(value) {
            Ok(path) => Ok(line("Spawned "@ + path + "."@)),
            Err(message) => Err(message),
        }
    }
}

pub open spec fn task_list_report(value: Json, as_json: bool) -> Read<Seq<char>> {
    match task_list_read(value) {
        Ok(tasks) => if as_json {
            Ok(line(task_list_json_text(tasks)))
        } else {
            Ok(task_list_text(tasks))
        },
        Err(message) => Err(message),
    }
}

pub open spec fn why_report(value: Json, as_json: bool) -> Read<Seq<char>> {
    match why_read(value) {
        Ok(why) => if as_json {
            Ok(line(why_json_text(why)))
        } else {
            Ok(why_text(why))
        },
        Err(message) => Err(message),
    }
}

/// A screen ends with what resets the terminal's attributes.
pub open spec fn screen_report(value: Json, as_json: bool) -> Read<Seq<char>> {
    match screen_read(value) {
        Ok(screen) => if as_json {
            Ok(line(json_text(screen_json(screen))))
        } else {
            match screen {
                Some(content) => Ok(content + "\x1b[0m\n"@),
                None => Err("no screen content for this"@ + " task"@),
            }
        },
        Err(message) => Err(message),
    }
}

fn ended(text: String) -> (report: String)
    ensures
        report@ == line(text@),
{
    let mut report = text;
    report.append("\n");
    report
}

/// Reports the result of a selector verb.
pub fn report_acted(result: Value, as_json: bool, verb: &str, zero: &str) -> (report: Result<
    String,
    String,
>)
    ensures
        read_view(report) == acted_report(json(result), as_json, verb@, zero@),
{
    if as_json {
        return Ok(ended(compact(&result)));
    }
    let acted = ActResult::from_value(result)?;
    Ok(acted_line(acted.matched, verb, zero))
}

/// Reports the result of a spawn.
pub fn report_spawned(result: Value, as_json: bool) -> (report: Result<String, String>)
    ensures
        read_view(report) == spawned_report(json(result), as_json),
{
    if as_json {
        return Ok(ended(compact(&result)));
    }
    let spawned = SpawnResult::from_value(result)?;
    let mut text = "Spawned ".to_owned();
    text.append(spawned.path.as_str());
    text.append(".");
    Ok(ended(text))
}

/// Reports a list of tasks.
pub fn report_task_list(result: Value, as_json: bool) -> (report: Result<String, String>)
    ensures
        read_view(report) == task_list_report(json(result), as_json),
{
    let list = TaskListResult::from_value(result)?;
    if as_json {
        Ok(ended(task_list_object(&list.tasks)))
    } else {
        Ok(task_list_lines(&list.tasks))
    }
}

/// Reports why a task is (not) running.
pub fn report_why(result: Value, as_json: bool) -> (report: Result<String, String>)
    ensures
        read_view(report) == why_report(json(result), as_json),
{
    let why = RpcWhy::from_value(result)?;
    if as_json {
        Ok(ended(why_object(&why)))
    } else {
        Ok(why_lines(&why))
    }
}

/// Reports a screen.
pub fn report_screen(result: Value, as_json: bool) -> (report: Result<String, String>)
    ensures
        read_view(report) == screen_report(json(result), as_json),
{
    let screen = ScreenResult::from_value(result)?;
    if as_json {
        return Ok(ended(compact(&screen.to_value())));
    }
    match screen.screen {
        Some(content) => {
            let mut text = content;
            text.append("\x1b[0m\n");
            Ok(text)
        },
        None => {
            let mut message = "no screen content for this".to_owned();
            message.append(" task");
            Err(message)
        },
    }
}

// ---------------------------------------------------------------------------
// Laws.
// ---------------------------------------------------------------------------

/// Whatever the server answers to a verb can be reported to people.
pub proof fn law_counts_can_be_reported(matched: usize, verb: Seq<char>, zero: Seq<char>)
    ensures
        acted_report(act_json(matched), false, verb, zero) == Read::<Seq<char>>::Ok(
            acted_text(matched, verb, zero),
        ),
{
    law_act_round_trip(matched);
}

/// Whatever the server answers to a spawn can be reported to people.
pub proof fn law_spawns_can_be_reported(path: Seq<char>)
    ensures
        spawned_report(spawn_json(path), false) == Read::<Seq<char>>::Ok(
            line("Spawned "@ + path + "."@),
        ),
{
    law_spawn_round_trip(path);
}

/// Whatever task list the server answers with can be reported, to people and to
/// programs.
pub proof fn law_task_lists_can_be_reported(tasks: Seq<TaskInfoView>)
    ensures
        task_list_report(task_list_json(tasks), false) == Read::<Seq<char>>::Ok(
            task_list_text(tasks),
        ),
        task_list_report(task_list_json(tasks), true) == Read::<Seq<char>>::Ok(
            line(task_list_json_text(tasks)),
        ),
{
    law_task_list_round_trip(tasks);
}

/// Whatever explanation the server answers with can be reported, to people and
/// to programs.
pub proof fn law_explanations_can_be_reported(why: WhyView)
    ensures
        why_report(why_json(why), false) == Read::<Seq<char>>::Ok(why_text(why)),
        why_report(why_json(why), true) == Read::<Seq<char>>::Ok(line(why_json_text(why))),
{
    law_why_round_trip(why);
}

/// Whatever screen the server answers with can be reported, to people and to
/// programs.
pub proof fn law_screens_can_be_reported(content: Seq<char>)
    ensures
        screen_report(screen_json(Some(content)), false) == Read::<Seq<char>>::Ok(
            content + "\x1b[0m\n"@,
        ),
        screen_report(screen_json(Some(content)), true) == Read::<Seq<char>>::Ok(
            line(json_text(screen_json(Some(content)))),
        ),
{
    law_screen_round_trip(Some(content));
}

} // verus!
