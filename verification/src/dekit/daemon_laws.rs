//! Laws of starting, stopping and describing the background server.

use crate::dekit::daemon::{
    after_launch, after_start_cleaned, after_start_look, after_start_paused, after_stop_asked,
    after_stop_cleaned, after_stop_forced, after_stop_look, after_stop_paused, already_running,
    already_running_json, clean_json, clean_text, found_of, info_json, list_report, listed_lines,
    listed_text, start_budget, start_next, start_slept, started, started_json, status_report,
    stop_budget, stop_next, stop_slept, stopped_json, DaemonInfo, DaemonView, Event, Found,
    StartLook, StartStepView, StopCleaned, StopLook, StopStepView,
};
use crate::dekit::report::report_text;
use crate::json::{json_text, no_fields, unsigned, Json};
use crate::text::{decimal, law_numbers_are_spelled, spells};
use vstd::prelude::*;

verus! {

// ---------------------------------------------------------------------------
// Descriptions.
// ---------------------------------------------------------------------------

/// A description for programs has the five parts of the lock file's, each in a
/// field of its own.
pub proof fn law_descriptions_have_every_part(info: DaemonInfo)
    ensures
        info_json(info.deep_view()) matches Json::Object(object) && {
            &&& object.contains_key("running"@) && object["running"@] == Json::Bool(
                info.is_running,
            )
            &&& object.contains_key("pid"@) && object["pid"@] == unsigned(info.pid as u64)
            &&& object.contains_key("working_dir"@) && object["working_dir"@] == Json::Text(
                info.working_dir@,
            )
            &&& object.contains_key("socket"@) && object["socket"@] == Json::Text(info.socket@)
            &&& object.contains_key("version"@) && object["version"@] == Json::Text(info.version@)
        },
{
    reveal_strlit("running");
    reveal_strlit("pid");
    reveal_strlit("working_dir");
    reveal_strlit("socket");
    reveal_strlit("version");
    assert("running"@[0] == 'r' && "version"@[0] == 'v');
    assert("pid"@.len() == 3 && "working_dir"@.len() == 11 && "socket"@.len() == 6);
}

/// The word for a server that runs, or for a lock file that is left of one.
pub open spec fn word_for(is_running: bool, word: Seq<char>) -> bool {
    &&& is_running ==> word == "running"@
    &&& !is_running ==> word == "stale"@
}

/// The status names the server's state, number, socket and version; without a
/// server it says that there is none.
pub proof fn law_status_reads_well(info: DaemonInfo, word: Seq<char>)
    requires
        word_for(info.is_running, word),
    ensures
        status_report(None, false) == "No daemon for this directory."@ + "\n"@,
        status_report(None, true) == json_text(Json::Null) + "\n"@,
        status_report(Some(info.deep_view()), true) == json_text(info_json(info.deep_view()))
            + "\n"@,
        exists|number: Seq<char>| #[trigger]
            spells(number, info.pid as int) && status_report(Some(info.deep_view()), false) == "["@
                + word + "] pid="@ + number + " socket="@ + info.socket@ + " version="@
                + info.version@ + "\n"@,
{
    law_numbers_are_spelled(info.pid as int);
    assert(spells(decimal(info.pid as nat), info.pid as int));
}

/// The line of a listed server names the directory as well.
pub proof fn law_listed_servers_read_well(info: DaemonInfo, word: Seq<char>)
    requires
        word_for(info.is_running, word),
    ensures
        exists|number: Seq<char>| #[trigger]
            spells(number, info.pid as int) && listed_text(info.deep_view()) == "["@ + word
                + "] pid="@ + number + " dir="@ + info.working_dir@ + " socket="@ + info.socket@
                + " version="@ + info.version@ + "\n"@,
{
    law_numbers_are_spelled(info.pid as int);
    assert(spells(decimal(info.pid as nat), info.pid as int));
}

proof fn lemma_listed_lines(infos: Seq<DaemonView>)
    ensures
        listed_lines(infos) == Seq::new(infos.len(), |i: int| listed_text(infos[i])).flatten_alt(),
    decreases infos.len(),
{
    let lines = Seq::new(infos.len(), |i: int| listed_text(infos[i]));
    if infos.len() > 0 {
        let before = infos.drop_last();
        lemma_listed_lines(before);
        assert(lines.drop_last() =~= Seq::new(before.len(), |i: int| listed_text(before[i])));
    }
}

/// A list says that there are no servers exactly when there are none. Otherwise
/// it is one line for each server, in order. For programs it is the list of their
/// descriptions, in order.
pub proof fn law_lists_read_well(infos: Seq<DaemonView>)
    ensures
        list_report(infos, false) == "No daemons found."@ + "\n"@ <==> infos.len() == 0,
        infos.len() > 0 ==> list_report(infos, false) == Seq::new(
            infos.len(),
            |i: int| listed_text(infos[i]),
        ).flatten(),
        list_report(infos, true) == json_text(
            Json::List(Seq::new(infos.len(), |i: int| info_json(infos[i]))),
        ) + "\n"@,
{
    let lines = Seq::new(infos.len(), |i: int| listed_text(infos[i]));
    lemma_listed_lines(infos);
    lines.lemma_flatten_and_flatten_alt_are_equivalent();
    reveal_strlit("No daemons found.");
    reveal_strlit("[");
    if infos.len() > 0 {
        let text = list_report(infos, false);
        assert(lines.first() == listed_text(infos[0]));
        assert(text == lines.first() + lines.drop_first().flatten());
        assert(lines.first()[0] == '[');
        assert(text[0] == '[');
        assert(("No daemons found."@ + "\n"@)[0] == 'N');
    }
}

/// A cleaning tells how many lock files it removed, a start tells where or what
/// runs already, each to people and to programs.
pub proof fn law_reports_tell_the_outcome(count: usize, pid: u32, dir: Seq<char>)
    ensures
        exists|number: Seq<char>| #[trigger]
            spells(number, count as int) && report_text(false, clean_json(count), clean_text(count))
                == "Removed "@ + number + " stale lock file(s)."@ + "\n"@,
        report_text(true, clean_json(count), clean_text(count)) == json_text(clean_json(count))
            + "\n"@,
        clean_json(count) matches Json::Object(object) && object.dom() == set!["removed"@]
            && object["removed"@] == unsigned(count as u64),
        exists|number: Seq<char>| #[trigger]
            spells(number, pid as int) && already_running(pid, false)
                == "Daemon already running (pid="@ + number + ")."@ + "\n"@,
        already_running(pid, true) == json_text(already_running_json(pid)) + "\n"@,
        already_running_json(pid) matches Json::Object(object) && object["pid"@] == unsigned(
            pid as u64,
        ) && object["started"@] == Json::Bool(false),
        started(dir, false) == "Daemon started for "@ + dir + "."@ + "\n"@,
        started(dir, true) == json_text(started_json(dir)) + "\n"@,
        started_json(dir) matches Json::Object(object) && object["working_dir"@] == Json::Text(dir)
            && object["started"@] == Json::Bool(true),
        stopped_json() matches Json::Object(object) && object["stopped"@] == Json::Bool(true),
{
    law_numbers_are_spelled(count as int);
    law_numbers_are_spelled(pid as int);
    assert(spells(decimal(count as nat), count as int));
    assert(spells(decimal(pid as nat), pid as int));
    assert(no_fields().dom() =~= Set::empty());
    assert(clean_json(count)->Object_0.dom() =~= set!["removed"@]);
    reveal_strlit("started");
    reveal_strlit("pid");
    reveal_strlit("working_dir");
    assert("started"@.len() == 7 && "pid"@.len() == 3 && "working_dir"@.len() == 11);
}

// ---------------------------------------------------------------------------
// Stopping.
// ---------------------------------------------------------------------------

/// A lock file is absent, stale or of a running server, whose number it gives.
pub proof fn law_lock_files_say_what_is_found(info: Option<DaemonInfo>)
    ensures
        found_of(info) is Absent <==> info is None,
        found_of(info) is Stale <==> info is Some && !info->0.is_running,
        found_of(info) is Running <==> info is Some && info->0.is_running,
        found_of(info) matches Found::Running { pid } ==> pid == info->0.pid,
{
}

/// The first look decides what is done: a server that runs is asked to shut
/// down, a stale lock file is removed and the stop fails, and without a lock file
/// it fails at once.
pub proof fn law_first_look_of_a_stop(found: Found)
    ensures
        ({
            let step = after_stop_look(StopLook::First, Ok(found));
            &&& found is Running <==> step is Request
            &&& found is Stale <==> step == (StopStepView::Clean { waiting: StopCleaned::TooLate })
            &&& found is Absent <==> step is Fail
            &&& step matches StopStepView::Fail { message } ==> message
                == "No daemon found for this directory"@
        }),
        after_stop_cleaned(StopCleaned::TooLate, Ok(())) matches StopStepView::Fail { message }
            && message == "Daemon is not running (stale lock file cleaned up)"@,
{
}

/// Every later look decides the same way, however many are left: the stop is
/// done when the lock file is gone, a stale one is removed first, and a server
/// that still runs is waited for, a tenth of a second, without a look being
/// lost.
pub proof fn law_later_looks_of_a_stop(found: Found, left: u32)
    ensures
        ({
            let step = after_stop_look(StopLook::Poll { left }, Ok(found));
            &&& found is Absent <==> step is Done
            &&& found is Stale <==> step == (StopStepView::Clean { waiting: StopCleaned::Gone })
            &&& found is Running <==> step == (StopStepView::Sleep { millis: 100, left })
        }),
        after_stop_cleaned(StopCleaned::Gone, Ok(())) is Done,
        after_stop_forced(Ok(())) is Done,
        left > 0 ==> after_stop_paused(left) == (StopStepView::Status {
            waiting: StopLook::Poll { left: (left - 1) as u32 },
        }),
        left == 0 ==> after_stop_paused(left) is Kill,
        after_stop_asked() is Status,
{
}

/// Whatever fails while a server is stopped ends the stop with its message.
pub proof fn law_failures_end_a_stop(look: StopLook, cleaned: StopCleaned, message: String)
    ensures
        after_stop_look(look, Err(message)) == (StopStepView::Fail { message: message@ }),
        after_stop_cleaned(cleaned, Err(message)) == (StopStepView::Fail { message: message@ }),
        after_stop_forced(Err(message)) == (StopStepView::Fail { message: message@ }),
{
}

/// The step of a stop that is reached when the events come one after another.
pub open spec fn stop_run(step: StopStepView, events: Seq<Event>) -> StopStepView
    decreases events.len(),
{
    if events.len() == 0 {
        step
    } else {
        stop_run(stop_next(step, events[0]), events.skip(1))
    }
}

proof fn lemma_force_takes_all(step: StopStepView, events: Seq<Event>)
    requires
        stop_run(step, events) is Kill,
    ensures
        stop_slept(step, events) == stop_budget(step),
    decreases events.len(),
{
    if events.len() > 0 {
        let next = stop_next(step, events[0]);
        lemma_force_takes_all(next, events.skip(1));
        if next is Done || next is Fail || next is Clean {
            lemma_ended_stops_stay(next, events.skip(1));
        }
    }
}

proof fn lemma_ended_stops_stay(step: StopStepView, events: Seq<Event>)
    requires
        step is Done || step is Fail || step is Clean,
    ensures
        stop_run(step, events) !is Kill,
    decreases events.len(),
{
    if events.len() > 0 {
        lemma_ended_stops_stay(stop_next(step, events[0]), events.skip(1));
    }
}

/// Force is used only after five whole seconds of waiting, whatever happened on
/// the way.
pub proof fn law_force_is_the_last_resort(events: Seq<Event>)
    requires
        stop_run(StopStepView::Status { waiting: StopLook::First }, events) is Kill,
    ensures
        stop_slept(StopStepView::Status { waiting: StopLook::First }, events) == 5000,
{
    lemma_force_takes_all(StopStepView::Status { waiting: StopLook::First }, events);
}

// ---------------------------------------------------------------------------
// Starting.
// ---------------------------------------------------------------------------

/// The first look decides what is done: a server that runs is left alone and
/// reported, a stale lock file is removed before the launch, and without a lock
/// file the server is launched at once.
pub proof fn law_first_look_of_a_start(found: Found, dir: Seq<char>, as_json: bool)
    ensures
        ({
            let step = after_start_look(StartLook::First, Ok(found), dir, as_json);
            &&& found is Absent <==> step is Launch
            &&& found is Stale <==> step is Clean
            &&& found is Running <==> step is Done
            &&& found matches Found::Running { pid } ==> step == (StartStepView::Done {
                report: already_running(pid, as_json),
            })
        }),
        after_start_cleaned(Ok(())) is Launch,
        after_launch(Ok(())) is Status,
{
}

/// Every later look decides the same way, however many are left: the start is
/// done and reported when the server runs, and else it is waited for, forty
/// milliseconds at a time, without a look being lost.
pub proof fn law_later_looks_of_a_start(
    found: Found,
    left: u32,
    dir: Seq<char>,
    as_json: bool,
)
    ensures
        ({
            let step = after_start_look(StartLook::Poll { left }, Ok(found), dir, as_json);
            &&& found is Running <==> step is Done
            &&& found is Running ==> step == (StartStepView::Done { report: started(dir, as_json) })
            &&& found !is Running ==> step == (StartStepView::Sleep { millis: 40, left })
        }),
        left > 0 ==> after_start_paused(left) == (StartStepView::Status {
            waiting: StartLook::Poll { left: (left - 1) as u32 },
        }),
        left == 0 ==> after_start_paused(left) == (StartStepView::Fail {
            message: "daemon did not come up within 2s"@,
        }),
{
}

/// Whatever fails while a server is started ends the start with its message.
pub proof fn law_failures_end_a_start(
    look: StartLook,
    message: String,
    dir: Seq<char>,
    as_json: bool,
)
    ensures
        after_start_look(look, Err(message), dir, as_json) == (StartStepView::Fail {
            message: message@,
        }),
        after_start_cleaned(Err(message)) == (StartStepView::Fail { message: message@ }),
        after_launch(Err(message)) == (StartStepView::Fail { message: message@ }),
{
}

/// Whether the events bring no failure of their own.
pub open spec fn untroubled(events: Seq<Event>) -> bool {
    forall|i: int|
        0 <= i < events.len() ==> match #[trigger] events[i] {
            Event::Status(outcome) => outcome is Ok,
            Event::Cleaned(outcome) => outcome is Ok,
            Event::Launched(outcome) => outcome is Ok,
            _ => true,
        }
}

/// The step of a start that is reached when the events come one after another.
pub open spec fn start_run(
    step: StartStepView,
    events: Seq<Event>,
    dir: Seq<char>,
    as_json: bool,
) -> StartStepView
    decreases events.len(),
{
    if events.len() == 0 {
        step
    } else {
        start_run(start_next(step, events[0], dir, as_json), events.skip(1), dir, as_json)
    }
}

proof fn lemma_ended_starts_stay(
    step: StartStepView,
    events: Seq<Event>,
    dir: Seq<char>,
    as_json: bool,
)
    requires
        step is Done,
    ensures
        start_run(step, events, dir, as_json) is Done,
    decreases events.len(),
{
    if events.len() > 0 {
        lemma_ended_starts_stay(step, events.skip(1), dir, as_json);
    }
}

proof fn lemma_giving_up_takes_all(
    step: StartStepView,
    events: Seq<Event>,
    dir: Seq<char>,
    as_json: bool,
)
    requires
        start_run(step, events, dir, as_json) is Fail,
        untroubled(events),
    ensures
        start_slept(step, events, dir, as_json) == start_budget(step),
    decreases events.len(),
{
    if events.len() > 0 {
        let rest = events.skip(1);
        assert forall|i: int| 0 <= i < rest.len() implies #[trigger] rest[i] == events[i + 1] by {}
        assert(untroubled(rest));
        let next = start_next(step, events[0], dir, as_json);
        lemma_giving_up_takes_all(next, rest, dir, as_json);
        if next is Done {
            lemma_ended_starts_stay(next, rest, dir, as_json);
        }
    }
}

/// A start in which nothing fails is given up only after two whole seconds of
/// waiting.
pub proof fn law_starts_are_given_up_after_two_seconds(
    events: Seq<Event>,
    dir: Seq<char>,
    as_json: bool,
)
    requires
        untroubled(events),
        start_run(
            StartStepView::Status { waiting: StartLook::First },
            events,
            dir,
            as_json,
        ) is Fail,
    ensures
        start_slept(
            StartStepView::Status { waiting: StartLook::First },
            events,
            dir,
            as_json,
        ) == 2000,
{
    lemma_giving_up_takes_all(
        StartStepView::Status { waiting: StartLook::First },
        events,
        dir,
        as_json,
    );
}

} // verus!
