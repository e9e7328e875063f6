//! Laws of the command line: what each command sends to the server is what the
//! user gave, and what the user is told is what the server answered.

use crate::codec::Read;
use crate::dekit::cli::{
    dir_read, dir_view, key_of, planned, reported, settings_read, value_of, wants_dir, CliCommand,
    Plan, ServerCommand,
};
use crate::dekit::handler::Change;
use crate::dekit::report::{
    acted_report, acted_text, screen_report, spawned_report, task_list_report, task_list_text,
    why_report, why_text,
};
use crate::json::{env_entries, json_text, keys, put_entry, Json};
use crate::protocol::laws::{
    law_act_round_trip, law_screen_round_trip, law_spawn_round_trip, law_task_list_round_trip,
    law_why_round_trip,
};
use crate::protocol::request::RpcRequest;
use crate::protocol::results::{
    act_json, screen_json, spawn_json, task_list_json, why_json, TaskInfoView, WhyView,
};
use vstd::prelude::*;

verus! {

// ---------------------------------------------------------------------------
// What is sent.
// ---------------------------------------------------------------------------

/// Whether a pattern that was sent is the one that was given: none exactly when
/// none was given, and else the same text.
pub open spec fn same_pattern(sent: Option<String>, given: Option<String>) -> bool {
    &&& sent is Some <==> given is Some
    &&& given is Some ==> sent->0@ == given->0@
}

/// A command with a pattern or a path sends the request of its own name with
/// exactly that pattern or path; where a pattern may be left out, one is sent
/// exactly when one was given.
pub proof fn law_commands_send_what_was_given(command: CliCommand, plan: Plan)
    requires
        plan@ == planned(command),
    ensures
        command matches CliCommand::Up { pattern } ==> (plan matches Plan::Call {
            request: RpcRequest::Up { pattern: sent },
            ..
        } && same_pattern(sent, pattern)),
        command matches CliCommand::Down { pattern } ==> (plan matches Plan::Call {
            request: RpcRequest::Down { pattern: sent },
            ..
        } && same_pattern(sent, pattern)),
        command matches CliCommand::Ls { pattern } ==> (plan matches Plan::Call {
            request: RpcRequest::Ls { pattern: sent },
            ..
        } && same_pattern(sent, pattern)),
        command matches CliCommand::Start { pattern } ==> (plan matches Plan::Call {
            request: RpcRequest::Start { pattern: sent },
            ..
        } && sent@ == pattern@),
        command matches CliCommand::Stop { pattern } ==> (plan matches Plan::Call {
            request: RpcRequest::Stop { pattern: sent },
            ..
        } && sent@ == pattern@),
        command matches CliCommand::Kill { pattern } ==> (plan matches Plan::Call {
            request: RpcRequest::Kill { pattern: sent },
            ..
        } && sent@ == pattern@),
        command matches CliCommand::Veto { pattern } ==> (plan matches Plan::Call {
            request: RpcRequest::Veto { pattern: sent },
            ..
        } && sent@ == pattern@),
        command matches CliCommand::Restart { pattern } ==> (plan matches Plan::Call {
            request: RpcRequest::Restart { pattern: sent },
            ..
        } && sent@ == pattern@),
        command matches CliCommand::Why { path } ==> (plan matches Plan::Call {
            request: RpcRequest::Why { path: sent },
            ..
        } && sent@ == path@),
        command matches CliCommand::Screen { path } ==> (plan matches Plan::Call {
            request: RpcRequest::Screen { path: sent },
            ..
        } && sent@ == path@),
{
}

/// Which commands start a server where none is running, stated of the plan
/// itself: those that want tasks running. The terminal interface does so unless
/// it was only to attach.
pub proof fn law_plans_start_a_server_when_due(command: CliCommand, plan: Plan)
    requires
        plan@ == planned(command),
    ensures
        plan matches Plan::Call { spawn, .. } ==> (spawn <==> command is Up || command is Spawn
            || command is Start || command is Restart),
        command matches CliCommand::Tui { attach } ==> (plan matches Plan::Tui { spawn } && spawn
            == !attach),
{
}

/// Whether the texts are the same, one by one.
pub open spec fn same_texts(sent: Seq<String>, given: Seq<String>) -> bool {
    sent.len() == given.len() && forall|i: int|
        0 <= i < sent.len() ==> (#[trigger] sent[i])@ == given[i]@
}

proof fn lemma_same_texts(sent: Vec<String>, given: Vec<String>)
    requires
        sent.deep_view() == given.deep_view(),
    ensures
        same_texts(sent@, given@),
{
    assert(sent.deep_view().len() == sent@.len());
    assert(given.deep_view().len() == given@.len());
    assert forall|i: int| 0 <= i < sent@.len() implies (#[trigger] sent@[i])@ == given@[i]@ by {
        assert(sent.deep_view()[i] == sent@[i]@);
        assert(given.deep_view()[i] == given@[i]@);
    }
}

/// A spawn sends the path, directory, dependencies, tags and command that were
/// given, and the environment that the settings make, if there are any. It fails
/// exactly when one of the settings has no `=`.
pub proof fn law_spawns_send_what_was_given(command: CliCommand, plan: Plan)
    requires
        command is Spawn,
        plan@ == planned(command),
    ensures
        plan is Call || plan is Fail,
        plan is Fail <==> exists|i: int|
            0 <= i < command->Spawn_env@.len() && !(#[trigger] command->Spawn_env@[i])@.contains(
                '=',
            ),
        plan matches Plan::Call { request, report, .. } ==> {
            &&& report is Spawned
            &&& request is Spawn
            &&& request->Spawn_path@ == command->Spawn_path@
            &&& same_pattern(request->Spawn_cwd, command->Spawn_cwd)
            &&& same_texts(request->Spawn_cmd@, command->Spawn_cmd@)
            &&& same_texts(request->Spawn_deps@, command->Spawn_deps@)
            &&& same_texts(request->Spawn_tags@, command->Spawn_tags@)
            &&& request->Spawn_env is None <==> command->Spawn_env@.len() == 0
            &&& request->Spawn_env matches Some(env) ==> settings_read(
                command->Spawn_env.deep_view(),
            ) == Read::<Seq<Change>>::Ok(env_entries(env))
        },
{
    let settings = command->Spawn_env;
    let views = settings.deep_view();
    assert(views.len() == settings@.len());
    law_settings_need_a_mark(views);
    if plan is Fail {
        let bad = choose|i: int| 0 <= i < views.len() && !(#[trigger] views[i]).contains('=');
        assert(views[bad] == settings@[bad]@);
    }
    if exists|i: int|
        0 <= i < settings@.len() && !(#[trigger] settings@[i])@.contains('=') {
        let bad = choose|i: int|
            0 <= i < settings@.len() && !(#[trigger] settings@[i])@.contains('=');
        assert(views[bad] == settings@[bad]@);
    }
    if let Plan::Call { request, .. } = plan {
        lemma_same_texts(request->Spawn_cmd, command->Spawn_cmd);
        lemma_same_texts(request->Spawn_deps, command->Spawn_deps);
        lemma_same_texts(request->Spawn_tags, command->Spawn_tags);
    }
}

/// Settings are accepted exactly when each of them has a `=`. When they are
/// refused, the message names one without, and all settings before that one have
/// it.
pub proof fn law_settings_need_a_mark(settings: Seq<Seq<char>>)
    ensures
        settings_read(settings) is Ok <==> forall|i: int|
            0 <= i < settings.len() ==> (#[trigger] settings[i]).contains('='),
        settings_read(settings) matches Err(message) ==> exists|i: int|
            {
                &&& 0 <= i < settings.len()
                &&& !(#[trigger] settings[i]).contains('=')
                &&& forall|j: int| 0 <= j < i ==> (#[trigger] settings[j]).contains('=')
                &&& message == "--env expects KEY=VALUE, got `"@ + settings[i] + "`"@
            },
    decreases settings.len(),
{
    if settings.len() > 0 {
        let before = settings.drop_last();
        law_settings_need_a_mark(before);
        assert forall|i: int| 0 <= i < before.len() implies #[trigger] before[i]
            == settings[i] by {}
        if settings_read(before) is Err {
            let message = settings_read(before)->Err_0;
            let bad = choose|i: int|
                {
                    &&& 0 <= i < before.len()
                    &&& !(#[trigger] before[i]).contains('=')
                    &&& forall|j: int| 0 <= j < i ==> (#[trigger] before[j]).contains('=')
                    &&& message == "--env expects KEY=VALUE, got `"@ + before[i] + "`"@
                };
            assert(!settings[bad].contains('='));
            assert forall|j: int| 0 <= j < bad implies (#[trigger] settings[j]).contains('=') by {
                assert(before[j].contains('='));
            }
        } else {
            let last = settings.len() - 1;
            assert(settings[last] == settings.last());
            assert forall|j: int| 0 <= j < last implies (#[trigger] settings[j]).contains('=') by {
                assert(before[j].contains('='));
            }
        }
    }
}

/// A setting of a new name goes last; one of a name that is there takes that
/// name's place, and the names stay in their order.
pub proof fn law_settings_keep_their_places(settings: Seq<Seq<char>>, last: Seq<char>)
    requires
        settings_read(settings) is Ok,
        last.contains('='),
    ensures
        settings_read(Seq::empty()) == Read::<Seq<Change>>::Ok(Seq::empty()),
        ({
            let before = keys(settings_read(settings)->Ok_0);
            let after = keys(settings_read(settings.push(last))->Ok_0);
            after == if before.contains(key_of(last)) {
                before
            } else {
                before.push(key_of(last))
            }
        }),
{
    assert(settings.push(last).drop_last() =~= settings);
    let entries = settings_read(settings)->Ok_0;
    let after = put_entry(entries, key_of(last), Some(value_of(last)));
    if keys(entries).contains(key_of(last)) {
        assert(keys(after) =~= keys(entries));
    } else {
        assert(keys(after) =~= keys(entries).push(key_of(last)));
    }
}

/// Without a command, a script is run exactly when the first file is one, under
/// the name that was given; without a file the terminal interface opens; any
/// other file is refused by its name.
pub proof fn law_files_are_run_or_refused(files: Vec<String>, plan: Plan)
    requires
        plan@ == planned(CliCommand::Files { files }),
    ensures
        files@.len() == 0 <==> plan is Tui,
        plan matches Plan::Tui { spawn } ==> spawn,
        plan is Script <==> files@.len() > 0 && ".js"@.is_suffix_of(files@[0]@),
        plan matches Plan::Script { path } ==> path@ == files@[0]@,
        plan matches Plan::Fail { message } ==> message@
            == "unknown command or unsupported file: `"@ + files@[0]@
            + "` (expected a subcommand or a .js script)"@,
        plan is Tui || plan is Script || plan is Fail,
{
    assert(files.deep_view().len() == files@.len());
    if files@.len() > 0 {
        assert(files.deep_view()[0] == files@[0]@);
    }
}

/// mprocs gets its own name and then the arguments as given; an unknown command
/// is refused by its name; a server is run in the directory and with the log
/// level that were given.
pub proof fn law_arguments_are_passed_on(
    args: Vec<String>,
    name: String,
    dir: String,
    log_level: Option<String>,
    mprocs: Plan,
    unknown: Plan,
    serve: Plan,
)
    requires
        mprocs@ == planned(CliCommand::Mprocs { args }),
        unknown@ == planned(CliCommand::Unknown { name }),
        serve@ == planned(CliCommand::Server(ServerCommand::Run { dir, log_level })),
    ensures
        mprocs matches Plan::Mprocs { argv } && argv@.len() == args@.len() + 1 && argv@[0]@
            == "mprocs"@ && forall|i: int|
            0 < i < argv@.len() ==> (#[trigger] argv@[i])@ == args@[i - 1]@,
        unknown matches Plan::Fail { message } && message@ == "unknown command: "@ + name@,
        serve matches Plan::Serve { dir: own, log_level: level } && own@ == dir@ && same_pattern(
            level,
            log_level,
        ),
{
    let argv = mprocs->argv;
    let all = seq!["mprocs"@] + args.deep_view();
    assert(argv.deep_view() == all);
    assert(argv.deep_view().len() == argv@.len());
    assert(args.deep_view().len() == args@.len());
    assert(argv.deep_view()[0] == argv@[0]@);
    assert forall|i: int| 0 < i < argv@.len() implies (#[trigger] argv@[i])@ == args@[i - 1]@ by {
        assert(argv.deep_view()[i] == argv@[i]@);
        assert(all[i] == args.deep_view()[i - 1]);
    }
}

/// Each command about the server is planned as itself.
pub proof fn law_server_commands_are_planned(command: ServerCommand, plan: Plan)
    requires
        plan@ == planned(CliCommand::Server(command)),
    ensures
        command is Start <==> plan is StartServer,
        command is Stop <==> plan is StopServer,
        command is Status <==> plan is ServerStatus,
        command is List <==> plan is ListServers,
        command is Clean <==> plan is CleanServers,
        command is Run <==> plan is Serve,
        command is Missing <==> plan is Fail,
{
}

/// The directory of the server has to be known first for every command that
/// talks to it, and for no other.
pub proof fn law_commands_that_need_a_dir(command: CliCommand)
    ensures
        command is Tui || command is Up || command is Down || command is Spawn || command is Ls
            || command is Start || command is Stop || command is Kill || command is Veto
            || command is Restart || command is Why || command is Screen ==> wants_dir(command),
        command is Mprocs || command is Unknown ==> !wants_dir(command),
        command matches CliCommand::Server(server) ==> (wants_dir(command) <==> server is Start
            || server is Stop || server is Status),
        command matches CliCommand::Files { files } ==> (wants_dir(command) <==> files@.len()
            == 0),
{
}

/// A directory that was found is used, whether or not it was asked for. A failure
/// is passed on, and names the directory if one was asked for.
pub proof fn law_working_dirs<P>(asked: String, found: P, error: String, dir: Result<P, String>)
    ensures
        dir_view(dir) == dir_read(None, Ok(found)) || dir_view(dir) == dir_read(
            Some(asked),
            Ok(found),
        ) ==> dir == Result::<P, String>::Ok(found),
        dir_view(dir) == dir_read::<P>(None, Err(error)) ==> dir is Err && dir->Err_0@ == error@,
        dir_view(dir) == dir_read::<P>(Some(asked), Err(error)) ==> dir is Err && dir->Err_0@
            == "invalid --chdir `"@ + asked@ + "`: "@ + error@,
{
}

// ---------------------------------------------------------------------------
// What is told.
// ---------------------------------------------------------------------------

/// Whether the word is the one that a command's success is told in.
pub open spec fn word_of(command: CliCommand, word: Seq<char>) -> bool {
    &&& command is Up || command is Start ==> word == "Started"@
    &&& command is Stop ==> word == "Stopped"@
    &&& command is Kill ==> word == "Killed"@
    &&& command is Veto ==> word == "Vetoed"@
    &&& command is Restart ==> word == "Restarted"@
    &&& command is Down ==> word == "Put down"@
}

/// A command that acts on tasks tells, in its own word, the number that the
/// server answered with; when nothing matched it says so.
pub proof fn law_verbs_tell_the_count(
    command: CliCommand,
    plan: Plan,
    matched: usize,
    word: Seq<char>,
)
    requires
        plan@ == planned(command),
        command is Up || command is Down || command is Start || command is Stop || command is Kill
            || command is Veto || command is Restart,
        word_of(command, word),
    ensures
        plan is Call,
        reported(plan->report, act_json(matched), false) == Read::<Seq<char>>::Ok(
            acted_text(matched, word, "No tasks matched."@),
        ),
        reported(plan->report, act_json(matched), true) == Read::<Seq<char>>::Ok(
            json_text(act_json(matched)) + "\n"@,
        ),
{
    law_act_round_trip(matched);
}

/// A spawn tells the path that the server answered with.
pub proof fn law_spawns_tell_the_path(command: CliCommand, plan: Plan, path: Seq<char>)
    requires
        plan@ == planned(command),
        command is Spawn,
        plan is Call,
    ensures
        reported(plan->report, spawn_json(path), false) == Read::<Seq<char>>::Ok(
            "Spawned "@ + path + "."@ + "\n"@,
        ),
        reported(plan->report, spawn_json(path), true) == Read::<Seq<char>>::Ok(
            json_text(spawn_json(path)) + "\n"@,
        ),
{
    law_spawn_round_trip(path);
}

/// Each question tells the answer of its own kind that the server gave.
pub proof fn law_questions_tell_the_answer(
    list: Plan,
    pattern: Option<String>,
    tasks: Seq<TaskInfoView>,
    why: Plan,
    screen: Plan,
    path: String,
    explanation: WhyView,
    content: Seq<char>,
)
    requires
        list@ == planned(CliCommand::Ls { pattern }),
        why@ == planned(CliCommand::Why { path }),
        screen@ == planned(CliCommand::Screen { path }),
    ensures
        list is Call && why is Call && screen is Call,
        reported(list->report, task_list_json(tasks), false) == Read::<Seq<char>>::Ok(
            task_list_text(tasks),
        ),
        reported(why->report, why_json(explanation), false) == Read::<Seq<char>>::Ok(
            why_text(explanation),
        ),
        reported(screen->report, screen_json(Some(content)), false) == Read::<Seq<char>>::Ok(
            content + "\x1b[0m\n"@,
        ),
        reported(screen->report, screen_json(Some(content)), true) == Read::<Seq<char>>::Ok(
            json_text(screen_json(Some(content))) + "\n"@,
        ),
{
    law_task_list_round_trip(tasks);
    law_why_round_trip(explanation);
    law_screen_round_trip(Some(content));
}

/// Whatever comes back, readable or not, each command's report is the one for its
/// kind of result, and for programs exactly if that was asked for.
pub proof fn law_reports_fit_their_commands(
    command: CliCommand,
    plan: Plan,
    value: Json,
    as_json: bool,
    word: Seq<char>,
)
    requires
        plan@ == planned(command),
        plan is Call,
        word_of(command, word),
    ensures
        ({
            let told = reported(plan->report, value, as_json);
            &&& command is Ls ==> told == task_list_report(value, as_json)
            &&& command is Why ==> told == why_report(value, as_json)
            &&& command is Screen ==> told == screen_report(value, as_json)
            &&& command is Spawn ==> told == spawned_report(value, as_json)
            &&& command is Up || command is Down || command is Start || command is Stop
                || command is Kill || command is Veto || command is Restart ==> told
                == acted_report(value, as_json, word, "No tasks matched."@)
        }),
{
}

} // verus!
