//! What each command of the command line comes to.

use crate::codec::{read_view, Read};
use crate::dekit::handler::{changes_of, Change};
use crate::dekit::report::{
    acted_report, report_acted, report_screen, report_spawned, report_task_list, report_why,
    screen_report, spawned_report, task_list_report, why_report,
};
use crate::json::{
    entries_map, env_entries, json, keys, lemma_put_entry_map, new_env, put_entry, put_env, Json,
};
use crate::protocol::request::{RequestView, RpcRequest};
use crate::text::{has_suffix, split_once};
use indexmap::IndexMap;
use serde_json::Value;
use vstd::prelude::*;
use vstd::string::*;

verus! {

/// A command as the user gave it.
pub enum CliCommand {
    Tui { attach: bool },
    Up { pattern: Option<String> },
    Down { pattern: Option<String> },
    Spawn {
        path: String,
        cwd: Option<String>,
        /// Each as `KEY=VALUE`.
        env: Vec<String>,
        deps: Vec<String>,
        tags: Vec<String>,
        cmd: Vec<String>,
    },
    Ls { pattern: Option<String> },
    Start { pattern: String },
    Stop { pattern: String },
    Kill { pattern: String },
    Veto { pattern: String },
    Restart { pattern: String },
    Why { path: String },
    Screen { path: String },
    Server(ServerCommand),
    Mprocs { args: Vec<String> },
    /// A command of another name.
    Unknown { name: String },
    /// No command, only what may be a script and its arguments.
    Files { files: Vec<String> },
}

/// A command about the background server.
pub enum ServerCommand {
    Run { dir: String, log_level: Option<String> },
    Start,
    Stop,
    Status,
    List,
    Clean,
    /// No command was given, or one of another name.
    Missing,
}

/// A verb that acts on the tasks that a pattern selects, as reported.
#[derive(Clone, Copy, Debug, PartialEq, Eq, Structural)]
pub enum Verb {
    Started,
    Stopped,
    Killed,
    Vetoed,
    Restarted,
    PutDown,
}

/// How the result of a request is reported.
#[derive(Clone, Copy, Debug, PartialEq, Eq, Structural)]
pub enum Report {
    Acted(Verb),
    Spawned,
    TaskList,
    Why,
    Screen,
}

/// What is to be done about a command.
pub enum Plan {
    /// Run mprocs with these arguments.
    Mprocs { argv: Vec<String> },
    /// Open the terminal interface; `spawn` says whether to start a server that
    /// is not running.
    Tui { spawn: bool },
    /// Send a request to the server and report the result.
    Call { request: RpcRequest, spawn: bool, report: Report },
    /// Be the server.
    Serve { dir: String, log_level: Option<String> },
    StartServer,
    StopServer,
    ServerStatus,
    ListServers,
    CleanServers,
    /// Run a script.
    Script { path: String },
    /// Give up.
    Fail { message: String },
}

/// The mathematical content of a [`Plan`]. A request counts by what it says and
/// by the order of its environment.
pub enum PlanView {
    Mprocs { argv: Seq<Seq<char>> },
    Tui { spawn: bool },
    Call { request: RequestView, changes: Seq<Change>, spawn: bool, report: Report },
    Serve { dir: Seq<char>, log_level: Option<Seq<char>> },
    StartServer,
    StopServer,
    ServerStatus,
    ListServers,
    CleanServers,
    Script { path: Seq<char> },
    Fail { message: Seq<char> },
}

/// The changes to the environment that a request asks for, in its order.
pub open spec fn request_changes(request: RpcRequest) -> Seq<Change> {
    match request {
        RpcRequest::Spawn { env, .. } => changes_of(env),
        _ => Seq::empty(),
    }
}

impl View for Plan {
    type V = PlanView;

    open spec fn view(&self) -> PlanView {
        match *self {
            Plan::Mprocs { argv } => PlanView::Mprocs { argv: argv.deep_view() },
            Plan::Tui { spawn } => PlanView::Tui { spawn },
            Plan::Call { request, spawn, report } => PlanView::Call {
                request: request@,
                changes: request_changes(request),
                spawn,
                report,
            },
            Plan::Serve { dir, log_level } => PlanView::Serve {
                dir: dir@,
                log_level: log_level.deep_view(),
            },
            Plan::StartServer => PlanView::StartServer,
            Plan::StopServer => PlanView::StopServer,
            Plan::ServerStatus => PlanView::ServerStatus,
            Plan::ListServers => PlanView::ListServers,
            Plan::CleanServers => PlanView::CleanServers,
            Plan::Script { path } => PlanView::Script { path: path@ },
            Plan::Fail { message } => PlanView::Fail { message: message@ },
        }
    }
}

// ---------------------------------------------------------------------------
// The environment of a spawn.
// ---------------------------------------------------------------------------

pub open spec fn is_first_mark(text: Seq<char>, mark: char, at: int) -> bool {
    &&& 0 <= at < text.len()
    &&& text[at] == mark
    &&& !text.take(at).contains(mark)
}

/// Where the mark first stands in a text that has it.
pub open spec fn first_mark(text: Seq<char>, mark: char) -> int {
    choose|at: int| is_first_mark(text, mark, at)
}

/// What stands before the first `=`.
pub open spec fn key_of(setting: Seq<char>) -> Seq<char> {
    setting.take(first_mark(setting, '='))
}

/// What stands behind the first `=`.
pub open spec fn value_of(setting: Seq<char>) -> Seq<char> {
    setting.skip(first_mark(setting, '=') + 1)
}

pub open spec fn bad_setting(setting: Seq<char>) -> Seq<char> {
    "--env expects KEY=VALUE, got `"@ + setting + "`"@
}

/// The entries that the settings make, each set in turn; the first setting
/// without `=` is refused.
pub open spec fn settings_read(settings: Seq<Seq<char>>) -> Read<Seq<Change>>
    decreases settings.len(),
{
    if settings.len() == 0 {
        Ok(Seq::empty())
    } else {
        match settings_read(settings.drop_last()) {
            Err(message) => Err(message),
            Ok(entries) => if settings.last().contains('=') {
                Ok(
                    put_entry(
                        entries,
                        key_of(settings.last()),
                        Some(value_of(settings.last())),
                    ),
                )
            } else {
                Err(bad_setting(settings.last()))
            },
        }
    }
}

proof fn lemma_split(text: Seq<char>, mark: char, before: Seq<char>, behind: Seq<char>)
    requires
        text == before + seq![mark] + behind,
        !before.contains(mark),
    ensures
        text.contains(mark),
        before == text.take(first_mark(text, mark)),
        behind == text.skip(first_mark(text, mark) + 1),
{
    let at = before.len() as int;
    assert(text.take(at) =~= before);
    assert(text[at] == mark);
    assert(is_first_mark(text, mark, at));
    let first = first_mark(text, mark);
    assert(is_first_mark(text, mark, first));
    if first < at {
        assert(before[first] == mark);
    }
    if at < first {
        assert(text.take(first)[at] == mark);
    }
    assert(behind =~= text.skip(at + 1));
}

/// The first setting that is refused decides, whatever comes behind it.
proof fn lemma_first_refusal(settings: Seq<Seq<char>>, len: int)
    requires
        0 <= len <= settings.len(),
        settings_read(settings.take(len)) is Err,
    ensures
        settings_read(settings) == settings_read(settings.take(len)),
    decreases settings.len(),
{
    if len == settings.len() {
        assert(settings.take(len) =~= settings);
    } else {
        assert(settings.drop_last().take(len) =~= settings.take(len));
        lemma_first_refusal(settings.drop_last(), len);
    }
}

/// The environment that the settings make, or none without settings.
pub open spec fn env_of_settings(settings: Seq<Seq<char>>) -> Read<Option<Seq<Change>>> {
    match settings_read(settings) {
        Err(message) => Err(message),
        Ok(entries) => if settings.len() == 0 {
            Ok(None)
        } else {
            Ok(Some(entries))
        },
    }
}

pub open spec fn env_read_view(
    read: Result<Option<IndexMap<String, Option<String>>>, String>,
) -> Read<Option<Seq<Change>>> {
    match read {
        Ok(Some(env)) => Ok(Some(env_entries(env))),
        Ok(None) => Ok(None),
        Err(message) => Err(message@),
    }
}

/// Reads the settings of a spawn's environment, each `KEY=VALUE`.
pub fn parse_env(settings: &Vec<String>) -> (read: Result<
    Option<IndexMap<String, Option<String>>>,
    String,
>)
    ensures
        env_read_view(read) == env_of_settings(settings.deep_view()),
{
    let ghost views = settings.deep_view();
    let mut env = new_env();
    assert(env_entries(env) =~= Seq::empty());
    assert(views.take(0) =~= Seq::empty());
    for i in 0..settings.len()
        invariant
            views == settings.deep_view(),
            settings_read(views.take(i as int)) == Read::<Seq<Change>>::Ok(env_entries(env)),
    {
        let ghost done = views.take(i + 1);
        assert(done.drop_last() =~= views.take(i as int));
        assert(done.last() == settings@[i as int]@);
        match split_once(settings[i].as_str(), '=') {
            Some((key, value)) => {
                proof {
                    lemma_split(settings@[i as int]@, '=', key@, value@);
                }
                put_env(&mut env, key, Some(value));
            },
            None => {
                let mut message = "--env expects KEY=VALUE, got `".to_owned();
                message.append(settings[i].as_str());
                message.append("`");
                proof {
                    lemma_first_refusal(views, i + 1);
                }
                return Err(message);
            },
        }
    }
    assert(views.take(settings@.len() as int) =~= views);
    if settings.len() == 0 {
        Ok(None)
    } else {
        Ok(Some(env))
    }
}

// ---------------------------------------------------------------------------
// The plan.
// ---------------------------------------------------------------------------

/// A request that starts the server where none is running.
pub open spec fn rousing(request: RequestView, report: Report) -> PlanView {
    PlanView::Call { request, changes: Seq::empty(), spawn: true, report }
}

/// A request that only talks to a server that is running.
pub open spec fn asking(request: RequestView, report: Report) -> PlanView {
    PlanView::Call { request, changes: Seq::empty(), spawn: false, report }
}

pub open spec fn server_planned(command: ServerCommand) -> PlanView {
    match command {
        ServerCommand::Run { dir, log_level } => PlanView::Serve {
            dir: dir@,
            log_level: log_level.deep_view(),
        },
        ServerCommand::Start => PlanView::StartServer,
        ServerCommand::Stop => PlanView::StopServer,
        ServerCommand::Status => PlanView::ServerStatus,
        ServerCommand::List => PlanView::ListServers,
        ServerCommand::Clean => PlanView::CleanServers,
        ServerCommand::Missing => PlanView::Fail {
            message:
                "expected a subcommand after `dekit server` (run, start, stop, status, list, clean)"@,
        },
    }
}

/// Without a command: a script is run, any other file is refused, and without a
/// file the terminal interface opens.
pub open spec fn files_planned(files: Seq<Seq<char>>) -> PlanView {
    if files.len() == 0 {
        PlanView::Tui { spawn: true }
    } else if ".js"@.is_suffix_of(files[0]) {
        PlanView::Script { path: files[0] }
    } else {
        PlanView::Fail {
            message: "unknown command or unsupported file: `"@ + files[0]
                + "` (expected a subcommand or a .js script)"@,
        }
    }
}

pub open spec fn spawn_planned(
    path: Seq<char>,
    cwd: Option<Seq<char>>,
    settings: Seq<Seq<char>>,
    deps: Seq<Seq<char>>,
    tags: Seq<Seq<char>>,
    cmd: Seq<Seq<char>>,
) -> PlanView {
    match env_of_settings(settings) {
        Err(message) => PlanView::Fail { message },
        Ok(env) => PlanView::Call {
            request: RequestView::Spawn {
                path,
                cmd,
                cwd,
                env: match env {
                    Some(entries) => Some(entries_map(entries)),
                    None => None,
                },
                deps,
                tags,
            },
            changes: match env {
                Some(entries) => entries,
                None => Seq::empty(),
            },
            spawn: true,
            report: Report::Spawned,
        },
    }
}

pub open spec fn planned(command: CliCommand) -> PlanView {
    match command {
        CliCommand::Tui { attach } => PlanView::Tui { spawn: !attach },
        CliCommand::Up { pattern } => rousing(
            RequestView::Up { pattern: pattern.deep_view() },
            Report::Acted(Verb::Started),
        ),
        CliCommand::Down { pattern } => asking(
            RequestView::Down { pattern: pattern.deep_view() },
            Report::Acted(Verb::PutDown),
        ),
        CliCommand::Spawn { path, cwd, env, deps, tags, cmd } => spawn_planned(
            path@,
            cwd.deep_view(),
            env.deep_view(),
            deps.deep_view(),
            tags.deep_view(),
            cmd.deep_view(),
        ),
        CliCommand::Ls { pattern } => asking(
            RequestView::Ls { pattern: pattern.deep_view() },
            Report::TaskList,
        ),
        CliCommand::Start { pattern } => rousing(
            RequestView::Start { pattern: pattern@ },
            Report::Acted(Verb::Started),
        ),
        CliCommand::Stop { pattern } => asking(
            RequestView::Stop { pattern: pattern@ },
            Report::Acted(Verb::Stopped),
        ),
        CliCommand::Kill { pattern } => asking(
            RequestView::Kill { pattern: pattern@ },
            Report::Acted(Verb::Killed),
        ),
        CliCommand::Veto { pattern } => asking(
            RequestView::Veto { pattern: pattern@ },
            Report::Acted(Verb::Vetoed),
        ),
        CliCommand::Restart { pattern } => rousing(
            RequestView::Restart { pattern: pattern@ },
            Report::Acted(Verb::Restarted),
        ),
        CliCommand::Why { path } => asking(RequestView::Why { path: path@ }, Report::Why),
        CliCommand::Screen { path } => asking(RequestView::Screen { path: path@ }, Report::Screen),
        CliCommand::Server(command) => server_planned(command),
        CliCommand::Mprocs { args } => PlanView::Mprocs {
            argv: seq!["mprocs"@] + args.deep_view(),
        },
        CliCommand::Unknown { name } => PlanView::Fail { message: "unknown command: "@ + name@ },
        CliCommand::Files { files } => files_planned(files.deep_view()),
    }
}

/// Whether a command is about the server of some directory, so that the
/// directory has to be known before anything else is done.
pub open spec fn wants_dir(command: CliCommand) -> bool {
    match command {
        CliCommand::Server(command) => {
            command is Start || command is Stop || command is Status
        },
        CliCommand::Mprocs { .. } => false,
        CliCommand::Unknown { .. } => false,
        CliCommand::Files { files } => files@.len() == 0,
        _ => true,
    }
}

fn plan_server(command: ServerCommand) -> (plan: Plan)
    ensures
        plan@ == server_planned(command),
{
    match command {
        ServerCommand::Run { dir, log_level } => Plan::Serve { dir, log_level },
        ServerCommand::Start => Plan::StartServer,
        ServerCommand::Stop => Plan::StopServer,
        ServerCommand::Status => Plan::ServerStatus,
        ServerCommand::List => Plan::ListServers,
        ServerCommand::Clean => Plan::CleanServers,
        ServerCommand::Missing => Plan::Fail {
            message:
                "expected a subcommand after `dekit server` (run, start, stop, status, list, clean)".to_owned(),
        },
    }
}

fn plan_files(files: Vec<String>) -> (plan: Plan)
    ensures
        plan@ == files_planned(files.deep_view()),
{
    if files.len() == 0 {
        Plan::Tui { spawn: true }
    } else {
        let first = files[0].clone();
        if has_suffix(first.as_str(), ".js") {
            Plan::Script { path: first }
        } else {
            let mut message = "unknown command or unsupported file: `".to_owned();
            message.append(first.as_str());
            message.append("` (expected a subcommand or a .js script)");
            Plan::Fail { message }
        }
    }
}

fn plan_spawn(
    path: String,
    cwd: Option<String>,
    env: Vec<String>,
    deps: Vec<String>,
    tags: Vec<String>,
    cmd: Vec<String>,
) -> (plan: Plan)
    ensures
        plan@ == spawn_planned(
            path@,
            cwd.deep_view(),
            env.deep_view(),
            deps.deep_view(),
            tags.deep_view(),
            cmd.deep_view(),
        ),
{
    match parse_env(&env) {
        Ok(env) => Plan::Call {
            request: RpcRequest::Spawn { path, cmd, cwd, env, deps, tags },
            spawn: true,
            report: Report::Spawned,
        },
        Err(message) => Plan::Fail { message },
    }
}

impl CliCommand {
    pub fn needs_working_dir(&self) -> (needs: bool)
        ensures
            needs == wants_dir(*self),
    {
        match self {
            CliCommand::Server(command) => match command {
                ServerCommand::Start | ServerCommand::Stop | ServerCommand::Status => true,
                _ => false,
            },
            CliCommand::Mprocs { .. } => false,
            CliCommand::Unknown { .. } => false,
            CliCommand::Files { files } => files.len() == 0,
            _ => true,
        }
    }

    pub fn plan(self) -> (plan: Plan)
        ensures
            plan@ == planned(self),
    {
        match self {
            CliCommand::Tui { attach } => Plan::Tui { spawn: !attach },
            CliCommand::Up { pattern } => Plan::Call {
                request: RpcRequest::Up { pattern },
                spawn: true,
                report: Report::Acted(Verb::Started),
            },
            CliCommand::Down { pattern } => Plan::Call {
                request: RpcRequest::Down { pattern },
                spawn: false,
                report: Report::Acted(Verb::PutDown),
            },
            CliCommand::Spawn { path, cwd, env, deps, tags, cmd } => plan_spawn(
                path,
                cwd,
                env,
                deps,
                tags,
                cmd,
            ),
            CliCommand::Ls { pattern } => Plan::Call {
                request: RpcRequest::Ls { pattern },
                spawn: false,
                report: Report::TaskList,
            },
            CliCommand::Start { pattern } => Plan::Call {
                request: RpcRequest::Start { pattern },
                spawn: true,
                report: Report::Acted(Verb::Started),
            },
            CliCommand::Stop { pattern } => Plan::Call {
                request: RpcRequest::Stop { pattern },
                spawn: false,
                report: Report::Acted(Verb::Stopped),
            },
            CliCommand::Kill { pattern } => Plan::Call {
                request: RpcRequest::Kill { pattern },
                spawn: false,
                report: Report::Acted(Verb::Killed),
            },
            CliCommand::Veto { pattern } => Plan::Call {
                request: RpcRequest::Veto { pattern },
                spawn: false,
                report: Report::Acted(Verb::Vetoed),
            },
            CliCommand::Restart { pattern } => Plan::Call {
                request: RpcRequest::Restart { pattern },
                spawn: true,
                report: Report::Acted(Verb::Restarted),
            },
            CliCommand::Why { path } => Plan::Call {
                request: RpcRequest::Why { path },
                spawn: false,
                report: Report::Why,
            },
            CliCommand::Screen { path } => Plan::Call {
                request: RpcRequest::Screen { path },
                spawn: false,
                report: Report::Screen,
            },
            CliCommand::Server(command) => plan_server(command),
            CliCommand::Mprocs { args } => {
                let ghost given = args.deep_view();
                let mut argv: Vec<String> = Vec::new();
                argv.push("mprocs".to_owned());
                let mut args = args;
                argv.append(&mut args);
                assert(argv.deep_view() =~= seq!["mprocs"@] + given);
                Plan::Mprocs { argv }
            },
            CliCommand::Unknown { name } => {
                let mut message = "unknown command: ".to_owned();
                message.append(name.as_str());
                Plan::Fail { message }
            },
            CliCommand::Files { files } => plan_files(files),
        }
    }
}

// ---------------------------------------------------------------------------
// The working directory.
// ---------------------------------------------------------------------------

/// The directory that was found, or the message of the failure.
pub open spec fn dir_view<P>(dir: Result<P, String>) -> Read<P> {
    match dir {
        Ok(dir) => Ok(dir),
        Err(message) => Err(message@),
    }
}

/// A failure to find the directory that was asked for names it.
pub open spec fn dir_read<P>(chdir: Option<String>, found: Result<P, String>) -> Read<P> {
    match (chdir, found) {
        (_, Ok(found)) => Ok(found),
        (Some(asked), Err(error)) => Err("invalid --chdir `"@ + asked@ + "`: "@ + error@),
        (None, Err(error)) => Err(error@),
    }
}

/// The directory whose server is meant. `found` is the full form of the
/// directory that was asked for, or else the current directory.
pub fn resolve_working_dir<P>(chdir: &Option<String>, found: Result<P, String>) -> (dir: Result<
    P,
    String,
>)
    ensures
        dir_view(dir) == dir_read(*chdir, found),
{
    match found {
        Ok(found) => Ok(found),
        Err(error) => match chdir {
            Some(asked) => {
                let mut message = "invalid --chdir `".to_owned();
                message.append(asked.as_str());
                message.append("`: ");
                message.append(error.as_str());
                Err(message)
            },
            None => Err(error),
        },
    }
}

// ---------------------------------------------------------------------------
// The reports.
// ---------------------------------------------------------------------------

pub open spec fn verb_text(verb: Verb) -> Seq<char> {
    match verb {
        Verb::Started => "Started"@,
        Verb::Stopped => "Stopped"@,
        Verb::Killed => "Killed"@,
        Verb::Vetoed => "Vetoed"@,
        Verb::Restarted => "Restarted"@,
        Verb::PutDown => "Put down"@,
    }
}

impl Verb {
    pub fn text(self) -> (text: &'static str)
        ensures
            text@ == verb_text(self),
    {
        match self {
            Verb::Started => "Started",
            Verb::Stopped => "Stopped",
            Verb::Killed => "Killed",
            Verb::Vetoed => "Vetoed",
            Verb::Restarted => "Restarted",
            Verb::PutDown => "Put down",
        }
    }
}

pub open spec fn reported(report: Report, value: Json, as_json: bool) -> Read<Seq<char>> {
    match report {
        Report::Acted(verb) => acted_report(
            value,
            as_json,
            verb_text(verb),
            "No tasks matched."@,
        ),
        Report::Spawned => spawned_report(value, as_json),
        Report::TaskList => task_list_report(value, as_json),
        Report::Why => why_report(value, as_json),
        Report::Screen => screen_report(value, as_json),
    }
}

impl Report {
    /// The text to print about a result, as JSON if that was asked for.
    pub fn render(self, result: Value, as_json: bool) -> (text: Result<String, String>)
        ensures
            read_view(text) == reported(self, json(result), as_json),
    {
        match self {
            Report::Acted(verb) => report_acted(
                result,
                as_json,
                verb.text(),
                "No tasks matched.",
            ),
            Report::Spawned => report_spawned(result, as_json),
            Report::TaskList => report_task_list(result, as_json),
            Report::Why => report_why(result, as_json),
            Report::Screen => report_screen(result, as_json),
        }
    }
}

// ---------------------------------------------------------------------------
// Laws.
// ---------------------------------------------------------------------------

/// No name stands twice in a spawn's environment, and of several settings of
/// one name the last wins.
pub proof fn law_last_setting_wins(settings: Seq<Seq<char>>, last: Seq<char>)
    requires
        settings_read(settings) is Ok,
        last.contains('='),
    ensures
        settings_read(settings.push(last)) is Ok,
        keys(settings_read(settings.push(last))->Ok_0).no_duplicates(),
        entries_map(settings_read(settings.push(last))->Ok_0) == entries_map(
            settings_read(settings)->Ok_0,
        ).insert(key_of(last), Some(value_of(last))),
{
    assert(settings.push(last).drop_last() =~= settings);
    lemma_settings_are_distinct(settings);
    lemma_put_entry_map(settings_read(settings)->Ok_0, key_of(last), Some(value_of(last)));
}

proof fn lemma_settings_are_distinct(settings: Seq<Seq<char>>)
    requires
        settings_read(settings) is Ok,
    ensures
        keys(settings_read(settings)->Ok_0).no_duplicates(),
    decreases settings.len(),
{
    if settings.len() > 0 {
        lemma_settings_are_distinct(settings.drop_last());
        lemma_put_entry_map(
            settings_read(settings.drop_last())->Ok_0,
            key_of(settings.last()),
            Some(value_of(settings.last())),
        );
    }
}

/// A setting says its name and its value in one piece: nothing of it is lost,
/// and the name holds no `=`.
pub proof fn law_settings_split_in_two(setting: Seq<char>)
    requires
        setting.contains('='),
    ensures
        setting == key_of(setting) + seq!['='] + value_of(setting),
        !key_of(setting).contains('='),
    decreases setting.len(),
{
    lemma_mark_exists(setting, '=');
    let at = first_mark(setting, '=');
    assert(is_first_mark(setting, '=', at));
    assert(setting =~= key_of(setting) + seq!['='] + value_of(setting));
}

proof fn lemma_mark_exists(text: Seq<char>, mark: char)
    requires
        text.contains(mark),
    ensures
        exists|at: int| is_first_mark(text, mark, at),
    decreases text.len(),
{
    let at = text.index_of(mark);
    let before = text.take(at);
    if before.contains(mark) {
        lemma_mark_exists(before, mark);
        let earlier = choose|earlier: int| is_first_mark(before, mark, earlier);
        assert(before.take(earlier) =~= text.take(earlier));
        assert(is_first_mark(text, mark, earlier));
    } else {
        assert(is_first_mark(text, mark, at));
    }
}

/// Only the commands that want tasks running, and the terminal interface, start
/// a server where none is running.
pub proof fn law_who_starts_the_server(command: CliCommand)
    requires
        planned(command) is Call,
    ensures
        planned(command)->Call_spawn <==> command is Up || command is Spawn || command is Start
            || command is Restart,
{
}

/// A command that opens the terminal interface, asks the server something, or
/// starts, stops or describes it is about the server of a directory, and the
/// others are not. A spawn that cannot be planned is about one all the same.
pub proof fn law_who_wants_a_dir(command: CliCommand)
    ensures
        wants_dir(command) <==> command is Spawn || match planned(command) {
            PlanView::Call { .. } | PlanView::Tui { .. } => true,
            PlanView::StartServer | PlanView::StopServer | PlanView::ServerStatus => true,
            _ => false,
        },
{
}

} // verus!
