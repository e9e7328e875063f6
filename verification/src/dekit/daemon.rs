//! Starting, stopping and describing the background server.
//!
//! Starting and stopping go in steps, like the handling of a request: each step
//! is the end, or one thing to be done outside together with what waits for its
//! outcome.

use crate::dekit::report::{compact, line, report, report_text};
use crate::json::{
    bool_value, json, json_text, jsons, list_value, new_object, no_fields, null_value, object_value,
    put, text_value, unsigned, unsigned_value, Json,
};
use crate::text::{decimal, write_decimal};
use serde_json::Value;
use vstd::prelude::*;
use vstd::string::*;

verus! {

/// A server as its lock file describes it.
#[derive(Clone, Debug)]
pub struct DaemonInfo {
    pub is_running: bool,
    pub pid: u32,
    pub working_dir: String,
    pub socket: String,
    pub version: String,
}

/// The mathematical content of a [`DaemonInfo`].
pub struct DaemonView {
    pub is_running: bool,
    pub pid: u32,
    pub working_dir: Seq<char>,
    pub socket: Seq<char>,
    pub version: Seq<char>,
}

impl DeepView for DaemonInfo {
    type V = DaemonView;

    open spec fn deep_view(&self) -> DaemonView {
        DaemonView {
            is_running: self.is_running,
            pid: self.pid,
            working_dir: self.working_dir@,
            socket: self.socket@,
            version: self.version@,
        }
    }
}

// ---------------------------------------------------------------------------
// Descriptions.
// ---------------------------------------------------------------------------

pub open spec fn info_json(info: DaemonView) -> Json {
    Json::Object(
        no_fields().insert("running"@, Json::Bool(info.is_running)).insert(
            "pid"@,
            unsigned(info.pid as u64),
        ).insert("working_dir"@, Json::Text(info.working_dir)).insert(
            "socket"@,
            Json::Text(info.socket),
        ).insert("version"@, Json::Text(info.version)),
    )
}

pub fn daemon_json(info: Option<&DaemonInfo>) -> (value: Value)
    ensures
        json(value) == match info {
            Some(info) => info_json(info.deep_view()),
            None => Json::Null,
        },
{
    match info {
        Some(info) => {
            let mut object = new_object();
            put(&mut object, "running", bool_value(info.is_running));
            put(&mut object, "pid", unsigned_value(info.pid as u64));
            put(&mut object, "working_dir", text_value(info.working_dir.clone()));
            put(&mut object, "socket", text_value(info.socket.clone()));
            put(&mut object, "version", text_value(info.version.clone()));
            object_value(object)
        },
        None => null_value(),
    }
}

/// A lock file whose server is gone is stale.
pub open spec fn status_token(is_running: bool) -> Seq<char> {
    if is_running {
        "running"@
    } else {
        "stale"@
    }
}

pub open spec fn status_text(info: DaemonView) -> Seq<char> {
    line(
        "["@ + status_token(info.is_running) + "] pid="@ + decimal(info.pid as nat) + " socket="@
            + info.socket + " version="@ + info.version,
    )
}

/// Like the status, with the directory.
pub open spec fn listed_text(info: DaemonView) -> Seq<char> {
    line(
        "["@ + status_token(info.is_running) + "] pid="@ + decimal(info.pid as nat) + " dir="@
            + info.working_dir + " socket="@ + info.socket + " version="@ + info.version,
    )
}

pub open spec fn listed_lines(infos: Seq<DaemonView>) -> Seq<char>
    decreases infos.len(),
{
    if infos.len() == 0 {
        Seq::empty()
    } else {
        listed_lines(infos.drop_last()) + listed_text(infos.last())
    }
}

fn described(info: &DaemonInfo, with_dir: bool) -> (text: String)
    ensures
        text@ == if with_dir {
            listed_text(info.deep_view())
        } else {
            status_text(info.deep_view())
        },
{
    let mut text = "[".to_owned();
    text.append(
        if info.is_running {
            "running"
        } else {
            "stale"
        },
    );
    text.append("] pid=");
    text.append(write_decimal(info.pid as u64).as_str());
    if with_dir {
        text.append(" dir=");
        text.append(info.working_dir.as_str());
    }
    text.append(" socket=");
    text.append(info.socket.as_str());
    text.append(" version=");
    text.append(info.version.as_str());
    text.append("\n");
    text
}

pub open spec fn status_report(info: Option<DaemonView>, as_json: bool) -> Seq<char> {
    if as_json {
        line(
            json_text(
                match info {
                    Some(info) => info_json(info),
                    None => Json::Null,
                },
            ),
        )
    } else {
        match info {
            Some(info) => status_text(info),
            None => line("No daemon for this directory."@),
        }
    }
}

/// Reports on the server of a directory, if it has one.
pub fn report_status(info: Option<&DaemonInfo>, as_json: bool) -> (report: String)
    ensures
        report@ == status_report(
            match info {
                Some(info) => Some(info.deep_view()),
                None => None,
            },
            as_json,
        ),
{
    if as_json {
        let mut report = compact(&daemon_json(info));
        report.append("\n");
        return report;
    }
    match info {
        Some(info) => described(info, false),
        None => {
            let mut report = "No daemon for this directory.".to_owned();
            report.append("\n");
            report
        },
    }
}

pub open spec fn infos_json(infos: Seq<DaemonView>) -> Json {
    Json::List(Seq::new(infos.len(), |i: int| info_json(infos[i])))
}

pub open spec fn list_report(infos: Seq<DaemonView>, as_json: bool) -> Seq<char> {
    if as_json {
        line(json_text(infos_json(infos)))
    } else if infos.len() == 0 {
        line("No daemons found."@)
    } else {
        listed_lines(infos)
    }
}

fn infos_value(infos: &Vec<DaemonInfo>) -> (value: Value)
    ensures
        json(value) == infos_json(infos.deep_view()),
{
    let ghost views = infos.deep_view();
    let mut items: Vec<Value> = Vec::new();
    for i in 0..infos.len()
        invariant
            items@.len() == i,
            forall|j: int|
                0 <= j < i ==> json(#[trigger] items@[j]) == info_json(infos@[j].deep_view()),
    {
        items.push(daemon_json(Some(&infos[i])));
    }
    assert(jsons(items@) =~= Seq::new(views.len(), |i: int| info_json(views[i])));
    list_value(items)
}

/// Reports on all servers of the machine.
pub fn report_list(infos: &Vec<DaemonInfo>, as_json: bool) -> (report: String)
    ensures
        report@ == list_report(infos.deep_view(), as_json),
{
    let ghost views = infos.deep_view();
    if as_json {
        let mut report = compact(&infos_value(infos));
        report.append("\n");
        return report;
    }
    if infos.len() == 0 {
        let mut report = "No daemons found.".to_owned();
        report.append("\n");
        return report;
    }
    let mut report = String::new();
    assert(views.take(0) =~= Seq::<DaemonView>::empty());
    for i in 0..infos.len()
        invariant
            views == infos.deep_view(),
            report@ == listed_lines(views.take(i as int)),
    {
        report.append(described(&infos[i], true).as_str());
        assert(views.take(i + 1).drop_last() =~= views.take(i as int));
    }
    assert(views.take(infos@.len() as int) =~= views);
    report
}

/// How many lock files were removed.
pub open spec fn clean_json(count: usize) -> Json {
    Json::Object(no_fields().insert("removed"@, unsigned(count as u64)))
}

pub open spec fn clean_text(count: usize) -> Seq<char> {
    "Removed "@ + decimal(count as nat) + " stale lock file(s)."@
}

/// Reports how many stale lock files were removed.
pub fn report_clean(count: usize, as_json: bool) -> (report: String)
    ensures
        report@ == report_text(as_json, clean_json(count), clean_text(count)),
{
    let mut object = new_object();
    put(&mut object, "removed", unsigned_value(count as u64));
    let mut text = "Removed ".to_owned();
    text.append(write_decimal(count as u64).as_str());
    text.append(" stale lock file(s).");
    report(as_json, object, text)
}

pub open spec fn stopped_json() -> Json {
    Json::Object(no_fields().insert("stopped"@, Json::Bool(true)))
}

/// Reports that a server was stopped.
pub fn report_stopped(as_json: bool) -> (report: String)
    ensures
        report@ == report_text(as_json, stopped_json(), "Daemon stopped."@),
{
    let mut object = new_object();
    put(&mut object, "stopped", bool_value(true));
    report(as_json, object, "Daemon stopped.".to_owned())
}

/// The server was there already.
pub open spec fn already_running_json(pid: u32) -> Json {
    Json::Object(
        no_fields().insert("started"@, Json::Bool(false)).insert("pid"@, unsigned(pid as u64)),
    )
}

pub open spec fn already_running(pid: u32, as_json: bool) -> Seq<char> {
    report_text(
        as_json,
        already_running_json(pid),
        "Daemon already running (pid="@ + decimal(pid as nat) + ")."@,
    )
}

fn report_already_running(pid: u32, as_json: bool) -> (report: String)
    ensures
        report@ == already_running(pid, as_json),
{
    let mut object = new_object();
    put(&mut object, "started", bool_value(false));
    put(&mut object, "pid", unsigned_value(pid as u64));
    let mut text = "Daemon already running (pid=".to_owned();
    text.append(write_decimal(pid as u64).as_str());
    text.append(").");
    report(as_json, object, text)
}

/// The server was started.
pub open spec fn started_json(dir: Seq<char>) -> Json {
    Json::Object(
        no_fields().insert("started"@, Json::Bool(true)).insert("working_dir"@, Json::Text(dir)),
    )
}

pub open spec fn started(dir: Seq<char>, as_json: bool) -> Seq<char> {
    report_text(as_json, started_json(dir), "Daemon started for "@ + dir + "."@)
}

fn report_started(dir: &str, as_json: bool) -> (report: String)
    ensures
        report@ == started(dir@, as_json),
{
    let mut object = new_object();
    put(&mut object, "started", bool_value(true));
    put(&mut object, "working_dir", text_value(dir.to_owned()));
    let mut text = "Daemon started for ".to_owned();
    text.append(dir);
    text.append(".");
    report(as_json, object, text)
}

// ---------------------------------------------------------------------------
// Stopping.
// ---------------------------------------------------------------------------

/// What a lock file says of its server.
#[derive(Clone, Copy, Debug, PartialEq, Eq, Structural)]
pub enum Found {
    /// There is no lock file.
    Absent,
    /// The server is gone.
    Stale,
    /// The server runs.
    Running { pid: u32 },
}

pub open spec fn found_of(info: Option<DaemonInfo>) -> Found {
    match info {
        None => Found::Absent,
        Some(info) => if info.is_running {
            Found::Running { pid: info.pid }
        } else {
            Found::Stale
        },
    }
}

impl Found {
    pub fn of(info: &Option<DaemonInfo>) -> (found: Found)
        ensures
            found == found_of(*info),
    {
        match info {
            None => Found::Absent,
            Some(info) => {
                if info.is_running {
                    Found::Running { pid: info.pid }
                } else {
                    Found::Stale
                }
            },
        }
    }
}

/// How often a server is asked whether it is gone, or has come up.
pub const POLLS: u32 = 50;

/// How long to wait between two looks at a server that is stopping.
pub const STOP_PAUSE_MILLIS: u32 = 100;

/// How long to wait between two looks at a server that is coming up.
pub const START_PAUSE_MILLIS: u32 = 40;

/// What waits for a look at the lock file of a server that is to stop.
#[derive(Clone, Copy, Debug, PartialEq, Eq, Structural)]
pub enum StopLook {
    /// The first look: is there anything to stop?
    First,
    /// A look after the request to shut down, with so many more to come.
    Poll { left: u32 },
}

/// What waits for the removal of a stale lock file.
#[derive(Clone, Copy, Debug, PartialEq, Eq, Structural)]
pub enum StopCleaned {
    /// The server was gone from the start.
    TooLate,
    /// The server has gone.
    Gone,
}

/// What waits for the request to shut down.
#[derive(Clone, Copy, Debug, PartialEq, Eq, Structural)]
pub struct StopAsked;

/// What waits for a pause to end, with so many looks to come.
#[derive(Clone, Copy, Debug, PartialEq, Eq, Structural)]
pub struct StopPaused {
    pub left: u32,
}

/// What waits for the end by force.
#[derive(Clone, Copy, Debug, PartialEq, Eq, Structural)]
pub struct StopForced;

/// The next thing to do about a server that is to stop.
pub enum StopStep {
    /// Look at the lock file.
    Status { waiting: StopLook },
    /// Remove the stale lock file.
    Clean { waiting: StopCleaned },
    /// Send the request to shut down, without starting a server for it. How
    /// that goes does not matter.
    Request { waiting: StopAsked },
    Sleep { millis: u32, waiting: StopPaused },
    /// Stop the server by force.
    Kill { waiting: StopForced },
    Done,
    Fail { message: String },
}

/// The mathematical content of a [`StopStep`].
pub enum StopStepView {
    Status { waiting: StopLook },
    Clean { waiting: StopCleaned },
    Request,
    Sleep { millis: u32, left: u32 },
    Kill,
    Done,
    Fail { message: Seq<char> },
}

impl View for StopStep {
    type V = StopStepView;

    open spec fn view(&self) -> StopStepView {
        match *self {
            StopStep::Status { waiting } => StopStepView::Status { waiting },
            StopStep::Clean { waiting } => StopStepView::Clean { waiting },
            StopStep::Request { .. } => StopStepView::Request,
            StopStep::Sleep { millis, waiting } => StopStepView::Sleep {
                millis,
                left: waiting.left,
            },
            StopStep::Kill { .. } => StopStepView::Kill,
            StopStep::Done => StopStepView::Done,
            StopStep::Fail { message } => StopStepView::Fail { message: message@ },
        }
    }
}

/// Begins to stop the server of a directory.
pub fn shutdown_daemon() -> (step: StopStep)
    ensures
        step@ == (StopStepView::Status { waiting: StopLook::First }),
{
    StopStep::Status { waiting: StopLook::First }
}

/// A server that is not there, or not running, cannot be stopped; one that runs
/// is asked to shut down. Then it is looked at until it is gone.
pub open spec fn after_stop_look(
    waiting: StopLook,
    status: Result<Found, String>,
) -> StopStepView {
    match status {
        Err(message) => StopStepView::Fail { message: message@ },
        Ok(found) => match waiting {
            StopLook::First => match found {
                Found::Absent => StopStepView::Fail {
                    message: "No daemon found for this directory"@,
                },
                Found::Stale => StopStepView::Clean { waiting: StopCleaned::TooLate },
                Found::Running { .. } => StopStepView::Request,
            },
            StopLook::Poll { left } => match found {
                Found::Absent => StopStepView::Done,
                Found::Stale => StopStepView::Clean { waiting: StopCleaned::Gone },
                Found::Running { .. } => StopStepView::Sleep { millis: STOP_PAUSE_MILLIS, left },
            },
        },
    }
}

impl StopLook {
    pub fn resume(self, status: Result<Found, String>) -> (step: StopStep)
        ensures
            step@ == after_stop_look(self, status),
    {
        let found = match status {
            Ok(found) => found,
            Err(message) => {
                return StopStep::Fail { message };
            },
        };
        match self {
            StopLook::First => match found {
                Found::Absent => StopStep::Fail {
                    message: "No daemon found for this directory".to_owned(),
                },
                Found::Stale => StopStep::Clean { waiting: StopCleaned::TooLate },
                Found::Running { .. } => StopStep::Request { waiting: StopAsked },
            },
            StopLook::Poll { left } => match found {
                Found::Absent => StopStep::Done,
                Found::Stale => StopStep::Clean { waiting: StopCleaned::Gone },
                Found::Running { .. } => StopStep::Sleep {
                    millis: STOP_PAUSE_MILLIS,
                    waiting: StopPaused { left },
                },
            },
        }
    }
}

pub open spec fn after_stop_cleaned(
    waiting: StopCleaned,
    cleaned: Result<(), String>,
) -> StopStepView {
    match cleaned {
        Err(message) => StopStepView::Fail { message: message@ },
        Ok(_) => match waiting {
            StopCleaned::TooLate => StopStepView::Fail {
                message: "Daemon is not running (stale lock file cleaned up)"@,
            },
            StopCleaned::Gone => StopStepView::Done,
        },
    }
}

impl StopCleaned {
    pub fn resume(self, cleaned: Result<(), String>) -> (step: StopStep)
        ensures
            step@ == after_stop_cleaned(self, cleaned),
    {
        match cleaned {
            Err(message) => StopStep::Fail { message },
            Ok(_) => match self {
                StopCleaned::TooLate => StopStep::Fail {
                    message: "Daemon is not running (stale lock file cleaned up)".to_owned(),
                },
                StopCleaned::Gone => StopStep::Done,
            },
        }
    }
}

pub open spec fn after_stop_asked() -> StopStepView {
    StopStepView::Status { waiting: StopLook::Poll { left: (POLLS - 1) as u32 } }
}

impl StopAsked {
    pub fn resume(self) -> (step: StopStep)
        ensures
            step@ == after_stop_asked(),
    {
        StopStep::Status { waiting: StopLook::Poll { left: POLLS - 1 } }
    }
}

/// When no look is left the server is ended by force.
pub open spec fn after_stop_paused(left: u32) -> StopStepView {
    if left > 0 {
        StopStepView::Status { waiting: StopLook::Poll { left: (left - 1) as u32 } }
    } else {
        StopStepView::Kill
    }
}

impl StopPaused {
    pub fn resume(self) -> (step: StopStep)
        ensures
            step@ == after_stop_paused(self.left),
    {
        if self.left > 0 {
            StopStep::Status { waiting: StopLook::Poll { left: self.left - 1 } }
        } else {
            StopStep::Kill { waiting: StopForced }
        }
    }
}

pub open spec fn after_stop_forced(forced: Result<(), String>) -> StopStepView {
    match forced {
        Ok(_) => StopStepView::Done,
        Err(message) => StopStepView::Fail { message: message@ },
    }
}

impl StopForced {
    pub fn resume(self, forced: Result<(), String>) -> (step: StopStep)
        ensures
            step@ == after_stop_forced(forced),
    {
        match forced {
            Ok(_) => StopStep::Done,
            Err(message) => StopStep::Fail { message },
        }
    }
}

// ---------------------------------------------------------------------------
// Starting.
// ---------------------------------------------------------------------------

/// What waits for a look at the lock file of a server that is to start.
#[derive(Clone, Copy, Debug, PartialEq, Eq, Structural)]
pub enum StartLook {
    /// The first look: is there a server already?
    First,
    /// A look after the launch, with so many more to come.
    Poll { left: u32 },
}

/// What waits for the removal of a stale lock file.
#[derive(Clone, Copy, Debug, PartialEq, Eq, Structural)]
pub struct StartCleaned;

/// What waits for the launch of the server.
#[derive(Clone, Copy, Debug, PartialEq, Eq, Structural)]
pub struct StartLaunched;

/// What waits for a pause to end, with so many looks to come.
#[derive(Clone, Copy, Debug, PartialEq, Eq, Structural)]
pub struct StartPaused {
    pub left: u32,
}

/// The next thing to do about a server that is to start.
pub enum StartStep {
    /// Look at the lock file.
    Status { waiting: StartLook },
    /// Remove the stale lock file.
    Clean { waiting: StartCleaned },
    /// Launch the server.
    Launch { waiting: StartLaunched },
    Sleep { millis: u32, waiting: StartPaused },
    /// Print the report; that is all.
    Done { report: String },
    Fail { message: String },
}

/// The mathematical content of a [`StartStep`].
pub enum StartStepView {
    Status { waiting: StartLook },
    Clean,
    Launch,
    Sleep { millis: u32, left: u32 },
    Done { report: Seq<char> },
    Fail { message: Seq<char> },
}

impl View for StartStep {
    type V = StartStepView;

    open spec fn view(&self) -> StartStepView {
        match *self {
            StartStep::Status { waiting } => StartStepView::Status { waiting },
            StartStep::Clean { .. } => StartStepView::Clean,
            StartStep::Launch { .. } => StartStepView::Launch,
            StartStep::Sleep { millis, waiting } => StartStepView::Sleep {
                millis,
                left: waiting.left,
            },
            StartStep::Done { report } => StartStepView::Done { report: report@ },
            StartStep::Fail { message } => StartStepView::Fail { message: message@ },
        }
    }
}

/// Begins to start the server of a directory.
pub fn start_server() -> (step: StartStep)
    ensures
        step@ == (StartStepView::Status { waiting: StartLook::First }),
{
    StartStep::Status { waiting: StartLook::First }
}

/// The first look at a server that was launched.
pub open spec fn first_poll() -> StartStepView {
    StartStepView::Status { waiting: StartLook::Poll { left: (POLLS - 1) as u32 } }
}

/// Begins to wait for a server that was launched.
pub fn wait_for_daemon() -> (step: StartStep)
    ensures
        step@ == first_poll(),
{
    StartStep::Status { waiting: StartLook::Poll { left: POLLS - 1 } }
}

/// A server that runs is left alone; otherwise one is launched, after a stale
/// lock file was removed. Then it is looked at until it runs.
pub open spec fn after_start_look(
    waiting: StartLook,
    status: Result<Found, String>,
    dir: Seq<char>,
    as_json: bool,
) -> StartStepView {
    match status {
        Err(message) => StartStepView::Fail { message: message@ },
        Ok(found) => match waiting {
            StartLook::First => match found {
                Found::Absent => StartStepView::Launch,
                Found::Stale => StartStepView::Clean,
                Found::Running { pid } => StartStepView::Done {
                    report: already_running(pid, as_json),
                },
            },
            StartLook::Poll { left } => match found {
                Found::Running { .. } => StartStepView::Done {
                    report: started(dir, as_json),
                },
                _ => StartStepView::Sleep { millis: START_PAUSE_MILLIS, left },
            },
        },
    }
}

impl StartLook {
    /// Goes on with the start of the server of `dir`, to be reported as JSON if
    /// that was asked for.
    pub fn resume(self, status: Result<Found, String>, dir: &str, as_json: bool) -> (step:
        StartStep)
        ensures
            step@ == after_start_look(self, status, dir@, as_json),
    {
        let found = match status {
            Ok(found) => found,
            Err(message) => {
                return StartStep::Fail { message };
            },
        };
        match self {
            StartLook::First => match found {
                Found::Absent => StartStep::Launch { waiting: StartLaunched },
                Found::Stale => StartStep::Clean { waiting: StartCleaned },
                Found::Running { pid } => StartStep::Done {
                    report: report_already_running(pid, as_json),
                },
            },
            StartLook::Poll { left } => match found {
                Found::Running { .. } => StartStep::Done { report: report_started(dir, as_json) },
                _ => StartStep::Sleep {
                    millis: START_PAUSE_MILLIS,
                    waiting: StartPaused { left },
                },
            },
        }
    }
}

pub open spec fn after_start_cleaned(cleaned: Result<(), String>) -> StartStepView {
    match cleaned {
        Ok(_) => StartStepView::Launch,
        Err(message) => StartStepView::Fail { message: message@ },
    }
}

impl StartCleaned {
    pub fn resume(self, cleaned: Result<(), String>) -> (step: StartStep)
        ensures
            step@ == after_start_cleaned(cleaned),
    {
        match cleaned {
            Ok(_) => StartStep::Launch { waiting: StartLaunched },
            Err(message) => StartStep::Fail { message },
        }
    }
}

pub open spec fn after_launch(launched: Result<(), String>) -> StartStepView {
    match launched {
        Ok(_) => first_poll(),
        Err(message) => StartStepView::Fail { message: message@ },
    }
}

impl StartLaunched {
    pub fn resume(self, launched: Result<(), String>) -> (step: StartStep)
        ensures
            step@ == after_launch(launched),
    {
        match launched {
            Ok(_) => wait_for_daemon(),
            Err(message) => StartStep::Fail { message },
        }
    }
}

/// When no look is left the server is given up.
pub open spec fn after_start_paused(left: u32) -> StartStepView {
    if left > 0 {
        StartStepView::Status { waiting: StartLook::Poll { left: (left - 1) as u32 } }
    } else {
        StartStepView::Fail { message: "daemon did not come up within 2s"@ }
    }
}

impl StartPaused {
    pub fn resume(self) -> (step: StartStep)
        ensures
            step@ == after_start_paused(self.left),
    {
        if self.left > 0 {
            StartStep::Status { waiting: StartLook::Poll { left: self.left - 1 } }
        } else {
            StartStep::Fail { message: "daemon did not come up within 2s".to_owned() }
        }
    }
}

// ---------------------------------------------------------------------------
// Laws.
// ---------------------------------------------------------------------------

/// What came of a step's outside work.
pub enum Event {
    Status(Result<Found, String>),
    Cleaned(Result<(), String>),
    Asked,
    Launched(Result<(), String>),
    Woke,
    Forced(Result<(), String>),
}

/// The step that follows in stopping a server. A step that does not wait for
/// the event stays.
pub open spec fn stop_next(step: StopStepView, event: Event) -> StopStepView {
    match (step, event) {
        (StopStepView::Status { waiting }, Event::Status(status)) => after_stop_look(
            waiting,
            status,
        ),
        (StopStepView::Clean { waiting }, Event::Cleaned(cleaned)) => after_stop_cleaned(
            waiting,
            cleaned,
        ),
        (StopStepView::Request, Event::Asked) => after_stop_asked(),
        (StopStepView::Sleep { left, .. }, Event::Woke) => after_stop_paused(left),
        (StopStepView::Kill, Event::Forced(forced)) => after_stop_forced(forced),
        _ => step,
    }
}

/// The step that follows in starting a server. A step that does not wait for
/// the event stays.
pub open spec fn start_next(
    step: StartStepView,
    event: Event,
    dir: Seq<char>,
    as_json: bool,
) -> StartStepView {
    match (step, event) {
        (StartStepView::Status { waiting }, Event::Status(status)) => after_start_look(
            waiting,
            status,
            dir,
            as_json,
        ),
        (StartStepView::Clean, Event::Cleaned(cleaned)) => after_start_cleaned(cleaned),
        (StartStepView::Launch, Event::Launched(launched)) => after_launch(launched),
        (StartStepView::Sleep { left, .. }, Event::Woke) => after_start_paused(left),
        _ => step,
    }
}

/// The milliseconds that a stop sleeps when the events come one after another.
pub open spec fn stop_slept(step: StopStepView, events: Seq<Event>) -> int
    decreases events.len(),
{
    if events.len() == 0 {
        0
    } else {
        (match (step, events[0]) {
            (StopStepView::Sleep { millis, .. }, Event::Woke) => millis as int,
            _ => 0,
        }) + stop_slept(stop_next(step, events[0]), events.skip(1))
    }
}

/// The milliseconds that a start sleeps when the events come one after another.
pub open spec fn start_slept(
    step: StartStepView,
    events: Seq<Event>,
    dir: Seq<char>,
    as_json: bool,
) -> int
    decreases events.len(),
{
    if events.len() == 0 {
        0
    } else {
        (match (step, events[0]) {
            (StartStepView::Sleep { millis, .. }, Event::Woke) => millis as int,
            _ => 0,
        }) + start_slept(
            start_next(step, events[0], dir, as_json),
            events.skip(1),
            dir,
            as_json,
        )
    }
}

/// The most that a stop may still sleep.
pub open spec fn stop_budget(step: StopStepView) -> int {
    match step {
        StopStepView::Status { waiting: StopLook::First } => STOP_PAUSE_MILLIS * POLLS,
        StopStepView::Status { waiting: StopLook::Poll { left } } => STOP_PAUSE_MILLIS * (left
            + 1),
        StopStepView::Request => STOP_PAUSE_MILLIS * POLLS,
        StopStepView::Sleep { millis, left } => millis + STOP_PAUSE_MILLIS * left,
        _ => 0,
    }
}

/// The most that a start may still sleep.
pub open spec fn start_budget(step: StartStepView) -> int {
    match step {
        StartStepView::Status { waiting: StartLook::First } => START_PAUSE_MILLIS * POLLS,
        StartStepView::Status { waiting: StartLook::Poll { left } } => START_PAUSE_MILLIS * (left
            + 1),
        StartStepView::Clean => START_PAUSE_MILLIS * POLLS,
        StartStepView::Launch => START_PAUSE_MILLIS * POLLS,
        StartStepView::Sleep { millis, left } => millis + START_PAUSE_MILLIS * left,
        _ => 0,
    }
}

proof fn lemma_stop_budget(step: StopStepView, events: Seq<Event>)
    ensures
        0 <= stop_slept(step, events) <= stop_budget(step),
    decreases events.len(),
{
    if events.len() > 0 {
        lemma_stop_budget(stop_next(step, events[0]), events.skip(1));
    }
}

proof fn lemma_start_budget(
    step: StartStepView,
    events: Seq<Event>,
    dir: Seq<char>,
    as_json: bool,
)
    ensures
        0 <= start_slept(step, events, dir, as_json) <= start_budget(step),
    decreases events.len(),
{
    if events.len() > 0 {
        lemma_start_budget(
            start_next(step, events[0], dir, as_json),
            events.skip(1),
            dir,
            as_json,
        );
    }
}

/// Stopping a server sleeps no longer than five seconds, whatever happens.
pub proof fn law_stopping_sleeps_five_seconds_at_most(events: Seq<Event>)
    ensures
        stop_slept(StopStepView::Status { waiting: StopLook::First }, events) <= 5000,
{
    lemma_stop_budget(StopStepView::Status { waiting: StopLook::First }, events);
}

/// Starting a server sleeps no longer than two seconds, whatever happens.
pub proof fn law_starting_sleeps_two_seconds_at_most(
    events: Seq<Event>,
    dir: Seq<char>,
    as_json: bool,
)
    ensures
        start_slept(
            StartStepView::Status { waiting: StartLook::First },
            events,
            dir,
            as_json,
        ) <= 2000,
{
    lemma_start_budget(
        StartStepView::Status { waiting: StartLook::First },
        events,
        dir,
        as_json,
    );
}

/// A server that runs is never launched again, and one that does not run is
/// never asked to shut down.
pub proof fn law_servers_are_left_alone(found: Found, dir: Seq<char>, as_json: bool)
    ensures
        after_start_look(StartLook::First, Ok(found), dir, as_json) is Done <==> found is Running,
        after_stop_look(StopLook::First, Ok(found)) is Request <==> found is Running,
{
}

/// A server that does not go is ended by force, and one that does not come up
/// is given up, when the last look is spent and not before.
pub proof fn law_patience_ends(left: u32)
    ensures
        after_stop_paused(left) is Kill <==> left == 0,
        after_start_paused(left) is Fail <==> left == 0,
{
}

} // verus!
