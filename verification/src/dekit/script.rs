//! Running the exported `main` of a script.

use crate::dekit::report::{report, report_text};
use crate::json::{json_text, new_object, no_fields, put, text_value, Json};
use vstd::prelude::*;
use vstd::string::*;

verus! {

/// What a script exports as `main`.
pub enum MainKind {
    Constructor,
    Function,
    /// Something that cannot be called, with the name of its type.
    Other { kind: String },
}

/// What came of the call: a value, or the promise of one.
#[derive(Clone, Copy, Debug, PartialEq, Eq, Structural)]
pub enum Called {
    Value,
    Promise,
}

/// The next thing to do about a script.
pub enum ModuleStep {
    /// Restore the module's namespace.
    Restore,
    /// Read the exported `main`.
    ReadMain,
    /// Call `main`, as a constructor or as a function.
    Call { constructor: bool },
    /// Wait for the promise.
    Await,
    /// Print the value.
    Print,
    Fail { message: String },
}

/// The mathematical content of a [`ModuleStep`].
pub enum ModuleStepView {
    Restore,
    ReadMain,
    Call { constructor: bool },
    Await,
    Print,
    Fail { message: Seq<char> },
}

impl View for ModuleStep {
    type V = ModuleStepView;

    open spec fn view(&self) -> ModuleStepView {
        match *self {
            ModuleStep::Restore => ModuleStepView::Restore,
            ModuleStep::ReadMain => ModuleStepView::ReadMain,
            ModuleStep::Call { constructor } => ModuleStepView::Call { constructor },
            ModuleStep::Await => ModuleStepView::Await,
            ModuleStep::Print => ModuleStepView::Print,
            ModuleStep::Fail { message } => ModuleStepView::Fail { message: message@ },
        }
    }
}

/// An error of the script under what was being done when it came.
pub open spec fn scoped(scope: Seq<char>, error: Seq<char>) -> Seq<char> {
    scope + ":\n"@ + error
}

/// Puts an error of the script under what was being done when it came.
pub fn map_js_error<T>(result: Result<T, String>, scope: &str) -> (mapped: Result<T, String>)
    ensures
        match result {
            Ok(value) => mapped == Result::<T, String>::Ok(value),
            Err(error) => mapped is Err && mapped->Err_0@ == scoped(scope@, error@),
        },
{
    match result {
        Ok(value) => Ok(value),
        Err(error) => {
            let mut message = scope.to_owned();
            message.append(":\n");
            message.append(error.as_str());
            Err(message)
        },
    }
}

/// Begins to run the exported `main`.
pub fn run_module_main() -> (step: ModuleStep)
    ensures
        step@ == ModuleStepView::Restore,
{
    ModuleStep::Restore
}

pub open spec fn after_restore(outcome: Result<(), String>) -> ModuleStepView {
    match outcome {
        Ok(_) => ModuleStepView::ReadMain,
        Err(error) => ModuleStepView::Fail {
            message: scoped("Failed to restore module namespace"@, error@),
        },
    }
}

pub fn restored(outcome: Result<(), String>) -> (step: ModuleStep)
    ensures
        step@ == after_restore(outcome),
{
    match map_js_error(outcome, "Failed to restore module namespace") {
        Ok(_) => ModuleStep::ReadMain,
        Err(message) => ModuleStep::Fail { message },
    }
}

/// Only a constructor or a function can be called.
pub open spec fn after_read(outcome: Result<MainKind, String>) -> ModuleStepView {
    match outcome {
        Ok(MainKind::Constructor) => ModuleStepView::Call { constructor: true },
        Ok(MainKind::Function) => ModuleStepView::Call { constructor: false },
        Ok(MainKind::Other { kind }) => ModuleStepView::Fail {
            message: "Exported `main` is not a function ("@ + kind@ + ")."@,
        },
        Err(error) => ModuleStepView::Fail {
            message: scoped("Failed to read exported `main`"@, error@),
        },
    }
}

pub fn main_read(outcome: Result<MainKind, String>) -> (step: ModuleStep)
    ensures
        step@ == after_read(outcome),
{
    match map_js_error(outcome, "Failed to read exported `main`") {
        Ok(MainKind::Constructor) => ModuleStep::Call { constructor: true },
        Ok(MainKind::Function) => ModuleStep::Call { constructor: false },
        Ok(MainKind::Other { kind }) => {
            let mut message = "Exported `main` is not a function (".to_owned();
            message.append(kind.as_str());
            message.append(").");
            ModuleStep::Fail { message }
        },
        Err(message) => ModuleStep::Fail { message },
    }
}

pub open spec fn call_scope(constructor: bool) -> Seq<char> {
    if constructor {
        "Error while calling exported constructor `main`"@
    } else {
        "Error while calling exported function `main`"@
    }
}

/// A promise is waited for, a value is printed.
pub open spec fn after_call(constructor: bool, outcome: Result<Called, String>) -> ModuleStepView {
    match outcome {
        Ok(Called::Value) => ModuleStepView::Print,
        Ok(Called::Promise) => ModuleStepView::Await,
        Err(error) => ModuleStepView::Fail { message: scoped(call_scope(constructor), error@) },
    }
}

/// Goes on after the call of `main`.
pub fn main_called(constructor: bool, outcome: Result<Called, String>) -> (step: ModuleStep)
    ensures
        step@ == after_call(constructor, outcome),
{
    let scope = if constructor {
        "Error while calling exported constructor `main`"
    } else {
        "Error while calling exported function `main`"
    };
    match map_js_error(outcome, scope) {
        Ok(Called::Value) => ModuleStep::Print,
        Ok(Called::Promise) => ModuleStep::Await,
        Err(message) => ModuleStep::Fail { message },
    }
}

pub open spec fn after_await(outcome: Result<(), String>) -> ModuleStepView {
    match outcome {
        Ok(_) => ModuleStepView::Print,
        Err(error) => ModuleStepView::Fail {
            message: scoped("Unhandled rejection in exported `main`"@, error@),
        },
    }
}

pub fn awaited(outcome: Result<(), String>) -> (step: ModuleStep)
    ensures
        step@ == after_await(outcome),
{
    match map_js_error(outcome, "Unhandled rejection in exported `main`") {
        Ok(_) => ModuleStep::Print,
        Err(message) => ModuleStep::Fail { message },
    }
}

/// What `main` came to, as the engine shows it.
pub open spec fn value_json(shown: Seq<char>) -> Json {
    Json::Object(no_fields().insert("value"@, Json::Text(shown)))
}

/// Reports what `main` came to, as the engine shows it.
pub fn report_value(shown: &str, as_json: bool) -> (report: String)
    ensures
        report@ == report_text(as_json, value_json(shown@), "-> "@ + shown@),
{
    let mut object = new_object();
    put(&mut object, "value", text_value(shown.to_owned()));
    let mut text = "-> ".to_owned();
    text.append(shown);
    report(as_json, object, text)
}

// ---------------------------------------------------------------------------
// Laws.
// ---------------------------------------------------------------------------

/// Only what can be called is called, as what it is; anything else is refused by
/// the name of its type.
pub proof fn law_only_callables_are_called(kind: MainKind, step: ModuleStep)
    requires
        step@ == after_read(Ok(kind)),
    ensures
        kind is Constructor <==> (step matches ModuleStep::Call { constructor } && constructor),
        kind is Function <==> (step matches ModuleStep::Call { constructor } && !constructor),
        kind matches MainKind::Other { kind: name } ==> (step matches ModuleStep::Fail { message }
            && message@ == "Exported `main` is not a function ("@ + name@ + ")."@),
{
}

/// A promise is waited for and a value is not; either way it is printed in the
/// end.
pub proof fn law_promises_are_waited_for(constructor: bool, called: Called, step: ModuleStep)
    requires
        step@ == after_call(constructor, Ok(called)),
    ensures
        called is Promise <==> step is Await,
        called is Value <==> step is Print,
        after_await(Ok(())) is Print,
        after_restore(Ok(())) is ReadMain,
{
}

/// Wherever an error comes, the run ends with it, in the engine's words under a
/// heading that says what was being done; the headings differ.
pub proof fn law_script_errors_end_the_run(error: String)
    ensures
        after_restore(Err(error)) matches ModuleStepView::Fail { message } && message
            == "Failed to restore module namespace"@ + ":\n"@ + error@,
        after_read(Err(error)) matches ModuleStepView::Fail { message } && message
            == "Failed to read exported `main`"@ + ":\n"@ + error@,
        after_call(true, Err(error)) matches ModuleStepView::Fail { message } && message
            == "Error while calling exported constructor `main`"@ + ":\n"@ + error@,
        after_call(false, Err(error)) matches ModuleStepView::Fail { message } && message
            == "Error while calling exported function `main`"@ + ":\n"@ + error@,
        after_await(Err(error)) matches ModuleStepView::Fail { message } && message
            == "Unhandled rejection in exported `main`"@ + ":\n"@ + error@,
{
}

/// People see the value behind an arrow, programs see it in a field.
pub proof fn law_values_are_shown(shown: Seq<char>)
    ensures
        report_text(false, value_json(shown), "-> "@ + shown) == "-> "@ + shown + "\n"@,
        report_text(true, value_json(shown), "-> "@ + shown) == json_text(value_json(shown))
            + "\n"@,
        value_json(shown) matches Json::Object(object) && object.dom() == set!["value"@]
            && object["value"@] == Json::Text(shown),
{
    assert(no_fields().dom() =~= Set::empty());
    assert(value_json(shown)->Object_0.dom() =~= set!["value"@]);
}

} // verus!
