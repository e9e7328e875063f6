use dekit::dekit::script::{
    awaited, main_called, main_read, map_js_error, report_value, restored, run_module_main, Called,
    MainKind, ModuleStep,
};

fn failure(step: ModuleStep) -> String {
    match step {
        ModuleStep::Fail { message } => message,
        _ => panic!("no failure"),
    }
}

fn oops<T>() -> Result<T, String> {
    Err("oops".to_string())
}

#[test]
fn scripts_run_step_by_step() {
    assert!(matches!(run_module_main(), ModuleStep::Restore));
    assert!(matches!(restored(Ok(())), ModuleStep::ReadMain));
    assert!(matches!(
        main_read(Ok(MainKind::Function)),
        ModuleStep::Call { constructor: false }
    ));
    assert!(matches!(
        main_read(Ok(MainKind::Constructor)),
        ModuleStep::Call { constructor: true }
    ));
    assert!(matches!(main_called(false, Ok(Called::Value)), ModuleStep::Print));
    assert!(matches!(main_called(true, Ok(Called::Promise)), ModuleStep::Await));
    assert!(matches!(awaited(Ok(())), ModuleStep::Print));
    assert_eq!(report_value("Int(3)", false), "-> Int(3)\n");
    assert_eq!(report_value("String(\"x\")", true), "{\"value\":\"String(\\\"x\\\")\"}\n");
}

#[test]
fn script_errors_say_where_they_come_from() {
    assert_eq!(failure(restored(oops())), "Failed to restore module namespace:\noops");
    assert_eq!(failure(main_read(oops())), "Failed to read exported `main`:\noops");
    assert_eq!(
        failure(main_called(true, oops())),
        "Error while calling exported constructor `main`:\noops"
    );
    assert_eq!(
        failure(main_called(false, oops())),
        "Error while calling exported function `main`:\noops"
    );
    assert_eq!(
        failure(awaited(oops())),
        "Unhandled rejection in exported `main`:\noops"
    );
    assert_eq!(map_js_error(Ok(1), "x"), Ok(1));
    assert_eq!(map_js_error::<u8>(oops(), "x"), Err("x:\noops".to_string()));
}

#[test]
fn main_must_be_callable() {
    assert_eq!(
        failure(main_read(Ok(MainKind::Other { kind: "undefined".to_string() }))),
        "Exported `main` is not a function (undefined)."
    );
}
