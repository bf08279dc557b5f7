use gui::canvas::Element;
use gui::data::Data;
use gui::registry::{Binding, NativeFn};
use gui::rye::Rye;

#[test]
fn valid_script_compiles_and_runs() {
    let mut rye = Rye::new();
    let r = rye.compile("let x = 1 + 1;");
    assert!(r.is_ok());
    assert_eq!(
        rye.program_source().as_deref(),
        Some("let x = 1 + 1;")
    );
    let report = rye.update();
    assert!(report.compile_err.is_none());
    assert!(report.runtime_err.is_none());
    // the compiled program is still the freshly compiled one
    assert_eq!(
        rye.program_source().as_deref(),
        Some("let x = 1 + 1;")
    );
}

#[test]
fn invalid_script_keeps_previous_program() {
    let mut rye = Rye::new();
    rye.compile("let ok = true;").unwrap();
    let r = rye.compile("let broken = (1 +");
    assert!(r.is_err());
    assert!(!r.unwrap_err().message.is_empty());
    // stale-on-error: the program is exactly what it was before
    assert_eq!(rye.program_source().as_deref(), Some("let ok = true;"));
}

#[test]
fn draw_heading_appends_one_heading() {
    let mut rye = Rye::new();
    let handle = rye.handle();
    handle.set_script("draw_heading(\"Hello\")").unwrap();
    let report = rye.update();
    assert!(report.script_changed());
    assert!(report.compile_err.is_none());
    assert!(report.runtime_err.is_none());
    let els = rye.elements();
    assert_eq!(els.len(), 1);
    assert_eq!(els[0], Element::Heading("Hello".to_string()));
}

#[test]
fn syntax_error_reported_and_last_good_program_still_runs() {
    let mut rye = Rye::new();
    let handle = rye.handle();
    handle.set_script("draw_heading(\"good\")").unwrap();
    let first = rye.update();
    assert!(first.compile_err.is_none());
    assert_eq!(rye.elements()[0], Element::Heading("good".to_string()));

    // an edit with an unmatched parenthesis
    handle.set_script("draw_heading(\"bad\"").unwrap();
    let second = rye.update();
    // the edit was consumed but failed to compile: no change notification
    assert!(second.pending.is_some());
    assert!(!second.script_changed());
    assert!(second.compile_err.is_some());
    assert!(second.runtime_err.is_none());
    // the last good program ran unchanged this frame
    assert_eq!(
        rye.program_source().as_deref(),
        Some("draw_heading(\"good\")")
    );
    assert_eq!(rye.elements().len(), 1);
    assert_eq!(rye.elements()[0], Element::Heading("good".to_string()));
}

#[test]
fn mailbox_superseded_edit_never_compiles() {
    let mut rye = Rye::new();
    let handle = rye.handle();
    handle.set_script("draw_heading(\"first\")").unwrap();
    handle.set_script("draw_heading(\"second\")").unwrap();
    let report = rye.update();
    assert_eq!(report.pending.as_deref(), Some("draw_heading(\"second\")"));
    assert_eq!(rye.elements()[0], Element::Heading("second".to_string()));
    // nothing is pending afterwards
    let next = rye.update();
    assert!(next.pending.is_none());
}

#[test]
fn runtime_error_reported_without_aborting() {
    let mut rye = Rye::new();
    let handle = rye.handle();
    handle.set_script("no_such_function(1)").unwrap();
    let report = rye.update();
    assert!(report.compile_err.is_none());
    assert!(report.runtime_err.is_some());
    assert!(!report.runtime_err.unwrap().message.is_empty());
    // the next frame still runs
    let next = rye.update();
    assert!(next.runtime_err.is_some());
}

#[test]
fn script_stops_at_failing_statement() {
    let mut rye = Rye::new();
    let handle = rye.handle();
    handle
        .set_script("draw_heading(\"before\"); no_such_function(1); draw_heading(\"after\")")
        .unwrap();
    let report = rye.update();
    assert!(report.runtime_err.is_some());
    // what ran before the failure is on the canvas; what follows is not
    assert_eq!(rye.elements().len(), 1);
    assert_eq!(rye.elements()[0], Element::Heading("before".to_string()));
}

#[test]
fn central_panel_hands_script_a_live_ui() {
    let mut rye = Rye::new();
    let handle = rye.handle();
    handle
        .set_script("central_panel(|ui| { ui.heading(\"Hi\"); })")
        .unwrap();
    let report = rye.update();
    assert!(report.compile_err.is_none());
    assert!(report.runtime_err.is_none(), "{:?}", report.runtime_err.map(|e| e.message));
    assert_eq!(rye.elements().len(), 1);
    assert_eq!(rye.elements()[0], Element::Heading("Hi".to_string()));
}

#[test]
fn replace_engine_preserves_observable_behavior() {
    let mut rye = Rye::new();
    let handle = rye.handle();
    handle.set_script("draw_heading(\"same\")").unwrap();
    let before = rye.update();
    assert!(before.runtime_err.is_none());
    let drawn_before = rye.elements().clone();

    let _displaced = rye.replace_engine(rhai::Engine::new());
    // same program, same registered method, same side effect
    assert_eq!(
        rye.program_source().as_deref(),
        Some("draw_heading(\"same\")")
    );
    let after = rye.update();
    assert!(after.compile_err.is_none());
    assert!(after.runtime_err.is_none());
    assert_eq!(rye.elements(), &drawn_before);
    assert_eq!(rye.elements()[0], Element::Heading("same".to_string()));
}

#[test]
fn set_engine_reapplies_registrations() {
    let mut rye = Rye::new();
    rye.set_engine(rhai::Engine::new());
    let handle = rye.handle();
    handle.set_script("draw_heading(\"still there\")").unwrap();
    let report = rye.update();
    assert!(report.runtime_err.is_none());
    assert_eq!(
        rye.elements()[0],
        Element::Heading("still there".to_string())
    );
}

#[test]
fn added_binding_survives_engine_replacement() {
    let mut rye = Rye::new();
    rye.add_binding(Binding::new(
        "Data".to_string(),
        "frame_time_ns".to_string(),
        NativeFn::FrameTimeNs,
    ));
    let _ = rye.replace_engine(rhai::Engine::new());
    assert_eq!(
        rye.lookup("Data", "frame_time_ns"),
        Some(NativeFn::FrameTimeNs)
    );
    let handle = rye.handle();
    handle
        .set_script("let t = data.frame_time_ns(); draw_heading(\"timed\")")
        .unwrap();
    let mut scope = rhai::Scope::new();
    scope.push("data", Data::new(42));
    let report = rye.update_with_scope(&mut scope);
    assert!(report.runtime_err.is_none(), "{:?}", report.runtime_err.map(|e| e.message));
    assert_eq!(rye.elements()[0], Element::Heading("timed".to_string()));
}

#[test]
fn lookup_reflects_standard_catalog() {
    let rye = Rye::new();
    assert_eq!(rye.lookup("Ui", "heading"), Some(NativeFn::Heading));
    assert_eq!(
        rye.lookup("global", "draw_heading"),
        Some(NativeFn::DrawHeading)
    );
    assert_eq!(
        rye.lookup("global", "central_panel"),
        Some(NativeFn::CentralPanel)
    );
    assert_eq!(rye.lookup("Ui", "central_panel"), None);
    assert_eq!(rye.lookup("Ui", "draw_heading"), None);
}

#[test]
fn same_method_name_dispatches_by_receiver_type() {
    let mut rye = Rye::new();
    // the same script-visible name on two distinct host types
    rye.add_binding(Binding::new(
        "Ui".to_string(),
        "describe".to_string(),
        NativeFn::Heading,
    ));
    rye.add_binding(Binding::new(
        "Data".to_string(),
        "describe".to_string(),
        NativeFn::FrameTimeNs,
    ));
    assert_eq!(rye.lookup("Ui", "describe"), Some(NativeFn::Heading));
    assert_eq!(rye.lookup("Data", "describe"), Some(NativeFn::FrameTimeNs));

    let handle = rye.handle();
    handle
        .set_script(
            "central_panel(|ui| { ui.describe(\"widget\"); }); let t = data.describe();",
        )
        .unwrap();
    let mut scope = rhai::Scope::new();
    scope.push("data", Data::new(9));
    let report = rye.update_with_scope(&mut scope);
    assert!(report.compile_err.is_none());
    assert!(report.runtime_err.is_none(), "{:?}", report.runtime_err.map(|e| e.message));
    // the ui receiver reached the heading capability, not the data one
    assert_eq!(rye.elements().len(), 1);
    assert_eq!(rye.elements()[0], Element::Heading("widget".to_string()));
}

#[test]
fn data_frame_time_reads_back() {
    let mut d = Data::new(7);
    assert_eq!(d.frame_time_ns(), 7);
    assert_eq!(d.frame_time_ns(), 7);
}
