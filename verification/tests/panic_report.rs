use cuke_runner_glue::panic::{any_in_step_execution, short_report, Frame, PanicInfo, PanicLocation, Symbol, SymbolName};

fn symbol(full: &str, short: &str, file: &str, line: u32) -> Symbol {
    Symbol {
        name: Some(SymbolName { full: full.to_string(), short: short.to_string() }),
        file: Some(file.to_string()),
        line: Some(line),
    }
}

fn frame(symbols: Vec<Symbol>) -> Frame {
    Frame { ip_is_null: false, symbols }
}

fn frames() -> Vec<Frame> {
    vec![
        frame(vec![symbol("backtrace::capture::Backtrace::new::h1", "backtrace::capture::Backtrace::new", "capture.rs", 10)]),
        Frame { ip_is_null: true, symbols: vec![symbol("my_crate::hidden::h0", "my_crate::hidden", "hidden.rs", 1)] },
        frame(vec![]),
        frame(vec![symbol("std::panicking::begin_panic::h2", "std::panicking::begin_panic", "panicking.rs", 5)]),
        frame(vec![
            symbol("my_crate::steps::add::h3", "my_crate::steps::add", "src/steps.rs", 42),
            Symbol { name: None, file: Some("src/x.rs".to_string()), line: Some(7) },
        ]),
        frame(vec![symbol(
            "<my_crate::Calc as core::ops::Add>::add::h4",
            "<my_crate::Calc as core::ops::Add>::add",
            "src/calc.rs",
            3,
        )]),
        frame(vec![symbol("cuke_runner::glue::run::h5", "cuke_runner::glue::run", "run.rs", 9)]),
        frame(vec![symbol(
            "std::sys_common::backtrace::__rust_begin_short_backtrace::h6",
            "std::sys_common::backtrace::__rust_begin_short_backtrace",
            "backtrace.rs",
            2,
        )]),
        frame(vec![symbol("main::h7", "main", "src/main.rs", 1)]),
    ]
}

#[test]
fn short_report_keeps_the_frames_of_the_user_code() {
    let location = PanicLocation::new("src/steps.rs".to_string(), 42, 9);
    let report = short_report("main", "boom", &location, &frames());

    assert_eq!(
        report,
        "thread 'main' panicked at 'boom', src/steps.rs:42:9\n\
         stack backtrace:\n   \
         0: std::panicking::begin_panic\n   \
         1: my_crate::steps::add\n             at src/steps.rs:42\n      <unknown>\n             at src/x.rs:7\n   \
         2: <my_crate::Calc as core::ops::Add>::add\n             at src/calc.rs:3\n   \
         3: cuke_runner::glue::run"
    );
}

#[test]
fn short_report_without_frames_has_only_its_header() {
    let location = PanicLocation::new("a.rs".to_string(), 1, 2);

    assert_eq!(
        short_report("t", "m", &location, &Vec::new()),
        "thread 't' panicked at 'm', a.rs:1:2\nstack backtrace:"
    );
}

#[test]
fn frame_numbers_are_right_aligned_in_four_columns() {
    let location = PanicLocation::new("a.rs".to_string(), 1, 2);
    let many: Vec<Frame> = (0..11).map(|_| frame(vec![symbol("std::x::h", "std::x", "x.rs", 1)])).collect();
    let report = short_report("t", "m", &location, &many);

    assert!(report.contains("\n   9: std::x\n  10: std::x"));
}

#[test]
fn panic_location_is_written_with_line_and_column() {
    let location = PanicLocation::new("src/lib.rs".to_string(), 120, 7);

    assert_eq!(location.to_text(), "src/lib.rs:120:7");
    assert_eq!(location.file(), "src/lib.rs");
    assert_eq!(location.line(), 120);
    assert_eq!(location.column(), 7);
}

#[test]
fn step_execution_is_recognised_by_its_symbol() {
    let mut with_execution = frames();
    with_execution.push(frame(vec![symbol(
        "cuke_runner::runtime::step_definition::StepDefinition::execute::h9",
        "cuke_runner::runtime::step_definition::StepDefinition::execute",
        "step_definition.rs",
        30,
    )]));

    assert!(any_in_step_execution(&with_execution));
    assert!(!any_in_step_execution(&frames()));
}

#[test]
fn panic_info_reports_start_with_the_panic_line() {
    let location = PanicLocation::new("src/steps.rs".to_string(), 4, 5);
    let info = PanicInfo::new("worker".to_string(), "failed".to_string(), location, backtrace::Backtrace::new());

    assert_eq!(info.thread_name(), "worker");
    assert_eq!(info.message(), "failed");
    assert!(info.short_display().starts_with("thread 'worker' panicked at 'failed', src/steps.rs:4:5\nstack backtrace:"));
    assert!(info.full_display().starts_with("thread 'worker' panicked at 'failed', src/steps.rs:4:5\n"));
}
