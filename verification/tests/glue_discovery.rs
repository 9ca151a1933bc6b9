use cuke_runner_glue::codegen::discovery::DiscoveryError;
use cuke_runner_glue::codegen::glue_paths::{
    find_step_fn_paths, parse, parse_paths, static_glue_definition_paths, try_find_step_fn_paths, try_parse, try_parse_paths,
    try_static_glue_definition_paths,
};
use cuke_runner_glue::codegen::source::{FileContent, SourceItem, SourceText};
use cuke_runner_glue::codegen::syntax::{parse_items, parse_sources};

fn source(path: &[&str], text: &str) -> SourceText {
    SourceText { path: strings(path), text: Some(text.to_string()) }
}

fn strings(paths: &[&str]) -> Vec<String> {
    paths.iter().map(|p| p.to_string()).collect()
}

#[test]
fn step_definitions_are_found_in_item_order() {
    let sources = vec![
        source(
            &["lib.rs"],
            r#"
            #[given("a")] pub fn a() {}
            mod steps;
            pub mod inline { #[when("b")] pub fn b() {} }
            #[then("c")] fn c() {}
            #[test] pub fn d() {}
            struct Other;
            "#,
        ),
        source(&["steps.rs"], r#"#[then("e")] pub fn e() {}"#),
    ];

    assert_eq!(
        parse("lib.rs", &sources),
        strings(&[
            "::::static_step_definition_for_a",
            "::steps::static_step_definition_for_e",
            "::inline::static_step_definition_for_b",
        ])
    );
}

#[test]
fn step_fn_paths_skip_private_modules() {
    let sources = vec![
        source(&["steps", "mod.rs"], r#"#[given("x")] pub fn x() {} mod hidden; pub mod more;"#),
        source(&["steps", "more.rs"], r#"#[step(Given, "y")] pub fn y() {}"#),
    ];

    assert_eq!(find_step_fn_paths(&sources), strings(&["steps::x", "steps::more::y"]));
}

#[test]
fn module_files_are_looked_for_as_name_rs_then_name_mod_rs() {
    let sources = vec![
        source(&["lib.rs"], "pub mod a;"),
        source(&["a", "mod.rs"], r#"#[given("f")] pub fn f() {}"#),
    ];

    assert_eq!(parse("lib.rs", &sources), strings(&["::a::static_step_definition_for_f"]));
}

#[test]
fn a_module_after_a_mod_rs_module_is_looked_for_in_its_directory() {
    let sources = vec![source(&["lib.rs"], "pub mod a; pub mod b;"), source(&["a", "mod.rs"], ""), source(&["b.rs"], "")];

    assert_eq!(try_parse("lib.rs", &sources).unwrap_err(), DiscoveryError::ModuleNotFound(strings(&["a", "b", "mod.rs"])));
}

#[test]
fn a_missing_module_is_reported_with_the_mod_rs_path() {
    let sources = vec![source(&["steps", "mod.rs"], "pub mod gone;")];

    assert_eq!(
        try_find_step_fn_paths(&sources).unwrap_err(),
        DiscoveryError::ModuleNotFound(strings(&["steps", "gone", "mod.rs"])),
    );
}

#[test]
fn restricted_visibility_is_refused_even_without_a_step_attribute() {
    let sources = vec![source(&["steps", "mod.rs"], r#"pub(crate) fn helper() {} #[given("a")] pub fn g() {}"#)];

    assert_eq!(try_find_step_fn_paths(&sources).unwrap_err(), DiscoveryError::RestrictedVisibility);
    assert_eq!(
        try_parse("lib.rs", &vec![source(&["lib.rs"], "pub(crate) fn a() {}")]).unwrap_err(),
        DiscoveryError::RestrictedVisibility
    );
}

#[test]
fn module_attributes_are_refused_by_the_step_searches() {
    let sources = vec![source(&["lib.rs"], "#[cfg(test)] pub mod m {}")];

    assert_eq!(try_parse("lib.rs", &sources).unwrap_err(), DiscoveryError::ModuleAttribute);
    assert_eq!(parse_paths("lib.rs", &sources, &strings(&["given"]), "p_"), Vec::<String>::new());
}

#[test]
fn path_attributes_are_refused_by_the_glue_search() {
    let sources = vec![source(&["lib.rs"], r#"#[path = "x.rs"] pub mod m;"#)];

    assert_eq!(
        try_parse_paths("lib.rs", &sources, &strings(&["given"]), "p_").unwrap_err(),
        DiscoveryError::ModulePathAttribute
    );
}

#[test]
fn unreadable_and_unparsable_files_are_reported() {
    let sources = vec![
        source(&["lib.rs"], "pub mod a; pub mod b;"),
        source(&["a.rs"], "fn ("),
        SourceText { path: strings(&["b.rs"]), text: None },
    ];

    assert_eq!(try_parse("lib.rs", &sources).unwrap_err(), DiscoveryError::UnparsableFile(strings(&["a.rs"])));
    assert_eq!(try_parse("main.rs", &sources).unwrap_err(), DiscoveryError::UnreadableFile(strings(&["main.rs"])));
    let only_b = vec![source(&["lib.rs"], "pub mod b;"), SourceText { path: strings(&["b.rs"]), text: None }];
    assert_eq!(try_parse("lib.rs", &only_b).unwrap_err(), DiscoveryError::UnreadableFile(strings(&["b.rs"])));
}

#[test]
fn a_module_that_includes_itself_is_too_deep() {
    let sources = vec![source(&["lib.rs"], "pub mod lib;")];

    assert_eq!(try_parse("lib.rs", &sources).unwrap_err(), DiscoveryError::TooDeep);
}

#[test]
fn glue_definitions_are_found_kind_by_kind() {
    let sources = vec![source(
        &["lib.rs"],
        r#"
        pub mod glue {
            #[before_scenario] pub fn start() {}
            #[before_step] pub fn prepare() {}
            #[when("add")] pub fn add() {}
            #[after_step] pub fn check() {}
            #[after_scenario] pub fn stop() {}
            #[step(Given, "any")] pub fn any() {}
        }
        "#,
    )];

    let paths = static_glue_definition_paths("lib.rs", &sources);

    assert_eq!(paths.before_scenario_hooks, strings(&["::glue::static_cuke_runner_before_scenario_hook_info_for_start"]));
    assert_eq!(paths.before_step_hooks, strings(&["::glue::static_cuke_runner_before_step_hook_info_for_prepare"]));
    assert_eq!(paths.steps, strings(&["::glue::static_cuke_runner_step_info_for_add"]));
    assert_eq!(paths.after_step_hooks, strings(&["::glue::static_cuke_runner_after_step_hook_info_for_check"]));
    assert_eq!(paths.after_scenario_hooks, strings(&["::glue::static_cuke_runner_after_scenario_hook_info_for_stop"]));
}

#[test]
fn the_first_failing_glue_search_decides_the_error() {
    let sources = vec![source(&["lib.rs"], "pub(crate) fn a() {} #[path = \"x.rs\"] pub mod m;")];

    assert_eq!(try_static_glue_definition_paths("lib.rs", &sources).unwrap_err(), DiscoveryError::RestrictedVisibility);
}

#[test]
fn source_text_is_read_as_items() {
    let items = parse_items("#[given(\"x\")] pub fn f() {} mod m { fn g() {} } struct S;").unwrap();

    assert_eq!(items.len(), 3);
    match &items[0] {
        SourceItem::Fn(f) => {
            assert_eq!(f.name, "f");
            assert_eq!(f.attributes[0].name, "given");
            assert!(f.attributes[0].is_ident);
        },
        _ => panic!("expected a function"),
    }
    match &items[1] {
        SourceItem::Mod(m) => assert_eq!(m.content.as_ref().unwrap().len(), 1),
        _ => panic!("expected a module"),
    }
    assert!(matches!(items[2], SourceItem::Other));
    assert!(parse_items("fn (").is_none());

    let files = parse_sources(&vec![SourceText { path: strings(&["x.rs"]), text: None }]);
    assert!(matches!(files[0].content, FileContent::Unreadable));
}

#[test]
fn a_search_that_walks_to_the_end_is_tried_with_the_same_paths() {
    let sources = vec![source(&["lib.rs"], r#"pub mod a { #[given("x")] pub fn x() {} }"#)];

    assert_eq!(try_parse("lib.rs", &sources).unwrap(), parse("lib.rs", &sources));
    assert_eq!(
        try_parse_paths("lib.rs", &sources, &strings(&["given"]), "p_").unwrap(),
        parse_paths("lib.rs", &sources, &strings(&["given"]), "p_")
    );
    let steps = vec![source(&["steps", "mod.rs"], r#"#[when("y")] pub fn y() {}"#)];
    assert_eq!(try_find_step_fn_paths(&steps).unwrap(), find_step_fn_paths(&steps));
}
