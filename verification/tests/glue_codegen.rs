use cuke_runner_glue::codegen::glue_args::{
    parse_glue_fn_args, plan_hook_args, plan_step_args, ArgError, ArgSource, FnArgForm, GenericArgument, PathForm,
    PatternForm, ScenarioAccess, SegmentArguments, SegmentForm, TypeForm, attributes_to_keep, is_accepted,
};
use cuke_runner_glue::codegen::glue_codegen::{hook_settings, HookType, MetaValue, Regex, StepKeyword, TagExpression};
use cuke_runner_glue::codegen::names::{
    hook_fn_name, hook_location_fn_name, hook_struct_name, param_name, step_fn_name, step_location_fn_name,
    step_struct_name,
};
use cuke_runner_glue::codegen::source::AttributePath;
use cuke_runner_glue::hook::HookType as GlueHookType;
use cuke_runner_glue::step::StepKeyword as GlueStepKeyword;

#[test]
fn generated_names_put_a_prefix_before_the_function_name() {
    assert_eq!(hook_fn_name("greet", GlueHookType::BeforeStep), "cuke_runner_before_step_hook_fn_greet");
    assert_eq!(
        hook_location_fn_name("greet", GlueHookType::AfterScenario),
        "cuke_runner_after_scenario_hook_fn_location_fn_greet"
    );
    assert_eq!(hook_struct_name("greet", GlueHookType::AfterStep), "static_cuke_runner_after_step_hook_info_for_greet");
    assert_eq!(step_fn_name("add"), "cuke_runner_step_fn_add");
    assert_eq!(step_location_fn_name("add"), "cuke_runner_step_fn_location_fn_add");
    assert_eq!(step_struct_name("add"), "static_cuke_runner_step_info_for_add");
    assert_eq!(param_name("calc"), "__cuke_runner_param_calc");
}

#[test]
fn hook_types_are_read_from_paths() {
    let hook_type = HookType::from_meta(&MetaValue::Path("AfterStep".to_string())).unwrap();
    assert_eq!(hook_type.0, GlueHookType::AfterStep);

    let error = HookType::from_meta(&MetaValue::Path("Later".to_string())).unwrap_err();
    assert_eq!(error.message, "invalid hook type");
    assert_eq!(
        error.help.unwrap(),
        "hook type must be one of: `BeforeScenario`, `BeforeStep`, `AfterStep`, `AfterScenario`"
    );

    let error = HookType::from_meta(&MetaValue::Other("literal".to_string())).unwrap_err();
    assert_eq!(error.message, "expected identifier, found literal");
}

#[test]
fn step_keywords_are_read_from_paths() {
    assert_eq!(StepKeyword::from_meta(&MetaValue::Path("Given".to_string())).unwrap().0, GlueStepKeyword::Given);
    assert_eq!(StepKeyword::from_meta(&MetaValue::Path("*".to_string())).unwrap().0, GlueStepKeyword::Star);

    let error = StepKeyword::from_meta(&MetaValue::Path("But".to_string())).unwrap_err();
    assert_eq!(error.message, "invalid keyword");
    assert_eq!(error.help.unwrap(), "keyword must be one of: `Given`, `When`, `Then`");
}

#[test]
fn step_expressions_must_compile() {
    assert_eq!(Regex::from_literal("I add (\\d+)").unwrap().as_str(), "I add (\\d+)");

    let error = Regex::from_literal("I add (").unwrap_err();
    assert!(error.message.starts_with("step expression \"I add (\" is not a valid regex: "));
    assert!(error.message.len() > "step expression \"I add (\" is not a valid regex: ".len());
}

#[test]
fn tag_expressions_must_parse() {
    assert_eq!(TagExpression::from_literal("@a and not @b").unwrap().0, "@a and not @b");

    let error = TagExpression::from_literal("@a and").unwrap_err();
    assert_eq!(error.message, "tag expression \"@a and\" is invalid: expression is incomplete");
}

fn path(ident: &str) -> TypeForm {
    TypeForm::Path(PathForm {
        leading_colon: false,
        segments: vec![SegmentForm { ident: ident.to_string(), arguments: SegmentArguments::Bare }],
    })
}

fn reference(mutable: bool, elem: TypeForm) -> TypeForm {
    TypeForm::Reference { mutable, elem: Box::new(elem) }
}

fn option_of(ty: TypeForm) -> TypeForm {
    TypeForm::Path(PathForm {
        leading_colon: false,
        segments: vec![SegmentForm {
            ident: "Option".to_string(),
            arguments: SegmentArguments::AngleBracketed(vec![GenericArgument::Type(ty)]),
        }],
    })
}

fn typed(name: &str, scenario: bool, ty: TypeForm) -> FnArgForm {
    let attributes = if scenario {
        vec![AttributePath { name: "scenario".to_string(), is_ident: true }]
    } else {
        Vec::new()
    };
    FnArgForm::Typed { pattern: PatternForm::Ident(name.to_string()), attributes, ty }
}

#[test]
fn step_arguments_are_numbered_apart_from_scenario_arguments() {
    let args = parse_glue_fn_args(vec![
        typed("calc", true, reference(true, path("Calc"))),
        typed("text", false, reference(false, path("str"))),
        typed("number", false, path("u32")),
        typed("log", true, option_of(reference(false, path("Log")))),
    ])
    .0;

    assert_eq!(args[0].param_name, "__cuke_runner_param_calc");
    assert!(args[0].scenario_arg);
    assert!(!args[1].scenario_arg);

    assert_eq!(
        plan_step_args(&args).unwrap(),
        vec![
            ArgSource::Scenario(ScenarioAccess::Mutable),
            ArgSource::StepText(0),
            ArgSource::StepConverted(1),
            ArgSource::Scenario(ScenarioAccess::Shared),
        ]
    );
}

#[test]
fn scenario_arguments_must_be_references() {
    let args = parse_glue_fn_args(vec![typed("calc", true, reference(false, path("Calc"))), typed("n", true, path("u32"))]).0;

    assert_eq!(plan_step_args(&args).unwrap_err(), 1);
    assert_eq!(plan_hook_args(&args).unwrap_err(), 1);
}

#[test]
fn hook_arguments_all_come_from_the_scenario() {
    let args = parse_glue_fn_args(vec![
        typed("calc", false, reference(true, path("Calc"))),
        typed("log", false, option_of(reference(true, path("Log")))),
    ])
    .0;

    assert_eq!(plan_hook_args(&args).unwrap(), vec![ScenarioAccess::Mutable, ScenarioAccess::Mutable]);
}

#[test]
fn refused_arguments_are_all_reported() {
    let (read, errors) = parse_glue_fn_args(vec![
        FnArgForm::Typed { pattern: PatternForm::Wild, attributes: Vec::new(), ty: path("u32") },
        typed("ok", false, path("u32")),
        FnArgForm::Typed { pattern: PatternForm::Other, attributes: Vec::new(), ty: path("u32") },
        FnArgForm::Receiver,
    ]);

    assert_eq!(read.len(), 1);
    assert_eq!(read[0].user_name, "ok");
    assert_eq!(errors, vec![ArgError::Ignored, ArgError::InvalidPattern, ArgError::InvalidArgument]);
    assert_eq!(errors[0].message(), "handler arguments cannot be ignored");
    assert_eq!(errors[0].help(), "all handler arguments must be of the form: `ident: Type`");
}

#[test]
fn accepted_arguments_are_read_beside_the_refused_ones() {
    let (read, errors) = parse_glue_fn_args(vec![
        FnArgForm::Typed {
            pattern: PatternForm::Ident("c".to_string()),
            attributes: vec![
                AttributePath { name: "scenario".to_string(), is_ident: true },
                AttributePath { name: "allow".to_string(), is_ident: false },
            ],
            ty: reference(false, path("Calc")),
        },
        FnArgForm::Typed { pattern: PatternForm::Wild, attributes: Vec::new(), ty: path("u8") },
        typed("n", false, reference(false, path("str"))),
    ]);

    assert_eq!(read.len(), 2);
    assert!(read[0].scenario_arg);
    assert_eq!(read[0].param_name, "__cuke_runner_param_c");
    assert!(!read[1].scenario_arg);
    assert_eq!(read[1].param_name, "__cuke_runner_param_n");
    assert_eq!(errors, vec![ArgError::Ignored]);
}

#[test]
fn only_typed_identifier_arguments_are_accepted() {
    assert!(is_accepted(&typed("n", false, reference(false, path("str")))));
    assert!(!is_accepted(&FnArgForm::Typed { pattern: PatternForm::Wild, attributes: Vec::new(), ty: path("u8") }));
    assert!(!is_accepted(&FnArgForm::Typed { pattern: PatternForm::Other, attributes: Vec::new(), ty: path("u8") }));
    assert!(!is_accepted(&FnArgForm::Receiver));
}

#[test]
fn only_the_scenario_attribute_is_taken_off_an_argument() {
    let keep = attributes_to_keep(&vec![
        AttributePath { name: "scenario".to_string(), is_ident: true },
        AttributePath { name: "allow".to_string(), is_ident: false },
        AttributePath { name: "scenario".to_string(), is_ident: false },
    ]);
    assert_eq!(keep, vec![false, true, true]);
    assert!(attributes_to_keep(&Vec::new()).is_empty());
}

#[test]
fn hooks_default_to_order_zero_and_the_empty_tag_expression() {
    assert_eq!(hook_settings(None, None), (0, String::new()));
    let tags = TagExpression::from_literal("@a and not @b").unwrap();
    assert_eq!(hook_settings(Some(-3), Some(tags)), (-3, "@a and not @b".to_string()));
}
