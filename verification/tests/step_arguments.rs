use cuke_runner_glue::error::ExecutionError;
use cuke_runner_glue::location::{CodeLocation, StaticGlueCodeLocation};
use cuke_runner_glue::scenario::FromScenarioError;
use cuke_runner_glue::step::argument::data_table::DataTable;
use cuke_runner_glue::step::argument::doc_string::DocString;
use cuke_runner_glue::step::argument::expression::Expression;
use cuke_runner_glue::step::argument::{FromStepArgument, FromStepArgumentError, StepArgument};
use cuke_runner_glue::hook::HookType;
use cuke_runner_glue::step::StepKeyword;

fn table() -> DataTable {
    DataTable::new(vec![vec!["a".to_string()], vec!["1".to_string()]])
}

#[test]
fn expressions_and_doc_strings_convert_to_their_text() {
    let expression = StepArgument::Expression(Expression::new("42", 3, 5));
    let doc_string = StepArgument::DocString(DocString::new("some\ntext", "", 7));

    assert_eq!(<String as FromStepArgument>::from_step_argument(&expression).unwrap(), "42");
    assert_eq!(<u32 as FromStepArgument>::from_step_argument(&expression).unwrap(), 42);
    assert_eq!(<String as FromStepArgument>::from_step_argument(&doc_string).unwrap(), "some\ntext");
}

#[test]
fn parse_failures_keep_the_error_text() {
    let expression = StepArgument::Expression(Expression::new("forty", 0, 5));

    let error = <i32 as FromStepArgument>::from_step_argument(&expression).unwrap_err();
    assert_eq!(error.message(), "ParseIntError { kind: InvalidDigit }");
    assert!(<bool as FromStepArgument>::from_step_argument(&expression).is_err());
}

#[test]
fn a_data_table_is_not_parsed() {
    let argument = StepArgument::DataTable(table());

    let error = <u64 as FromStepArgument>::from_step_argument(&argument).unwrap_err();
    assert_eq!(error.message(), "cannot parse DataTable, use DataTable itself as argument type");
    assert_eq!(<&DataTable as FromStepArgument>::from_step_argument(&argument).unwrap().rows_len(), 2);
}

#[test]
fn only_a_data_table_gives_a_data_table() {
    let argument = StepArgument::Expression(Expression::new("x", 0, 1));

    let error = <&DataTable as FromStepArgument>::from_step_argument(&argument).unwrap_err();
    assert!(error.message().starts_with("cannot get DataTable ref from step argument: Expression"));
}

#[test]
fn expressions_keep_their_range() {
    let expression = Expression::new("5", 10, 11);

    assert_eq!(expression.value(), "5");
    assert_eq!(expression.start(), 10);
    assert_eq!(expression.end(), 11);
}

#[test]
#[allow(deprecated)]
fn doc_string_content_type_is_none_without_media_type() {
    assert_eq!(DocString::new("6", "", 1).content_type(), None);
    assert_eq!(DocString::new("6", "text", 1).content_type(), Some("text"));
    assert_eq!(DocString::new("6", "text", 1).media_type(), "text");
    assert_eq!(DocString::new("6", "text", 12).line(), 12);
}

#[test]
fn errors_keep_their_message() {
    assert_eq!(FromStepArgumentError::new("bad".to_string()).message(), "bad");
    assert_eq!(FromStepArgumentError::from("worse".to_string()).message(), "worse");
    assert_eq!(FromScenarioError::new("no calc".to_string()).message, "no calc");
    assert_eq!(ExecutionError::from(FromScenarioError::new("no calc".to_string())).to_text(), "no calc");
    assert_eq!(ExecutionError::from(FromStepArgumentError::new("bad".to_string())).to_text(), "bad");
    assert_eq!(ExecutionError::Other("other".to_string()).to_text(), "other");
}

#[test]
fn locations_are_written_as_file_and_line() {
    assert_eq!(StaticGlueCodeLocation { file: "src/steps.rs", line: 42 }.to_text(), "src/steps.rs:42");
    assert_eq!(CodeLocation { file_path: "src/lib.rs", line_number: 0 }.to_text(), "src/lib.rs:0");
}

#[test]
fn hook_type_names_read_back() {
    for hook_type in [HookType::BeforeScenario, HookType::BeforeStep, HookType::AfterStep, HookType::AfterScenario] {
        assert_eq!(hook_type.as_str().parse::<HookType>(), Ok(hook_type));
    }
    assert_eq!(HookType::BeforeScenario.as_str(), "BeforeScenario");
    assert!("beforescenario".parse::<HookType>().is_err());
}

#[test]
fn step_keywords_are_read_in_any_case() {
    assert_eq!("Given".parse::<StepKeyword>(), Ok(StepKeyword::Given));
    assert_eq!("WHEN".parse::<StepKeyword>(), Ok(StepKeyword::When));
    assert_eq!("then".parse::<StepKeyword>(), Ok(StepKeyword::Then));
    assert_eq!("*".parse::<StepKeyword>(), Ok(StepKeyword::Star));
    assert!("But".parse::<StepKeyword>().is_err());
    assert_eq!(StepKeyword::Star.as_str(), "*");
}

#[test]
fn step_keyword_names_parse_back_in_any_case() {
    for keyword in [StepKeyword::Given, StepKeyword::When, StepKeyword::Then, StepKeyword::Star] {
        let name = keyword.as_str();
        assert_eq!(name.parse::<StepKeyword>(), Ok(keyword));
        assert_eq!(name.to_uppercase().parse::<StepKeyword>(), Ok(keyword));
        assert_eq!(StepKeyword::from_name(&name.to_lowercase()), Ok(keyword));
    }
}

#[test]
fn expression_from_a_match_keeps_its_text_and_range() {
    let text = "I add 4 and 15";
    let re = regex::Regex::new("I add (\\d+) and (\\d+)").unwrap();
    let captures = re.captures(text).unwrap();
    let first = Expression::from(captures.get(1).unwrap());
    let second = Expression::from(captures.get(2).unwrap());
    assert_eq!((first.value(), first.start(), first.end()), ("4", 6, 7));
    assert_eq!((second.value(), second.start(), second.end()), ("15", 12, 14));
    assert_eq!(&text[second.start()..second.end()], second.value());
}

#[test]
fn bool_and_char_arguments_accept_only_their_own_forms() {
    let truth = StepArgument::Expression(Expression::new("true", 0, 4));
    let falsity = StepArgument::Expression(Expression::new("false", 0, 5));
    let capital = StepArgument::Expression(Expression::new("True", 0, 4));
    let letter = StepArgument::Expression(Expression::new("x", 0, 1));
    let word = StepArgument::Expression(Expression::new("xy", 0, 2));
    let empty = StepArgument::Expression(Expression::new("", 0, 0));
    assert!(<bool as FromStepArgument>::from_step_argument(&truth).unwrap());
    assert!(!<bool as FromStepArgument>::from_step_argument(&falsity).unwrap());
    assert!(<bool as FromStepArgument>::from_step_argument(&capital).is_err());
    assert_eq!(<char as FromStepArgument>::from_step_argument(&letter).unwrap(), 'x');
    assert!(<char as FromStepArgument>::from_step_argument(&word).is_err());
    assert!(<char as FromStepArgument>::from_step_argument(&empty).is_err());
}

fn text_argument(text: &str) -> StepArgument<'_> {
    StepArgument::Expression(Expression::new(text, 0, text.len()))
}

#[test]
fn integer_arguments_are_decimal_with_an_optional_sign_and_must_fit() {
    assert_eq!(<u8 as FromStepArgument>::from_step_argument(&text_argument("+5")).unwrap(), 5);
    assert!(<u8 as FromStepArgument>::from_step_argument(&text_argument("-5")).is_err());
    assert!(<u8 as FromStepArgument>::from_step_argument(&text_argument("-0")).is_err());
    assert!(<u8 as FromStepArgument>::from_step_argument(&text_argument("256")).is_err());
    assert_eq!(<i8 as FromStepArgument>::from_step_argument(&text_argument("-128")).unwrap(), -128);
    assert!(<i8 as FromStepArgument>::from_step_argument(&text_argument("128")).is_err());
    assert_eq!(<i64 as FromStepArgument>::from_step_argument(&text_argument("007")).unwrap(), 7);
    assert!(<i32 as FromStepArgument>::from_step_argument(&text_argument("")).is_err());
    assert!(<i32 as FromStepArgument>::from_step_argument(&text_argument("+")).is_err());
    assert!(<i32 as FromStepArgument>::from_step_argument(&text_argument(" 1")).is_err());
    assert!(<u32 as FromStepArgument>::from_step_argument(&text_argument("\u{663}")).is_err());
}

#[test]
fn hook_type_names_parse_back() {
    for hook_type in [HookType::BeforeScenario, HookType::BeforeStep, HookType::AfterStep, HookType::AfterScenario] {
        assert_eq!(hook_type.as_str().parse::<HookType>(), Ok(hook_type));
        assert!(hook_type.as_str().to_lowercase().parse::<HookType>().is_err());
    }
}
