//! The arguments a step function receives: expressions matched from the step
//! text, doc strings and data tables.

pub mod expression;
pub mod doc_string;
pub mod data_table;

use vstd::prelude::*;
use vstd::string::StringExecFns;

use self::data_table::DataTable;
use self::doc_string::DocString;
use self::expression::Expression;
use crate::text::{decimal, digit_char};

verus! {

/// An argument of a step: an expression matched from the step text, or the
/// doc string or data table attached to the step.
#[derive(Debug, Clone)]
pub enum StepArgument<'s> {
    Expression(Expression<'s>),
    DocString(DocString<'s>),
    DataTable(DataTable),
}

/// The error holding information for a failed `FromStepArgument` conversion.
#[derive(Debug)]
pub struct FromStepArgumentError {
    message: String,
}

impl FromStepArgumentError {
    /// The message of the error.
    pub closed spec fn spec_message(&self) -> Seq<char> {
        self.message@
    }

    /// Creates the error with its message.
    pub fn new(message: String) -> (e: FromStepArgumentError)
        ensures
            e.spec_message() == message@,
    {
        FromStepArgumentError { message }
    }

    /// Returns the message of the error.
    pub fn message(&self) -> (m: &str)
        ensures
            m@ == self.spec_message(),
    {
        self.message.as_str()
    }
}

impl From<String> for FromStepArgumentError {
    fn from(message: String) -> (e: FromStepArgumentError) {
        FromStepArgumentError { message }
    }
}

impl vstd::std_specs::convert::FromSpecImpl<String> for FromStepArgumentError {
    open spec fn obeys_from_spec() -> bool {
        true
    }

    closed spec fn from_spec(message: String) -> FromStepArgumentError {
        FromStepArgumentError { message }
    }
}

/// The text of an expression or of a doc string; a data table has none.
pub open spec fn argument_text(step_argument: StepArgument) -> Option<Seq<char>> {
    match step_argument {
        StepArgument::Expression(e) => Some(e.spec_value()),
        StepArgument::DocString(d) => Some(d.spec_content()),
        StepArgument::DataTable(_) => None,
    }
}

/// Returns the text of an expression or doc string argument, `None` for a
/// data table.
pub fn step_argument_text<'a>(step_argument: &'a StepArgument<'a>) -> (text: Option<&'a str>)
    ensures
        text is Some <==> argument_text(*step_argument) is Some,
        text matches Some(t) ==> argument_text(*step_argument) == Some(t@),
{
    match step_argument {
        StepArgument::Expression(expression) => Some(expression.value()),
        StepArgument::DocString(doc_string) => Some(doc_string.value()),
        StepArgument::DataTable(_data_table) => None,
    }
}

/// The message of the error for a data table given where a text is parsed.
pub open spec fn data_table_parse_message() -> Seq<char> {
    "cannot parse DataTable, use DataTable itself as argument type"@
}

/// The start of the message of the error for a text argument given where a
/// data table is expected; the argument's debug form follows it.
pub open spec fn not_a_data_table_prefix() -> Seq<char> {
    "cannot get DataTable ref from step argument: "@
}

/// What `<bool as FromStr>::from_str` gives for a text: the value, or the
/// `Debug` text of its error.
pub uninterp spec fn bool_from_text(text: Seq<char>) -> Result<bool, Seq<char>>;

/// Trusted: calls `<bool as FromStr>::from_str` and writes a failure with
/// `Debug`; the contract names the outcome as a function of the text, and
/// states what the standard library documents: only `true` and `false` are
/// accepted, as the values they name. The error's text is left to the name.
#[verifier::external_body]
fn parse_bool(text: &str) -> (r: Result<bool, String>)
    ensures
        match bool_from_text(text@) {
            Ok(v) => r == Ok::<bool, String>(v),
            Err(m) => (r matches Err(e) && e@ == m),
        },
        r is Ok <==> (text@ == "true"@ || text@ == "false"@),
        r matches Ok(v) ==> v == (text@ == "true"@),
{
    text.parse::<bool>().map_err(|err| format!("{:?}", err))
}

/// What `<char as FromStr>::from_str` gives for a text: the value, or the
/// `Debug` text of its error.
pub uninterp spec fn char_from_text(text: Seq<char>) -> Result<char, Seq<char>>;

/// Trusted: calls `<char as FromStr>::from_str` and writes a failure with
/// `Debug`; the contract names the outcome as a function of the text, and
/// states what the standard library documents: a text of exactly one
/// character is accepted, as that character. The error's text is left to the
/// name.
#[verifier::external_body]
fn parse_char(text: &str) -> (r: Result<char, String>)
    ensures
        match char_from_text(text@) {
            Ok(v) => r == Ok::<char, String>(v),
            Err(m) => (r matches Err(e) && e@ == m),
        },
        r is Ok <==> text@.len() == 1,
        r matches Ok(v) ==> v == text@[0],
{
    text.parse::<char>().map_err(|err| format!("{:?}", err))
}

/// Whether a character is a decimal digit.
pub open spec fn is_decimal_digit(c: char) -> bool {
    '0' <= c && c <= '9'
}

/// The value of a run of decimal digits.
pub open spec fn digits_value(ds: Seq<char>) -> int
    decreases ds.len(),
{
    if ds.len() == 0 {
        0
    } else {
        digits_value(ds.drop_last()) * 10 + ((ds.last() as u32) - ('0' as u32))
    }
}

/// The value of a text of one or more decimal digits, if it is one.
pub open spec fn digits_number(ds: Seq<char>) -> Option<int> {
    if ds.len() > 0 && forall|i: int| 0 <= i < ds.len() ==> is_decimal_digit(#[trigger] ds[i]) {
        Some(digits_value(ds))
    } else {
        None
    }
}

/// The integer a text writes in decimal, as the standard library documents
/// for the integer types' `from_str`: an optional `+`, or `-` where the type
/// is signed, then one or more decimal digits, and nothing else.
pub open spec fn decimal_integer(text: Seq<char>, signed: bool) -> Option<int> {
    if text.len() > 0 && text[0] == '+' {
        digits_number(text.drop_first())
    } else if signed && text.len() > 0 && text[0] == '-' {
        match digits_number(text.drop_first()) {
            Some(v) => Some(-v),
            None => None,
        }
    } else {
        digits_number(text)
    }
}

/// What `<i8 as FromStr>::from_str` gives for a text: the value, or the
/// `Debug` text of its error.
pub uninterp spec fn i8_from_text(text: Seq<char>) -> Result<i8, Seq<char>>;

/// Trusted: calls `<i8 as FromStr>::from_str` and writes a failure with
/// `Debug`; the contract names the outcome as a function of the text, and
/// states what the standard library documents: the text is accepted where it
/// writes an integer in decimal (`decimal_integer`) that fits the type, as
/// that integer. The error's text is left to the name.
#[verifier::external_body]
fn parse_i8(text: &str) -> (r: Result<i8, String>)
    ensures
        match i8_from_text(text@) {
            Ok(v) => r == Ok::<i8, String>(v),
            Err(m) => (r matches Err(e) && e@ == m),
        },
        r is Ok <==> (decimal_integer(text@, true) matches Some(n) && -128 <= n <= 127),
        r matches Ok(v) ==> decimal_integer(text@, true) == Some(v as int),
{
    text.parse::<i8>().map_err(|err| format!("{:?}", err))
}

/// What `<i16 as FromStr>::from_str` gives for a text: the value, or the
/// `Debug` text of its error.
pub uninterp spec fn i16_from_text(text: Seq<char>) -> Result<i16, Seq<char>>;

/// Trusted: calls `<i16 as FromStr>::from_str` and writes a failure with
/// `Debug`; the contract names the outcome as a function of the text, and
/// states what the standard library documents: the text is accepted where it
/// writes an integer in decimal (`decimal_integer`) that fits the type, as
/// that integer. The error's text is left to the name.
#[verifier::external_body]
fn parse_i16(text: &str) -> (r: Result<i16, String>)
    ensures
        match i16_from_text(text@) {
            Ok(v) => r == Ok::<i16, String>(v),
            Err(m) => (r matches Err(e) && e@ == m),
        },
        r is Ok <==> (decimal_integer(text@, true) matches Some(n) && -32768 <= n <= 32767),
        r matches Ok(v) ==> decimal_integer(text@, true) == Some(v as int),
{
    text.parse::<i16>().map_err(|err| format!("{:?}", err))
}

/// What `<i32 as FromStr>::from_str` gives for a text: the value, or the
/// `Debug` text of its error.
pub uninterp spec fn i32_from_text(text: Seq<char>) -> Result<i32, Seq<char>>;

/// Trusted: calls `<i32 as FromStr>::from_str` and writes a failure with
/// `Debug`; the contract names the outcome as a function of the text, and
/// states what the standard library documents: the text is accepted where it
/// writes an integer in decimal (`decimal_integer`) that fits the type, as
/// that integer. The error's text is left to the name.
#[verifier::external_body]
fn parse_i32(text: &str) -> (r: Result<i32, String>)
    ensures
        match i32_from_text(text@) {
            Ok(v) => r == Ok::<i32, String>(v),
            Err(m) => (r matches Err(e) && e@ == m),
        },
        r is Ok <==> (decimal_integer(text@, true) matches Some(n) && -2147483648 <= n <= 2147483647),
        r matches Ok(v) ==> decimal_integer(text@, true) == Some(v as int),
{
    text.parse::<i32>().map_err(|err| format!("{:?}", err))
}

/// What `<i64 as FromStr>::from_str` gives for a text: the value, or the
/// `Debug` text of its error.
pub uninterp spec fn i64_from_text(text: Seq<char>) -> Result<i64, Seq<char>>;

/// Trusted: calls `<i64 as FromStr>::from_str` and writes a failure with
/// `Debug`; the contract names the outcome as a function of the text, and
/// states what the standard library documents: the text is accepted where it
/// writes an integer in decimal (`decimal_integer`) that fits the type, as
/// that integer. The error's text is left to the name.
#[verifier::external_body]
fn parse_i64(text: &str) -> (r: Result<i64, String>)
    ensures
        match i64_from_text(text@) {
            Ok(v) => r == Ok::<i64, String>(v),
            Err(m) => (r matches Err(e) && e@ == m),
        },
        r is Ok <==> (decimal_integer(text@, true) matches Some(n) && -9223372036854775808 <= n <= 9223372036854775807),
        r matches Ok(v) ==> decimal_integer(text@, true) == Some(v as int),
{
    text.parse::<i64>().map_err(|err| format!("{:?}", err))
}

/// What `<i128 as FromStr>::from_str` gives for a text: the value, or the
/// `Debug` text of its error.
pub uninterp spec fn i128_from_text(text: Seq<char>) -> Result<i128, Seq<char>>;

/// Trusted: calls `<i128 as FromStr>::from_str` and writes a failure with
/// `Debug`; the contract names the outcome as a function of the text, and
/// states what the standard library documents: the text is accepted where it
/// writes an integer in decimal (`decimal_integer`) that fits the type, as
/// that integer. The error's text is left to the name.
#[verifier::external_body]
fn parse_i128(text: &str) -> (r: Result<i128, String>)
    ensures
        match i128_from_text(text@) {
            Ok(v) => r == Ok::<i128, String>(v),
            Err(m) => (r matches Err(e) && e@ == m),
        },
        r is Ok <==> (decimal_integer(text@, true) matches Some(n) && -170141183460469231731687303715884105728 <= n <= 170141183460469231731687303715884105727),
        r matches Ok(v) ==> decimal_integer(text@, true) == Some(v as int),
{
    text.parse::<i128>().map_err(|err| format!("{:?}", err))
}

/// What `<isize as FromStr>::from_str` gives for a text: the value, or the
/// `Debug` text of its error.
pub uninterp spec fn isize_from_text(text: Seq<char>) -> Result<isize, Seq<char>>;

/// Trusted: calls `<isize as FromStr>::from_str` and writes a failure with
/// `Debug`; the contract names the outcome as a function of the text, and
/// states what the standard library documents: the text is accepted where it
/// writes an integer in decimal (`decimal_integer`) that fits the type, as
/// that integer. The error's text is left to the name.
#[verifier::external_body]
fn parse_isize(text: &str) -> (r: Result<isize, String>)
    ensures
        match isize_from_text(text@) {
            Ok(v) => r == Ok::<isize, String>(v),
            Err(m) => (r matches Err(e) && e@ == m),
        },
        r is Ok <==> (decimal_integer(text@, true) matches Some(n) && isize::MIN <= n <= isize::MAX),
        r matches Ok(v) ==> decimal_integer(text@, true) == Some(v as int),
{
    text.parse::<isize>().map_err(|err| format!("{:?}", err))
}

/// What `<u8 as FromStr>::from_str` gives for a text: the value, or the
/// `Debug` text of its error.
pub uninterp spec fn u8_from_text(text: Seq<char>) -> Result<u8, Seq<char>>;

/// Trusted: calls `<u8 as FromStr>::from_str` and writes a failure with
/// `Debug`; the contract names the outcome as a function of the text, and
/// states what the standard library documents: the text is accepted where it
/// writes an integer in decimal (`decimal_integer`) that fits the type, as
/// that integer. The error's text is left to the name.
#[verifier::external_body]
fn parse_u8(text: &str) -> (r: Result<u8, String>)
    ensures
        match u8_from_text(text@) {
            Ok(v) => r == Ok::<u8, String>(v),
            Err(m) => (r matches Err(e) && e@ == m),
        },
        r is Ok <==> (decimal_integer(text@, false) matches Some(n) && 0 <= n <= 255),
        r matches Ok(v) ==> decimal_integer(text@, false) == Some(v as int),
{
    text.parse::<u8>().map_err(|err| format!("{:?}", err))
}

/// What `<u16 as FromStr>::from_str` gives for a text: the value, or the
/// `Debug` text of its error.
pub uninterp spec fn u16_from_text(text: Seq<char>) -> Result<u16, Seq<char>>;

/// Trusted: calls `<u16 as FromStr>::from_str` and writes a failure with
/// `Debug`; the contract names the outcome as a function of the text, and
/// states what the standard library documents: the text is accepted where it
/// writes an integer in decimal (`decimal_integer`) that fits the type, as
/// that integer. The error's text is left to the name.
#[verifier::external_body]
fn parse_u16(text: &str) -> (r: Result<u16, String>)
    ensures
        match u16_from_text(text@) {
            Ok(v) => r == Ok::<u16, String>(v),
            Err(m) => (r matches Err(e) && e@ == m),
        },
        r is Ok <==> (decimal_integer(text@, false) matches Some(n) && 0 <= n <= 65535),
        r matches Ok(v) ==> decimal_integer(text@, false) == Some(v as int),
{
    text.parse::<u16>().map_err(|err| format!("{:?}", err))
}

/// What `<u32 as FromStr>::from_str` gives for a text: the value, or the
/// `Debug` text of its error.
pub uninterp spec fn u32_from_text(text: Seq<char>) -> Result<u32, Seq<char>>;

/// Trusted: calls `<u32 as FromStr>::from_str` and writes a failure with
/// `Debug`; the contract names the outcome as a function of the text, and
/// states what the standard library documents: the text is accepted where it
/// writes an integer in decimal (`decimal_integer`) that fits the type, as
/// that integer. The error's text is left to the name.
#[verifier::external_body]
fn parse_u32(text: &str) -> (r: Result<u32, String>)
    ensures
        match u32_from_text(text@) {
            Ok(v) => r == Ok::<u32, String>(v),
            Err(m) => (r matches Err(e) && e@ == m),
        },
        r is Ok <==> (decimal_integer(text@, false) matches Some(n) && 0 <= n <= 4294967295),
        r matches Ok(v) ==> decimal_integer(text@, false) == Some(v as int),
{
    text.parse::<u32>().map_err(|err| format!("{:?}", err))
}

/// What `<u64 as FromStr>::from_str` gives for a text: the value, or the
/// `Debug` text of its error.
pub uninterp spec fn u64_from_text(text: Seq<char>) -> Result<u64, Seq<char>>;

/// Trusted: calls `<u64 as FromStr>::from_str` and writes a failure with
/// `Debug`; the contract names the outcome as a function of the text, and
/// states what the standard library documents: the text is accepted where it
/// writes an integer in decimal (`decimal_integer`) that fits the type, as
/// that integer. The error's text is left to the name.
#[verifier::external_body]
fn parse_u64(text: &str) -> (r: Result<u64, String>)
    ensures
        match u64_from_text(text@) {
            Ok(v) => r == Ok::<u64, String>(v),
            Err(m) => (r matches Err(e) && e@ == m),
        },
        r is Ok <==> (decimal_integer(text@, false) matches Some(n) && 0 <= n <= 18446744073709551615),
        r matches Ok(v) ==> decimal_integer(text@, false) == Some(v as int),
{
    text.parse::<u64>().map_err(|err| format!("{:?}", err))
}

/// What `<u128 as FromStr>::from_str` gives for a text: the value, or the
/// `Debug` text of its error.
pub uninterp spec fn u128_from_text(text: Seq<char>) -> Result<u128, Seq<char>>;

/// Trusted: calls `<u128 as FromStr>::from_str` and writes a failure with
/// `Debug`; the contract names the outcome as a function of the text, and
/// states what the standard library documents: the text is accepted where it
/// writes an integer in decimal (`decimal_integer`) that fits the type, as
/// that integer. The error's text is left to the name.
#[verifier::external_body]
fn parse_u128(text: &str) -> (r: Result<u128, String>)
    ensures
        match u128_from_text(text@) {
            Ok(v) => r == Ok::<u128, String>(v),
            Err(m) => (r matches Err(e) && e@ == m),
        },
        r is Ok <==> (decimal_integer(text@, false) matches Some(n) && 0 <= n <= 340282366920938463463374607431768211455),
        r matches Ok(v) ==> decimal_integer(text@, false) == Some(v as int),
{
    text.parse::<u128>().map_err(|err| format!("{:?}", err))
}

/// What `<usize as FromStr>::from_str` gives for a text: the value, or the
/// `Debug` text of its error.
pub uninterp spec fn usize_from_text(text: Seq<char>) -> Result<usize, Seq<char>>;

/// Trusted: calls `<usize as FromStr>::from_str` and writes a failure with
/// `Debug`; the contract names the outcome as a function of the text, and
/// states what the standard library documents: the text is accepted where it
/// writes an integer in decimal (`decimal_integer`) that fits the type, as
/// that integer. The error's text is left to the name.
#[verifier::external_body]
fn parse_usize(text: &str) -> (r: Result<usize, String>)
    ensures
        match usize_from_text(text@) {
            Ok(v) => r == Ok::<usize, String>(v),
            Err(m) => (r matches Err(e) && e@ == m),
        },
        r is Ok <==> (decimal_integer(text@, false) matches Some(n) && 0 <= n <= usize::MAX),
        r matches Ok(v) ==> decimal_integer(text@, false) == Some(v as int),
{
    text.parse::<usize>().map_err(|err| format!("{:?}", err))
}

/// Trusted: formats a step argument with its derived `Debug` implementation;
/// nothing is stated of the text.
#[verifier::external_body]
fn debug_text(step_argument: &StepArgument<'_>) -> (r: String) {
    format!("{:?}", step_argument)
}

/// Converts a `StepArgument` to `Self`; the lifetime `'a` is that of the
/// argument.
pub trait FromStepArgument<'a>: Sized {
    /// Performs the conversion.
    fn from_step_argument(step_argument: &'a StepArgument<'a>) -> (r: Result<Self, FromStepArgumentError>);
}

/// Turns the outcome of parsing an argument's text into the conversion's
/// result: a parse failure keeps its message.
pub fn parsed_argument<T>(parsed: Result<T, String>) -> (r: Result<T, FromStepArgumentError>)
    ensures
        parsed is Ok <==> r is Ok,
        parsed matches Ok(v) ==> r == Ok::<T, FromStepArgumentError>(v),
        parsed matches Err(m) ==> (r matches Err(e) && e.spec_message() == m@),
{
    match parsed {
        Ok(value) => Ok(value),
        Err(message) => Err(FromStepArgumentError::new(message)),
    }
}

/// The text of an expression or doc string argument, or for a data table the
/// error that refuses to parse it.
pub fn text_to_parse<'a>(step_argument: &'a StepArgument<'a>) -> (r: Result<&'a str, FromStepArgumentError>)
    ensures
        argument_text(*step_argument) matches Some(t) ==> (r matches Ok(s) && s@ == t),
        step_argument is DataTable ==> (r matches Err(e) && e.spec_message() == data_table_parse_message()),
{
    match step_argument_text(step_argument) {
        Some(text) => Ok(text),
        None => {
            let message = String::from_str("cannot parse DataTable, use DataTable itself as argument type");
            proof {
                reveal_strlit("cannot parse DataTable, use DataTable itself as argument type");
            }
            Err(FromStepArgumentError::new(message))
        },
    }
}

/// An owned copy of the text of an expression or doc string argument; a data
/// table is refused.
impl<'a> FromStepArgument<'a> for String {
    fn from_step_argument(step_argument: &'a StepArgument<'a>) -> (r: Result<String, FromStepArgumentError>)
        ensures
            argument_text(*step_argument) matches Some(t) ==> (r matches Ok(s) && s@ == t),
            step_argument is DataTable ==> (r matches Err(e) && e.spec_message() == data_table_parse_message()),
    {
        match text_to_parse(step_argument) {
            Ok(text) => Ok(text.to_owned()),
            Err(e) => Err(e),
        }
    }
}

impl<'a> FromStepArgument<'a> for bool {
    fn from_step_argument(step_argument: &'a StepArgument<'a>) -> (r: Result<bool, FromStepArgumentError>)
        ensures
            step_argument is DataTable ==> (r matches Err(e) && e.spec_message() == data_table_parse_message()),
            argument_text(*step_argument) matches Some(text) ==> match bool_from_text(text) {
                Ok(v) => r == Ok::<bool, FromStepArgumentError>(v),
                Err(m) => (r matches Err(e) && e.spec_message() == m),
            },
            argument_text(*step_argument) matches Some(text) ==> (r is Ok <==> (text == "true"@ || text == "false"@)),
            argument_text(*step_argument) matches Some(text) ==> (r matches Ok(v) ==> v == (text == "true"@)),
    {
        match text_to_parse(step_argument) {
            Ok(text) => parsed_argument(parse_bool(text)),
            Err(e) => Err(e),
        }
    }
}

impl<'a> FromStepArgument<'a> for char {
    fn from_step_argument(step_argument: &'a StepArgument<'a>) -> (r: Result<char, FromStepArgumentError>)
        ensures
            step_argument is DataTable ==> (r matches Err(e) && e.spec_message() == data_table_parse_message()),
            argument_text(*step_argument) matches Some(text) ==> match char_from_text(text) {
                Ok(v) => r == Ok::<char, FromStepArgumentError>(v),
                Err(m) => (r matches Err(e) && e.spec_message() == m),
            },
            argument_text(*step_argument) matches Some(text) ==> (r is Ok <==> text.len() == 1),
            argument_text(*step_argument) matches Some(text) ==> (r matches Ok(v) ==> v == text[0]),
    {
        match text_to_parse(step_argument) {
            Ok(text) => parsed_argument(parse_char(text)),
            Err(e) => Err(e),
        }
    }
}

impl<'a> FromStepArgument<'a> for i8 {
    fn from_step_argument(step_argument: &'a StepArgument<'a>) -> (r: Result<i8, FromStepArgumentError>)
        ensures
            step_argument is DataTable ==> (r matches Err(e) && e.spec_message() == data_table_parse_message()),
            argument_text(*step_argument) matches Some(text) ==> match i8_from_text(text) {
                Ok(v) => r == Ok::<i8, FromStepArgumentError>(v),
                Err(m) => (r matches Err(e) && e.spec_message() == m),
            },
            argument_text(*step_argument) matches Some(text) ==> (r is Ok <==> (decimal_integer(text, true) matches Some(
                n,
            ) && -128 <= n <= 127)),
            argument_text(*step_argument) matches Some(text) ==> (r matches Ok(v) ==> decimal_integer(text, true) == Some(
                v as int,
            )),
    {
        match text_to_parse(step_argument) {
            Ok(text) => parsed_argument(parse_i8(text)),
            Err(e) => Err(e),
        }
    }
}

impl<'a> FromStepArgument<'a> for i16 {
    fn from_step_argument(step_argument: &'a StepArgument<'a>) -> (r: Result<i16, FromStepArgumentError>)
        ensures
            step_argument is DataTable ==> (r matches Err(e) && e.spec_message() == data_table_parse_message()),
            argument_text(*step_argument) matches Some(text) ==> match i16_from_text(text) {
                Ok(v) => r == Ok::<i16, FromStepArgumentError>(v),
                Err(m) => (r matches Err(e) && e.spec_message() == m),
            },
            argument_text(*step_argument) matches Some(text) ==> (r is Ok <==> (decimal_integer(text, true) matches Some(
                n,
            ) && -32768 <= n <= 32767)),
            argument_text(*step_argument) matches Some(text) ==> (r matches Ok(v) ==> decimal_integer(text, true) == Some(
                v as int,
            )),
    {
        match text_to_parse(step_argument) {
            Ok(text) => parsed_argument(parse_i16(text)),
            Err(e) => Err(e),
        }
    }
}

impl<'a> FromStepArgument<'a> for i32 {
    fn from_step_argument(step_argument: &'a StepArgument<'a>) -> (r: Result<i32, FromStepArgumentError>)
        ensures
            step_argument is DataTable ==> (r matches Err(e) && e.spec_message() == data_table_parse_message()),
            argument_text(*step_argument) matches Some(text) ==> match i32_from_text(text) {
                Ok(v) => r == Ok::<i32, FromStepArgumentError>(v),
                Err(m) => (r matches Err(e) && e.spec_message() == m),
            },
            argument_text(*step_argument) matches Some(text) ==> (r is Ok <==> (decimal_integer(text, true) matches Some(
                n,
            ) && -2147483648 <= n <= 2147483647)),
            argument_text(*step_argument) matches Some(text) ==> (r matches Ok(v) ==> decimal_integer(text, true) == Some(
                v as int,
            )),
    {
        match text_to_parse(step_argument) {
            Ok(text) => parsed_argument(parse_i32(text)),
            Err(e) => Err(e),
        }
    }
}

impl<'a> FromStepArgument<'a> for i64 {
    fn from_step_argument(step_argument: &'a StepArgument<'a>) -> (r: Result<i64, FromStepArgumentError>)
        ensures
            step_argument is DataTable ==> (r matches Err(e) && e.spec_message() == data_table_parse_message()),
            argument_text(*step_argument) matches Some(text) ==> match i64_from_text(text) {
                Ok(v) => r == Ok::<i64, FromStepArgumentError>(v),
                Err(m) => (r matches Err(e) && e.spec_message() == m),
            },
            argument_text(*step_argument) matches Some(text) ==> (r is Ok <==> (decimal_integer(text, true) matches Some(
                n,
            ) && -9223372036854775808 <= n <= 9223372036854775807)),
            argument_text(*step_argument) matches Some(text) ==> (r matches Ok(v) ==> decimal_integer(text, true) == Some(
                v as int,
            )),
    {
        match text_to_parse(step_argument) {
            Ok(text) => parsed_argument(parse_i64(text)),
            Err(e) => Err(e),
        }
    }
}

impl<'a> FromStepArgument<'a> for i128 {
    fn from_step_argument(step_argument: &'a StepArgument<'a>) -> (r: Result<i128, FromStepArgumentError>)
        ensures
            step_argument is DataTable ==> (r matches Err(e) && e.spec_message() == data_table_parse_message()),
            argument_text(*step_argument) matches Some(text) ==> match i128_from_text(text) {
                Ok(v) => r == Ok::<i128, FromStepArgumentError>(v),
                Err(m) => (r matches Err(e) && e.spec_message() == m),
            },
            argument_text(*step_argument) matches Some(text) ==> (r is Ok <==> (decimal_integer(text, true) matches Some(
                n,
            ) && -170141183460469231731687303715884105728 <= n <= 170141183460469231731687303715884105727)),
            argument_text(*step_argument) matches Some(text) ==> (r matches Ok(v) ==> decimal_integer(text, true) == Some(
                v as int,
            )),
    {
        match text_to_parse(step_argument) {
            Ok(text) => parsed_argument(parse_i128(text)),
            Err(e) => Err(e),
        }
    }
}

impl<'a> FromStepArgument<'a> for isize {
    fn from_step_argument(step_argument: &'a StepArgument<'a>) -> (r: Result<isize, FromStepArgumentError>)
        ensures
            step_argument is DataTable ==> (r matches Err(e) && e.spec_message() == data_table_parse_message()),
            argument_text(*step_argument) matches Some(text) ==> match isize_from_text(text) {
                Ok(v) => r == Ok::<isize, FromStepArgumentError>(v),
                Err(m) => (r matches Err(e) && e.spec_message() == m),
            },
            argument_text(*step_argument) matches Some(text) ==> (r is Ok <==> (decimal_integer(text, true) matches Some(
                n,
            ) && isize::MIN <= n <= isize::MAX)),
            argument_text(*step_argument) matches Some(text) ==> (r matches Ok(v) ==> decimal_integer(text, true) == Some(
                v as int,
            )),
    {
        match text_to_parse(step_argument) {
            Ok(text) => parsed_argument(parse_isize(text)),
            Err(e) => Err(e),
        }
    }
}

impl<'a> FromStepArgument<'a> for u8 {
    fn from_step_argument(step_argument: &'a StepArgument<'a>) -> (r: Result<u8, FromStepArgumentError>)
        ensures
            step_argument is DataTable ==> (r matches Err(e) && e.spec_message() == data_table_parse_message()),
            argument_text(*step_argument) matches Some(text) ==> match u8_from_text(text) {
                Ok(v) => r == Ok::<u8, FromStepArgumentError>(v),
                Err(m) => (r matches Err(e) && e.spec_message() == m),
            },
            argument_text(*step_argument) matches Some(text) ==> (r is Ok <==> (decimal_integer(text, false) matches Some(
                n,
            ) && 0 <= n <= 255)),
            argument_text(*step_argument) matches Some(text) ==> (r matches Ok(v) ==> decimal_integer(text, false) == Some(
                v as int,
            )),
    {
        match text_to_parse(step_argument) {
            Ok(text) => parsed_argument(parse_u8(text)),
            Err(e) => Err(e),
        }
    }
}

impl<'a> FromStepArgument<'a> for u16 {
    fn from_step_argument(step_argument: &'a StepArgument<'a>) -> (r: Result<u16, FromStepArgumentError>)
        ensures
            step_argument is DataTable ==> (r matches Err(e) && e.spec_message() == data_table_parse_message()),
            argument_text(*step_argument) matches Some(text) ==> match u16_from_text(text) {
                Ok(v) => r == Ok::<u16, FromStepArgumentError>(v),
                Err(m) => (r matches Err(e) && e.spec_message() == m),
            },
            argument_text(*step_argument) matches Some(text) ==> (r is Ok <==> (decimal_integer(text, false) matches Some(
                n,
            ) && 0 <= n <= 65535)),
            argument_text(*step_argument) matches Some(text) ==> (r matches Ok(v) ==> decimal_integer(text, false) == Some(
                v as int,
            )),
    {
        match text_to_parse(step_argument) {
            Ok(text) => parsed_argument(parse_u16(text)),
            Err(e) => Err(e),
        }
    }
}

impl<'a> FromStepArgument<'a> for u32 {
    fn from_step_argument(step_argument: &'a StepArgument<'a>) -> (r: Result<u32, FromStepArgumentError>)
        ensures
            step_argument is DataTable ==> (r matches Err(e) && e.spec_message() == data_table_parse_message()),
            argument_text(*step_argument) matches Some(text) ==> match u32_from_text(text) {
                Ok(v) => r == Ok::<u32, FromStepArgumentError>(v),
                Err(m) => (r matches Err(e) && e.spec_message() == m),
            },
            argument_text(*step_argument) matches Some(text) ==> (r is Ok <==> (decimal_integer(text, false) matches Some(
                n,
            ) && 0 <= n <= 4294967295)),
            argument_text(*step_argument) matches Some(text) ==> (r matches Ok(v) ==> decimal_integer(text, false) == Some(
                v as int,
            )),
    {
        match text_to_parse(step_argument) {
            Ok(text) => parsed_argument(parse_u32(text)),
            Err(e) => Err(e),
        }
    }
}

impl<'a> FromStepArgument<'a> for u64 {
    fn from_step_argument(step_argument: &'a StepArgument<'a>) -> (r: Result<u64, FromStepArgumentError>)
        ensures
            step_argument is DataTable ==> (r matches Err(e) && e.spec_message() == data_table_parse_message()),
            argument_text(*step_argument) matches Some(text) ==> match u64_from_text(text) {
                Ok(v) => r == Ok::<u64, FromStepArgumentError>(v),
                Err(m) => (r matches Err(e) && e.spec_message() == m),
            },
            argument_text(*step_argument) matches Some(text) ==> (r is Ok <==> (decimal_integer(text, false) matches Some(
                n,
            ) && 0 <= n <= 18446744073709551615)),
            argument_text(*step_argument) matches Some(text) ==> (r matches Ok(v) ==> decimal_integer(text, false) == Some(
                v as int,
            )),
    {
        match text_to_parse(step_argument) {
            Ok(text) => parsed_argument(parse_u64(text)),
            Err(e) => Err(e),
        }
    }
}

impl<'a> FromStepArgument<'a> for u128 {
    fn from_step_argument(step_argument: &'a StepArgument<'a>) -> (r: Result<u128, FromStepArgumentError>)
        ensures
            step_argument is DataTable ==> (r matches Err(e) && e.spec_message() == data_table_parse_message()),
            argument_text(*step_argument) matches Some(text) ==> match u128_from_text(text) {
                Ok(v) => r == Ok::<u128, FromStepArgumentError>(v),
                Err(m) => (r matches Err(e) && e.spec_message() == m),
            },
            argument_text(*step_argument) matches Some(text) ==> (r is Ok <==> (decimal_integer(text, false) matches Some(
                n,
            ) && 0 <= n <= 340282366920938463463374607431768211455)),
            argument_text(*step_argument) matches Some(text) ==> (r matches Ok(v) ==> decimal_integer(text, false) == Some(
                v as int,
            )),
    {
        match text_to_parse(step_argument) {
            Ok(text) => parsed_argument(parse_u128(text)),
            Err(e) => Err(e),
        }
    }
}

impl<'a> FromStepArgument<'a> for usize {
    fn from_step_argument(step_argument: &'a StepArgument<'a>) -> (r: Result<usize, FromStepArgumentError>)
        ensures
            step_argument is DataTable ==> (r matches Err(e) && e.spec_message() == data_table_parse_message()),
            argument_text(*step_argument) matches Some(text) ==> match usize_from_text(text) {
                Ok(v) => r == Ok::<usize, FromStepArgumentError>(v),
                Err(m) => (r matches Err(e) && e.spec_message() == m),
            },
            argument_text(*step_argument) matches Some(text) ==> (r is Ok <==> (decimal_integer(text, false) matches Some(
                n,
            ) && 0 <= n <= usize::MAX)),
            argument_text(*step_argument) matches Some(text) ==> (r matches Ok(v) ==> decimal_integer(text, false) == Some(
                v as int,
            )),
    {
        match text_to_parse(step_argument) {
            Ok(text) => parsed_argument(parse_usize(text)),
            Err(e) => Err(e),
        }
    }
}

impl<'a> FromStepArgument<'a> for &'a DataTable {
    fn from_step_argument(step_argument: &'a StepArgument<'a>) -> (r: Result<&'a DataTable, FromStepArgumentError>)
        ensures
            step_argument matches StepArgument::DataTable(t) ==> r == Ok::<&'a DataTable, FromStepArgumentError>(&t),
            !(step_argument is DataTable) ==> (r matches Err(e) && exists|shown: Seq<char>|
                e.spec_message() == not_a_data_table_prefix() + shown),
    {
        match step_argument {
            StepArgument::DataTable(data_table) => Ok(data_table),
            _ => {
                let mut message = String::from_str("cannot get DataTable ref from step argument: ");
                let shown = debug_text(step_argument);
                let ghost prefix = message@;
                message.append(shown.as_str());
                proof {
                    reveal_strlit("cannot get DataTable ref from step argument: ");
                    assert(message@ == not_a_data_table_prefix() + shown@);
                }
                Err(FromStepArgumentError::new(message))
            },
        }
    }
}

proof fn lemma_digit_char_value(d: nat)
    requires
        d < 10,
    ensures
        is_decimal_digit(digit_char(d)),
        (digit_char(d) as u32) - ('0' as u32) == d,
{
}

/// The decimal form of a number is one or more decimal digits, with no
/// leading zero but for zero itself, and reads back as the number: a text
/// written by `decimal` parses back to what was written.
pub proof fn lemma_decimal_reads_back(n: nat)
    ensures
        decimal(n).len() > 0,
        forall|i: int| 0 <= i < decimal(n).len() ==> is_decimal_digit(#[trigger] decimal(n)[i]),
        n > 0 ==> decimal(n)[0] != '0',
        digits_value(decimal(n)) == n,
        decimal_integer(decimal(n), false) == Some(n as int),
        decimal_integer(decimal(n), true) == Some(n as int),
    decreases n,
{
    if n < 10 {
        lemma_digit_char_value(n);
        assert(decimal(n) == seq![digit_char(n)]);
        assert(seq![digit_char(n)].drop_last() == Seq::<char>::empty());
        assert(digits_value(Seq::<char>::empty()) == 0);
        assert(digits_value(decimal(n)) == digits_value(Seq::<char>::empty()) * 10 + ((digit_char(n) as u32) - ('0' as u32)));
    } else {
        lemma_decimal_reads_back(n / 10);
        lemma_digit_char_value(n % 10);
        let d = decimal(n);
        let head = decimal(n / 10);
        assert(d == head.push(digit_char(n % 10)));
        assert(d.drop_last() == head);
        assert(d.last() == digit_char(n % 10));
        assert(digits_value(d) == digits_value(head) * 10 + ((digit_char(n % 10) as u32) - ('0' as u32)));
        assert(n == (n / 10) * 10 + n % 10) by (nonlinear_arith);
        assert forall|i: int| 0 <= i < d.len() implies is_decimal_digit(#[trigger] d[i]) by {
            if i < head.len() {
                assert(d[i] == head[i]);
            }
        }
        assert(d[0] == head[0]);
    }
    let d = decimal(n);
    assert(d[0] != '+' && d[0] != '-') by {
        assert(is_decimal_digit(d[0]));
    }
}

} // verus!
