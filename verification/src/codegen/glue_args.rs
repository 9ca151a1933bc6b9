//! The arguments of a step or hook function, as the code generation reads
//! them, and where the generated wrapper takes each one from: the scenario
//! data or the step's arguments.

use vstd::prelude::*;

use super::names::{param_name, param_prefix};
use super::source::AttributePath;
use crate::text::str_eq;

verus! {

/// The form of a type as the code generation reads it.
#[derive(Debug)]
pub enum TypeForm {
    /// `&T` or `&mut T`.
    Reference { mutable: bool, elem: Box<TypeForm> },
    /// A path type.
    Path(PathForm),
    /// Any other type.
    Other,
}

/// A path: whether it starts with `::`, and its segments.
#[derive(Debug)]
pub struct PathForm {
    pub leading_colon: bool,
    pub segments: Vec<SegmentForm>,
}

/// A segment of a path with its generic arguments.
#[derive(Debug)]
pub struct SegmentForm {
    pub ident: String,
    pub arguments: SegmentArguments,
}

/// The arguments of a path segment.
#[derive(Debug)]
pub enum SegmentArguments {
    Bare,
    AngleBracketed(Vec<GenericArgument>),
    Parenthesized,
}

/// A generic argument: a type, or anything else.
#[derive(Debug)]
pub enum GenericArgument {
    Type(TypeForm),
    Other,
}

/// The pattern of a function argument.
#[derive(Debug)]
pub enum PatternForm {
    /// A plain identifier.
    Ident(String),
    /// `_`
    Wild,
    /// Any other pattern.
    Other,
}

/// A function argument: a typed one with its pattern and attributes, or the
/// receiver.
#[derive(Debug)]
pub enum FnArgForm {
    Typed { pattern: PatternForm, attributes: Vec<AttributePath>, ty: TypeForm },
    Receiver,
}

/// A step or hook function argument as the code generation uses it.
#[derive(Debug)]
pub struct GlueFnArg {
    /// Whether the argument is taken from the scenario data (it has the
    /// `#[scenario]` attribute) rather than from the step's arguments.
    pub scenario_arg: bool,
    /// The name the user wrote.
    pub user_name: String,
    /// The name the generated code uses.
    pub param_name: String,
    /// The type.
    pub ty: TypeForm,
}

/// Why an argument of a step or hook function is refused.
#[derive(Debug, Clone, Copy, PartialEq, Eq, Structural)]
pub enum ArgError {
    /// The pattern is `_`.
    Ignored,
    /// The pattern is not an identifier.
    InvalidPattern,
    /// The argument is not typed.
    InvalidArgument,
}

impl ArgError {
    /// The message of the error.
    pub fn message(&self) -> (m: &'static str)
        ensures
            m@ == arg_error_message(*self),
    {
        match self {
            ArgError::Ignored => "handler arguments cannot be ignored",
            ArgError::InvalidPattern => "invalid use of pattern",
            ArgError::InvalidArgument => "invalid handler argument",
        }
    }

    /// The help shown with every such error.
    pub fn help(&self) -> (h: &'static str)
        ensures
            h@ == "all handler arguments must be of the form: `ident: Type`"@,
    {
        "all handler arguments must be of the form: `ident: Type`"
    }
}

/// The message of an argument error.
pub open spec fn arg_error_message(e: ArgError) -> Seq<char> {
    match e {
        ArgError::Ignored => "handler arguments cannot be ignored"@,
        ArgError::InvalidPattern => "invalid use of pattern"@,
        ArgError::InvalidArgument => "invalid handler argument"@,
    }
}

/// The message for an argument whose type cannot be taken from the scenario data.
pub open spec fn unsupported_scenario_argument_text() -> Seq<char> {
    "unsupported scenario data argument, must be one of:
        * shared reference: &T
        * mutable reference: &mut T
        * optional shared reference: Option<&T>
        * optional mutable reference: Option<&mut T>"@
}

/// The message for an argument whose type cannot be taken from the scenario data.
pub fn unsupported_scenario_argument_message() -> (m: &'static str)
    ensures
        m@ == unsupported_scenario_argument_text(),
{
    "unsupported scenario data argument, must be one of:
        * shared reference: &T
        * mutable reference: &mut T
        * optional shared reference: Option<&T>
        * optional mutable reference: Option<&mut T>"
}

/// Whether a path is the single plain identifier `name`.
pub open spec fn path_is_ident(p: PathForm, name: Seq<char>) -> bool {
    &&& !p.leading_colon
    &&& p.segments@.len() == 1
    &&& p.segments@[0].arguments is Bare
    &&& p.segments@[0].ident@ == name
}

/// Whether a type is a reference to `str`.
pub open spec fn is_str_reference(ty: TypeForm) -> bool {
    ty matches TypeForm::Reference { elem, .. } && *elem matches TypeForm::Path(p) && path_is_ident(p, "str"@)
}

/// How the scenario data is borrowed for an argument.
#[derive(Debug, Clone, Copy, PartialEq, Eq, Structural)]
pub enum ScenarioAccess {
    /// With `FromScenario`, for `&T` and `Option<&T>`.
    Shared,
    /// With `FromScenarioMut`, for `&mut T` and `Option<&mut T>`.
    Mutable,
}

/// The access of a reference type.
pub open spec fn reference_access(ty: TypeForm) -> Option<ScenarioAccess> {
    match ty {
        TypeForm::Reference { mutable, .. } => Some(if mutable { ScenarioAccess::Mutable } else { ScenarioAccess::Shared }),
        _ => None,
    }
}

/// How an argument of the given type is taken from the scenario data: a
/// reference, or an `Option` of one reference; `None` for any other type.
pub open spec fn scenario_access(ty: TypeForm) -> Option<ScenarioAccess> {
    match ty {
        TypeForm::Reference { .. } => reference_access(ty),
        TypeForm::Path(p) => {
            if p.segments@.len() == 1 && p.segments@[0].ident@ == "Option"@ {
                match p.segments@[0].arguments {
                    SegmentArguments::AngleBracketed(args) => if args@.len() == 1 {
                        match args@[0] {
                            GenericArgument::Type(t) => reference_access(t),
                            GenericArgument::Other => None,
                        }
                    } else {
                        None
                    },
                    _ => None,
                }
            } else {
                None
            }
        },
        TypeForm::Other => None,
    }
}

/// Where the generated wrapper takes an argument from.
#[derive(Debug, Clone, Copy, PartialEq, Eq, Structural)]
pub enum ArgSource {
    /// From the scenario data.
    Scenario(ScenarioAccess),
    /// The text of the step argument at the index, for a `&str`.
    StepText(usize),
    /// The step argument at the index, converted with `FromStepArgument`.
    StepConverted(usize),
}

/// The number of arguments taken from the step's arguments.
pub open spec fn step_arg_count(args: Seq<GlueFnArg>) -> nat
    decreases args.len(),
{
    if args.len() == 0 {
        0
    } else {
        step_arg_count(args.drop_last()) + if args.last().scenario_arg { 0nat } else { 1nat }
    }
}

/// Where the wrapper of a step takes each argument from: scenario arguments
/// from the scenario data, the others from the step's arguments in order;
/// the index of the first scenario argument of an unsupported type fails.
pub open spec fn step_plan(args: Seq<GlueFnArg>) -> Result<Seq<ArgSource>, int>
    decreases args.len(),
{
    if args.len() == 0 {
        Ok(Seq::empty())
    } else {
        match step_plan(args.drop_last()) {
            Err(k) => Err(k),
            Ok(plan) => {
                let a = args.last();
                let n = step_arg_count(args.drop_last());
                if a.scenario_arg {
                    match scenario_access(a.ty) {
                        Some(access) => Ok(plan.push(ArgSource::Scenario(access))),
                        None => Err(args.len() - 1),
                    }
                } else if is_str_reference(a.ty) {
                    Ok(plan.push(ArgSource::StepText(n as usize)))
                } else {
                    Ok(plan.push(ArgSource::StepConverted(n as usize)))
                }
            },
        }
    }
}

/// How the wrapper of a hook takes each argument from the scenario data; the
/// index of the first argument of an unsupported type fails.
pub open spec fn hook_plan(args: Seq<GlueFnArg>) -> Result<Seq<ScenarioAccess>, int>
    decreases args.len(),
{
    if args.len() == 0 {
        Ok(Seq::empty())
    } else {
        match hook_plan(args.drop_last()) {
            Err(k) => Err(k),
            Ok(plan) => match scenario_access(args.last().ty) {
                Some(access) => Ok(plan.push(access)),
                None => Err(args.len() - 1),
            },
        }
    }
}

/// Whether an attribute is `#[scenario]`.
pub open spec fn is_scenario_attr(a: AttributePath) -> bool {
    a.is_ident && a.name@ == "scenario"@
}

/// Whether an attribute is `#[scenario]`; the code generation removes those
/// attributes from the function it emits.
pub fn is_scenario_attribute(attribute: &AttributePath) -> (r: bool)
    ensures
        r == is_scenario_attr(*attribute),
{
    attribute.is_ident && str_eq(attribute.name.as_str(), "scenario")
}

/// Whether a type is a reference to `str`.
pub fn is_str_ref(ty: &TypeForm) -> (r: bool)
    ensures
        r == is_str_reference(*ty),
{
    match ty {
        TypeForm::Reference { elem, .. } => match &**elem {
            TypeForm::Path(p) => !p.leading_colon && p.segments.len() == 1 && matches!(p.segments[0].arguments, SegmentArguments::Bare)
                && str_eq(p.segments[0].ident.as_str(), "str"),
            _ => false,
        },
        _ => false,
    }
}

/// The access of a reference type.
fn access_of_reference(ty: &TypeForm) -> (r: Option<ScenarioAccess>)
    ensures
        r == reference_access(*ty),
{
    match ty {
        TypeForm::Reference { mutable, .. } => Some(if *mutable { ScenarioAccess::Mutable } else { ScenarioAccess::Shared }),
        _ => None,
    }
}

/// How an argument of the given type is taken from the scenario data.
pub fn access_of(ty: &TypeForm) -> (r: Option<ScenarioAccess>)
    ensures
        r == scenario_access(*ty),
{
    match ty {
        TypeForm::Reference { .. } => access_of_reference(ty),
        TypeForm::Path(p) => {
            if p.segments.len() == 1 && str_eq(p.segments[0].ident.as_str(), "Option") {
                match &p.segments[0].arguments {
                    SegmentArguments::AngleBracketed(args) => if args.len() == 1 {
                        match &args[0] {
                            GenericArgument::Type(t) => access_of_reference(t),
                            GenericArgument::Other => None,
                        }
                    } else {
                        None
                    },
                    _ => None,
                }
            } else {
                None
            }
        },
        TypeForm::Other => None,
    }
}

/// Which attributes of a function argument stay on it in the emitted
/// function, one flag for each in order: every attribute but `#[scenario]`,
/// which only marks the argument for the code generation.
pub fn attributes_to_keep(attributes: &Vec<AttributePath>) -> (keep: Vec<bool>)
    ensures
        keep@.len() == attributes@.len(),
        forall|i: int| 0 <= i < keep@.len() ==> keep@[i] == !is_scenario_attr(#[trigger] attributes@[i]),
{
    let mut keep: Vec<bool> = Vec::new();
    let mut k: usize = 0;
    while k < attributes.len()
        invariant
            0 <= k <= attributes@.len(),
            keep@.len() == k,
            forall|i: int| 0 <= i < k ==> keep@[i] == !is_scenario_attr(#[trigger] attributes@[i]),
        decreases attributes@.len() - k,
    {
        let scenario = is_scenario_attribute(&attributes[k]);
        keep.push(!scenario);
        k = k + 1;
    }
    keep
}

/// Whether any of the attributes is `#[scenario]`.
pub open spec fn has_scenario_attr(attributes: Seq<AttributePath>) -> bool {
    exists|k: int| 0 <= k < attributes.len() && #[trigger] is_scenario_attr(attributes[k])
}

/// Whether any of the attributes is `#[scenario]`.
fn has_scenario_attribute(attributes: &Vec<AttributePath>) -> (r: bool)
    ensures
        r == has_scenario_attr(attributes@),
{
    let mut k: usize = 0;
    while k < attributes.len()
        invariant
            0 <= k <= attributes@.len(),
            forall|a: int| 0 <= a < k ==> !#[trigger] is_scenario_attr(attributes@[a]),
        decreases attributes@.len() - k,
    {
        if is_scenario_attribute(&attributes[k]) {
            return true;
        }
        k = k + 1;
    }
    false
}

/// What reading a function argument gives: the argument, or why it is refused.
pub open spec fn arg_reading(arg: FnArgForm) -> Result<(bool, Seq<char>), ArgError> {
    match arg {
        FnArgForm::Typed { pattern, attributes, .. } => match pattern {
            PatternForm::Ident(name) => Ok((has_scenario_attr(attributes@), name@)),
            PatternForm::Wild => Err(ArgError::Ignored),
            PatternForm::Other => Err(ArgError::InvalidPattern),
        },
        FnArgForm::Receiver => Err(ArgError::InvalidArgument),
    }
}

/// Whether a function argument is read rather than refused: a typed argument
/// whose pattern is a plain identifier.
pub fn is_accepted(arg: &FnArgForm) -> (r: bool)
    ensures
        r == arg_reading(*arg) is Ok,
{
    match arg {
        FnArgForm::Typed { pattern: PatternForm::Ident(_), .. } => true,
        _ => false,
    }
}

/// The errors of the arguments that are refused, in order.
pub open spec fn arg_errors(args: Seq<FnArgForm>) -> Seq<ArgError>
    decreases args.len(),
{
    if args.len() == 0 {
        Seq::empty()
    } else {
        match arg_reading(args.last()) {
            Ok(_) => arg_errors(args.drop_last()),
            Err(e) => arg_errors(args.drop_last()).push(e),
        }
    }
}

/// Whether a read argument is the reading of a function argument.
pub open spec fn read_as(arg: FnArgForm, read: GlueFnArg) -> bool {
    &&& arg_reading(arg) matches Ok((scenario, name)) && read.scenario_arg == scenario && read.user_name@ == name
    &&& read.param_name@ == param_prefix() + read.user_name@
    &&& arg matches FnArgForm::Typed { ty, .. } && read.ty == ty
}

/// The arguments that are read, leaving out the refused ones, in order.
pub open spec fn accepted_args(args: Seq<FnArgForm>) -> Seq<FnArgForm>
    decreases args.len(),
{
    if args.len() == 0 {
        Seq::empty()
    } else {
        match arg_reading(args.last()) {
            Ok(_) => accepted_args(args.drop_last()).push(args.last()),
            Err(_) => accepted_args(args.drop_last()),
        }
    }
}

/// Reads the arguments of a step or hook function: each must be an
/// identifier with a type; an argument with `#[scenario]` is taken from the
/// scenario data. Gives the readings of the accepted arguments and, beside
/// them, the errors of the refused ones, both in order.
pub fn parse_glue_fn_args(args: Vec<FnArgForm>) -> (r: (Vec<GlueFnArg>, Vec<ArgError>))
    ensures
        r.0@.len() == accepted_args(args@).len(),
        forall|i: int| 0 <= i < r.0@.len() ==> read_as(accepted_args(args@)[i], #[trigger] r.0@[i]),
        r.1@ == arg_errors(args@),
{
    let ghost all = args@;
    assert(all.len() <= usize::MAX) by {
        assert(args@.len() == args.len());
    }
    let mut read: Vec<GlueFnArg> = Vec::new();
    let mut errors: Vec<ArgError> = Vec::new();
    let mut rest = args;
    let mut i: usize = 0;
    proof {
        assert(all.skip(0) == all);
    }
    while rest.len() > 0
        invariant
            i <= all.len(),
            all.len() <= usize::MAX,
            rest@ == all.skip(i as int),
            errors@ == arg_errors(all.take(i as int)),
            read@.len() == accepted_args(all.take(i as int)).len(),
            forall|k: int| 0 <= k < read@.len() ==> read_as(accepted_args(all.take(i as int))[k], #[trigger] read@[k]),
        decreases rest@.len(),
    {
        let arg = rest.remove(0);
        let ghost before = accepted_args(all.take(i as int));
        proof {
            assert(all.skip(i as int).drop_first() == all.skip(i + 1));
            let next = all.take(i + 1);
            assert(next.drop_last() == all.take(i as int));
            assert(next.last() == all[i as int]);
            assert(arg == all[i as int]);
        }
        match arg {
            FnArgForm::Typed { pattern, attributes, ty } => match pattern {
                PatternForm::Ident(name) => {
                    let scenario_arg = has_scenario_attribute(&attributes);
                    let param = param_name(name.as_str());
                    read.push(GlueFnArg { scenario_arg, user_name: name, param_name: param, ty });
                    proof {
                        assert(accepted_args(all.take(i + 1)) == before.push(all[i as int]));
                        assert forall|k: int| 0 <= k < read@.len() implies read_as(
                            accepted_args(all.take(i + 1))[k],
                            #[trigger] read@[k],
                        ) by {
                            if k < before.len() {
                                assert(accepted_args(all.take(i + 1))[k] == before[k]);
                            }
                        }
                    }
                },
                PatternForm::Wild => {
                    errors.push(ArgError::Ignored);
                },
                PatternForm::Other => {
                    errors.push(ArgError::InvalidPattern);
                },
            },
            FnArgForm::Receiver => {
                errors.push(ArgError::InvalidArgument);
            },
        }
        i = i + 1;
    }
    proof {
        assert(all.take(all.len() as int) == all);
    }
    (read, errors)
}

/// Where the wrapper of a step takes each argument from; `Err(k)` where the
/// argument at `k` is the first scenario argument of an unsupported type.
pub fn plan_step_args(args: &Vec<GlueFnArg>) -> (r: Result<Vec<ArgSource>, usize>)
    ensures
        match step_plan(args@) {
            Ok(plan) => r matches Ok(p) && p@ == plan,
            Err(k) => r matches Err(j) && j == k,
        },
{
    let mut plan: Vec<ArgSource> = Vec::new();
    let mut step_index: usize = 0;
    let mut i: usize = 0;
    while i < args.len()
        invariant
            0 <= i <= args@.len(),
            step_index <= i,
            step_index == step_arg_count(args@.take(i as int)),
            step_plan(args@.take(i as int)) == Ok::<Seq<ArgSource>, int>(plan@),
        decreases args@.len() - i,
    {
        let arg = &args[i];
        proof {
            let next = args@.take(i + 1);
            assert(next.drop_last() == args@.take(i as int));
            assert(next.last() == args@[i as int]);
        }
        if arg.scenario_arg {
            match access_of(&arg.ty) {
                Some(access) => plan.push(ArgSource::Scenario(access)),
                None => {
                    proof {
                        lemma_step_plan_failure(args@, i as int + 1);
                    }
                    return Err(i);
                },
            }
        } else {
            if is_str_ref(&arg.ty) {
                plan.push(ArgSource::StepText(step_index));
            } else {
                plan.push(ArgSource::StepConverted(step_index));
            }
            step_index = step_index + 1;
        }
        i = i + 1;
    }
    proof {
        assert(args@.take(args@.len() as int) == args@);
    }
    Ok(plan)
}

/// A step plan that fails on a prefix fails alike on the whole.
proof fn lemma_step_plan_failure(args: Seq<GlueFnArg>, n: int)
    requires
        0 <= n <= args.len(),
        step_plan(args.take(n)) is Err,
    ensures
        step_plan(args) == step_plan(args.take(n)),
    decreases args.len() - n,
{
    if n < args.len() {
        assert(args.take(n + 1).drop_last() == args.take(n));
        lemma_step_plan_failure(args, n + 1);
    } else {
        assert(args.take(n) == args);
    }
}

/// A hook plan that fails on a prefix fails alike on the whole.
proof fn lemma_hook_plan_failure(args: Seq<GlueFnArg>, n: int)
    requires
        0 <= n <= args.len(),
        hook_plan(args.take(n)) is Err,
    ensures
        hook_plan(args) == hook_plan(args.take(n)),
    decreases args.len() - n,
{
    if n < args.len() {
        assert(args.take(n + 1).drop_last() == args.take(n));
        lemma_hook_plan_failure(args, n + 1);
    } else {
        assert(args.take(n) == args);
    }
}

/// How the wrapper of a hook takes each argument from the scenario data;
/// `Err(k)` where the argument at `k` is the first of an unsupported type.
pub fn plan_hook_args(args: &Vec<GlueFnArg>) -> (r: Result<Vec<ScenarioAccess>, usize>)
    ensures
        match hook_plan(args@) {
            Ok(plan) => r matches Ok(p) && p@ == plan,
            Err(k) => r matches Err(j) && j == k,
        },
{
    let mut plan: Vec<ScenarioAccess> = Vec::new();
    let mut i: usize = 0;
    while i < args.len()
        invariant
            0 <= i <= args@.len(),
            hook_plan(args@.take(i as int)) == Ok::<Seq<ScenarioAccess>, int>(plan@),
        decreases args@.len() - i,
    {
        proof {
            let next = args@.take(i + 1);
            assert(next.drop_last() == args@.take(i as int));
            assert(next.last() == args@[i as int]);
        }
        match access_of(&args[i].ty) {
            Some(access) => plan.push(access),
            None => {
                proof {
                    lemma_hook_plan_failure(args@, i as int + 1);
                }
                return Err(i);
            },
        }
        i = i + 1;
    }
    proof {
        assert(args@.take(args@.len() as int) == args@);
    }
    Ok(plan)
}

/// An argument read from a function is a scenario argument if and only if
/// one of its attributes, at any position among them, is the identifier
/// `scenario`; its name is the argument's own, and a refused argument is
/// never read.
pub proof fn lemma_scenario_argument_marked_anywhere(arg: FnArgForm, read: GlueFnArg)
    requires
        read_as(arg, read),
    ensures
        arg matches FnArgForm::Typed { pattern: PatternForm::Ident(name), attributes, .. } && read.user_name@ == name@
            && (read.scenario_arg <==> exists|k: int|
            0 <= k < attributes@.len() && #[trigger] attributes@[k].is_ident && attributes@[k].name@ == "scenario"@),
{
    if let FnArgForm::Typed { attributes, .. } = arg {
        if read.scenario_arg {
            let k = choose|k: int| 0 <= k < attributes@.len() && #[trigger] is_scenario_attr(attributes@[k]);
            assert(attributes@[k].is_ident && attributes@[k].name@ == "scenario"@);
        } else {
            assert forall|k: int| 0 <= k < attributes@.len() && #[trigger] attributes@[k].is_ident implies attributes@[k].name@ != "scenario"@ by {
                assert(!is_scenario_attr(attributes@[k]));
            }
        }
    }
}

/// Whether an argument is taken from the step's arguments.
pub open spec fn from_step_arguments() -> spec_fn(GlueFnArg) -> bool {
    |a: GlueFnArg| !a.scenario_arg
}

proof fn lemma_step_arg_count_filter(args: Seq<GlueFnArg>)
    ensures
        step_arg_count(args) == args.filter(from_step_arguments()).len(),
    decreases args.len(),
{
    reveal(Seq::filter);
    if args.len() > 0 {
        lemma_step_arg_count_filter(args.drop_last());
    }
}

/// The access by which an argument of a type is taken from the scenario
/// data: `&T` and `Option<&T>` shared, `&mut T` and `Option<&mut T>` mutable,
/// whatever `T` is.
pub proof fn lemma_scenario_access_of_references(mutable: bool, elem: Box<TypeForm>, p: PathForm)
    ensures
        scenario_access(TypeForm::Reference { mutable, elem }) == Some(
            if mutable { ScenarioAccess::Mutable } else { ScenarioAccess::Shared },
        ),
        (p.segments@.len() == 1 && p.segments@[0].ident@ == "Option"@ && (p.segments@[0].arguments matches SegmentArguments::AngleBracketed(
            a,
        ) && a@ == seq![GenericArgument::Type(TypeForm::Reference { mutable, elem })])) ==> scenario_access(
            TypeForm::Path(p),
        ) == Some(if mutable { ScenarioAccess::Mutable } else { ScenarioAccess::Shared }),
        scenario_access(TypeForm::Other) is None,
{
}

/// The wrapper of a step takes each scenario argument from the scenario data
/// with the access of its type, a `&str` argument as the text of a step
/// argument and any other as a converted step argument; the arguments not
/// taken from the scenario are the step's arguments in order, the one with
/// `n` such arguments before it being step argument `n`. The plan fails
/// exactly where a scenario argument has a type that cannot be taken from the
/// scenario data, at the first such argument.
pub proof fn lemma_step_plan_takes_step_arguments_in_order(args: Seq<GlueFnArg>)
    requires
        args.len() <= usize::MAX,
    ensures
        step_plan(args) is Ok <==> forall|i: int| 0 <= i < args.len() && #[trigger] args[i].scenario_arg ==> scenario_access(args[i].ty) is Some,
        step_plan(args) matches Err(k) ==> 0 <= k < args.len() && args[k].scenario_arg && scenario_access(args[k].ty) is None
            && forall|j: int| 0 <= j < k && #[trigger] args[j].scenario_arg ==> scenario_access(args[j].ty) is Some,
        step_plan(args) matches Ok(plan) ==> plan.len() == args.len() && forall|i: int| 0 <= i < args.len() ==> {
            let before = args.take(i).filter(from_step_arguments()).len();
            if args[i].scenario_arg {
                scenario_access(args[i].ty) matches Some(access) && #[trigger] plan[i] == ArgSource::Scenario(access)
            } else if is_str_reference(args[i].ty) {
                plan[i] matches ArgSource::StepText(n) && n == before
            } else {
                plan[i] matches ArgSource::StepConverted(n) && n == before
            }
        },
    decreases args.len(),
{
    if args.len() > 0 {
        let rest = args.drop_last();
        let last = args.len() - 1;
        lemma_step_plan_takes_step_arguments_in_order(rest);
        lemma_step_arg_count_filter(rest);
        assert(args.take(last) == rest);
        assert forall|i: int| 0 <= i < last implies #[trigger] args.take(i) == rest.take(i) && args[i] == rest[i] by {
            assert(args.take(i) =~= rest.take(i));
        }
        if step_plan(args) is Ok {
            let plan = step_plan(args)->Ok_0;
            let p0 = step_plan(rest)->Ok_0;
            let a = args[last];
            assert(a == args.last());
            assert(plan.len() == args.len());
            assert forall|i: int| 0 <= i < args.len() implies ({
                let before = args.take(i).filter(from_step_arguments()).len();
                if args[i].scenario_arg {
                    scenario_access(args[i].ty) matches Some(access) && #[trigger] plan[i] == ArgSource::Scenario(access)
                } else if is_str_reference(args[i].ty) {
                    plan[i] matches ArgSource::StepText(n) && n == before
                } else {
                    plan[i] matches ArgSource::StepConverted(n) && n == before
                }
            }) by {
                if i < last {
                    assert(args.take(i) == rest.take(i));
                    assert(args[i] == rest[i]);
                    assert(plan[i] == p0[i]);
                } else {
                    assert(i == last);
                    assert(args.take(i) == rest);
                    let n = step_arg_count(rest);
                    assert(n == rest.filter(from_step_arguments()).len());
                    if a.scenario_arg {
                        assert(plan == p0.push(ArgSource::Scenario(scenario_access(a.ty)->Some_0)));
                    } else if is_str_reference(a.ty) {
                        assert(plan == p0.push(ArgSource::StepText(n as usize)));
                        assert(n <= rest.len());
                        assert((n as usize) as int == n);
                    } else {
                        assert(plan == p0.push(ArgSource::StepConverted(n as usize)));
                        assert(n <= rest.len());
                        assert((n as usize) as int == n);
                    }
                }
            }
        }
        if let Err(k) = step_plan(args) {
            if let Err(k0) = step_plan(rest) {
                assert(k0 == k);
                assert(args[k] == rest[k]);
                assert forall|j: int| 0 <= j < k && #[trigger] args[j].scenario_arg implies scenario_access(args[j].ty) is Some by {
                    assert(args[j] == rest[j]);
                }
            } else {
                assert(k == last);
                assert forall|j: int| 0 <= j < k && #[trigger] args[j].scenario_arg implies scenario_access(args[j].ty) is Some by {
                    assert(args[j] == rest[j]);
                }
            }
        }
        assert forall|i: int| 0 <= i < args.len() && #[trigger] args[i].scenario_arg && step_plan(args) is Ok implies scenario_access(args[i].ty) is Some by {
            if i < last {
                assert(args[i] == rest[i]);
            }
        }
        if forall|i: int| 0 <= i < args.len() && #[trigger] args[i].scenario_arg ==> scenario_access(args[i].ty) is Some {
            assert forall|i: int| 0 <= i < rest.len() && #[trigger] rest[i].scenario_arg implies scenario_access(rest[i].ty) is Some by {
                assert(args[i] == rest[i]);
            }
        }
    }
}

/// The wrapper of a hook takes every argument from the scenario data, each
/// with the access of its type, in order; the plan fails exactly where an
/// argument has a type that cannot be taken from the scenario data, at the
/// first such argument.
pub proof fn lemma_hook_plan_takes_every_argument_from_the_scenario(args: Seq<GlueFnArg>)
    ensures
        hook_plan(args) is Ok <==> forall|i: int| 0 <= i < args.len() ==> scenario_access(#[trigger] args[i].ty) is Some,
        hook_plan(args) matches Err(k) ==> 0 <= k < args.len() && scenario_access(args[k].ty) is None
            && forall|j: int| 0 <= j < k ==> scenario_access(#[trigger] args[j].ty) is Some,
        hook_plan(args) matches Ok(plan) ==> plan.len() == args.len() && forall|i: int|
            0 <= i < args.len() ==> scenario_access(#[trigger] args[i].ty) == Some(plan[i]),
    decreases args.len(),
{
    if args.len() > 0 {
        let rest = args.drop_last();
        lemma_hook_plan_takes_every_argument_from_the_scenario(rest);
        assert forall|i: int| 0 <= i < rest.len() implies #[trigger] args[i] == rest[i] by {}
        if let Ok(plan) = hook_plan(args) {
            let p0 = hook_plan(rest)->Ok_0;
            assert forall|i: int| 0 <= i < args.len() implies scenario_access(#[trigger] args[i].ty) == Some(plan[i]) by {
                if i < rest.len() {
                    assert(args[i] == rest[i]);
                    assert(plan[i] == p0[i]);
                }
            }
        }
        if forall|i: int| 0 <= i < args.len() ==> scenario_access(#[trigger] args[i].ty) is Some {
            assert forall|i: int| 0 <= i < rest.len() implies scenario_access(#[trigger] rest[i].ty) is Some by {
                assert(args[i] == rest[i]);
            }
            assert(scenario_access(args[args.len() - 1].ty) is Some);
        }
        if let Err(k) = hook_plan(args) {
            assert forall|j: int| 0 <= j < k implies scenario_access(#[trigger] args[j].ty) is Some by {
                assert(args[j] == rest[j]);
            }
        }
    }
}

} // verus!
