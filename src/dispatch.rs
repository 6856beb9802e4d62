use vstd::prelude::*;

use crate::command::Command;
use crate::number::{int_parse, parse_i32, parse_i64, IntError};
use crate::render::{decimal_string, decimal_text, join_lines, joined};
use crate::text::views;

verus! {

/// The kind of a parameter or result that an exported function declares.
#[derive(Clone, Copy, Debug, PartialEq, Eq, Structural)]
pub enum ValKind {
    I32,
    I64,
    F32,
    F64,
    /// Any other kind (vectors, references): not accepted as an argument.
    Other,
}

/// An argument coerced from its text for a declared parameter. Integers are
/// parsed here; floating-point text is carried as it is and read as a
/// number where the call is made.
#[derive(Clone, Debug)]
pub enum ArgValue {
    I32(i32),
    I64(i64),
    F32(String),
    F64(String),
}

/// Why the arguments of an exec call could not be coerced.
#[derive(Clone, Copy, Debug, PartialEq, Eq, Structural)]
pub enum ArgumentError {
    /// Fewer arguments than declared parameters.
    NotEnough,
    /// A declared parameter of a kind that cannot be written as text.
    Unsupported,
    /// An argument that is not an integer of its parameter's kind.
    Invalid(IntError),
    /// An argument that is not a floating-point number.
    InvalidFloat(FloatError),
}

/// Why a text is not a floating-point number; the kinds of Rust's float
/// `FromStr` failures.
#[derive(Clone, Copy, Debug, PartialEq, Eq, Structural)]
pub enum FloatError {
    Empty,
    Invalid,
}

/// A value returned by an exported function. Floating-point results arrive
/// already written out as text.
#[derive(Clone, Debug)]
pub enum RetValue {
    I32(i32),
    I64(i64),
    V128(u128),
    /// An external or function reference.
    Reference,
    Text(String),
}

/// The failures of one exec call, and of the channel that carries it.
#[derive(Clone, Debug)]
pub enum ExecError {
    /// No exported function has the requested name.
    Lookup(String),
    /// The arguments do not fit the function's parameters.
    Argument(ArgumentError),
    /// The call trapped or was interrupted; the fault's description.
    Execution(String),
    /// The worker's end of the exec channel is gone.
    Channel,
}

impl ArgumentError {
    /// The description of the error.
    pub open spec fn text(&self) -> Seq<char> {
        match self {
            ArgumentError::NotEnough => "Not enough arguments"@,
            ArgumentError::Unsupported => "Unsupported argument type"@,
            ArgumentError::Invalid(e) => e.text(),
            ArgumentError::InvalidFloat(FloatError::Empty) => "cannot parse float from empty string"@,
            ArgumentError::InvalidFloat(FloatError::Invalid) => "invalid float literal"@,
        }
    }

    /// A human-readable description of the error.
    pub fn message(&self) -> (r: String)
        ensures
            r@ == self.text(),
    {
        match self {
            ArgumentError::NotEnough => String::from_str("Not enough arguments"),
            ArgumentError::Unsupported => String::from_str("Unsupported argument type"),
            ArgumentError::Invalid(e) => e.message(),
            ArgumentError::InvalidFloat(FloatError::Empty) => String::from_str(
                "cannot parse float from empty string",
            ),
            ArgumentError::InvalidFloat(FloatError::Invalid) => String::from_str(
                "invalid float literal",
            ),
        }
    }
}

impl ExecError {
    /// A human-readable description of the error, as exec answers carry it.
    pub fn message(&self) -> (r: String)
        ensures
            self matches ExecError::Lookup(f) ==> r@ == "No function found with name "@ + f@,
            self matches ExecError::Argument(e) ==> r@ == "Error parsing the args: "@ + e.text(),
            self matches ExecError::Execution(t) ==> r@ == "Error executing command: "@ + t@,
            self matches ExecError::Channel ==> r@ == "exec channel closed"@,
    {
        match self {
            ExecError::Lookup(f) => {
                let mut s = String::from_str("No function found with name ");
                s.append(f.as_str());
                s
            },
            ExecError::Argument(e) => {
                let mut s = String::from_str("Error parsing the args: ");
                let detail = e.message();
                s.append(detail.as_str());
                s
            },
            ExecError::Execution(t) => {
                let mut s = String::from_str("Error executing command: ");
                s.append(t.as_str());
                s
            },
            ExecError::Channel => String::from_str("exec channel closed"),
        }
    }
}

/// The error that coercing `text` (or a missing argument) for `kind` gives, if any.
pub open spec fn coerce_error(kind: ValKind, text: Option<Seq<char>>) -> Option<ArgumentError> {
    match text {
        None => Some(ArgumentError::NotEnough),
        Some(t) => match kind {
            ValKind::I32 => match int_parse(t, i32::MIN as int, i32::MAX as int) {
                Ok(_) => None,
                Err(e) => Some(ArgumentError::Invalid(e)),
            },
            ValKind::I64 => match int_parse(t, i64::MIN as int, i64::MAX as int) {
                Ok(_) => None,
                Err(e) => Some(ArgumentError::Invalid(e)),
            },
            ValKind::F32 => None,
            ValKind::F64 => None,
            ValKind::Other => Some(ArgumentError::Unsupported),
        },
    }
}

/// The argument text for parameter `i`, if one was given.
pub open spec fn arg_at(args: Seq<Seq<char>>, i: int) -> Option<Seq<char>> {
    if i < args.len() {
        Some(args[i])
    } else {
        None
    }
}

/// The first error met when the first `n` parameters are filled in order.
pub open spec fn args_error(params: Seq<ValKind>, args: Seq<Seq<char>>, n: int) -> Option<
    ArgumentError,
>
    decreases n,
{
    if n <= 0 {
        None
    } else {
        match args_error(params, args, n - 1) {
            Some(e) => Some(e),
            None => coerce_error(params[n - 1], arg_at(args, n - 1)),
        }
    }
}

proof fn lemma_args_error_sticky(params: Seq<ValKind>, args: Seq<Seq<char>>, n: int, m: int)
    requires
        0 <= n <= m,
        args_error(params, args, n) is Some,
    ensures
        args_error(params, args, m) == args_error(params, args, n),
    decreases m - n,
{
    if n < m {
        lemma_args_error_sticky(params, args, n, m - 1);
    }
}

/// `v` is the coercion of `text` for a parameter of `kind`.
pub open spec fn arg_is(v: ArgValue, kind: ValKind, text: Seq<char>) -> bool {
    match (kind, v) {
        (ValKind::I32, ArgValue::I32(x)) => int_parse(text, i32::MIN as int, i32::MAX as int)
            == Ok::<int, IntError>(x as int),
        (ValKind::I64, ArgValue::I64(x)) => int_parse(text, i64::MIN as int, i64::MAX as int)
            == Ok::<int, IntError>(x as int),
        (ValKind::F32, ArgValue::F32(s)) => s@ == text,
        (ValKind::F64, ArgValue::F64(s)) => s@ == text,
        _ => false,
    }
}

/// Coerces the text arguments of an exec call into values for the declared
/// parameters, one per parameter, in order. Arguments beyond the parameter
/// count are ignored; too few give `NotEnough`.
pub fn parse_args(params: &Vec<ValKind>, args: &Vec<String>) -> (r: Result<
    Vec<ArgValue>,
    ArgumentError,
>)
    ensures
        match r {
            Ok(v) => args_error(params@, views(args@), params@.len() as int) is None
                && v@.len() == params@.len() && forall|i: int|
                0 <= i < v@.len() ==> arg_is(#[trigger] v@[i], params@[i], args@[i]@),
            Err(e) => args_error(params@, views(args@), params@.len() as int) == Some(e),
        },
{
    let ghost texts = views(args@);
    let mut values: Vec<ArgValue> = Vec::new();
    let mut i: usize = 0;
    while i < params.len()
        invariant
            i <= params@.len(),
            texts == views(args@),
            values@.len() == i,
            args_error(params@, texts, i as int) is None,
            forall|j: int| 0 <= j < i ==> arg_is(#[trigger] values@[j], params@[j], args@[j]@),
        decreases params@.len() - i,
    {
        if i >= args.len() {
            proof {
                lemma_args_error_sticky(params@, texts, i + 1, params@.len() as int);
            }
            return Err(ArgumentError::NotEnough);
        }
        let text = args[i].as_str();
        assert(arg_at(texts, i as int) == Some(args@[i as int]@));
        let value = match params[i] {
            ValKind::I32 => match parse_i32(text) {
                Ok(x) => ArgValue::I32(x),
                Err(e) => {
                    proof {
                        lemma_args_error_sticky(params@, texts, i + 1, params@.len() as int);
                    }
                    return Err(ArgumentError::Invalid(e));
                },
            },
            ValKind::I64 => match parse_i64(text) {
                Ok(x) => ArgValue::I64(x),
                Err(e) => {
                    proof {
                        lemma_args_error_sticky(params@, texts, i + 1, params@.len() as int);
                    }
                    return Err(ArgumentError::Invalid(e));
                },
            },
            ValKind::F32 => ArgValue::F32(text.to_owned()),
            ValKind::F64 => ArgValue::F64(text.to_owned()),
            ValKind::Other => {
                proof {
                    lemma_args_error_sticky(params@, texts, i + 1, params@.len() as int);
                }
                return Err(ArgumentError::Unsupported);
            },
        };
        values.push(value);
        i = i + 1;
    }
    Ok(values)
}

/// The text an exec call answers with for one returned value.
pub open spec fn value_text(v: RetValue) -> Seq<char> {
    match v {
        RetValue::I32(x) => decimal_text(x as int),
        RetValue::I64(x) => decimal_text(x as int),
        RetValue::V128(x) => decimal_text(x as int),
        RetValue::Reference => reference_text(),
        RetValue::Text(s) => s@,
    }
}

/// The text that stands for a reference value.
pub open spec fn reference_text() -> Seq<char> {
    seq!['<', 'e', 'x', 't', 'e', 'r', 'n', 'r', 'e', 'f', '>']
}

/// Renders one returned value in its canonical form.
pub fn render_value(v: &RetValue) -> (r: String)
    ensures
        r@ == value_text(*v),
{
    match v {
        RetValue::I32(x) => decimal_string(*x as i128),
        RetValue::I64(x) => decimal_string(*x as i128),
        RetValue::V128(x) => crate::render::digits_string(*x),
        RetValue::Reference => {
            proof {
                reveal_strlit("<externref>");
            }
            let s = String::from_str("<externref>");
            assert(s@ =~= reference_text());
            s
        },
        RetValue::Text(s) => s.clone(),
    }
}

/// The answer to an exec call that returned `vals`: each value rendered,
/// joined with newlines.
pub open spec fn results_text(vals: Seq<RetValue>) -> Seq<char> {
    joined(vals.map_values(|v: RetValue| value_text(v)))
}

/// Renders the values an exported function returned, one per line.
pub fn render_results(vals: &Vec<RetValue>) -> (r: String)
    ensures
        r@ == results_text(vals@),
{
    let mut parts: Vec<String> = Vec::new();
    let mut i: usize = 0;
    while i < vals.len()
        invariant
            i <= vals@.len(),
            parts@.len() == i,
            forall|j: int| 0 <= j < i ==> (#[trigger] parts@[j])@ == value_text(vals@[j]),
        decreases vals@.len() - i,
    {
        parts.push(render_value(&vals[i]));
        i = i + 1;
    }
    let r = join_lines(&parts);
    assert(parts@.map_values(|x: String| x@) =~= vals@.map_values(|v: RetValue| value_text(v)));
    r
}

/// Prepares an exec call: `params` are the parameter kinds of the export
/// named by the command, `None` when the module has no such export.
pub fn prepare_call(command: &Command, params: &Option<Vec<ValKind>>) -> (r: Result<
    Vec<ArgValue>,
    ExecError,
>)
    ensures
        match params {
            None => r matches Err(ExecError::Lookup(f)) && f@ == command.function@,
            Some(p) => match r {
                Ok(v) => args_error(p@, views(command.args@), p@.len() as int) is None
                    && v@.len() == p@.len() && forall|i: int|
                    0 <= i < v@.len() ==> arg_is(#[trigger] v@[i], p@[i], command.args@[i]@),
                Err(ExecError::Argument(e)) => args_error(
                    p@,
                    views(command.args@),
                    p@.len() as int,
                ) == Some(e),
                _ => false,
            },
        },
{
    match params {
        None => Err(ExecError::Lookup(command.function.clone())),
        Some(p) => match parse_args(p, &command.args) {
            Ok(v) => Ok(v),
            Err(e) => Err(ExecError::Argument(e)),
        },
    }
}

/// The answer to an exec call from what the call did: the rendered values,
/// or an `Execution` error carrying the fault.
pub fn exec_reply(outcome: Result<Vec<RetValue>, String>) -> (r: Result<String, ExecError>)
    ensures
        match outcome {
            Ok(vals) => r matches Ok(s) && s@ == results_text(vals@),
            Err(fault) => r matches Err(ExecError::Execution(f)) && f@ == fault@,
        },
{
    match outcome {
        Ok(vals) => Ok(render_results(&vals)),
        Err(fault) => Err(ExecError::Execution(fault)),
    }
}

} // verus!
