//! The failures of the function, each with the message the host shows.

use vstd::prelude::*;

verus! {

/// Why a call failed.
#[derive(Clone, Copy, Debug, PartialEq, Eq, Structural)]
pub enum ErrorKind {
    /// The wrong number of arguments.
    Arity,
    /// The argument is not a timestamp of any unit.
    TypeMismatch,
    /// The argument is a timestamp with a time zone, but not a scalar that
    /// holds an instant.
    Shape,
}

/// A failed call: its kind, and the message that is handed to the caller.
#[derive(Debug, PartialEq, Eq)]
pub struct ExecutionError {
    pub kind: ErrorKind,
    pub message: String,
}

/// What an [`ExecutionError`] stands for.
pub struct ErrorView {
    pub kind: ErrorKind,
    pub message: Seq<char>,
}

impl View for ExecutionError {
    type V = ErrorView;

    open spec fn view(&self) -> ErrorView {
        ErrorView { kind: self.kind, message: self.message@ }
    }
}

/// The decimal digit for a number below ten.
pub open spec fn digit(d: nat) -> char {
    if d == 0 {
        '0'
    } else if d == 1 {
        '1'
    } else if d == 2 {
        '2'
    } else if d == 3 {
        '3'
    } else if d == 4 {
        '4'
    } else if d == 5 {
        '5'
    } else if d == 6 {
        '6'
    } else if d == 7 {
        '7'
    } else if d == 8 {
        '8'
    } else {
        '9'
    }
}

/// A number written in decimal, without leading zeros.
pub open spec fn decimal(n: nat) -> Seq<char>
    decreases n,
{
    if n < 10 {
        seq![digit(n)]
    } else {
        decimal(n / 10).push(digit(n % 10))
    }
}

/// Type resolution was given no argument type.
pub open spec fn no_argument_type() -> ErrorView {
    ErrorView {
        kind: ErrorKind::Arity,
        message: "to_local_time function requires 1 arguments, got 0"@,
    }
}

/// Type resolution was given a first argument type that is not a timestamp.
pub open spec fn unresolvable_type() -> ErrorView {
    ErrorView {
        kind: ErrorKind::TypeMismatch,
        message: "The date_bin function can only accept timestamp as the second arg."@,
    }
}

/// The function was invoked without arguments.
pub open spec fn no_argument() -> ErrorView {
    ErrorView {
        kind: ErrorKind::Arity,
        message: "to_local_time function requires 1 or more arguments, got 0"@,
    }
}

/// The function was given `count` arguments where it takes one.
pub open spec fn wrong_argument_count(count: nat) -> ErrorView {
    ErrorView {
        kind: ErrorKind::Arity,
        message: "to_local_time function requires 1 argument, got "@ + decimal(count),
    }
}

/// The function was given an argument that it cannot convert: one whose type,
/// printed as `type_text`, is no timestamp (`ErrorKind::TypeMismatch`), or a
/// timestamp with a time zone in a shape other than a scalar with an instant
/// (`ErrorKind::Shape`).
pub open spec fn unsupported_argument(kind: ErrorKind, type_text: Seq<char>) -> ErrorView {
    ErrorView {
        kind,
        message: "to_local_time function requires timestamp argument, got "@ + type_text,
    }
}

/// The text of one decimal digit.
fn digit_text(d: usize) -> (text: &'static str)
    requires
        d < 10,
    ensures
        text@ == seq![digit(d as nat)],
{
    proof {
        reveal_strlit("0");
        reveal_strlit("1");
        reveal_strlit("2");
        reveal_strlit("3");
        reveal_strlit("4");
        reveal_strlit("5");
        reveal_strlit("6");
        reveal_strlit("7");
        reveal_strlit("8");
        reveal_strlit("9");
    }
    let text = if d == 0 {
        "0"
    } else if d == 1 {
        "1"
    } else if d == 2 {
        "2"
    } else if d == 3 {
        "3"
    } else if d == 4 {
        "4"
    } else if d == 5 {
        "5"
    } else if d == 6 {
        "6"
    } else if d == 7 {
        "7"
    } else if d == 8 {
        "8"
    } else {
        "9"
    };
    assert(text@ =~= seq![digit(d as nat)]);
    text
}

/// Writes a number in decimal.
pub fn decimal_text(n: usize) -> (text: String)
    ensures
        text@ == decimal(n as nat),
    decreases n,
{
    if n < 10 {
        digit_text(n).to_owned()
    } else {
        let mut text = decimal_text(n / 10);
        text.append(digit_text(n % 10));
        assert(text@ =~= decimal(n as nat));
        text
    }
}

impl ExecutionError {
    /// The failure of type resolution on an empty list of argument types.
    pub fn no_argument_type() -> (error: Self)
        ensures
            error@ == no_argument_type(),
    {
        ExecutionError {
            kind: ErrorKind::Arity,
            message: "to_local_time function requires 1 arguments, got 0".to_owned(),
        }
    }

    /// The failure of type resolution on a first argument type that is not a
    /// timestamp.
    pub fn unresolvable_type() -> (error: Self)
        ensures
            error@ == unresolvable_type(),
    {
        ExecutionError {
            kind: ErrorKind::TypeMismatch,
            message: "The date_bin function can only accept timestamp as the second arg.".to_owned(),
        }
    }

    /// The failure of an invocation without arguments.
    pub fn no_argument() -> (error: Self)
        ensures
            error@ == no_argument(),
    {
        ExecutionError {
            kind: ErrorKind::Arity,
            message: "to_local_time function requires 1 or more arguments, got 0".to_owned(),
        }
    }

    /// The failure of an invocation with `count` arguments in place of one.
    pub fn wrong_argument_count(count: usize) -> (error: Self)
        ensures
            error@ == wrong_argument_count(count as nat),
    {
        let mut message = "to_local_time function requires 1 argument, got ".to_owned();
        let digits = decimal_text(count);
        message.append(digits.as_str());
        ExecutionError { kind: ErrorKind::Arity, message }
    }

    /// The failure of an invocation on an argument that cannot be converted,
    /// whose type the host prints as `type_text`.
    pub fn unsupported_argument(kind: ErrorKind, type_text: &str) -> (error: Self)
        ensures
            error@ == unsupported_argument(kind, type_text@),
    {
        let mut message = "to_local_time function requires timestamp argument, got ".to_owned();
        message.append(type_text);
        ExecutionError { kind, message }
    }
}

impl Clone for ExecutionError {
    fn clone(&self) -> (copy: Self)
        ensures
            copy@ == self@,
    {
        ExecutionError { kind: self.kind, message: self.message.clone() }
    }
}

} // verus!
