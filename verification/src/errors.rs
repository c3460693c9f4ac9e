//! What the analysis reports when it rejects a contract.
use vstd::prelude::*;
use crate::representations::{Expr, SymbolicExpression};

verus! {

/// The reasons for which a contract is rejected.
#[derive(Debug, PartialEq, Eq)]
pub enum CheckErrors {
    /// A function definition that is not a signature list followed by one body.
    DefineFunctionBadSignature,
    /// A function definition whose name is not a bare identifier.
    BadFunctionName,
    /// A function declared read-only whose body may write.
    WriteAttemptedInReadOnly,
    /// A `let` whose first argument is not a list of bindings.
    BadLetSyntax,
    /// A binding that is not a name followed by one value.
    BadSyntaxBinding,
    /// A tuple entry that is not a key followed by one value.
    TupleExpectsPairs,
    /// A form given another number of arguments than the one it takes:
    /// the number it takes, then the number found.
    IncorrectArgumentCount(usize, usize),
    /// A form given fewer arguments than it needs: the least number it
    /// takes, then the number found.
    RequiresAtLeastArguments(usize, usize),
    /// A call of a function that no earlier definition introduced.
    UnknownFunction(String),
    /// A list whose head is not a bare identifier.
    NonFunctionApplication,
    /// A call into another contract whose contract or function is not
    /// written out.
    ContractCallExpectName,
}

/// Mathematical view of [`CheckErrors`].
pub enum ErrorKind {
    DefineFunctionBadSignature,
    BadFunctionName,
    WriteAttemptedInReadOnly,
    BadLetSyntax,
    BadSyntaxBinding,
    TupleExpectsPairs,
    IncorrectArgumentCount(int, int),
    RequiresAtLeastArguments(int, int),
    UnknownFunction(Seq<char>),
    NonFunctionApplication,
    ContractCallExpectName,
}

impl View for CheckErrors {
    type V = ErrorKind;

    open spec fn view(&self) -> ErrorKind {
        match self {
            CheckErrors::DefineFunctionBadSignature => ErrorKind::DefineFunctionBadSignature,
            CheckErrors::BadFunctionName => ErrorKind::BadFunctionName,
            CheckErrors::WriteAttemptedInReadOnly => ErrorKind::WriteAttemptedInReadOnly,
            CheckErrors::BadLetSyntax => ErrorKind::BadLetSyntax,
            CheckErrors::BadSyntaxBinding => ErrorKind::BadSyntaxBinding,
            CheckErrors::TupleExpectsPairs => ErrorKind::TupleExpectsPairs,
            CheckErrors::IncorrectArgumentCount(expected, found) => ErrorKind::IncorrectArgumentCount(
                *expected as int,
                *found as int,
            ),
            CheckErrors::RequiresAtLeastArguments(expected, found) => ErrorKind::RequiresAtLeastArguments(
                *expected as int,
                *found as int,
            ),
            CheckErrors::UnknownFunction(name) => ErrorKind::UnknownFunction(name@),
            CheckErrors::NonFunctionApplication => ErrorKind::NonFunctionApplication,
            CheckErrors::ContractCallExpectName => ErrorKind::ContractCallExpectName,
        }
    }
}

/// A rejection together with the expression it is reported against, once
/// one has been attached.
#[derive(Debug, PartialEq, Eq)]
pub struct CheckError {
    pub err: CheckErrors,
    pub expression: Option<SymbolicExpression>,
}

/// Mathematical view of a [`CheckError`].
pub struct Diagnostic {
    pub kind: ErrorKind,
    pub expression: Option<Expr>,
}

impl View for CheckError {
    type V = Diagnostic;

    open spec fn view(&self) -> Diagnostic {
        Diagnostic {
            kind: self.err@,
            expression: match self.expression {
                Some(expression) => Some(expression@),
                None => None,
            },
        }
    }
}

/// A rejection of the given kind that no expression is attached to yet.
pub open spec fn bare(kind: ErrorKind) -> Diagnostic {
    Diagnostic { kind, expression: None }
}

impl CheckError {
    /// A rejection with no expression attached.
    pub fn new(err: CheckErrors) -> (error: Self)
        ensures
            error@ == bare(err@),
    {
        CheckError { err, expression: None }
    }

    /// Whether an expression is attached.
    pub fn has_expression(&self) -> (attached: bool)
        ensures
            attached == self@.expression.is_some(),
    {
        self.expression.is_some()
    }

    /// Attaches a copy of `expression`, replacing what was attached before.
    pub fn set_expression(&mut self, expression: &SymbolicExpression)
        ensures
            final(self)@ == (Diagnostic { kind: old(self)@.kind, expression: Some(expression@) }),
    {
        self.expression = Some(expression.clone());
    }
}

/// Accepts exactly `expected` arguments.
pub fn check_argument_count<T>(expected: usize, args: &[T]) -> (result: Result<(), CheckError>)
    ensures
        result is Ok <==> args@.len() == expected,
        result matches Err(error) ==> error@ == bare(
            ErrorKind::IncorrectArgumentCount(expected as int, args@.len() as int),
        ),
{
    if args.len() != expected {
        Err(CheckError::new(CheckErrors::IncorrectArgumentCount(expected, args.len())))
    } else {
        Ok(())
    }
}

/// Accepts `expected` arguments or more.
pub fn check_arguments_at_least<T>(expected: usize, args: &[T]) -> (result: Result<(), CheckError>)
    ensures
        result is Ok <==> args@.len() >= expected,
        result matches Err(error) ==> error@ == bare(
            ErrorKind::RequiresAtLeastArguments(expected as int, args@.len() as int),
        ),
{
    if args.len() < expected {
        Err(CheckError::new(CheckErrors::RequiresAtLeastArguments(expected, args.len())))
    } else {
        Ok(())
    }
}

} // verus!
