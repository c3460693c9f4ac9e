//! What it means for an expression to be read-only.
//!
//! The functions here are the mathematical definition of the analysis:
//! they say, for an expression tree and a context, whether the expression
//! is read-only, may write, or is rejected and why. The executable checker
//! is proved to compute exactly these.
use vstd::prelude::*;
use crate::database::{lookup, FunctionKey};
use crate::errors::ErrorKind;
use crate::functions::{define_form, is_implicit_tuple, DefineFunctions, NativeFunctions, PurityRule};
use crate::representations::{Expr, Literal, Principal};

verus! {

/// What an expression is classified against.
pub struct Context {
    /// The functions that the contract has defined so far, each with
    /// whether it is read-only.
    pub defined: Map<Seq<char>, bool>,
    /// The functions of other contracts, as far as they are known, each
    /// with whether it is read-only.
    pub registered: Map<FunctionKey, bool>,
}

/// The purity of an expression: literals and identifiers are read-only, a
/// list is an application.
pub open spec fn expression_purity(context: Context, expression: Expr) -> Result<bool, ErrorKind>
    decreases expression, 0int,
{
    match expression {
        Expr::List(list) => application_purity(context, list),
        _ => Ok(true),
    }
}

/// The purity of applying the head of `list` to the rest of it.
///
/// The head must be an identifier. It names a built-in operator, or else a
/// function that the contract has defined already, whose recorded purity
/// then holds for the application as long as every argument is read-only.
pub open spec fn application_purity(context: Context, list: Seq<Expr>) -> Result<bool, ErrorKind>
    decreases list, 1int,
{
    if list.len() == 0 {
        Err(ErrorKind::NonFunctionApplication)
    } else {
        match list[0] {
            Expr::Atom(name) => {
                let args = list.drop_first();
                match NativeFunctions::named(name) {
                    Some(function) => native_purity(context, function, args),
                    None => if context.defined.contains_key(name) {
                        arguments_purity(context, context.defined[name], args)
                    } else {
                        Err(ErrorKind::UnknownFunction(name))
                    },
                }
            },
            _ => Err(ErrorKind::NonFunctionApplication),
        }
    }
}

/// The purity of `args` taken together, starting out from `seed`: the
/// first rejection among them, else whether `seed` holds and each of them
/// is read-only. Every argument is looked at, also behind one that may
/// write.
pub open spec fn arguments_purity(context: Context, seed: bool, args: Seq<Expr>) -> Result<
    bool,
    ErrorKind,
>
    decreases args, 0int,
{
    if args.len() == 0 {
        Ok(seed)
    } else {
        match expression_purity(context, args[0]) {
            Ok(read_only) => arguments_purity(context, seed && read_only, args.drop_first()),
            Err(kind) => Err(kind),
        }
    }
}

/// The value of a pair: the second element of a list of two. `None` for
/// anything that is not a list of two elements.
pub open spec fn pair_value(pair: Expr) -> Option<Expr> {
    match pair {
        Expr::List(elements) => if elements.len() == 2 {
            Some(elements[1])
        } else {
            None
        },
        _ => None,
    }
}

/// The purity of the values of `pairs` taken together, starting out from
/// `seed`: the first rejection among the pairs, else whether `seed` holds
/// and the value of each pair is read-only. What is not a pair is rejected
/// with `malformed`. Every pair is looked at, also behind one whose value
/// may write.
pub open spec fn pairs_purity(context: Context, seed: bool, pairs: Seq<Expr>, malformed: ErrorKind) -> Result<
    bool,
    ErrorKind,
>
    decreases pairs, 0int,
{
    if pairs.len() == 0 {
        Ok(seed)
    } else {
        match pair_value(pairs[0]) {
            Some(value) => match expression_purity(context, value) {
                Ok(read_only) => pairs_purity(context, seed && read_only, pairs.drop_first(), malformed),
                Err(kind) => Err(kind),
            },
            None => Err(malformed),
        }
    }
}

/// The purity of the value of a pair; what is not a pair is rejected
/// with `malformed`.
pub open spec fn pair_purity(context: Context, pair: Expr, malformed: ErrorKind) -> Result<
    bool,
    ErrorKind,
> {
    match pair_value(pair) {
        Some(value) => expression_purity(context, value),
        None => Err(malformed),
    }
}

/// The purity of applying the built-in operator `function` to `args`.
pub open spec fn native_purity(context: Context, function: NativeFunctions, args: Seq<Expr>) -> Result<
    bool,
    ErrorKind,
>
    decreases args, 2int,
{
    match function.purity_rule() {
        PurityRule::ArgumentsDetermine => arguments_purity(context, true, args),
        PurityRule::AlwaysMutating => Ok(false),
        PurityRule::KeyedStorageRead(key) => if args.len() <= key {
            Err(ErrorKind::RequiresAtLeastArguments(key as int + 1, args.len() as int))
        } else if is_implicit_tuple(args[key as int]) {
            pairs_purity(context, true, args[key as int]->List_0, ErrorKind::TupleExpectsPairs)
        } else {
            arguments_purity(context, true, args)
        },
        PurityRule::Binding => if args.len() < 2 {
            Err(ErrorKind::RequiresAtLeastArguments(2, args.len() as int))
        } else {
            match args[0] {
                Expr::List(bindings) => match pairs_purity(
                    context,
                    true,
                    bindings,
                    ErrorKind::BadSyntaxBinding,
                ) {
                    Ok(read_only) => arguments_purity(context, read_only, args.drop_first()),
                    Err(kind) => Err(kind),
                },
                _ => Err(ErrorKind::BadLetSyntax),
            }
        },
        PurityRule::HigherOrder(arity) => if args.len() != arity {
            Err(ErrorKind::IncorrectArgumentCount(arity as int, args.len() as int))
        } else {
            application_purity(context, args)
        },
        PurityRule::TupleConstruction => pairs_purity(
            context,
            true,
            args,
            ErrorKind::TupleExpectsPairs,
        ),
        PurityRule::ContractCall => if args.len() < 2 {
            Err(ErrorKind::RequiresAtLeastArguments(2, args.len() as int))
        } else {
            match contract_call_target(args) {
                Some(target) => arguments_purity(
                    context,
                    lookup(context.registered, target.contract, target.function) == Some(true),
                    args.subrange(2, args.len() as int),
                ),
                None => Err(ErrorKind::ContractCallExpectName),
            }
        },
    }
}

/// The function that a call into another contract names: the contract
/// written out as a literal in the first argument, the function as an
/// identifier in the second. `None` when either is written otherwise.
pub open spec fn contract_call_target(args: Seq<Expr>) -> Option<FunctionKey>
    recommends
        args.len() >= 2,
{
    match (args[0], args[1]) {
        (Expr::LiteralValue(Literal::Principal(Principal::Contract(contract))), Expr::Atom(function)) => Some(
            FunctionKey { contract, function },
        ),
        _ => None,
    }
}

/// What the definition of a function amounts to: its name and the purity
/// of its body. `args` is what follows the defining form's name: a
/// signature, which is a list that starts with the function's name, and
/// then the body, and nothing else.
pub open spec fn function_definition(context: Context, args: Seq<Expr>) -> Result<
    (Seq<char>, bool),
    ErrorKind,
> {
    if args.len() != 2 {
        Err(ErrorKind::DefineFunctionBadSignature)
    } else {
        match args[0] {
            Expr::List(signature) => if signature.len() == 0 {
                Err(ErrorKind::DefineFunctionBadSignature)
            } else {
                match signature[0] {
                    Expr::Atom(name) => match expression_purity(context, args[1]) {
                        Ok(read_only) => Ok((name, read_only)),
                        Err(kind) => Err(kind),
                    },
                    _ => Err(ErrorKind::BadFunctionName),
                }
            },
            _ => Err(ErrorKind::DefineFunctionBadSignature),
        }
    }
}

/// What one top-level expression does to the table of defined functions.
///
/// Only the definition of a function does anything. A private or a public
/// function is recorded with the purity of its body. A function declared
/// read-only is recorded if its body is read-only, and rejected if not.
pub open spec fn top_level_effect(context: Context, expression: Expr) -> Result<
    Map<Seq<char>, bool>,
    ErrorKind,
> {
    match define_form(expression) {
        Some((kind, args)) => match kind {
            DefineFunctions::PrivateFunction | DefineFunctions::PublicFunction => match function_definition(
                context,
                args,
            ) {
                Ok((name, read_only)) => Ok(context.defined.insert(name, read_only)),
                Err(kind) => Err(kind),
            },
            DefineFunctions::ReadOnlyFunction => match function_definition(context, args) {
                Ok((name, read_only)) => if read_only {
                    Ok(context.defined.insert(name, true))
                } else {
                    Err(ErrorKind::WriteAttemptedInReadOnly)
                },
                Err(kind) => Err(kind),
            },
            _ => Ok(context.defined),
        },
        None => Ok(context.defined),
    }
}

/// How the analysis of a contract ends.
pub struct Outcome {
    /// The functions defined by the expressions that were accepted.
    pub defined: Map<Seq<char>, bool>,
    /// The rejection that stopped the analysis, if one did: its kind and
    /// the top-level expression that it arose in.
    pub rejection: Option<(ErrorKind, Expr)>,
}

/// The analysis of `expressions`, in order, starting out from `context`.
/// It stops at the first expression that is rejected.
pub open spec fn contract_outcome(context: Context, expressions: Seq<Expr>) -> Outcome
    decreases expressions.len(),
{
    if expressions.len() == 0 {
        Outcome { defined: context.defined, rejection: None }
    } else {
        match top_level_effect(context, expressions[0]) {
            Ok(defined) => contract_outcome(
                Context { defined, registered: context.registered },
                expressions.drop_first(),
            ),
            Err(kind) => Outcome { defined: context.defined, rejection: Some((kind, expressions[0])) },
        }
    }
}

} // verus!
