//! Laws of the analysis, each proved from the definitions in
//! [`crate::purity`], which the checker is proved to compute.
use vstd::prelude::*;
use crate::database::lookup;
use crate::errors::ErrorKind;
use crate::functions::{define_form, is_implicit_tuple, DefineFunctions, NativeFunctions, PurityRule};
use crate::purity::{
    application_purity, arguments_purity, contract_call_target, contract_outcome,
    expression_purity, function_definition, native_purity, pair_purity, pair_value, pairs_purity,
    top_level_effect, Context, Outcome,
};
use crate::representations::Expr;

verus! {

/// A literal or an identifier is read-only in every context.
pub proof fn lemma_leaf_is_read_only(context: Context, expression: Expr)
    requires
        !(expression is List),
    ensures
        expression_purity(context, expression) == Ok::<bool, ErrorKind>(true),
{
}

/// Arguments taken together: if none of them is rejected, the result is
/// read-only exactly when the seed holds and every argument is read-only;
/// otherwise the result is the rejection of the first argument that is
/// rejected.
pub proof fn lemma_arguments_purity(context: Context, seed: bool, args: Seq<Expr>)
    ensures
        match arguments_purity(context, seed, args) {
            Ok(read_only) => {
                &&& forall|i: int|
                    0 <= i < args.len() ==> (#[trigger] expression_purity(context, args[i])) is Ok
                &&& read_only == (seed && forall|i: int|
                    0 <= i < args.len() ==> #[trigger] expression_purity(context, args[i]) == Ok::<
                        bool,
                        ErrorKind,
                    >(true))
            },
            Err(kind) => exists|i: int|
                {
                    &&& 0 <= i < args.len()
                    &&& #[trigger] expression_purity(context, args[i]) == Err::<bool, ErrorKind>(kind)
                    &&& forall|j: int|
                        0 <= j < i ==> (#[trigger] expression_purity(context, args[j])) is Ok
                },
        },
    decreases args.len(),
{
    if args.len() > 0 {
        let rest = args.drop_first();
        match expression_purity(context, args[0]) {
            Ok(first) => {
                lemma_arguments_purity(context, seed && first, rest);
                assert forall|i: int| 0 <= i < rest.len() implies rest[i] == args[i + 1] by {}
                match arguments_purity(context, seed && first, rest) {
                    Ok(read_only) => {
                        assert forall|i: int| 0 <= i < args.len() implies (#[trigger] expression_purity(
                            context,
                            args[i],
                        )) is Ok by {
                            if i > 0 {
                                assert(rest[i - 1] == args[i]);
                            }
                        }
                        let all_rest = forall|i: int|
                            0 <= i < rest.len() ==> #[trigger] expression_purity(context, rest[i])
                                == Ok::<bool, ErrorKind>(true);
                        let all_args = forall|i: int|
                            0 <= i < args.len() ==> #[trigger] expression_purity(context, args[i])
                                == Ok::<bool, ErrorKind>(true);
                        if all_args {
                            assert forall|i: int| 0 <= i < rest.len() implies #[trigger] expression_purity(
                                context,
                                rest[i],
                            ) == Ok::<bool, ErrorKind>(true) by {
                                assert(rest[i] == args[i + 1]);
                            }
                        }
                        if first && all_rest {
                            assert forall|i: int| 0 <= i < args.len() implies #[trigger] expression_purity(
                                context,
                                args[i],
                            ) == Ok::<bool, ErrorKind>(true) by {
                                if i > 0 {
                                    assert(rest[i - 1] == args[i]);
                                }
                            }
                        }
                        assert(all_args == (first && all_rest));
                    },
                    Err(kind) => {
                        let at = choose|i: int|
                            {
                                &&& 0 <= i < rest.len()
                                &&& #[trigger] expression_purity(context, rest[i]) == Err::<
                                    bool,
                                    ErrorKind,
                                >(kind)
                                &&& forall|j: int|
                                    0 <= j < i ==> (#[trigger] expression_purity(context, rest[j])) is Ok
                            };
                        assert(rest[at] == args[at + 1]);
                        assert forall|j: int| 0 <= j < at + 1 implies (#[trigger] expression_purity(
                            context,
                            args[j],
                        )) is Ok by {
                            if j > 0 {
                                assert(rest[j - 1] == args[j]);
                            }
                        }
                        assert(expression_purity(context, args[at + 1]) == Err::<bool, ErrorKind>(kind));
                    },
                }
            },
            Err(kind) => {
                assert(expression_purity(context, args[0]) == Err::<bool, ErrorKind>(kind));
            },
        }
    }
}

/// The values of pairs taken together: if no pair is rejected, the result
/// is read-only exactly when the seed holds and the value of every pair is
/// read-only; otherwise the result is the rejection of the first pair that
/// is rejected.
pub proof fn lemma_pairs_purity(
    context: Context,
    seed: bool,
    pairs: Seq<Expr>,
    malformed: ErrorKind,
)
    ensures
        match pairs_purity(context, seed, pairs, malformed) {
            Ok(read_only) => {
                &&& forall|i: int|
                    0 <= i < pairs.len() ==> (#[trigger] pair_purity(context, pairs[i], malformed)) is Ok
                &&& read_only == (seed && forall|i: int|
                    0 <= i < pairs.len() ==> #[trigger] pair_purity(context, pairs[i], malformed) == Ok::<
                        bool,
                        ErrorKind,
                    >(true))
            },
            Err(kind) => exists|i: int|
                {
                    &&& 0 <= i < pairs.len()
                    &&& #[trigger] pair_purity(context, pairs[i], malformed) == Err::<bool, ErrorKind>(kind)
                    &&& forall|j: int|
                        0 <= j < i ==> (#[trigger] pair_purity(context, pairs[j], malformed)) is Ok
                },
        },
    decreases pairs.len(),
{
    if pairs.len() > 0 {
        let rest = pairs.drop_first();
        match pair_purity(context, pairs[0], malformed) {
            Ok(first) => {
                lemma_pairs_purity(context, seed && first, rest, malformed);
                assert forall|i: int| 0 <= i < rest.len() implies rest[i] == pairs[i + 1] by {}
                match pairs_purity(context, seed && first, rest, malformed) {
                    Ok(read_only) => {
                        assert forall|i: int| 0 <= i < pairs.len() implies (#[trigger] pair_purity(context, pairs[i], malformed)) is Ok by {
                            if i > 0 {
                                assert(rest[i - 1] == pairs[i]);
                            }
                        }
                        let all_rest = forall|i: int|
                            0 <= i < rest.len() ==> #[trigger] pair_purity(context, rest[i], malformed)
                                == Ok::<bool, ErrorKind>(true);
                        let all_args = forall|i: int|
                            0 <= i < pairs.len() ==> #[trigger] pair_purity(context, pairs[i], malformed)
                                == Ok::<bool, ErrorKind>(true);
                        if all_args {
                            assert forall|i: int| 0 <= i < rest.len() implies #[trigger] pair_purity(context, rest[i], malformed) == Ok::<bool, ErrorKind>(true) by {
                                assert(rest[i] == pairs[i + 1]);
                            }
                        }
                        if first && all_rest {
                            assert forall|i: int| 0 <= i < pairs.len() implies #[trigger] pair_purity(context, pairs[i], malformed) == Ok::<bool, ErrorKind>(true) by {
                                if i > 0 {
                                    assert(rest[i - 1] == pairs[i]);
                                }
                            }
                        }
                        assert(all_args == (first && all_rest));
                    },
                    Err(kind) => {
                        let at = choose|i: int|
                            {
                                &&& 0 <= i < rest.len()
                                &&& #[trigger] pair_purity(context, rest[i], malformed) == Err::<
                                    bool,
                                    ErrorKind,
                                >(kind)
                                &&& forall|j: int|
                                    0 <= j < i ==> (#[trigger] pair_purity(context, rest[j], malformed)) is Ok
                            };
                        assert(rest[at] == pairs[at + 1]);
                        assert forall|j: int| 0 <= j < at + 1 implies (#[trigger] pair_purity(context, pairs[j], malformed)) is Ok by {
                            if j > 0 {
                                assert(rest[j - 1] == pairs[j]);
                            }
                        }
                        assert(pair_purity(context, pairs[at + 1], malformed) == Err::<bool, ErrorKind>(kind));
                    },
                }
            },
            Err(kind) => {
                assert(pair_purity(context, pairs[0], malformed) == Err::<bool, ErrorKind>(kind));
            },
        }
    }
}

/// Whether `expression` applies an operator that always writes, at a
/// place that the analysis looks at: as the expression itself, among the
/// arguments of an application, among the values bound by a `let` or in
/// its body, among the values of a tuple, or in the application that a
/// `map`, `filter` or `fold` stands for.
pub open spec fn invokes_write(expression: Expr) -> bool
    decreases expression, 0int,
{
    match expression {
        Expr::List(list) => application_invokes_write(list),
        _ => false,
    }
}

/// Whether applying the head of `list` to the rest of it applies an
/// operator that always writes, at a place that the analysis looks at.
pub open spec fn application_invokes_write(list: Seq<Expr>) -> bool
    decreases list, 1int,
{
    if list.len() == 0 {
        false
    } else {
        match list[0] {
            Expr::Atom(name) => match NativeFunctions::named(name) {
                Some(function) => native_invokes_write(function, list.drop_first()),
                None => any_invokes_write(list.drop_first()),
            },
            _ => false,
        }
    }
}

/// Whether one of `args` invokes a write.
pub open spec fn any_invokes_write(args: Seq<Expr>) -> bool
    decreases args, 0int,
{
    args.len() > 0 && (invokes_write(args[0]) || any_invokes_write(args.drop_first()))
}

/// Whether the value of one of `pairs` invokes a write.
pub open spec fn any_value_invokes_write(pairs: Seq<Expr>) -> bool
    decreases pairs, 0int,
{
    pairs.len() > 0 && (match pair_value(pairs[0]) {
        Some(value) => invokes_write(value),
        None => false,
    } || any_value_invokes_write(pairs.drop_first()))
}

/// Whether applying the built-in operator `function` to `args` applies an
/// operator that always writes, at a place that the analysis looks at.
pub open spec fn native_invokes_write(function: NativeFunctions, args: Seq<Expr>) -> bool
    decreases args, 2int,
{
    match function.purity_rule() {
        PurityRule::ArgumentsDetermine => any_invokes_write(args),
        PurityRule::AlwaysMutating => true,
        PurityRule::KeyedStorageRead(key) => args.len() > key && if is_implicit_tuple(
            args[key as int],
        ) {
            any_value_invokes_write(args[key as int]->List_0)
        } else {
            any_invokes_write(args)
        },
        PurityRule::Binding => args.len() >= 2 && match args[0] {
            Expr::List(bindings) => any_value_invokes_write(bindings) || any_invokes_write(
                args.drop_first(),
            ),
            _ => false,
        },
        PurityRule::HigherOrder(arity) => args.len() == arity && application_invokes_write(args),
        PurityRule::TupleConstruction => any_value_invokes_write(args),
        PurityRule::ContractCall => args.len() >= 2 && any_invokes_write(
            args.subrange(2, args.len() as int),
        ),
    }
}

/// An expression that invokes a write is never classified read-only: if
/// it is not rejected, it is found to write.
pub proof fn lemma_write_is_found(context: Context, expression: Expr)
    requires
        invokes_write(expression),
        expression_purity(context, expression) is Ok,
    ensures
        expression_purity(context, expression) == Ok::<bool, ErrorKind>(false),
    decreases expression, 0int,
{
    match expression {
        Expr::List(list) => lemma_application_write_is_found(context, list),
        _ => {},
    }
}

/// [`lemma_write_is_found`], for an application.
pub proof fn lemma_application_write_is_found(context: Context, list: Seq<Expr>)
    requires
        application_invokes_write(list),
        application_purity(context, list) is Ok,
    ensures
        application_purity(context, list) == Ok::<bool, ErrorKind>(false),
    decreases list, 1int,
{
    let name = list[0]->Atom_0;
    let args = list.drop_first();
    match NativeFunctions::named(name) {
        Some(function) => lemma_native_write_is_found(context, function, args),
        None => lemma_arguments_write_is_found(context, context.defined[name], args),
    }
}

/// Arguments taken together are found to write if the seed does not hold
/// or one of them invokes a write, unless one of them is rejected.
pub proof fn lemma_arguments_write_is_found(context: Context, seed: bool, args: Seq<Expr>)
    requires
        !seed || any_invokes_write(args),
        arguments_purity(context, seed, args) is Ok,
    ensures
        arguments_purity(context, seed, args) == Ok::<bool, ErrorKind>(false),
    decreases args, 0int,
{
    if args.len() > 0 {
        let first = expression_purity(context, args[0])->Ok_0;
        if invokes_write(args[0]) {
            lemma_write_is_found(context, args[0]);
        }
        lemma_arguments_write_is_found(context, seed && first, args.drop_first());
    }
}

/// The values of pairs taken together are found to write if the seed
/// does not hold or one of the values invokes a write, unless a pair is
/// rejected.
pub proof fn lemma_pairs_write_is_found(
    context: Context,
    seed: bool,
    pairs: Seq<Expr>,
    malformed: ErrorKind,
)
    requires
        !seed || any_value_invokes_write(pairs),
        pairs_purity(context, seed, pairs, malformed) is Ok,
    ensures
        pairs_purity(context, seed, pairs, malformed) == Ok::<bool, ErrorKind>(false),
    decreases pairs, 0int,
{
    if pairs.len() > 0 {
        let value = pair_value(pairs[0])->0;
        let first = expression_purity(context, value)->Ok_0;
        if invokes_write(value) {
            lemma_write_is_found(context, value);
        }
        lemma_pairs_write_is_found(context, seed && first, pairs.drop_first(), malformed);
    }
}

/// [`lemma_write_is_found`], for the application of a built-in operator.
pub proof fn lemma_native_write_is_found(context: Context, function: NativeFunctions, args: Seq<Expr>)
    requires
        native_invokes_write(function, args),
        native_purity(context, function, args) is Ok,
    ensures
        native_purity(context, function, args) == Ok::<bool, ErrorKind>(false),
    decreases args, 2int,
{
    match function.purity_rule() {
        PurityRule::ArgumentsDetermine => lemma_arguments_write_is_found(context, true, args),
        PurityRule::AlwaysMutating => {},
        PurityRule::KeyedStorageRead(key) => {
            if is_implicit_tuple(args[key as int]) {
                lemma_pairs_write_is_found(
                    context,
                    true,
                    args[key as int]->List_0,
                    ErrorKind::TupleExpectsPairs,
                );
            } else {
                lemma_arguments_write_is_found(context, true, args);
            }
        },
        PurityRule::Binding => {
            let bindings = args[0]->List_0;
            let bound = pairs_purity(context, true, bindings, ErrorKind::BadSyntaxBinding)->Ok_0;
            if any_value_invokes_write(bindings) {
                lemma_pairs_write_is_found(context, true, bindings, ErrorKind::BadSyntaxBinding);
            }
            lemma_arguments_write_is_found(context, bound, args.drop_first());
        },
        PurityRule::HigherOrder(arity) => lemma_application_write_is_found(context, args),
        PurityRule::TupleConstruction => lemma_pairs_write_is_found(
            context,
            true,
            args,
            ErrorKind::TupleExpectsPairs,
        ),
        PurityRule::ContractCall => {
            let target = contract_call_target(args)->0;
            lemma_arguments_write_is_found(
                context,
                lookup(context.registered, target.contract, target.function) == Some(true),
                args.subrange(2, args.len() as int),
            );
        },
    }
}

/// Whether `expression` is a defining form of the given kind.
pub open spec fn is_definition(expression: Expr, kind: DefineFunctions) -> bool {
    define_form(expression) matches Some((found, _)) && found == kind
}

/// What follows the name of the defining form that `expression` is.
pub open spec fn definition_args(expression: Expr) -> Seq<Expr>
    recommends
        define_form(expression) is Some,
{
    (define_form(expression)->0).1
}

/// Whether `expression` is a call of `name`: a list whose head is the
/// identifier `name`.
pub open spec fn is_call_of(expression: Expr, name: Seq<char>) -> bool {
    expression matches Expr::List(call) && call.len() > 0 && call[0] == Expr::Atom(name)
}

/// A function declared read-only whose body invokes a write is rejected
/// for attempting a write, provided that the definition is well formed
/// and nothing in the body is rejected for a reason of its own.
pub proof fn lemma_read_only_function_that_writes_is_rejected(context: Context, expression: Expr)
    requires
        is_definition(expression, DefineFunctions::ReadOnlyFunction),
        function_definition(context, definition_args(expression)) is Ok,
        invokes_write(definition_args(expression)[1]),
    ensures
        top_level_effect(context, expression) == Err::<Map<Seq<char>, bool>, ErrorKind>(
            ErrorKind::WriteAttemptedInReadOnly,
        ),
{
    lemma_write_is_found(context, definition_args(expression)[1]);
}

/// A private or a public function whose body is found to write is
/// accepted, and recorded as not read-only.
pub proof fn lemma_writing_function_is_recorded(context: Context, expression: Expr, name: Seq<char>)
    requires
        is_definition(expression, DefineFunctions::PrivateFunction) || is_definition(
            expression,
            DefineFunctions::PublicFunction,
        ),
        function_definition(context, definition_args(expression)) == Ok::<
            (Seq<char>, bool),
            ErrorKind,
        >((name, false)),
    ensures
        top_level_effect(context, expression) == Ok::<Map<Seq<char>, bool>, ErrorKind>(
            context.defined.insert(name, false),
        ),
{
}

/// Calling a function that is recorded as not read-only is never
/// read-only: the call is found to write, unless an argument is rejected.
pub proof fn lemma_call_of_writing_function(context: Context, list: Seq<Expr>, name: Seq<char>)
    requires
        is_call_of(Expr::List(list), name),
        NativeFunctions::named(name) is None,
        context.defined.contains_key(name),
        !context.defined[name],
    ensures
        application_purity(context, list) == arguments_purity(context, false, list.drop_first()),
        application_purity(context, list) != Ok::<bool, ErrorKind>(true),
        expression_purity(context, Expr::List(list)) != Ok::<bool, ErrorKind>(true),
{
    let args = list.drop_first();
    if arguments_purity(context, false, args) is Ok {
        lemma_arguments_write_is_found(context, false, args);
    }
}

/// A function declared read-only whose body is a call of a function that
/// is recorded as not read-only is rejected; for attempting a write,
/// unless the definition or an argument of the call is rejected for a
/// reason of its own.
pub proof fn lemma_caller_of_writing_function_is_rejected(
    context: Context,
    expression: Expr,
    name: Seq<char>,
)
    requires
        is_definition(expression, DefineFunctions::ReadOnlyFunction),
        definition_args(expression).len() == 2,
        is_call_of(definition_args(expression)[1], name),
        NativeFunctions::named(name) is None,
        context.defined.contains_key(name),
        !context.defined[name],
    ensures
        top_level_effect(context, expression) is Err,
        function_definition(context, definition_args(expression)) is Ok ==> top_level_effect(
            context,
            expression,
        ) == Err::<Map<Seq<char>, bool>, ErrorKind>(ErrorKind::WriteAttemptedInReadOnly),
{
    lemma_call_of_writing_function(context, definition_args(expression)[1]->List_0, name);
}

/// Applying a name that is neither a built-in operator nor a function
/// defined so far is rejected as an unknown function, whatever the
/// arguments are.
pub proof fn lemma_undefined_function_is_unknown(context: Context, list: Seq<Expr>, name: Seq<char>)
    requires
        is_call_of(Expr::List(list), name),
        NativeFunctions::named(name) is None,
        !context.defined.contains_key(name),
    ensures
        application_purity(context, list) == Err::<bool, ErrorKind>(ErrorKind::UnknownFunction(name)),
        expression_purity(context, Expr::List(list)) == Err::<bool, ErrorKind>(
            ErrorKind::UnknownFunction(name),
        ),
{
}

/// Whether `expression` defines a function, of any of the three kinds.
pub open spec fn is_function_definition(expression: Expr) -> bool {
    ||| is_definition(expression, DefineFunctions::PrivateFunction)
    ||| is_definition(expression, DefineFunctions::PublicFunction)
    ||| is_definition(expression, DefineFunctions::ReadOnlyFunction)
}

/// A contract is analysed piece by piece: the analysis of two runs of
/// expressions, one behind the other, is the analysis of the first run
/// and then, unless that one was rejected, the analysis of the second run
/// with the functions that the first one defined.
pub proof fn lemma_contract_outcome_in_two(context: Context, first: Seq<Expr>, second: Seq<Expr>)
    ensures
        contract_outcome(context, first + second) == ({
            let outcome = contract_outcome(context, first);
            if outcome.rejection is None {
                contract_outcome(
                    Context { defined: outcome.defined, registered: context.registered },
                    second,
                )
            } else {
                outcome
            }
        }),
    decreases first.len(),
{
    if first.len() == 0 {
        assert(first + second =~= second);
    } else {
        let both = first + second;
        assert(both[0] == first[0]);
        assert(both.drop_first() =~= first.drop_first() + second);
        match top_level_effect(context, first[0]) {
            Ok(defined) => {
                lemma_contract_outcome_in_two(
                    Context { defined, registered: context.registered },
                    first.drop_first(),
                    second,
                );
            },
            Err(_) => {},
        }
    }
}

/// What the table of defined functions holds once `expressions` have been
/// analysed, and that none of them was rejected.
pub open spec fn accepted_with(context: Context, expressions: Seq<Expr>, defined: Map<Seq<char>, bool>) -> bool {
    contract_outcome(context, expressions) == (Outcome { defined, rejection: None })
}

/// Definitions take effect in order. Where the expressions before it are
/// accepted and define no function `name`, a function that is defined,
/// with a well-formed signature, by a call of `name` is rejected for
/// calling an unknown function, whatever the expressions behind it
/// define.
pub proof fn lemma_forward_reference_is_rejected(
    context: Context,
    earlier: Seq<Expr>,
    expression: Expr,
    later: Seq<Expr>,
    defined: Map<Seq<char>, bool>,
    name: Seq<char>,
)
    requires
        accepted_with(context, earlier, defined),
        !defined.contains_key(name),
        NativeFunctions::named(name) is None,
        is_function_definition(expression),
        definition_args(expression).len() == 2,
        definition_args(expression)[0] matches Expr::List(signature) && signature.len() > 0
            && signature[0] is Atom,
        is_call_of(definition_args(expression)[1], name),
    ensures
        contract_outcome(context, earlier + seq![expression] + later) == (Outcome {
            defined,
            rejection: Some((ErrorKind::UnknownFunction(name), expression)),
        }),
{
    let rest = seq![expression] + later;
    let then = Context { defined, registered: context.registered };
    assert(earlier + seq![expression] + later =~= earlier + rest);
    lemma_contract_outcome_in_two(context, earlier, rest);
    lemma_undefined_function_is_unknown(then, definition_args(expression)[1]->List_0, name);
    assert(rest[0] == expression);
}

/// Where the expressions before it are accepted and leave `name` recorded
/// as not read-only, a function declared read-only whose body is a call of
/// `name` is rejected, whatever stands behind it; for attempting a write,
/// unless the definition or an argument of the call is rejected for a
/// reason of its own.
pub proof fn lemma_later_caller_of_writing_function_is_rejected(
    context: Context,
    earlier: Seq<Expr>,
    expression: Expr,
    later: Seq<Expr>,
    defined: Map<Seq<char>, bool>,
    name: Seq<char>,
)
    requires
        accepted_with(context, earlier, defined),
        defined.contains_key(name),
        !defined[name],
        NativeFunctions::named(name) is None,
        is_definition(expression, DefineFunctions::ReadOnlyFunction),
        definition_args(expression).len() == 2,
        is_call_of(definition_args(expression)[1], name),
    ensures
        ({
            let outcome = contract_outcome(context, earlier + seq![expression] + later);
            let then = Context { defined, registered: context.registered };
            &&& outcome.defined == defined
            &&& outcome.rejection matches Some((kind, rejected)) && rejected == expression && (
            function_definition(then, definition_args(expression)) is Ok ==> kind
                == ErrorKind::WriteAttemptedInReadOnly)
        }),
{
    let rest = seq![expression] + later;
    let then = Context { defined, registered: context.registered };
    assert(earlier + seq![expression] + later =~= earlier + rest);
    lemma_contract_outcome_in_two(context, earlier, rest);
    lemma_caller_of_writing_function_is_rejected(then, expression, name);
    assert(rest[0] == expression);
}

/// A call into another contract whose target the database does not know
/// is never read-only: it is found to write, unless an argument is
/// rejected.
pub proof fn lemma_unknown_contract_call_target(context: Context, args: Seq<Expr>)
    requires
        args.len() >= 2,
        contract_call_target(args) matches Some(target) && lookup(
            context.registered,
            target.contract,
            target.function,
        ) is None,
    ensures
        native_purity(context, NativeFunctions::ContractCall, args) == arguments_purity(
            context,
            false,
            args.subrange(2, args.len() as int),
        ),
        native_purity(context, NativeFunctions::ContractCall, args) != Ok::<bool, ErrorKind>(true),
{
    let rest = args.subrange(2, args.len() as int);
    if arguments_purity(context, false, rest) is Ok {
        lemma_arguments_write_is_found(context, false, rest);
    }
}

/// An operator that applies a function to data, given the number of
/// arguments it takes, has the purity of the call it stands for: the
/// call whose head is the first argument and whose arguments are the
/// others.
pub proof fn lemma_higher_order_is_ordinary_call(
    context: Context,
    function: NativeFunctions,
    args: Seq<Expr>,
)
    requires
        function.purity_rule() matches PurityRule::HigherOrder(arity) && args.len() == arity,
    ensures
        native_purity(context, function, args) == application_purity(context, args),
        native_purity(context, function, args) == expression_purity(context, Expr::List(args)),
{
}

} // verus!
