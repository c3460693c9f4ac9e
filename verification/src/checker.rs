//! The checker: it walks a contract's top-level expressions in order,
//! records the purity of each function that the contract defines, and
//! rejects a function declared read-only whose body may write.
use vstd::prelude::*;
use vstd::hash_map::StringHashMap;
use crate::database::AnalysisDatabase;
use crate::errors::{
    bare, check_argument_count, check_arguments_at_least, CheckError, CheckErrors, Diagnostic,
    ErrorKind,
};
use crate::functions::{
    get_definition_type_of_tuple_argument, DefineFunctions, NativeFunctions, TupleDefinitionType,
};
use crate::purity::{
    application_purity, arguments_purity, contract_outcome, expression_purity, function_definition,
    native_purity, pairs_purity, top_level_effect, Context,
};
use crate::representations::{
    exprs_view, lemma_exprs_view_subrange, Expr, PrincipalData, SymbolicExpression, Value,
};
use crate::types::ContractAnalysis;

verus! {

/// Whether `result` is what `expected` asks for: the same value, or a
/// rejection of the same kind with no expression attached.
pub open spec fn reports<T>(result: Result<T, CheckError>, expected: Result<T, ErrorKind>) -> bool {
    match (result, expected) {
        (Ok(value), Ok(wanted)) => value == wanted,
        (Err(error), Err(kind)) => error@ == bare(kind),
        _ => false,
    }
}

/// One analysis of one contract: the table of the functions defined so
/// far, and the database that answers for other contracts.
pub struct ReadOnlyChecker<'a> {
    db: &'a AnalysisDatabase,
    defined_functions: StringHashMap<bool>,
}

impl<'a> ReadOnlyChecker<'a> {
    /// What expressions are classified against at this point of the
    /// analysis.
    pub closed spec fn context(&self) -> Context {
        Context { defined: self.defined_functions@, registered: self.db@ }
    }

    /// A checker that has seen no definition yet.
    pub fn new(db: &'a AnalysisDatabase) -> (checker: Self)
        ensures
            checker.context() == (Context { defined: Map::empty(), registered: db@ }),
    {
        ReadOnlyChecker { db, defined_functions: StringHashMap::new() }
    }

    /// The purity recorded for the function `name`; `None` while the
    /// contract has not defined it.
    pub fn lookup_function(&self, name: &str) -> (purity: Option<bool>)
        ensures
            purity == (if self.context().defined.contains_key(name@) {
                Some(self.context().defined[name@])
            } else {
                None
            }),
    {
        match self.defined_functions.get(name) {
            Some(read_only) => Some(*read_only),
            None => None,
        }
    }

    /// Analyses one contract from scratch, against what `analysis_db` knows
    /// of other contracts.
    pub fn run_pass(contract_analysis: &mut ContractAnalysis, analysis_db: &'a AnalysisDatabase) -> (result:
        Result<(), CheckError>)
        ensures
            *final(contract_analysis) == *old(contract_analysis),
            ({
                let outcome = contract_outcome(
                    Context { defined: Map::empty(), registered: analysis_db@ },
                    exprs_view(old(contract_analysis).expressions@),
                );
                match result {
                    Ok(_) => outcome.rejection is None,
                    Err(error) => outcome.rejection matches Some((kind, expression)) && error@ == (
                    Diagnostic { kind, expression: Some(expression) }),
                }
            }),
    {
        let mut command = ReadOnlyChecker::new(analysis_db);
        command.run(contract_analysis)?;
        Ok(())
    }

    /// Runs the analysis over a contract: its top-level expressions in
    /// order, up to the first that is rejected. The rejection is handed
    /// back with that expression attached; the contract is left as it
    /// was.
    pub fn run(&mut self, contract_analysis: &mut ContractAnalysis) -> (result: Result<(), CheckError>)
        ensures
            *final(contract_analysis) == *old(contract_analysis),
            ({
                let outcome = contract_outcome(
                    old(self).context(),
                    exprs_view(old(contract_analysis).expressions@),
                );
                &&& final(self).context() == (Context {
                    defined: outcome.defined,
                    registered: old(self).context().registered,
                })
                &&& match result {
                    Ok(_) => outcome.rejection is None,
                    Err(error) => outcome.rejection matches Some((kind, expression)) && error@ == (
                    Diagnostic { kind, expression: Some(expression) }),
                }
            }),
    {
        let ghost all = exprs_view(contract_analysis.expressions@);
        let ghost start = self.context();
        let mut i: usize = 0;
        assert(all.subrange(0, all.len() as int) =~= all);
        while i < contract_analysis.expressions.len()
            invariant
                i <= contract_analysis.expressions.len(),
                *contract_analysis == *old(contract_analysis),
                all == exprs_view(contract_analysis.expressions@),
                start == old(self).context(),
                self.context().registered == start.registered,
                contract_outcome(start, all) == contract_outcome(
                    self.context(),
                    all.subrange(i as int, all.len() as int),
                ),
            decreases contract_analysis.expressions.len() - i,
        {
            proof {
                let rest = all.subrange(i as int, all.len() as int);
                assert(rest.drop_first() =~= all.subrange(i + 1, all.len() as int));
            }
            let exp = &contract_analysis.expressions[i];
            let result = self.check_reads_only_valid(exp);
            match result {
                Err(mut error) => {
                    if !error.has_expression() {
                        error.set_expression(exp);
                    }
                    return Err(error);
                },
                Ok(_) => {},
            }
            i += 1;
        }
        Ok(())
    }

    /// Reads the definition of a function: its name and the purity of its
    /// body. `args` is what follows the name of the defining form.
    pub fn check_define_function(&self, args: &[SymbolicExpression]) -> (result: Result<
        (String, bool),
        CheckError,
    >)
        ensures
            match function_definition(self.context(), exprs_view(args@)) {
                Ok((name, read_only)) => result matches Ok((found, purity)) && found@ == name
                    && purity == read_only,
                Err(kind) => result matches Err(error) && error@ == bare(kind),
            },
    {
        if args.len() != 2 {
            return Err(CheckError::new(CheckErrors::DefineFunctionBadSignature));
        }
        let signature = match args[0].match_list() {
            Some(signature) => signature,
            None => {
                return Err(CheckError::new(CheckErrors::DefineFunctionBadSignature));
            },
        };
        let body = &args[1];
        if signature.len() == 0 {
            return Err(CheckError::new(CheckErrors::DefineFunctionBadSignature));
        }
        let function_name = match signature[0].match_atom() {
            Some(name) => name,
            None => {
                return Err(CheckError::new(CheckErrors::BadFunctionName));
            },
        };
        let is_read_only = self.is_read_only(body)?;
        Ok((function_name.to_owned(), is_read_only))
    }

    /// Processes one top-level expression. Only the definition of a
    /// function has an effect: it is recorded in the table of defined
    /// functions, unless it is declared read-only and its body may write,
    /// for which the contract is rejected.
    pub fn check_reads_only_valid(&mut self, expr: &SymbolicExpression) -> (result: Result<(), CheckError>)
        ensures
            match top_level_effect(old(self).context(), expr@) {
                Ok(defined) => result is Ok && final(self).context() == (Context {
                    defined,
                    registered: old(self).context().registered,
                }),
                Err(kind) => result matches Err(error) && error@ == bare(kind)
                    && final(self).context() == old(self).context(),
            },
    {
        match DefineFunctions::try_parse(expr) {
            Some((define_type, args)) => {
                match define_type {
                    DefineFunctions::Constant
                    | DefineFunctions::DataMap
                    | DefineFunctions::PersistedVariable
                    | DefineFunctions::FungibleToken
                    | DefineFunctions::NonFungibleToken => Ok(()),
                    DefineFunctions::PrivateFunction => {
                        let (f_name, is_read_only) = self.check_define_function(args)?;
                        self.defined_functions.insert(f_name, is_read_only);
                        Ok(())
                    },
                    DefineFunctions::PublicFunction => {
                        let (f_name, is_read_only) = self.check_define_function(args)?;
                        self.defined_functions.insert(f_name, is_read_only);
                        Ok(())
                    },
                    DefineFunctions::ReadOnlyFunction => {
                        let (f_name, is_read_only) = self.check_define_function(args)?;
                        if !is_read_only {
                            Err(CheckError::new(CheckErrors::WriteAttemptedInReadOnly))
                        } else {
                            self.defined_functions.insert(f_name, is_read_only);
                            Ok(())
                        }
                    },
                }
            },
            None => Ok(()),
        }
    }

    /// Classifies any expression. A literal or an identifier is read-only;
    /// a list is an application.
    pub fn is_read_only(&self, expr: &SymbolicExpression) -> (result: Result<bool, CheckError>)
        ensures
            reports(result, expression_purity(self.context(), expr@)),
            !(expr@ is List) ==> (result matches Ok(read_only) && read_only),
        decreases expr@, 0int,
    {
        match expr.match_list() {
            Some(expression) => self.is_function_application_read_only(expression),
            None => Ok(true),
        }
    }

    /// Classifies the application of the head of `expression` to the
    /// rest of it.
    pub fn is_function_application_read_only(&self, expression: &[SymbolicExpression]) -> (result:
        Result<bool, CheckError>)
        ensures
            reports(result, application_purity(self.context(), exprs_view(expression@))),
        decreases exprs_view(expression@), 1int,
    {
        if expression.len() == 0 {
            return Err(CheckError::new(CheckErrors::NonFunctionApplication));
        }
        let function_name = match expression[0].match_atom() {
            Some(name) => name,
            None => {
                return Err(CheckError::new(CheckErrors::NonFunctionApplication));
            },
        };
        let args = &expression[1..expression.len()];
        proof {
            lemma_exprs_view_subrange(expression@, 1, expression@.len() as int);
        }
        match self.try_native_function_check(function_name, args) {
            Some(result) => result,
            None => {
                let is_function_read_only = match self.defined_functions.get(function_name) {
                    Some(read_only) => *read_only,
                    None => {
                        return Err(
                            CheckError::new(CheckErrors::UnknownFunction(function_name.to_owned())),
                        );
                    },
                };
                self.are_all_read_only(is_function_read_only, args)
            },
        }
    }

    /// Classifies the application of `function` to `args` if `function`
    /// names a built-in operator; `None` if it names none.
    pub fn try_native_function_check(&self, function: &str, args: &[SymbolicExpression]) -> (result:
        Option<Result<bool, CheckError>>)
        ensures
            result is Some <==> NativeFunctions::named(function@) is Some,
            result matches Some(purity) ==> reports(
                purity,
                native_purity(
                    self.context(),
                    NativeFunctions::named(function@)->0,
                    exprs_view(args@),
                ),
            ),
        decreases exprs_view(args@), 3int,
    {
        match NativeFunctions::lookup_by_name(function) {
            Some(function) => Some(self.handle_native_function(&function, args)),
            None => None,
        }
    }

    /// Classifies the application of the built-in operator `function` to
    /// `args`, by the rule that belongs to the operator.
    pub fn handle_native_function(&self, function: &NativeFunctions, args: &[SymbolicExpression]) -> (result:
        Result<bool, CheckError>)
        ensures
            reports(result, native_purity(self.context(), *function, exprs_view(args@))),
        decreases exprs_view(args@), 2int,
    {
        let ghost all = exprs_view(args@);
        match function {
            NativeFunctions::Add | NativeFunctions::Subtract | NativeFunctions::Divide |
            NativeFunctions::Multiply | NativeFunctions::CmpGeq | NativeFunctions::CmpLeq |
            NativeFunctions::CmpLess | NativeFunctions::CmpGreater |
            NativeFunctions::Modulo | NativeFunctions::Power |
            NativeFunctions::BitwiseXOR | NativeFunctions::And | NativeFunctions::Or |
            NativeFunctions::Not | NativeFunctions::Hash160 | NativeFunctions::Sha256 |
            NativeFunctions::Keccak256 | NativeFunctions::Equals | NativeFunctions::If |
            NativeFunctions::Sha512 | NativeFunctions::Sha512Trunc256 |
            NativeFunctions::ConsSome | NativeFunctions::ConsOkay |
            NativeFunctions::ConsError | NativeFunctions::DefaultTo |
            NativeFunctions::Expects | NativeFunctions::ExpectsErr |
            NativeFunctions::IsOkay | NativeFunctions::IsNone | NativeFunctions::ToUInt |
            NativeFunctions::ToInt | NativeFunctions::ListCons |
            NativeFunctions::GetBlockInfo | NativeFunctions::TupleGet |
            NativeFunctions::Print | NativeFunctions::AsContract | NativeFunctions::Begin |
            NativeFunctions::FetchVar | NativeFunctions::GetTokenBalance |
            NativeFunctions::GetAssetOwner => {
                self.are_all_read_only(true, args)
            },
            NativeFunctions::FetchEntry => {
                check_arguments_at_least(2, args)?;
                match get_definition_type_of_tuple_argument(&args[1]) {
                    TupleDefinitionType::Implicit(tuple_expr) => {
                        self.is_implicit_tuple_definition_read_only(tuple_expr)
                    },
                    TupleDefinitionType::Explicit => self.are_all_read_only(true, args),
                }
            },
            NativeFunctions::FetchContractEntry => {
                check_arguments_at_least(3, args)?;
                match get_definition_type_of_tuple_argument(&args[2]) {
                    TupleDefinitionType::Implicit(tuple_expr) => {
                        self.is_implicit_tuple_definition_read_only(tuple_expr)
                    },
                    TupleDefinitionType::Explicit => self.are_all_read_only(true, args),
                }
            },
            NativeFunctions::SetEntry | NativeFunctions::DeleteEntry |
            NativeFunctions::InsertEntry | NativeFunctions::SetVar |
            NativeFunctions::MintAsset | NativeFunctions::MintToken |
            NativeFunctions::TransferAsset | NativeFunctions::TransferToken => {
                Ok(false)
            },
            NativeFunctions::Let => {
                check_arguments_at_least(2, args)?;
                let binding_list = match args[0].match_list() {
                    Some(list) => list,
                    None => {
                        return Err(CheckError::new(CheckErrors::BadLetSyntax));
                    },
                };
                let ghost bindings = exprs_view(binding_list@);
                let mut read_only = true;
                let mut i: usize = 0;
                assert(bindings.subrange(0, bindings.len() as int) =~= bindings);
                while i < binding_list.len()
                    invariant
                        i <= binding_list.len(),
                        bindings == exprs_view(binding_list@),
                        all == exprs_view(args@),
                        *function == NativeFunctions::Let,
                        all.len() >= 2,
                        all[0] == Expr::List(bindings),
                        pairs_purity(self.context(), true, bindings, ErrorKind::BadSyntaxBinding)
                            == pairs_purity(
                            self.context(),
                            read_only,
                            bindings.subrange(i as int, bindings.len() as int),
                            ErrorKind::BadSyntaxBinding,
                        ),
                    decreases binding_list.len() - i,
                {
                    proof {
                        let rest = bindings.subrange(i as int, bindings.len() as int);
                        assert(rest.drop_first() =~= bindings.subrange(i + 1, bindings.len() as int));
                    }
                    let pair_expression = match binding_list[i].match_list() {
                        Some(pair) => pair,
                        None => {
                            return Err(CheckError::new(CheckErrors::BadSyntaxBinding));
                        },
                    };
                    if pair_expression.len() != 2 {
                        return Err(CheckError::new(CheckErrors::BadSyntaxBinding));
                    }
                    match self.is_read_only(&pair_expression[1]) {
                        Ok(value_read_only) => {
                            read_only = read_only && value_read_only;
                        },
                        Err(error) => {
                            return Err(error);
                        },
                    }
                    i += 1;
                }
                proof {
                    lemma_exprs_view_subrange(args@, 1, args@.len() as int);
                }
                self.are_all_read_only(read_only, &args[1..args.len()])
            },
            NativeFunctions::MapEach | NativeFunctions::Filter => {
                check_argument_count(2, args)?;
                self.is_function_application_read_only(args)
            },
            NativeFunctions::Fold => {
                check_argument_count(3, args)?;
                self.is_function_application_read_only(args)
            },
            NativeFunctions::TupleCons => self.is_implicit_tuple_definition_read_only(args),
            NativeFunctions::ContractCall => {
                check_arguments_at_least(2, args)?;
                let contract_identifier = match &args[0] {
                    SymbolicExpression::LiteralValue(
                        Value::Principal(PrincipalData::Contract(contract_identifier)),
                    ) => contract_identifier,
                    _ => {
                        return Err(CheckError::new(CheckErrors::ContractCallExpectName));
                    },
                };
                let function_name = match args[1].match_atom() {
                    Some(name) => name,
                    None => {
                        return Err(CheckError::new(CheckErrors::ContractCallExpectName));
                    },
                };
                let is_function_read_only = match self.db.lookup_read_only(
                    contract_identifier,
                    function_name,
                ) {
                    Some(read_only) => read_only,
                    None => false,
                };
                proof {
                    lemma_exprs_view_subrange(args@, 2, args@.len() as int);
                }
                self.are_all_read_only(is_function_read_only, &args[2..args.len()])
            },
        }
    }

    /// Classifies `expressions` taken together, starting out from
    /// `initial`. Every one of them is classified, also after one was
    /// found that may write.
    pub fn are_all_read_only(&self, initial: bool, expressions: &[SymbolicExpression]) -> (result:
        Result<bool, CheckError>)
        ensures
            reports(result, arguments_purity(self.context(), initial, exprs_view(expressions@))),
        decreases exprs_view(expressions@), 0int,
    {
        let ghost all = exprs_view(expressions@);
        let mut read_only = initial;
        let mut i: usize = 0;
        assert(all.subrange(0, all.len() as int) =~= all);
        while i < expressions.len()
            invariant
                i <= expressions.len(),
                all == exprs_view(expressions@),
                arguments_purity(self.context(), initial, all) == arguments_purity(
                    self.context(),
                    read_only,
                    all.subrange(i as int, all.len() as int),
                ),
            decreases expressions.len() - i,
        {
            proof {
                let rest = all.subrange(i as int, all.len() as int);
                assert(rest.drop_first() =~= all.subrange(i + 1, all.len() as int));
            }
            match self.is_read_only(&expressions[i]) {
                Ok(argument_read_only) => {
                    read_only = read_only && argument_read_only;
                },
                Err(error) => {
                    return Err(error);
                },
            }
            i += 1;
        }
        Ok(read_only)
    }

    /// Classifies the values of `tuples`, a list of key and value pairs,
    /// taken together.
    pub fn is_implicit_tuple_definition_read_only(&self, tuples: &[SymbolicExpression]) -> (result:
        Result<bool, CheckError>)
        ensures
            reports(
                result,
                pairs_purity(
                    self.context(),
                    true,
                    exprs_view(tuples@),
                    ErrorKind::TupleExpectsPairs,
                ),
            ),
        decreases exprs_view(tuples@), 0int,
    {
        let ghost all = exprs_view(tuples@);
        let mut read_only = true;
        let mut i: usize = 0;
        assert(all.subrange(0, all.len() as int) =~= all);
        while i < tuples.len()
            invariant
                i <= tuples.len(),
                all == exprs_view(tuples@),
                pairs_purity(self.context(), true, all, ErrorKind::TupleExpectsPairs) == pairs_purity(
                    self.context(),
                    read_only,
                    all.subrange(i as int, all.len() as int),
                    ErrorKind::TupleExpectsPairs,
                ),
            decreases tuples.len() - i,
        {
            proof {
                let rest = all.subrange(i as int, all.len() as int);
                assert(rest.drop_first() =~= all.subrange(i + 1, all.len() as int));
            }
            let pair = match tuples[i].match_list() {
                Some(pair) => pair,
                None => {
                    return Err(CheckError::new(CheckErrors::TupleExpectsPairs));
                },
            };
            if pair.len() != 2 {
                return Err(CheckError::new(CheckErrors::TupleExpectsPairs));
            }
            match self.is_read_only(&pair[1]) {
                Ok(value_read_only) => {
                    read_only = read_only && value_read_only;
                },
                Err(error) => {
                    return Err(error);
                },
            }
            i += 1;
        }
        Ok(read_only)
    }

}

} // verus!
