use read_only_checker::checker::ReadOnlyChecker;
use read_only_checker::database::AnalysisDatabase;
use read_only_checker::errors::{CheckError, CheckErrors};
use read_only_checker::functions::NativeFunctions;
use read_only_checker::representations::{
    PrincipalData, QualifiedContractIdentifier, SymbolicExpression, Value,
};
use read_only_checker::types::ContractAnalysis;

fn atom(name: &str) -> SymbolicExpression {
    SymbolicExpression::atom(name)
}

fn list(children: Vec<SymbolicExpression>) -> SymbolicExpression {
    SymbolicExpression::list(children)
}

fn number(value: i128) -> SymbolicExpression {
    SymbolicExpression::atom_value(Value::Int(value))
}

fn apply(name: &str, mut args: Vec<SymbolicExpression>) -> SymbolicExpression {
    let mut children = vec![atom(name)];
    children.append(&mut args);
    list(children)
}

fn set_x() -> SymbolicExpression {
    apply("var-set", vec![atom("x"), number(1)])
}

fn get_x() -> SymbolicExpression {
    apply("var-get", vec![atom("x")])
}

fn nobody() -> SymbolicExpression {
    apply("nobody", vec![])
}

fn pair(key: &str, value: SymbolicExpression) -> SymbolicExpression {
    list(vec![atom(key), value])
}

fn contract_principal(issuer: &str, name: &str) -> Value {
    Value::Principal(PrincipalData::Contract(QualifiedContractIdentifier::new(issuer, name)))
}

fn rejected(kind: CheckErrors) -> Result<bool, CheckError> {
    Err(CheckError::new(kind))
}

fn unknown(name: &str) -> Result<bool, CheckError> {
    rejected(CheckErrors::UnknownFunction(name.to_string()))
}

/// Classifies `expression` in a contract that has defined `reader`, which
/// is read-only, and `writer`, which is not, against a database that
/// knows `SP1.tokens` with a read-only `balance-of` and a writing `send`.
fn classify(expression: &SymbolicExpression) -> Result<bool, CheckError> {
    let mut db = AnalysisDatabase::new();
    let tokens = QualifiedContractIdentifier::new("SP1", "tokens");
    db.register_function(&tokens, "balance-of", true);
    db.register_function(&tokens, "send", false);
    let mut checker = ReadOnlyChecker::new(&db);
    let mut contract = ContractAnalysis::new(vec![
        list(vec![atom("define-private"), list(vec![atom("reader"), atom("n")]), get_x()]),
        list(vec![atom("define-private"), list(vec![atom("writer"), atom("n")]), set_x()]),
    ]);
    assert_eq!(checker.run(&mut contract), Ok(()));
    checker.is_read_only(expression)
}

#[test]
fn literals_and_identifiers_are_read_only() {
    assert_eq!(classify(&atom("x")), Ok(true));
    assert_eq!(classify(&atom("var-set")), Ok(true));
    assert_eq!(classify(&atom("writer")), Ok(true));
    assert_eq!(classify(&atom("nobody")), Ok(true));
    assert_eq!(classify(&number(-5)), Ok(true));
    assert_eq!(classify(&SymbolicExpression::atom_value(Value::UInt(5))), Ok(true));
    assert_eq!(classify(&SymbolicExpression::atom_value(Value::Bool(false))), Ok(true));
    assert_eq!(classify(&SymbolicExpression::atom_value(Value::Buffer(vec![1, 2]))), Ok(true));
    assert_eq!(
        classify(&SymbolicExpression::literal_value(contract_principal("SP1", "tokens"))),
        Ok(true)
    );
    assert_eq!(
        classify(&SymbolicExpression::literal_value(Value::Principal(PrincipalData::Standard(
            "SP1".to_string()
        )))),
        Ok(true)
    );
}

#[test]
fn literals_and_identifiers_are_read_only_in_an_empty_context() {
    let db = AnalysisDatabase::new();
    let checker = ReadOnlyChecker::new(&db);
    assert_eq!(checker.is_read_only(&atom("writer")), Ok(true));
    assert_eq!(checker.is_read_only(&number(0)), Ok(true));
}

#[test]
fn a_list_must_start_with_an_identifier() {
    assert_eq!(classify(&list(vec![])), rejected(CheckErrors::NonFunctionApplication));
    assert_eq!(
        classify(&list(vec![number(1), number(2)])),
        rejected(CheckErrors::NonFunctionApplication)
    );
    assert_eq!(
        classify(&list(vec![list(vec![atom("+")]), number(2)])),
        rejected(CheckErrors::NonFunctionApplication)
    );
    assert_eq!(
        classify(&list(vec![
            SymbolicExpression::literal_value(contract_principal("SP1", "tokens")),
            number(2)
        ])),
        rejected(CheckErrors::NonFunctionApplication)
    );
}

#[test]
fn an_undefined_function_is_unknown_whatever_its_arguments() {
    assert_eq!(classify(&nobody()), unknown("nobody"));
    assert_eq!(classify(&apply("nobody", vec![set_x()])), unknown("nobody"));
    assert_eq!(classify(&apply("nobody", vec![list(vec![])])), unknown("nobody"));
    assert_eq!(classify(&apply("var-set!", vec![atom("x"), number(1)])), unknown("var-set!"));
}

#[test]
fn a_defined_function_lends_its_purity_to_the_call() {
    assert_eq!(classify(&apply("reader", vec![number(1)])), Ok(true));
    assert_eq!(classify(&apply("reader", vec![])), Ok(true));
    assert_eq!(classify(&apply("reader", vec![set_x()])), Ok(false));
    assert_eq!(classify(&apply("reader", vec![number(1), get_x(), set_x()])), Ok(false));
    assert_eq!(classify(&apply("writer", vec![number(1)])), Ok(false));
    assert_eq!(classify(&apply("writer", vec![])), Ok(false));
}

#[test]
fn every_argument_is_looked_at() {
    assert_eq!(classify(&apply("+", vec![set_x(), nobody()])), unknown("nobody"));
    assert_eq!(classify(&apply("+", vec![nobody(), set_x()])), unknown("nobody"));
    assert_eq!(classify(&apply("writer", vec![nobody()])), unknown("nobody"));
    assert_eq!(
        classify(&apply("writer", vec![number(1), list(vec![])])),
        rejected(CheckErrors::NonFunctionApplication)
    );
    assert_eq!(
        classify(&apply("begin", vec![set_x(), apply("let", vec![number(1)])])),
        rejected(CheckErrors::RequiresAtLeastArguments(2, 1))
    );
    assert_eq!(
        classify(&apply("begin", vec![apply("nobody", vec![]), apply("somebody", vec![])])),
        unknown("nobody")
    );
}

#[test]
fn operators_whose_arguments_decide() {
    let names = [
        "+", "-", "*", "/", ">=", "<=", "<", ">", "to-int", "to-uint", "mod", "pow", "xor", "and",
        "or", "not", "is-eq", "if", "list", "var-get", "get", "begin", "hash160", "sha256",
        "sha512", "sha512/256", "keccak256", "print", "as-contract", "get-block-info?", "err",
        "ok", "some", "default-to", "unwrap!", "unwrap-err!", "is-ok", "is-none",
        "ft-get-balance", "nft-get-owner?",
    ];
    assert_eq!(names.len(), 40);
    for name in names {
        assert_eq!(classify(&apply(name, vec![])), Ok(true), "{}", name);
        assert_eq!(classify(&apply(name, vec![number(1), get_x()])), Ok(true), "{}", name);
        assert_eq!(classify(&apply(name, vec![number(1), set_x()])), Ok(false), "{}", name);
        assert_eq!(classify(&apply(name, vec![set_x(), number(1)])), Ok(false), "{}", name);
        assert_eq!(
            classify(&apply(name, vec![apply("reader", vec![apply("writer", vec![])])])),
            Ok(false),
            "{}",
            name
        );
        assert_eq!(classify(&apply(name, vec![number(1), nobody()])), unknown("nobody"), "{}", name);
    }
}

#[test]
fn operators_that_always_write() {
    let names = [
        "map-set", "map-delete", "map-insert", "var-set", "nft-mint?", "ft-mint?",
        "nft-transfer?", "ft-transfer?",
    ];
    for name in names {
        assert_eq!(classify(&apply(name, vec![])), Ok(false), "{}", name);
        assert_eq!(classify(&apply(name, vec![atom("x"), number(1)])), Ok(false), "{}", name);
        assert_eq!(classify(&apply(name, vec![nobody()])), Ok(false), "{}", name);
        assert_eq!(classify(&apply(name, vec![list(vec![])])), Ok(false), "{}", name);
    }
}

#[test]
fn a_write_is_found_through_nested_forms() {
    let in_let_binding = apply("let", vec![list(vec![pair("a", set_x())]), atom("a")]);
    let in_let_body = apply("let", vec![list(vec![pair("a", number(1))]), atom("a"), set_x()]);
    let in_tuple = apply("tuple", vec![pair("a", number(1)), pair("b", set_x())]);
    let in_map = apply("map", vec![atom("var-set"), atom("lst")]);
    let in_filter = apply("filter", vec![atom("writer"), atom("lst")]);
    let in_fold = apply("fold", vec![atom("+"), atom("lst"), set_x()]);
    for inner in [in_let_binding, in_let_body, in_tuple, in_map, in_filter, in_fold] {
        assert_eq!(classify(&inner), Ok(false));
        let deeper = apply(
            "let",
            vec![
                list(vec![pair("a", apply("tuple", vec![pair("k", apply("begin", vec![inner]))]))]),
                atom("a"),
            ],
        );
        assert_eq!(classify(&deeper), Ok(false));
    }
}

#[test]
fn let_checks_its_bindings_and_its_body() {
    let bindings = |pairs: Vec<SymbolicExpression>| list(pairs);
    assert_eq!(
        classify(&apply("let", vec![bindings(vec![pair("a", number(1))]), atom("a")])),
        Ok(true)
    );
    assert_eq!(
        classify(&apply("let", vec![bindings(vec![]), get_x(), apply("reader", vec![])])),
        Ok(true)
    );
    assert_eq!(
        classify(&apply("let", vec![bindings(vec![pair("a", get_x()), pair("b", set_x())]), atom("a")])),
        Ok(false)
    );
    assert_eq!(
        classify(&apply("let", vec![bindings(vec![pair("a", get_x())]), atom("a"), set_x()])),
        Ok(false)
    );
    assert_eq!(
        classify(&apply("let", vec![])),
        rejected(CheckErrors::RequiresAtLeastArguments(2, 0))
    );
    assert_eq!(
        classify(&apply("let", vec![bindings(vec![pair("a", number(1))])])),
        rejected(CheckErrors::RequiresAtLeastArguments(2, 1))
    );
    assert_eq!(
        classify(&apply("let", vec![atom("a"), number(1)])),
        rejected(CheckErrors::BadLetSyntax)
    );
    assert_eq!(
        classify(&apply("let", vec![number(1), number(1)])),
        rejected(CheckErrors::BadLetSyntax)
    );
    assert_eq!(
        classify(&apply("let", vec![bindings(vec![atom("a")]), number(1)])),
        rejected(CheckErrors::BadSyntaxBinding)
    );
    assert_eq!(
        classify(&apply("let", vec![bindings(vec![list(vec![atom("a")])]), number(1)])),
        rejected(CheckErrors::BadSyntaxBinding)
    );
    assert_eq!(
        classify(&apply(
            "let",
            vec![bindings(vec![list(vec![atom("a"), number(1), number(2)])]), number(1)]
        )),
        rejected(CheckErrors::BadSyntaxBinding)
    );
}

#[test]
fn let_looks_at_everything_behind_a_write() {
    assert_eq!(
        classify(&apply(
            "let",
            vec![list(vec![pair("a", set_x()), atom("b")]), number(1)]
        )),
        rejected(CheckErrors::BadSyntaxBinding)
    );
    assert_eq!(
        classify(&apply("let", vec![list(vec![pair("a", set_x())]), nobody()])),
        unknown("nobody")
    );
    assert_eq!(
        classify(&apply("let", vec![list(vec![pair("a", nobody())]), list(vec![])])),
        unknown("nobody")
    );
    assert_eq!(
        classify(&apply("let", vec![list(vec![atom("a"), pair("b", nobody())]), number(1)])),
        rejected(CheckErrors::BadSyntaxBinding)
    );
}

#[test]
fn tuple_checks_the_value_of_each_pair() {
    assert_eq!(classify(&apply("tuple", vec![])), Ok(true));
    assert_eq!(
        classify(&apply("tuple", vec![pair("a", number(1)), pair("b", get_x())])),
        Ok(true)
    );
    assert_eq!(
        classify(&apply("tuple", vec![pair("a", set_x()), pair("b", get_x())])),
        Ok(false)
    );
    assert_eq!(
        classify(&apply("tuple", vec![list(vec![set_x(), number(1)])])),
        Ok(true)
    );
    assert_eq!(
        classify(&apply("tuple", vec![atom("a")])),
        rejected(CheckErrors::TupleExpectsPairs)
    );
    assert_eq!(
        classify(&apply("tuple", vec![pair("a", number(1)), list(vec![atom("b")])])),
        rejected(CheckErrors::TupleExpectsPairs)
    );
    assert_eq!(
        classify(&apply("tuple", vec![list(vec![atom("a"), number(1), number(2)])])),
        rejected(CheckErrors::TupleExpectsPairs)
    );
    assert_eq!(
        classify(&apply("tuple", vec![pair("a", set_x()), number(1)])),
        rejected(CheckErrors::TupleExpectsPairs)
    );
    assert_eq!(
        classify(&apply("tuple", vec![pair("a", nobody()), number(1)])),
        unknown("nobody")
    );
}

#[test]
fn map_and_filter_stand_for_an_ordinary_call() {
    for name in ["map", "filter"] {
        for function in ["reader", "writer", "nobody", "var-get", "var-set", "let", "tuple"] {
            for data in [atom("lst"), get_x(), set_x(), nobody(), list(vec![])] {
                let higher = apply(name, vec![atom(function), data.clone()]);
                let call = apply(function, vec![data]);
                assert_eq!(classify(&higher), classify(&call), "{} {}", name, function);
            }
        }
        assert_eq!(classify(&apply(name, vec![atom("reader"), atom("lst")])), Ok(true));
        assert_eq!(classify(&apply(name, vec![atom("writer"), atom("lst")])), Ok(false));
        assert_eq!(classify(&apply(name, vec![atom("nobody"), atom("lst")])), unknown("nobody"));
        assert_eq!(
            classify(&apply(name, vec![number(1), atom("lst")])),
            rejected(CheckErrors::NonFunctionApplication)
        );
        assert_eq!(
            classify(&apply(name, vec![atom("reader")])),
            rejected(CheckErrors::IncorrectArgumentCount(2, 1))
        );
        assert_eq!(
            classify(&apply(name, vec![atom("reader"), atom("lst"), number(0)])),
            rejected(CheckErrors::IncorrectArgumentCount(2, 3))
        );
        assert_eq!(
            classify(&apply(name, vec![])),
            rejected(CheckErrors::IncorrectArgumentCount(2, 0))
        );
    }
}

#[test]
fn fold_stands_for_an_ordinary_call() {
    for function in ["reader", "writer", "nobody", "+", "var-set", "map"] {
        for data in [atom("lst"), set_x(), nobody()] {
            let higher = apply("fold", vec![atom(function), data.clone(), number(0)]);
            let call = apply(function, vec![data, number(0)]);
            assert_eq!(classify(&higher), classify(&call), "{}", function);
        }
    }
    assert_eq!(classify(&apply("fold", vec![atom("+"), atom("lst"), number(0)])), Ok(true));
    assert_eq!(classify(&apply("fold", vec![atom("writer"), atom("lst"), number(0)])), Ok(false));
    assert_eq!(
        classify(&apply("fold", vec![atom("+"), atom("lst")])),
        rejected(CheckErrors::IncorrectArgumentCount(3, 2))
    );
    assert_eq!(
        classify(&apply("fold", vec![atom("+"), atom("lst"), number(0), number(1)])),
        rejected(CheckErrors::IncorrectArgumentCount(3, 4))
    );
}

#[test]
fn a_map_read_takes_its_key_written_out_or_as_pairs() {
    let read = |key: SymbolicExpression| apply("map-get?", vec![atom("balances"), key]);
    assert_eq!(classify(&read(list(vec![pair("owner", atom("who"))]))), Ok(true));
    assert_eq!(classify(&read(list(vec![pair("owner", get_x())]))), Ok(true));
    assert_eq!(classify(&read(list(vec![pair("owner", set_x())]))), Ok(false));
    assert_eq!(
        classify(&read(list(vec![pair("owner", set_x()), pair("other", number(1))]))),
        Ok(false)
    );
    assert_eq!(
        classify(&read(list(vec![pair("owner", number(1)), atom("other")]))),
        rejected(CheckErrors::TupleExpectsPairs)
    );
    assert_eq!(
        classify(&read(list(vec![list(vec![atom("owner")])]))),
        rejected(CheckErrors::TupleExpectsPairs)
    );
    assert_eq!(classify(&read(list(vec![list(vec![]), nobody()]))), rejected(CheckErrors::TupleExpectsPairs));
    assert_eq!(classify(&read(apply("tuple", vec![pair("owner", atom("who"))]))), Ok(true));
    assert_eq!(classify(&read(apply("tuple", vec![pair("owner", set_x())]))), Ok(false));
    assert_eq!(classify(&read(atom("key"))), Ok(true));
    assert_eq!(classify(&read(set_x())), Ok(false));
    assert_eq!(classify(&read(list(vec![]))), rejected(CheckErrors::NonFunctionApplication));
}

#[test]
fn a_map_read_with_pairs_for_a_key_looks_at_the_pairs_alone() {
    assert_eq!(
        classify(&apply("map-get?", vec![set_x(), list(vec![pair("owner", number(1))])])),
        Ok(true)
    );
    assert_eq!(
        classify(&apply("map-get?", vec![nobody(), list(vec![pair("owner", number(1))]), nobody()])),
        Ok(true)
    );
    assert_eq!(
        classify(&apply("map-get?", vec![set_x(), apply("tuple", vec![pair("owner", number(1))])])),
        Ok(false)
    );
    assert_eq!(
        classify(&apply("map-get?", vec![nobody(), atom("key")])),
        unknown("nobody")
    );
    assert_eq!(
        classify(&apply("map-get?", vec![atom("balances"), atom("key"), set_x()])),
        Ok(false)
    );
}

#[test]
fn a_map_read_needs_its_key() {
    assert_eq!(
        classify(&apply("map-get?", vec![])),
        rejected(CheckErrors::RequiresAtLeastArguments(2, 0))
    );
    assert_eq!(
        classify(&apply("map-get?", vec![atom("balances")])),
        rejected(CheckErrors::RequiresAtLeastArguments(2, 1))
    );
    assert_eq!(
        classify(&apply("contract-map-get?", vec![atom("tokens"), atom("balances")])),
        rejected(CheckErrors::RequiresAtLeastArguments(3, 2))
    );
    assert_eq!(
        classify(&apply("contract-map-get?", vec![])),
        rejected(CheckErrors::RequiresAtLeastArguments(3, 0))
    );
}

#[test]
fn a_read_of_another_contracts_map_has_its_key_in_third_place() {
    let read = |second: SymbolicExpression, key: SymbolicExpression| {
        apply("contract-map-get?", vec![atom("tokens"), second, key])
    };
    assert_eq!(
        classify(&read(atom("balances"), list(vec![pair("owner", get_x())]))),
        Ok(true)
    );
    assert_eq!(
        classify(&read(atom("balances"), list(vec![pair("owner", set_x())]))),
        Ok(false)
    );
    assert_eq!(
        classify(&read(list(vec![pair("owner", set_x())]), atom("key"))),
        rejected(CheckErrors::NonFunctionApplication)
    );
    assert_eq!(classify(&read(set_x(), list(vec![pair("owner", number(1))]))), Ok(true));
    assert_eq!(classify(&read(set_x(), atom("key"))), Ok(false));
    assert_eq!(classify(&read(atom("balances"), list(vec![atom("owner")]))), unknown("owner"));
    assert_eq!(
        classify(&read(atom("balances"), list(vec![list(vec![atom("owner")])]))),
        rejected(CheckErrors::TupleExpectsPairs)
    );
}

fn call(contract: SymbolicExpression, function: SymbolicExpression, mut rest: Vec<SymbolicExpression>) -> SymbolicExpression {
    let mut args = vec![contract, function];
    args.append(&mut rest);
    apply("contract-call?", args)
}

fn tokens() -> SymbolicExpression {
    SymbolicExpression::literal_value(contract_principal("SP1", "tokens"))
}

#[test]
fn a_contract_call_has_the_purity_the_database_records() {
    assert_eq!(classify(&call(tokens(), atom("balance-of"), vec![])), Ok(true));
    assert_eq!(classify(&call(tokens(), atom("balance-of"), vec![number(1), get_x()])), Ok(true));
    assert_eq!(classify(&call(tokens(), atom("balance-of"), vec![set_x()])), Ok(false));
    assert_eq!(classify(&call(tokens(), atom("send"), vec![number(1)])), Ok(false));
}

#[test]
fn a_contract_call_of_an_unknown_target_is_not_read_only() {
    assert_eq!(classify(&call(tokens(), atom("mystery"), vec![])), Ok(false));
    assert_eq!(classify(&call(tokens(), atom("mystery"), vec![number(1), get_x()])), Ok(false));
    assert_eq!(classify(&call(tokens(), atom("balance"), vec![])), Ok(false));
    assert_eq!(classify(&call(tokens(), atom("balance-of "), vec![])), Ok(false));
    let elsewhere = |issuer: &str, name: &str| {
        SymbolicExpression::literal_value(contract_principal(issuer, name))
    };
    assert_eq!(classify(&call(elsewhere("SP2", "tokens"), atom("balance-of"), vec![])), Ok(false));
    assert_eq!(classify(&call(elsewhere("SP1", "token"), atom("balance-of"), vec![])), Ok(false));
    assert_eq!(classify(&call(elsewhere("tokens", "SP1"), atom("balance-of"), vec![])), Ok(false));
    assert_eq!(classify(&call(tokens(), atom("reader"), vec![])), Ok(false));
    assert_eq!(classify(&call(tokens(), atom("mystery"), vec![nobody()])), unknown("nobody"));
}

#[test]
fn a_contract_call_names_its_target() {
    let expects_name = || rejected(CheckErrors::ContractCallExpectName);
    assert_eq!(classify(&call(atom("tokens"), atom("balance-of"), vec![])), expects_name());
    assert_eq!(
        classify(&call(
            SymbolicExpression::atom_value(contract_principal("SP1", "tokens")),
            atom("balance-of"),
            vec![]
        )),
        expects_name()
    );
    assert_eq!(
        classify(&call(
            SymbolicExpression::literal_value(Value::Principal(PrincipalData::Standard(
                "SP1".to_string()
            ))),
            atom("balance-of"),
            vec![]
        )),
        expects_name()
    );
    assert_eq!(
        classify(&call(SymbolicExpression::literal_value(Value::Int(1)), atom("balance-of"), vec![])),
        expects_name()
    );
    assert_eq!(classify(&call(get_x(), atom("balance-of"), vec![])), expects_name());
    assert_eq!(classify(&call(tokens(), number(1), vec![])), expects_name());
    assert_eq!(classify(&call(tokens(), list(vec![atom("balance-of")]), vec![])), expects_name());
    assert_eq!(classify(&call(tokens(), tokens(), vec![])), expects_name());
    assert_eq!(classify(&call(atom("tokens"), atom("balance-of"), vec![nobody()])), expects_name());
    assert_eq!(
        classify(&apply("contract-call?", vec![tokens()])),
        rejected(CheckErrors::RequiresAtLeastArguments(2, 1))
    );
    assert_eq!(
        classify(&apply("contract-call?", vec![])),
        rejected(CheckErrors::RequiresAtLeastArguments(2, 0))
    );
}

#[test]
fn the_steps_of_the_evaluator_agree() {
    let db = AnalysisDatabase::new();
    let checker = ReadOnlyChecker::new(&db);
    let args = vec![number(1), set_x()];
    assert_eq!(checker.are_all_read_only(true, &args), Ok(false));
    assert_eq!(checker.are_all_read_only(true, &args[..1]), Ok(true));
    assert_eq!(checker.are_all_read_only(false, &args[..1]), Ok(false));
    assert_eq!(checker.are_all_read_only(true, &[]), Ok(true));
    assert_eq!(checker.are_all_read_only(false, &[]), Ok(false));
    assert_eq!(checker.are_all_read_only(false, &[nobody()]), unknown("nobody"));
    assert_eq!(checker.handle_native_function(&NativeFunctions::Add, &args), Ok(false));
    assert_eq!(checker.handle_native_function(&NativeFunctions::SetVar, &[]), Ok(false));
    assert_eq!(checker.handle_native_function(&NativeFunctions::Begin, &[]), Ok(true));
    assert_eq!(checker.try_native_function_check("+", &args), Some(Ok(false)));
    assert_eq!(checker.try_native_function_check("begin", &args[..1]), Some(Ok(true)));
    assert_eq!(checker.try_native_function_check("plus", &args), None);
    assert_eq!(checker.try_native_function_check("reader", &args), None);
    assert_eq!(
        checker.is_function_application_read_only(&[atom("+"), number(1)]),
        Ok(true)
    );
    assert_eq!(
        checker.is_function_application_read_only(&[]),
        rejected(CheckErrors::NonFunctionApplication)
    );
    assert_eq!(
        checker.is_implicit_tuple_definition_read_only(&[pair("a", number(1)), pair("b", set_x())]),
        Ok(false)
    );
    assert_eq!(checker.is_implicit_tuple_definition_read_only(&[]), Ok(true));
    assert_eq!(
        checker.is_implicit_tuple_definition_read_only(&[number(1)]),
        rejected(CheckErrors::TupleExpectsPairs)
    );
}

#[test]
fn a_definition_is_read_as_a_name_and_a_purity() {
    let db = AnalysisDatabase::new();
    let checker = ReadOnlyChecker::new(&db);
    assert_eq!(
        checker.check_define_function(&[list(vec![atom("f"), atom("n")]), get_x()]),
        Ok(("f".to_string(), true))
    );
    assert_eq!(
        checker.check_define_function(&[list(vec![atom("g")]), set_x()]),
        Ok(("g".to_string(), false))
    );
    assert_eq!(
        checker.check_define_function(&[list(vec![atom("g")]), nobody()]),
        Err(CheckError::new(CheckErrors::UnknownFunction("nobody".to_string())))
    );
    assert_eq!(
        checker.check_define_function(&[list(vec![number(1)]), nobody()]),
        Err(CheckError::new(CheckErrors::BadFunctionName))
    );
    assert_eq!(
        checker.check_define_function(&[list(vec![atom("g")])]),
        Err(CheckError::new(CheckErrors::DefineFunctionBadSignature))
    );
}

#[test]
fn one_top_level_expression_at_a_time() {
    let db = AnalysisDatabase::new();
    let mut checker = ReadOnlyChecker::new(&db);
    let helper = list(vec![atom("define-public"), list(vec![atom("helper")]), set_x()]);
    assert_eq!(checker.check_reads_only_valid(&helper), Ok(()));
    assert_eq!(checker.lookup_function("helper"), Some(false));
    let user = list(vec![atom("define-read-only"), list(vec![atom("user")]), apply("helper", vec![])]);
    assert_eq!(
        checker.check_reads_only_valid(&user),
        Err(CheckError::new(CheckErrors::WriteAttemptedInReadOnly))
    );
    assert_eq!(checker.lookup_function("user"), None);
    assert_eq!(checker.check_reads_only_valid(&set_x()), Ok(()));
    assert_eq!(checker.lookup_function("helper"), Some(false));
}
