//! The two closed catalogues the analysis consults: the forms that define
//! something at the top level of a contract, and the built-in operators.
use vstd::prelude::*;
use crate::representations::{
    exprs_view, lemma_exprs_view_subrange, same_text, Expr, SymbolicExpression,
};

verus! {

/// The forms that define something at the top level of a contract.
#[derive(Debug, Clone, Copy, PartialEq, Eq, Structural)]
pub enum DefineFunctions {
    Constant,
    PrivateFunction,
    PublicFunction,
    ReadOnlyFunction,
    DataMap,
    PersistedVariable,
    FungibleToken,
    NonFungibleToken,
}

impl DefineFunctions {
    /// The name by which a contract refers to this form.
    pub open spec fn name(self) -> Seq<char> {
        match self {
            DefineFunctions::Constant => "define-constant"@,
            DefineFunctions::PrivateFunction => "define-private"@,
            DefineFunctions::PublicFunction => "define-public"@,
            DefineFunctions::ReadOnlyFunction => "define-read-only"@,
            DefineFunctions::DataMap => "define-map"@,
            DefineFunctions::PersistedVariable => "define-data-var"@,
            DefineFunctions::FungibleToken => "define-fungible-token"@,
            DefineFunctions::NonFungibleToken => "define-non-fungible-token"@,
        }
    }

    /// The form that `name` introduces, if it introduces one.
    pub open spec fn named(name: Seq<char>) -> Option<DefineFunctions> {
        if name == "define-constant"@ {
            Some(DefineFunctions::Constant)
        } else if name == "define-private"@ {
            Some(DefineFunctions::PrivateFunction)
        } else if name == "define-public"@ {
            Some(DefineFunctions::PublicFunction)
        } else if name == "define-read-only"@ {
            Some(DefineFunctions::ReadOnlyFunction)
        } else if name == "define-map"@ {
            Some(DefineFunctions::DataMap)
        } else if name == "define-data-var"@ {
            Some(DefineFunctions::PersistedVariable)
        } else if name == "define-fungible-token"@ {
            Some(DefineFunctions::FungibleToken)
        } else if name == "define-non-fungible-token"@ {
            Some(DefineFunctions::NonFungibleToken)
        } else {
            None
        }
    }

    /// Looks `name` up among the names of the defining forms.
    pub fn lookup_by_name(name: &str) -> (found: Option<DefineFunctions>)
        ensures
            found == Self::named(name@),
    {
        if same_text(name, "define-constant") {
            Some(DefineFunctions::Constant)
        } else if same_text(name, "define-private") {
            Some(DefineFunctions::PrivateFunction)
        } else if same_text(name, "define-public") {
            Some(DefineFunctions::PublicFunction)
        } else if same_text(name, "define-read-only") {
            Some(DefineFunctions::ReadOnlyFunction)
        } else if same_text(name, "define-map") {
            Some(DefineFunctions::DataMap)
        } else if same_text(name, "define-data-var") {
            Some(DefineFunctions::PersistedVariable)
        } else if same_text(name, "define-fungible-token") {
            Some(DefineFunctions::FungibleToken)
        } else if same_text(name, "define-non-fungible-token") {
            Some(DefineFunctions::NonFungibleToken)
        } else {
            None
        }
    }

    /// Reads `expression` as a definition: the kind of the form and the
    /// arguments behind its leading identifier. `None` unless `expression`
    /// is a list that starts with the name of a form.
    pub fn try_parse(expression: &SymbolicExpression) -> (parsed: Option<
        (DefineFunctions, &[SymbolicExpression]),
    >)
        ensures
            parsed is Some <==> define_form(expression@) is Some,
            parsed matches Some((kind, args)) ==> define_form(expression@) == Some(
                (kind, exprs_view(args@)),
            ),
    {
        let list = match expression.match_list() {
            Some(list) => list,
            None => { return None; },
        };
        if list.len() == 0 {
            return None;
        }
        let name = match list[0].match_atom() {
            Some(name) => name,
            None => { return None; },
        };
        match DefineFunctions::lookup_by_name(name) {
            Some(kind) => {
                let args = &list[1..list.len()];
                proof {
                    lemma_exprs_view_subrange(list@, 1, list@.len() as int);
                }
                Some((kind, args))
            },
            None => None,
        }
    }
}

/// A list that starts with the name of a defining form, taken apart into
/// the kind of the form and the arguments that follow the name.
pub open spec fn define_form(expression: Expr) -> Option<(DefineFunctions, Seq<Expr>)> {
    match expression {
        Expr::List(list) => if list.len() > 0 {
            match list[0] {
                Expr::Atom(name) => match DefineFunctions::named(name) {
                    Some(kind) => Some((kind, list.drop_first())),
                    None => None,
                },
                _ => None,
            }
        } else {
            None
        },
        _ => None,
    }
}

/// The built-in operators.
#[derive(Debug, Clone, Copy, PartialEq, Eq, Structural)]
pub enum NativeFunctions {
    Add,
    Subtract,
    Multiply,
    Divide,
    CmpGeq,
    CmpLeq,
    CmpLess,
    CmpGreater,
    ToInt,
    ToUInt,
    Modulo,
    Power,
    BitwiseXOR,
    And,
    Or,
    Not,
    Equals,
    If,
    Let,
    MapEach,
    Fold,
    Filter,
    ListCons,
    FetchVar,
    SetVar,
    FetchEntry,
    FetchContractEntry,
    SetEntry,
    InsertEntry,
    DeleteEntry,
    TupleCons,
    TupleGet,
    Begin,
    Hash160,
    Sha256,
    Sha512,
    Sha512Trunc256,
    Keccak256,
    Print,
    ContractCall,
    AsContract,
    GetBlockInfo,
    ConsError,
    ConsOkay,
    ConsSome,
    DefaultTo,
    Expects,
    ExpectsErr,
    IsOkay,
    IsNone,
    MintAsset,
    MintToken,
    TransferAsset,
    TransferToken,
    GetTokenBalance,
    GetAssetOwner,
}

/// How the purity of an application of a built-in operator is decided.
pub enum PurityRule {
    /// Read-only exactly when every argument is.
    ArgumentsDetermine,
    /// Never read-only, whatever the arguments are.
    AlwaysMutating,
    /// A read of keyed storage; the key stands at the given position among
    /// the arguments and may be written as a bare list of pairs.
    KeyedStorageRead(nat),
    /// A list of bindings followed by a body.
    Binding,
    /// An operator that applies its first argument, a function's name, to
    /// the others; it takes exactly the given number of arguments.
    HigherOrder(nat),
    /// A list of key and value pairs.
    TupleConstruction,
    /// A call of a function of another contract.
    ContractCall,
}

impl NativeFunctions {
    /// The name by which a contract refers to this operator.
    pub open spec fn name(self) -> Seq<char> {
        match self {
            NativeFunctions::Add => "+"@,
            NativeFunctions::Subtract => "-"@,
            NativeFunctions::Multiply => "*"@,
            NativeFunctions::Divide => "/"@,
            NativeFunctions::CmpGeq => ">="@,
            NativeFunctions::CmpLeq => "<="@,
            NativeFunctions::CmpLess => "<"@,
            NativeFunctions::CmpGreater => ">"@,
            NativeFunctions::ToInt => "to-int"@,
            NativeFunctions::ToUInt => "to-uint"@,
            NativeFunctions::Modulo => "mod"@,
            NativeFunctions::Power => "pow"@,
            NativeFunctions::BitwiseXOR => "xor"@,
            NativeFunctions::And => "and"@,
            NativeFunctions::Or => "or"@,
            NativeFunctions::Not => "not"@,
            NativeFunctions::Equals => "is-eq"@,
            NativeFunctions::If => "if"@,
            NativeFunctions::Let => "let"@,
            NativeFunctions::MapEach => "map"@,
            NativeFunctions::Fold => "fold"@,
            NativeFunctions::Filter => "filter"@,
            NativeFunctions::ListCons => "list"@,
            NativeFunctions::FetchVar => "var-get"@,
            NativeFunctions::SetVar => "var-set"@,
            NativeFunctions::FetchEntry => "map-get?"@,
            NativeFunctions::FetchContractEntry => "contract-map-get?"@,
            NativeFunctions::SetEntry => "map-set"@,
            NativeFunctions::InsertEntry => "map-insert"@,
            NativeFunctions::DeleteEntry => "map-delete"@,
            NativeFunctions::TupleCons => "tuple"@,
            NativeFunctions::TupleGet => "get"@,
            NativeFunctions::Begin => "begin"@,
            NativeFunctions::Hash160 => "hash160"@,
            NativeFunctions::Sha256 => "sha256"@,
            NativeFunctions::Sha512 => "sha512"@,
            NativeFunctions::Sha512Trunc256 => "sha512/256"@,
            NativeFunctions::Keccak256 => "keccak256"@,
            NativeFunctions::Print => "print"@,
            NativeFunctions::ContractCall => "contract-call?"@,
            NativeFunctions::AsContract => "as-contract"@,
            NativeFunctions::GetBlockInfo => "get-block-info?"@,
            NativeFunctions::ConsError => "err"@,
            NativeFunctions::ConsOkay => "ok"@,
            NativeFunctions::ConsSome => "some"@,
            NativeFunctions::DefaultTo => "default-to"@,
            NativeFunctions::Expects => "unwrap!"@,
            NativeFunctions::ExpectsErr => "unwrap-err!"@,
            NativeFunctions::IsOkay => "is-ok"@,
            NativeFunctions::IsNone => "is-none"@,
            NativeFunctions::MintAsset => "nft-mint?"@,
            NativeFunctions::MintToken => "ft-mint?"@,
            NativeFunctions::TransferAsset => "nft-transfer?"@,
            NativeFunctions::TransferToken => "ft-transfer?"@,
            NativeFunctions::GetTokenBalance => "ft-get-balance"@,
            NativeFunctions::GetAssetOwner => "nft-get-owner?"@,
        }
    }

    /// The operator that `name` denotes, if it denotes one.
    pub open spec fn named(name: Seq<char>) -> Option<NativeFunctions> {
        if name == "+"@ {
            Some(NativeFunctions::Add)
        } else if name == "-"@ {
            Some(NativeFunctions::Subtract)
        } else if name == "*"@ {
            Some(NativeFunctions::Multiply)
        } else if name == "/"@ {
            Some(NativeFunctions::Divide)
        } else if name == ">="@ {
            Some(NativeFunctions::CmpGeq)
        } else if name == "<="@ {
            Some(NativeFunctions::CmpLeq)
        } else if name == "<"@ {
            Some(NativeFunctions::CmpLess)
        } else if name == ">"@ {
            Some(NativeFunctions::CmpGreater)
        } else if name == "to-int"@ {
            Some(NativeFunctions::ToInt)
        } else if name == "to-uint"@ {
            Some(NativeFunctions::ToUInt)
        } else if name == "mod"@ {
            Some(NativeFunctions::Modulo)
        } else if name == "pow"@ {
            Some(NativeFunctions::Power)
        } else if name == "xor"@ {
            Some(NativeFunctions::BitwiseXOR)
        } else if name == "and"@ {
            Some(NativeFunctions::And)
        } else if name == "or"@ {
            Some(NativeFunctions::Or)
        } else if name == "not"@ {
            Some(NativeFunctions::Not)
        } else if name == "is-eq"@ {
            Some(NativeFunctions::Equals)
        } else if name == "if"@ {
            Some(NativeFunctions::If)
        } else if name == "let"@ {
            Some(NativeFunctions::Let)
        } else if name == "map"@ {
            Some(NativeFunctions::MapEach)
        } else if name == "fold"@ {
            Some(NativeFunctions::Fold)
        } else if name == "filter"@ {
            Some(NativeFunctions::Filter)
        } else if name == "list"@ {
            Some(NativeFunctions::ListCons)
        } else if name == "var-get"@ {
            Some(NativeFunctions::FetchVar)
        } else if name == "var-set"@ {
            Some(NativeFunctions::SetVar)
        } else if name == "map-get?"@ {
            Some(NativeFunctions::FetchEntry)
        } else if name == "contract-map-get?"@ {
            Some(NativeFunctions::FetchContractEntry)
        } else if name == "map-set"@ {
            Some(NativeFunctions::SetEntry)
        } else if name == "map-insert"@ {
            Some(NativeFunctions::InsertEntry)
        } else if name == "map-delete"@ {
            Some(NativeFunctions::DeleteEntry)
        } else if name == "tuple"@ {
            Some(NativeFunctions::TupleCons)
        } else if name == "get"@ {
            Some(NativeFunctions::TupleGet)
        } else if name == "begin"@ {
            Some(NativeFunctions::Begin)
        } else if name == "hash160"@ {
            Some(NativeFunctions::Hash160)
        } else if name == "sha256"@ {
            Some(NativeFunctions::Sha256)
        } else if name == "sha512"@ {
            Some(NativeFunctions::Sha512)
        } else if name == "sha512/256"@ {
            Some(NativeFunctions::Sha512Trunc256)
        } else if name == "keccak256"@ {
            Some(NativeFunctions::Keccak256)
        } else if name == "print"@ {
            Some(NativeFunctions::Print)
        } else if name == "contract-call?"@ {
            Some(NativeFunctions::ContractCall)
        } else if name == "as-contract"@ {
            Some(NativeFunctions::AsContract)
        } else if name == "get-block-info?"@ {
            Some(NativeFunctions::GetBlockInfo)
        } else if name == "err"@ {
            Some(NativeFunctions::ConsError)
        } else if name == "ok"@ {
            Some(NativeFunctions::ConsOkay)
        } else if name == "some"@ {
            Some(NativeFunctions::ConsSome)
        } else if name == "default-to"@ {
            Some(NativeFunctions::DefaultTo)
        } else if name == "unwrap!"@ {
            Some(NativeFunctions::Expects)
        } else if name == "unwrap-err!"@ {
            Some(NativeFunctions::ExpectsErr)
        } else if name == "is-ok"@ {
            Some(NativeFunctions::IsOkay)
        } else if name == "is-none"@ {
            Some(NativeFunctions::IsNone)
        } else if name == "nft-mint?"@ {
            Some(NativeFunctions::MintAsset)
        } else if name == "ft-mint?"@ {
            Some(NativeFunctions::MintToken)
        } else if name == "nft-transfer?"@ {
            Some(NativeFunctions::TransferAsset)
        } else if name == "ft-transfer?"@ {
            Some(NativeFunctions::TransferToken)
        } else if name == "ft-get-balance"@ {
            Some(NativeFunctions::GetTokenBalance)
        } else if name == "nft-get-owner?"@ {
            Some(NativeFunctions::GetAssetOwner)
        } else {
            None
        }
    }

    /// Looks `name` up among the names of the built-in operators.
    pub fn lookup_by_name(name: &str) -> (found: Option<NativeFunctions>)
        ensures
            found == Self::named(name@),
    {
        if same_text(name, "+") {
            Some(NativeFunctions::Add)
        } else if same_text(name, "-") {
            Some(NativeFunctions::Subtract)
        } else if same_text(name, "*") {
            Some(NativeFunctions::Multiply)
        } else if same_text(name, "/") {
            Some(NativeFunctions::Divide)
        } else if same_text(name, ">=") {
            Some(NativeFunctions::CmpGeq)
        } else if same_text(name, "<=") {
            Some(NativeFunctions::CmpLeq)
        } else if same_text(name, "<") {
            Some(NativeFunctions::CmpLess)
        } else if same_text(name, ">") {
            Some(NativeFunctions::CmpGreater)
        } else if same_text(name, "to-int") {
            Some(NativeFunctions::ToInt)
        } else if same_text(name, "to-uint") {
            Some(NativeFunctions::ToUInt)
        } else if same_text(name, "mod") {
            Some(NativeFunctions::Modulo)
        } else if same_text(name, "pow") {
            Some(NativeFunctions::Power)
        } else if same_text(name, "xor") {
            Some(NativeFunctions::BitwiseXOR)
        } else if same_text(name, "and") {
            Some(NativeFunctions::And)
        } else if same_text(name, "or") {
            Some(NativeFunctions::Or)
        } else if same_text(name, "not") {
            Some(NativeFunctions::Not)
        } else if same_text(name, "is-eq") {
            Some(NativeFunctions::Equals)
        } else if same_text(name, "if") {
            Some(NativeFunctions::If)
        } else if same_text(name, "let") {
            Some(NativeFunctions::Let)
        } else if same_text(name, "map") {
            Some(NativeFunctions::MapEach)
        } else if same_text(name, "fold") {
            Some(NativeFunctions::Fold)
        } else if same_text(name, "filter") {
            Some(NativeFunctions::Filter)
        } else if same_text(name, "list") {
            Some(NativeFunctions::ListCons)
        } else if same_text(name, "var-get") {
            Some(NativeFunctions::FetchVar)
        } else if same_text(name, "var-set") {
            Some(NativeFunctions::SetVar)
        } else if same_text(name, "map-get?") {
            Some(NativeFunctions::FetchEntry)
        } else if same_text(name, "contract-map-get?") {
            Some(NativeFunctions::FetchContractEntry)
        } else if same_text(name, "map-set") {
            Some(NativeFunctions::SetEntry)
        } else if same_text(name, "map-insert") {
            Some(NativeFunctions::InsertEntry)
        } else if same_text(name, "map-delete") {
            Some(NativeFunctions::DeleteEntry)
        } else if same_text(name, "tuple") {
            Some(NativeFunctions::TupleCons)
        } else if same_text(name, "get") {
            Some(NativeFunctions::TupleGet)
        } else if same_text(name, "begin") {
            Some(NativeFunctions::Begin)
        } else if same_text(name, "hash160") {
            Some(NativeFunctions::Hash160)
        } else if same_text(name, "sha256") {
            Some(NativeFunctions::Sha256)
        } else if same_text(name, "sha512") {
            Some(NativeFunctions::Sha512)
        } else if same_text(name, "sha512/256") {
            Some(NativeFunctions::Sha512Trunc256)
        } else if same_text(name, "keccak256") {
            Some(NativeFunctions::Keccak256)
        } else if same_text(name, "print") {
            Some(NativeFunctions::Print)
        } else if same_text(name, "contract-call?") {
            Some(NativeFunctions::ContractCall)
        } else if same_text(name, "as-contract") {
            Some(NativeFunctions::AsContract)
        } else if same_text(name, "get-block-info?") {
            Some(NativeFunctions::GetBlockInfo)
        } else if same_text(name, "err") {
            Some(NativeFunctions::ConsError)
        } else if same_text(name, "ok") {
            Some(NativeFunctions::ConsOkay)
        } else if same_text(name, "some") {
            Some(NativeFunctions::ConsSome)
        } else if same_text(name, "default-to") {
            Some(NativeFunctions::DefaultTo)
        } else if same_text(name, "unwrap!") {
            Some(NativeFunctions::Expects)
        } else if same_text(name, "unwrap-err!") {
            Some(NativeFunctions::ExpectsErr)
        } else if same_text(name, "is-ok") {
            Some(NativeFunctions::IsOkay)
        } else if same_text(name, "is-none") {
            Some(NativeFunctions::IsNone)
        } else if same_text(name, "nft-mint?") {
            Some(NativeFunctions::MintAsset)
        } else if same_text(name, "ft-mint?") {
            Some(NativeFunctions::MintToken)
        } else if same_text(name, "nft-transfer?") {
            Some(NativeFunctions::TransferAsset)
        } else if same_text(name, "ft-transfer?") {
            Some(NativeFunctions::TransferToken)
        } else if same_text(name, "ft-get-balance") {
            Some(NativeFunctions::GetTokenBalance)
        } else if same_text(name, "nft-get-owner?") {
            Some(NativeFunctions::GetAssetOwner)
        } else {
            None
        }
    }

    /// The rule by which applications of this operator are classified.
    pub open spec fn purity_rule(self) -> PurityRule {
        match self {
            NativeFunctions::Add | NativeFunctions::Subtract |
            NativeFunctions::Multiply | NativeFunctions::Divide |
            NativeFunctions::CmpGeq | NativeFunctions::CmpLeq |
            NativeFunctions::CmpLess | NativeFunctions::CmpGreater |
            NativeFunctions::ToInt | NativeFunctions::ToUInt |
            NativeFunctions::Modulo | NativeFunctions::Power |
            NativeFunctions::BitwiseXOR | NativeFunctions::And | NativeFunctions::Or |
            NativeFunctions::Not | NativeFunctions::Equals | NativeFunctions::If |
            NativeFunctions::ListCons | NativeFunctions::FetchVar |
            NativeFunctions::TupleGet | NativeFunctions::Begin |
            NativeFunctions::Hash160 | NativeFunctions::Sha256 |
            NativeFunctions::Sha512 | NativeFunctions::Sha512Trunc256 |
            NativeFunctions::Keccak256 | NativeFunctions::Print |
            NativeFunctions::AsContract | NativeFunctions::GetBlockInfo |
            NativeFunctions::ConsError | NativeFunctions::ConsOkay |
            NativeFunctions::ConsSome | NativeFunctions::DefaultTo |
            NativeFunctions::Expects | NativeFunctions::ExpectsErr |
            NativeFunctions::IsOkay | NativeFunctions::IsNone |
            NativeFunctions::GetTokenBalance | NativeFunctions::GetAssetOwner => PurityRule::ArgumentsDetermine,
            NativeFunctions::SetVar | NativeFunctions::SetEntry |
            NativeFunctions::InsertEntry | NativeFunctions::DeleteEntry |
            NativeFunctions::MintAsset | NativeFunctions::MintToken |
            NativeFunctions::TransferAsset | NativeFunctions::TransferToken => PurityRule::AlwaysMutating,
            NativeFunctions::Let => PurityRule::Binding,
            NativeFunctions::MapEach => PurityRule::HigherOrder(2),
            NativeFunctions::Fold => PurityRule::HigherOrder(3),
            NativeFunctions::Filter => PurityRule::HigherOrder(2),
            NativeFunctions::FetchEntry => PurityRule::KeyedStorageRead(1),
            NativeFunctions::FetchContractEntry => PurityRule::KeyedStorageRead(2),
            NativeFunctions::TupleCons => PurityRule::TupleConstruction,
            NativeFunctions::ContractCall => PurityRule::ContractCall,
        }
    }
}

/// The two ways of writing the key of a storage read.
pub enum TupleDefinitionType<'a> {
    /// A bare list of pairs, here handed back.
    Implicit(&'a [SymbolicExpression]),
    /// Anything else: an expression that evaluates to the key.
    Explicit,
}

/// Whether `expression` is a bare list of pairs: a list that is not empty
/// and whose first element is itself a list.
pub open spec fn is_implicit_tuple(expression: Expr) -> bool {
    expression matches Expr::List(entries) && entries.len() > 0 && entries[0] is List
}

/// Tells a key written as a bare list of pairs from one given by an
/// expression.
pub fn get_definition_type_of_tuple_argument<'a>(expression: &'a SymbolicExpression) -> (kind:
    TupleDefinitionType<'a>)
    ensures
        kind is Implicit <==> is_implicit_tuple(expression@),
        kind matches TupleDefinitionType::Implicit(entries) ==> expression@ == Expr::List(
            exprs_view(entries@),
        ),
{
    match expression.match_list() {
        Some(entries) => {
            if entries.len() > 0 && entries[0].match_list().is_some() {
                TupleDefinitionType::Implicit(entries)
            } else {
                TupleDefinitionType::Explicit
            }
        },
        None => TupleDefinitionType::Explicit,
    }
}

/// A name denotes a defining form exactly when it is the name of one,
/// and then it denotes that one.
pub proof fn lemma_define_named_inverts_name(name: Seq<char>)
    ensures
        match DefineFunctions::named(name) {
            Some(kind) => kind.name() == name,
            None => forall|kind: DefineFunctions| #[trigger] kind.name() != name,
        },
{
}

/// A name denotes a built-in operator exactly when it is the name of
/// one, and then it denotes that one.
pub proof fn lemma_native_named_inverts_name(name: Seq<char>)
    ensures
        match NativeFunctions::named(name) {
            Some(function) => function.name() == name,
            None => forall|function: NativeFunctions| #[trigger] function.name() != name,
        },
{
}

/// Every defining form is found under its own name: no two share a name.
pub proof fn lemma_define_names_distinct(function: DefineFunctions)
    ensures
        DefineFunctions::named(function.name()) == Some(function),
{
    reveal_strlit("define-constant");
    reveal_strlit("define-private");
    reveal_strlit("define-public");
    reveal_strlit("define-read-only");
    reveal_strlit("define-map");
    reveal_strlit("define-data-var");
    reveal_strlit("define-fungible-token");
    reveal_strlit("define-non-fungible-token");
    assert("define-constant"@.len() == 15 && "define-constant"@[0] == 'd' && "define-constant"@[1] == 'e' && "define-constant"@[2] == 'f' && "define-constant"@[3] == 'i' && "define-constant"@[4] == 'n' && "define-constant"@[5] == 'e' && "define-constant"@[6] == '-' && "define-constant"@[7] == 'c' && "define-constant"@[8] == 'o' && "define-constant"@[9] == 'n' && "define-constant"@[10] == 's' && "define-constant"@[11] == 't' && "define-constant"@[12] == 'a' && "define-constant"@[13] == 'n' && "define-constant"@[14] == 't');
    assert("define-private"@.len() == 14 && "define-private"@[0] == 'd' && "define-private"@[1] == 'e' && "define-private"@[2] == 'f' && "define-private"@[3] == 'i' && "define-private"@[4] == 'n' && "define-private"@[5] == 'e' && "define-private"@[6] == '-' && "define-private"@[7] == 'p' && "define-private"@[8] == 'r' && "define-private"@[9] == 'i' && "define-private"@[10] == 'v' && "define-private"@[11] == 'a' && "define-private"@[12] == 't' && "define-private"@[13] == 'e');
    assert("define-public"@.len() == 13 && "define-public"@[0] == 'd' && "define-public"@[1] == 'e' && "define-public"@[2] == 'f' && "define-public"@[3] == 'i' && "define-public"@[4] == 'n' && "define-public"@[5] == 'e' && "define-public"@[6] == '-' && "define-public"@[7] == 'p' && "define-public"@[8] == 'u' && "define-public"@[9] == 'b' && "define-public"@[10] == 'l' && "define-public"@[11] == 'i' && "define-public"@[12] == 'c');
    assert("define-read-only"@.len() == 16 && "define-read-only"@[0] == 'd' && "define-read-only"@[1] == 'e' && "define-read-only"@[2] == 'f' && "define-read-only"@[3] == 'i' && "define-read-only"@[4] == 'n' && "define-read-only"@[5] == 'e' && "define-read-only"@[6] == '-' && "define-read-only"@[7] == 'r' && "define-read-only"@[8] == 'e' && "define-read-only"@[9] == 'a' && "define-read-only"@[10] == 'd' && "define-read-only"@[11] == '-' && "define-read-only"@[12] == 'o' && "define-read-only"@[13] == 'n' && "define-read-only"@[14] == 'l' && "define-read-only"@[15] == 'y');
    assert("define-map"@.len() == 10 && "define-map"@[0] == 'd' && "define-map"@[1] == 'e' && "define-map"@[2] == 'f' && "define-map"@[3] == 'i' && "define-map"@[4] == 'n' && "define-map"@[5] == 'e' && "define-map"@[6] == '-' && "define-map"@[7] == 'm' && "define-map"@[8] == 'a' && "define-map"@[9] == 'p');
    assert("define-data-var"@.len() == 15 && "define-data-var"@[0] == 'd' && "define-data-var"@[1] == 'e' && "define-data-var"@[2] == 'f' && "define-data-var"@[3] == 'i' && "define-data-var"@[4] == 'n' && "define-data-var"@[5] == 'e' && "define-data-var"@[6] == '-' && "define-data-var"@[7] == 'd' && "define-data-var"@[8] == 'a' && "define-data-var"@[9] == 't' && "define-data-var"@[10] == 'a' && "define-data-var"@[11] == '-' && "define-data-var"@[12] == 'v' && "define-data-var"@[13] == 'a' && "define-data-var"@[14] == 'r');
    assert("define-fungible-token"@.len() == 21 && "define-fungible-token"@[0] == 'd' && "define-fungible-token"@[1] == 'e' && "define-fungible-token"@[2] == 'f' && "define-fungible-token"@[3] == 'i' && "define-fungible-token"@[4] == 'n' && "define-fungible-token"@[5] == 'e' && "define-fungible-token"@[6] == '-' && "define-fungible-token"@[7] == 'f' && "define-fungible-token"@[8] == 'u' && "define-fungible-token"@[9] == 'n' && "define-fungible-token"@[10] == 'g' && "define-fungible-token"@[11] == 'i' && "define-fungible-token"@[12] == 'b' && "define-fungible-token"@[13] == 'l' && "define-fungible-token"@[14] == 'e' && "define-fungible-token"@[15] == '-' && "define-fungible-token"@[16] == 't' && "define-fungible-token"@[17] == 'o' && "define-fungible-token"@[18] == 'k' && "define-fungible-token"@[19] == 'e' && "define-fungible-token"@[20] == 'n');
    assert("define-non-fungible-token"@.len() == 25 && "define-non-fungible-token"@[0] == 'd' && "define-non-fungible-token"@[1] == 'e' && "define-non-fungible-token"@[2] == 'f' && "define-non-fungible-token"@[3] == 'i' && "define-non-fungible-token"@[4] == 'n' && "define-non-fungible-token"@[5] == 'e' && "define-non-fungible-token"@[6] == '-' && "define-non-fungible-token"@[7] == 'n' && "define-non-fungible-token"@[8] == 'o' && "define-non-fungible-token"@[9] == 'n' && "define-non-fungible-token"@[10] == '-' && "define-non-fungible-token"@[11] == 'f' && "define-non-fungible-token"@[12] == 'u' && "define-non-fungible-token"@[13] == 'n' && "define-non-fungible-token"@[14] == 'g' && "define-non-fungible-token"@[15] == 'i' && "define-non-fungible-token"@[16] == 'b' && "define-non-fungible-token"@[17] == 'l' && "define-non-fungible-token"@[18] == 'e' && "define-non-fungible-token"@[19] == '-' && "define-non-fungible-token"@[20] == 't' && "define-non-fungible-token"@[21] == 'o' && "define-non-fungible-token"@[22] == 'k' && "define-non-fungible-token"@[23] == 'e' && "define-non-fungible-token"@[24] == 'n');
}

/// Every built-in operator is found under its own name: no two share a name.
pub proof fn lemma_native_names_distinct(function: NativeFunctions)
    ensures
        NativeFunctions::named(function.name()) == Some(function),
{
    reveal_strlit("+");
    reveal_strlit("-");
    reveal_strlit("*");
    reveal_strlit("/");
    reveal_strlit(">=");
    reveal_strlit("<=");
    reveal_strlit("<");
    reveal_strlit(">");
    reveal_strlit("to-int");
    reveal_strlit("to-uint");
    reveal_strlit("mod");
    reveal_strlit("pow");
    reveal_strlit("xor");
    reveal_strlit("and");
    reveal_strlit("or");
    reveal_strlit("not");
    reveal_strlit("is-eq");
    reveal_strlit("if");
    reveal_strlit("let");
    reveal_strlit("map");
    reveal_strlit("fold");
    reveal_strlit("filter");
    reveal_strlit("list");
    reveal_strlit("var-get");
    reveal_strlit("var-set");
    reveal_strlit("map-get?");
    reveal_strlit("contract-map-get?");
    reveal_strlit("map-set");
    reveal_strlit("map-insert");
    reveal_strlit("map-delete");
    reveal_strlit("tuple");
    reveal_strlit("get");
    reveal_strlit("begin");
    reveal_strlit("hash160");
    reveal_strlit("sha256");
    reveal_strlit("sha512");
    reveal_strlit("sha512/256");
    reveal_strlit("keccak256");
    reveal_strlit("print");
    reveal_strlit("contract-call?");
    reveal_strlit("as-contract");
    reveal_strlit("get-block-info?");
    reveal_strlit("err");
    reveal_strlit("ok");
    reveal_strlit("some");
    reveal_strlit("default-to");
    reveal_strlit("unwrap!");
    reveal_strlit("unwrap-err!");
    reveal_strlit("is-ok");
    reveal_strlit("is-none");
    reveal_strlit("nft-mint?");
    reveal_strlit("ft-mint?");
    reveal_strlit("nft-transfer?");
    reveal_strlit("ft-transfer?");
    reveal_strlit("ft-get-balance");
    reveal_strlit("nft-get-owner?");
    assert("+"@.len() == 1 && "+"@[0] == '+');
    assert("-"@.len() == 1 && "-"@[0] == '-');
    assert("*"@.len() == 1 && "*"@[0] == '*');
    assert("/"@.len() == 1 && "/"@[0] == '/');
    assert(">="@.len() == 2 && ">="@[0] == '>' && ">="@[1] == '=');
    assert("<="@.len() == 2 && "<="@[0] == '<' && "<="@[1] == '=');
    assert("<"@.len() == 1 && "<"@[0] == '<');
    assert(">"@.len() == 1 && ">"@[0] == '>');
    assert("to-int"@.len() == 6 && "to-int"@[0] == 't' && "to-int"@[1] == 'o' && "to-int"@[2] == '-' && "to-int"@[3] == 'i' && "to-int"@[4] == 'n' && "to-int"@[5] == 't');
    assert("to-uint"@.len() == 7 && "to-uint"@[0] == 't' && "to-uint"@[1] == 'o' && "to-uint"@[2] == '-' && "to-uint"@[3] == 'u' && "to-uint"@[4] == 'i' && "to-uint"@[5] == 'n' && "to-uint"@[6] == 't');
    assert("mod"@.len() == 3 && "mod"@[0] == 'm' && "mod"@[1] == 'o' && "mod"@[2] == 'd');
    assert("pow"@.len() == 3 && "pow"@[0] == 'p' && "pow"@[1] == 'o' && "pow"@[2] == 'w');
    assert("xor"@.len() == 3 && "xor"@[0] == 'x' && "xor"@[1] == 'o' && "xor"@[2] == 'r');
    assert("and"@.len() == 3 && "and"@[0] == 'a' && "and"@[1] == 'n' && "and"@[2] == 'd');
    assert("or"@.len() == 2 && "or"@[0] == 'o' && "or"@[1] == 'r');
    assert("not"@.len() == 3 && "not"@[0] == 'n' && "not"@[1] == 'o' && "not"@[2] == 't');
    assert("is-eq"@.len() == 5 && "is-eq"@[0] == 'i' && "is-eq"@[1] == 's' && "is-eq"@[2] == '-' && "is-eq"@[3] == 'e' && "is-eq"@[4] == 'q');
    assert("if"@.len() == 2 && "if"@[0] == 'i' && "if"@[1] == 'f');
    assert("let"@.len() == 3 && "let"@[0] == 'l' && "let"@[1] == 'e' && "let"@[2] == 't');
    assert("map"@.len() == 3 && "map"@[0] == 'm' && "map"@[1] == 'a' && "map"@[2] == 'p');
    assert("fold"@.len() == 4 && "fold"@[0] == 'f' && "fold"@[1] == 'o' && "fold"@[2] == 'l' && "fold"@[3] == 'd');
    assert("filter"@.len() == 6 && "filter"@[0] == 'f' && "filter"@[1] == 'i' && "filter"@[2] == 'l' && "filter"@[3] == 't' && "filter"@[4] == 'e' && "filter"@[5] == 'r');
    assert("list"@.len() == 4 && "list"@[0] == 'l' && "list"@[1] == 'i' && "list"@[2] == 's' && "list"@[3] == 't');
    assert("var-get"@.len() == 7 && "var-get"@[0] == 'v' && "var-get"@[1] == 'a' && "var-get"@[2] == 'r' && "var-get"@[3] == '-' && "var-get"@[4] == 'g' && "var-get"@[5] == 'e' && "var-get"@[6] == 't');
    assert("var-set"@.len() == 7 && "var-set"@[0] == 'v' && "var-set"@[1] == 'a' && "var-set"@[2] == 'r' && "var-set"@[3] == '-' && "var-set"@[4] == 's' && "var-set"@[5] == 'e' && "var-set"@[6] == 't');
    assert("map-get?"@.len() == 8 && "map-get?"@[0] == 'm' && "map-get?"@[1] == 'a' && "map-get?"@[2] == 'p' && "map-get?"@[3] == '-' && "map-get?"@[4] == 'g' && "map-get?"@[5] == 'e' && "map-get?"@[6] == 't' && "map-get?"@[7] == '?');
    assert("contract-map-get?"@.len() == 17 && "contract-map-get?"@[0] == 'c' && "contract-map-get?"@[1] == 'o' && "contract-map-get?"@[2] == 'n' && "contract-map-get?"@[3] == 't' && "contract-map-get?"@[4] == 'r' && "contract-map-get?"@[5] == 'a' && "contract-map-get?"@[6] == 'c' && "contract-map-get?"@[7] == 't' && "contract-map-get?"@[8] == '-' && "contract-map-get?"@[9] == 'm' && "contract-map-get?"@[10] == 'a' && "contract-map-get?"@[11] == 'p' && "contract-map-get?"@[12] == '-' && "contract-map-get?"@[13] == 'g' && "contract-map-get?"@[14] == 'e' && "contract-map-get?"@[15] == 't' && "contract-map-get?"@[16] == '?');
    assert("map-set"@.len() == 7 && "map-set"@[0] == 'm' && "map-set"@[1] == 'a' && "map-set"@[2] == 'p' && "map-set"@[3] == '-' && "map-set"@[4] == 's' && "map-set"@[5] == 'e' && "map-set"@[6] == 't');
    assert("map-insert"@.len() == 10 && "map-insert"@[0] == 'm' && "map-insert"@[1] == 'a' && "map-insert"@[2] == 'p' && "map-insert"@[3] == '-' && "map-insert"@[4] == 'i' && "map-insert"@[5] == 'n' && "map-insert"@[6] == 's' && "map-insert"@[7] == 'e' && "map-insert"@[8] == 'r' && "map-insert"@[9] == 't');
    assert("map-delete"@.len() == 10 && "map-delete"@[0] == 'm' && "map-delete"@[1] == 'a' && "map-delete"@[2] == 'p' && "map-delete"@[3] == '-' && "map-delete"@[4] == 'd' && "map-delete"@[5] == 'e' && "map-delete"@[6] == 'l' && "map-delete"@[7] == 'e' && "map-delete"@[8] == 't' && "map-delete"@[9] == 'e');
    assert("tuple"@.len() == 5 && "tuple"@[0] == 't' && "tuple"@[1] == 'u' && "tuple"@[2] == 'p' && "tuple"@[3] == 'l' && "tuple"@[4] == 'e');
    assert("get"@.len() == 3 && "get"@[0] == 'g' && "get"@[1] == 'e' && "get"@[2] == 't');
    assert("begin"@.len() == 5 && "begin"@[0] == 'b' && "begin"@[1] == 'e' && "begin"@[2] == 'g' && "begin"@[3] == 'i' && "begin"@[4] == 'n');
    assert("hash160"@.len() == 7 && "hash160"@[0] == 'h' && "hash160"@[1] == 'a' && "hash160"@[2] == 's' && "hash160"@[3] == 'h' && "hash160"@[4] == '1' && "hash160"@[5] == '6' && "hash160"@[6] == '0');
    assert("sha256"@.len() == 6 && "sha256"@[0] == 's' && "sha256"@[1] == 'h' && "sha256"@[2] == 'a' && "sha256"@[3] == '2' && "sha256"@[4] == '5' && "sha256"@[5] == '6');
    assert("sha512"@.len() == 6 && "sha512"@[0] == 's' && "sha512"@[1] == 'h' && "sha512"@[2] == 'a' && "sha512"@[3] == '5' && "sha512"@[4] == '1' && "sha512"@[5] == '2');
    assert("sha512/256"@.len() == 10 && "sha512/256"@[0] == 's' && "sha512/256"@[1] == 'h' && "sha512/256"@[2] == 'a' && "sha512/256"@[3] == '5' && "sha512/256"@[4] == '1' && "sha512/256"@[5] == '2' && "sha512/256"@[6] == '/' && "sha512/256"@[7] == '2' && "sha512/256"@[8] == '5' && "sha512/256"@[9] == '6');
    assert("keccak256"@.len() == 9 && "keccak256"@[0] == 'k' && "keccak256"@[1] == 'e' && "keccak256"@[2] == 'c' && "keccak256"@[3] == 'c' && "keccak256"@[4] == 'a' && "keccak256"@[5] == 'k' && "keccak256"@[6] == '2' && "keccak256"@[7] == '5' && "keccak256"@[8] == '6');
    assert("print"@.len() == 5 && "print"@[0] == 'p' && "print"@[1] == 'r' && "print"@[2] == 'i' && "print"@[3] == 'n' && "print"@[4] == 't');
    assert("contract-call?"@.len() == 14 && "contract-call?"@[0] == 'c' && "contract-call?"@[1] == 'o' && "contract-call?"@[2] == 'n' && "contract-call?"@[3] == 't' && "contract-call?"@[4] == 'r' && "contract-call?"@[5] == 'a' && "contract-call?"@[6] == 'c' && "contract-call?"@[7] == 't' && "contract-call?"@[8] == '-' && "contract-call?"@[9] == 'c' && "contract-call?"@[10] == 'a' && "contract-call?"@[11] == 'l' && "contract-call?"@[12] == 'l' && "contract-call?"@[13] == '?');
    assert("as-contract"@.len() == 11 && "as-contract"@[0] == 'a' && "as-contract"@[1] == 's' && "as-contract"@[2] == '-' && "as-contract"@[3] == 'c' && "as-contract"@[4] == 'o' && "as-contract"@[5] == 'n' && "as-contract"@[6] == 't' && "as-contract"@[7] == 'r' && "as-contract"@[8] == 'a' && "as-contract"@[9] == 'c' && "as-contract"@[10] == 't');
    assert("get-block-info?"@.len() == 15 && "get-block-info?"@[0] == 'g' && "get-block-info?"@[1] == 'e' && "get-block-info?"@[2] == 't' && "get-block-info?"@[3] == '-' && "get-block-info?"@[4] == 'b' && "get-block-info?"@[5] == 'l' && "get-block-info?"@[6] == 'o' && "get-block-info?"@[7] == 'c' && "get-block-info?"@[8] == 'k' && "get-block-info?"@[9] == '-' && "get-block-info?"@[10] == 'i' && "get-block-info?"@[11] == 'n' && "get-block-info?"@[12] == 'f' && "get-block-info?"@[13] == 'o' && "get-block-info?"@[14] == '?');
    assert("err"@.len() == 3 && "err"@[0] == 'e' && "err"@[1] == 'r' && "err"@[2] == 'r');
    assert("ok"@.len() == 2 && "ok"@[0] == 'o' && "ok"@[1] == 'k');
    assert("some"@.len() == 4 && "some"@[0] == 's' && "some"@[1] == 'o' && "some"@[2] == 'm' && "some"@[3] == 'e');
    assert("default-to"@.len() == 10 && "default-to"@[0] == 'd' && "default-to"@[1] == 'e' && "default-to"@[2] == 'f' && "default-to"@[3] == 'a' && "default-to"@[4] == 'u' && "default-to"@[5] == 'l' && "default-to"@[6] == 't' && "default-to"@[7] == '-' && "default-to"@[8] == 't' && "default-to"@[9] == 'o');
    assert("unwrap!"@.len() == 7 && "unwrap!"@[0] == 'u' && "unwrap!"@[1] == 'n' && "unwrap!"@[2] == 'w' && "unwrap!"@[3] == 'r' && "unwrap!"@[4] == 'a' && "unwrap!"@[5] == 'p' && "unwrap!"@[6] == '!');
    assert("unwrap-err!"@.len() == 11 && "unwrap-err!"@[0] == 'u' && "unwrap-err!"@[1] == 'n' && "unwrap-err!"@[2] == 'w' && "unwrap-err!"@[3] == 'r' && "unwrap-err!"@[4] == 'a' && "unwrap-err!"@[5] == 'p' && "unwrap-err!"@[6] == '-' && "unwrap-err!"@[7] == 'e' && "unwrap-err!"@[8] == 'r' && "unwrap-err!"@[9] == 'r' && "unwrap-err!"@[10] == '!');
    assert("is-ok"@.len() == 5 && "is-ok"@[0] == 'i' && "is-ok"@[1] == 's' && "is-ok"@[2] == '-' && "is-ok"@[3] == 'o' && "is-ok"@[4] == 'k');
    assert("is-none"@.len() == 7 && "is-none"@[0] == 'i' && "is-none"@[1] == 's' && "is-none"@[2] == '-' && "is-none"@[3] == 'n' && "is-none"@[4] == 'o' && "is-none"@[5] == 'n' && "is-none"@[6] == 'e');
    assert("nft-mint?"@.len() == 9 && "nft-mint?"@[0] == 'n' && "nft-mint?"@[1] == 'f' && "nft-mint?"@[2] == 't' && "nft-mint?"@[3] == '-' && "nft-mint?"@[4] == 'm' && "nft-mint?"@[5] == 'i' && "nft-mint?"@[6] == 'n' && "nft-mint?"@[7] == 't' && "nft-mint?"@[8] == '?');
    assert("ft-mint?"@.len() == 8 && "ft-mint?"@[0] == 'f' && "ft-mint?"@[1] == 't' && "ft-mint?"@[2] == '-' && "ft-mint?"@[3] == 'm' && "ft-mint?"@[4] == 'i' && "ft-mint?"@[5] == 'n' && "ft-mint?"@[6] == 't' && "ft-mint?"@[7] == '?');
    assert("nft-transfer?"@.len() == 13 && "nft-transfer?"@[0] == 'n' && "nft-transfer?"@[1] == 'f' && "nft-transfer?"@[2] == 't' && "nft-transfer?"@[3] == '-' && "nft-transfer?"@[4] == 't' && "nft-transfer?"@[5] == 'r' && "nft-transfer?"@[6] == 'a' && "nft-transfer?"@[7] == 'n' && "nft-transfer?"@[8] == 's' && "nft-transfer?"@[9] == 'f' && "nft-transfer?"@[10] == 'e' && "nft-transfer?"@[11] == 'r' && "nft-transfer?"@[12] == '?');
    assert("ft-transfer?"@.len() == 12 && "ft-transfer?"@[0] == 'f' && "ft-transfer?"@[1] == 't' && "ft-transfer?"@[2] == '-' && "ft-transfer?"@[3] == 't' && "ft-transfer?"@[4] == 'r' && "ft-transfer?"@[5] == 'a' && "ft-transfer?"@[6] == 'n' && "ft-transfer?"@[7] == 's' && "ft-transfer?"@[8] == 'f' && "ft-transfer?"@[9] == 'e' && "ft-transfer?"@[10] == 'r' && "ft-transfer?"@[11] == '?');
    assert("ft-get-balance"@.len() == 14 && "ft-get-balance"@[0] == 'f' && "ft-get-balance"@[1] == 't' && "ft-get-balance"@[2] == '-' && "ft-get-balance"@[3] == 'g' && "ft-get-balance"@[4] == 'e' && "ft-get-balance"@[5] == 't' && "ft-get-balance"@[6] == '-' && "ft-get-balance"@[7] == 'b' && "ft-get-balance"@[8] == 'a' && "ft-get-balance"@[9] == 'l' && "ft-get-balance"@[10] == 'a' && "ft-get-balance"@[11] == 'n' && "ft-get-balance"@[12] == 'c' && "ft-get-balance"@[13] == 'e');
    assert("nft-get-owner?"@.len() == 14 && "nft-get-owner?"@[0] == 'n' && "nft-get-owner?"@[1] == 'f' && "nft-get-owner?"@[2] == 't' && "nft-get-owner?"@[3] == '-' && "nft-get-owner?"@[4] == 'g' && "nft-get-owner?"@[5] == 'e' && "nft-get-owner?"@[6] == 't' && "nft-get-owner?"@[7] == '-' && "nft-get-owner?"@[8] == 'o' && "nft-get-owner?"@[9] == 'w' && "nft-get-owner?"@[10] == 'n' && "nft-get-owner?"@[11] == 'e' && "nft-get-owner?"@[12] == 'r' && "nft-get-owner?"@[13] == '?');
}

} // verus!
