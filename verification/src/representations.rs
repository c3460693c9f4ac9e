//! The expression tree of a contract and the literal values it carries.
//!
//! Every executable type has a mathematical view; the contracts of the
//! analysis are stated over those views.
use vstd::prelude::*;

verus! {

/// The name of a deployed contract: the address that issued it and the
/// name it was published under.
#[derive(Debug, PartialEq, Eq)]
pub struct QualifiedContractIdentifier {
    pub issuer: String,
    pub name: String,
}

/// Mathematical view of a [`QualifiedContractIdentifier`].
pub struct ContractId {
    pub issuer: Seq<char>,
    pub name: Seq<char>,
}

impl View for QualifiedContractIdentifier {
    type V = ContractId;

    open spec fn view(&self) -> ContractId {
        ContractId { issuer: self.issuer@, name: self.name@ }
    }
}

impl QualifiedContractIdentifier {
    /// The contract published by `issuer` under `name`.
    pub fn new(issuer: &str, name: &str) -> (id: Self)
        ensures
            id@ == (ContractId { issuer: issuer@, name: name@ }),
    {
        QualifiedContractIdentifier { issuer: issuer.to_owned(), name: name.to_owned() }
    }

    /// Whether two identifiers name the same contract.
    pub fn same_contract(&self, other: &QualifiedContractIdentifier) -> (same: bool)
        ensures
            same == (self@ == other@),
    {
        self.issuer == other.issuer && self.name == other.name
    }
}

impl Clone for QualifiedContractIdentifier {
    fn clone(&self) -> (copy: Self)
        ensures
            copy@ == self@,
    {
        QualifiedContractIdentifier { issuer: self.issuer.clone(), name: self.name.clone() }
    }
}

/// A principal: either a plain address or a contract.
#[derive(Debug, PartialEq, Eq)]
pub enum PrincipalData {
    Standard(String),
    Contract(QualifiedContractIdentifier),
}

/// Mathematical view of a [`PrincipalData`].
pub enum Principal {
    Standard(Seq<char>),
    Contract(ContractId),
}

impl View for PrincipalData {
    type V = Principal;

    open spec fn view(&self) -> Principal {
        match self {
            PrincipalData::Standard(address) => Principal::Standard(address@),
            PrincipalData::Contract(id) => Principal::Contract(id@),
        }
    }
}

impl Clone for PrincipalData {
    fn clone(&self) -> (copy: Self)
        ensures
            copy@ == self@,
    {
        match self {
            PrincipalData::Standard(address) => PrincipalData::Standard(address.clone()),
            PrincipalData::Contract(id) => PrincipalData::Contract(id.clone()),
        }
    }
}

/// A resolved literal value.
#[derive(Debug, PartialEq, Eq)]
pub enum Value {
    Int(i128),
    UInt(u128),
    Bool(bool),
    Buffer(Vec<u8>),
    Principal(PrincipalData),
}

/// Mathematical view of a [`Value`].
pub enum Literal {
    Int(int),
    UInt(nat),
    Bool(bool),
    Buffer(Seq<u8>),
    Principal(Principal),
}

impl View for Value {
    type V = Literal;

    open spec fn view(&self) -> Literal {
        match self {
            Value::Int(i) => Literal::Int(*i as int),
            Value::UInt(u) => Literal::UInt(*u as nat),
            Value::Bool(b) => Literal::Bool(*b),
            Value::Buffer(bytes) => Literal::Buffer(bytes@),
            Value::Principal(p) => Literal::Principal(p@),
        }
    }
}

impl Clone for Value {
    fn clone(&self) -> (copy: Self)
        ensures
            copy@ == self@,
    {
        match self {
            Value::Int(i) => Value::Int(*i),
            Value::UInt(u) => Value::UInt(*u),
            Value::Bool(b) => Value::Bool(*b),
            Value::Buffer(bytes) => {
                let copy = bytes.clone();
                assert(copy@ =~= bytes@);
                Value::Buffer(copy)
            },
            Value::Principal(p) => Value::Principal(p.clone()),
        }
    }
}

/// One node of a contract's expression tree.
#[derive(Debug, PartialEq, Eq)]
pub enum SymbolicExpression {
    /// A value the parser resolved from an atom, such as a number.
    AtomValue(Value),
    /// A bare identifier.
    Atom(String),
    /// An ordered list of sub-expressions.
    List(Vec<SymbolicExpression>),
    /// A value written out as a literal, such as a contract's name.
    LiteralValue(Value),
}

/// Mathematical view of a [`SymbolicExpression`]: a finite tree.
pub enum Expr {
    AtomValue(Literal),
    Atom(Seq<char>),
    List(Seq<Expr>),
    LiteralValue(Literal),
}

impl View for SymbolicExpression {
    type V = Expr;

    open spec fn view(&self) -> Expr {
        expr_view(*self)
    }
}

/// The tree that an expression stands for.
pub open spec fn expr_view(expression: SymbolicExpression) -> Expr
    decreases expression,
{
    match expression {
        SymbolicExpression::AtomValue(value) => Expr::AtomValue(value@),
        SymbolicExpression::Atom(name) => Expr::Atom(name@),
        SymbolicExpression::List(children) => Expr::List(
            Seq::new(
                children@.len(),
                |i: int|
                    if 0 <= i < children@.len() {
                        expr_view(children@[i])
                    } else {
                        Expr::List(Seq::empty())
                    },
            ),
        ),
        SymbolicExpression::LiteralValue(value) => Expr::LiteralValue(value@),
    }
}

/// The views of a sequence of expressions, element by element.
pub open spec fn exprs_view(expressions: Seq<SymbolicExpression>) -> Seq<Expr> {
    Seq::new(expressions.len(), |i: int| expressions[i]@)
}

/// The view of a list node is the list of its children's views.
pub proof fn lemma_list_view(expression: SymbolicExpression)
    requires
        expression is List,
    ensures
        expression@ == Expr::List(exprs_view(expression->List_0@)),
{
    assert(expression@->List_0 =~= exprs_view(expression->List_0@));
}

/// Taking the views commutes with taking a part of a sequence.
pub proof fn lemma_exprs_view_subrange(expressions: Seq<SymbolicExpression>, from: int, to: int)
    requires
        0 <= from <= to <= expressions.len(),
    ensures
        exprs_view(expressions.subrange(from, to)) == exprs_view(expressions).subrange(from, to),
{
    assert(exprs_view(expressions.subrange(from, to)) =~= exprs_view(expressions).subrange(
        from,
        to,
    ));
}

/// Whether two strings hold the same text.
///
/// Trusted: this is `str::eq` of the standard library, which compares the
/// two strings byte for byte. Two strings have the same bytes exactly when
/// they have the same characters.
#[verifier::external_body]
pub(crate) fn same_text(left: &str, right: &str) -> (same: bool)
    ensures
        same == (left@ == right@),
{
    left == right
}

impl SymbolicExpression {
    /// The identifier `name`.
    pub fn atom(name: &str) -> (expression: Self)
        ensures
            expression@ == Expr::Atom(name@),
    {
        SymbolicExpression::Atom(name.to_owned())
    }

    /// A value resolved from an atom.
    pub fn atom_value(value: Value) -> (expression: Self)
        ensures
            expression@ == Expr::AtomValue(value@),
    {
        SymbolicExpression::AtomValue(value)
    }

    /// A value written out as a literal.
    pub fn literal_value(value: Value) -> (expression: Self)
        ensures
            expression@ == Expr::LiteralValue(value@),
    {
        SymbolicExpression::LiteralValue(value)
    }

    /// The list of `children`, in order.
    pub fn list(children: Vec<SymbolicExpression>) -> (expression: Self)
        ensures
            expression@ == Expr::List(exprs_view(children@)),
    {
        let expression = SymbolicExpression::List(children);
        proof {
            lemma_list_view(expression);
        }
        expression
    }

    /// The children of a list node; `None` for any other node.
    pub fn match_list(&self) -> (children: Option<&[SymbolicExpression]>)
        ensures
            children is Some <==> self@ is List,
            children matches Some(list) ==> self@ == Expr::List(exprs_view(list@)) && (self matches SymbolicExpression::List(own) && own@ == list@),
    {
        match self {
            SymbolicExpression::List(list) => {
                proof {
                    lemma_list_view(*self);
                }
                Some(list.as_slice())
            },
            _ => None,
        }
    }

    /// The name of an identifier node; `None` for any other node.
    pub fn match_atom(&self) -> (name: Option<&str>)
        ensures
            name is Some <==> self@ is Atom,
            name matches Some(text) ==> self@ == Expr::Atom(text@),
    {
        match self {
            SymbolicExpression::Atom(name) => Some(name.as_str()),
            _ => None,
        }
    }
}

impl Clone for SymbolicExpression {
    /// A deep copy: a tree with the same view.
    fn clone(&self) -> (copy: Self)
        ensures
            copy@ == self@,
        decreases self,
    {
        match self {
            SymbolicExpression::AtomValue(value) => SymbolicExpression::AtomValue(value.clone()),
            SymbolicExpression::Atom(name) => SymbolicExpression::Atom(name.clone()),
            SymbolicExpression::List(children) => {
                let mut copies: Vec<SymbolicExpression> = Vec::new();
                let mut i: usize = 0;
                while i < children.len()
                    invariant
                        self is List,
                        self->List_0 == *children,
                        i <= children.len(),
                        copies.len() == i,
                        forall|j: int| 0 <= j < i ==> copies[j]@ == children[j]@,
                    decreases children.len() - i,
                {
                    proof {
                        assert(decreases_to!(self => children));
                    }
                    let copy = children[i].clone();
                    copies.push(copy);
                    i += 1;
                }
                let copy = SymbolicExpression::List(copies);
                proof {
                    lemma_list_view(*self);
                    lemma_list_view(copy);
                    assert(exprs_view(copies@) =~= exprs_view(children@));
                }
                copy
            },
            SymbolicExpression::LiteralValue(value) => SymbolicExpression::LiteralValue(value.clone()),
        }
    }
}

} // verus!
