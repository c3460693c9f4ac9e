//! The unit that the analysis works on.
use vstd::prelude::*;
use crate::representations::SymbolicExpression;

verus! {

/// A contract under analysis: its top-level expressions, in source order.
pub struct ContractAnalysis {
    pub expressions: Vec<SymbolicExpression>,
}

impl ContractAnalysis {
    /// The contract made of `expressions`, in this order.
    pub fn new(expressions: Vec<SymbolicExpression>) -> (contract: Self)
        ensures
            contract.expressions == expressions,
    {
        ContractAnalysis { expressions }
    }
}

} // verus!
