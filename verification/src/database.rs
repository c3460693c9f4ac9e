//! What earlier analyses recorded about the functions of other contracts.
use vstd::prelude::*;
use crate::representations::{same_text, ContractId, QualifiedContractIdentifier};

verus! {

/// A function of a deployed contract.
pub struct FunctionKey {
    pub contract: ContractId,
    pub function: Seq<char>,
}

/// One registration: a function of a contract, and whether it was found
/// to be read-only.
pub struct FunctionRecord {
    pub contract: QualifiedContractIdentifier,
    pub function: String,
    pub read_only: bool,
}

impl FunctionRecord {
    /// The function that this record is about.
    pub open spec fn key(&self) -> FunctionKey {
        FunctionKey { contract: self.contract@, function: self.function@ }
    }
}

/// The registrations among the first `n` records, a later one replacing
/// an earlier one for the same function.
pub open spec fn registered(records: Seq<FunctionRecord>, n: nat) -> Map<FunctionKey, bool>
    decreases n,
{
    if n == 0 {
        Map::empty()
    } else {
        registered(records, (n - 1) as nat).insert(
            records[n - 1].key(),
            records[n - 1].read_only,
        )
    }
}

/// The purity of the exported functions of the contracts analysed so far.
///
/// Its view maps each registered function to whether it is read-only.
pub struct AnalysisDatabase {
    records: Vec<FunctionRecord>,
}

impl View for AnalysisDatabase {
    type V = Map<FunctionKey, bool>;

    closed spec fn view(&self) -> Map<FunctionKey, bool> {
        registered(self.records@, self.records@.len())
    }
}

impl AnalysisDatabase {
    /// A database that knows no function.
    pub fn new() -> (db: Self)
        ensures
            db@ == Map::<FunctionKey, bool>::empty(),
    {
        AnalysisDatabase { records: Vec::new() }
    }

    /// Records whether `function` of `contract` is read-only, replacing
    /// what was recorded for it before.
    pub fn register_function(
        &mut self,
        contract: &QualifiedContractIdentifier,
        function: &str,
        read_only: bool,
    )
        ensures
            final(self)@ == old(self)@.insert(
                FunctionKey { contract: contract@, function: function@ },
                read_only,
            ),
    {
        let ghost before = self.records@;
        self.records.push(
            FunctionRecord { contract: contract.clone(), function: function.to_owned(), read_only },
        );
        proof {
            lemma_registered_prefix(before, self.records@, before.len());
        }
    }

    /// What is recorded for `function` of `contract`: `None` when nothing
    /// is, else whether the function is read-only.
    pub fn lookup_read_only(&self, contract: &QualifiedContractIdentifier, function: &str) -> (found:
        Option<bool>)
        ensures
            found == lookup(self@, contract@, function@),
    {
        let ghost key = FunctionKey { contract: contract@, function: function@ };
        let mut found: Option<bool> = None;
        let mut i: usize = 0;
        while i < self.records.len()
            invariant
                i <= self.records.len(),
                key == (FunctionKey { contract: contract@, function: function@ }),
                found == lookup(registered(self.records@, i as nat), contract@, function@),
            decreases self.records.len() - i,
        {
            let record = &self.records[i];
            if record.contract.same_contract(contract) && same_text(record.function.as_str(), function) {
                found = Some(record.read_only);
            }
            i += 1;
        }
        found
    }
}

/// What a database holding `entries` answers for a function.
pub open spec fn lookup(entries: Map<FunctionKey, bool>, contract: ContractId, function: Seq<char>) -> Option<
    bool,
> {
    let key = FunctionKey { contract, function };
    if entries.contains_key(key) {
        Some(entries[key])
    } else {
        None
    }
}

/// The registrations among the first `n` records do not depend on the
/// records behind them.
proof fn lemma_registered_prefix(short: Seq<FunctionRecord>, long: Seq<FunctionRecord>, n: nat)
    requires
        n <= short.len() <= long.len(),
        forall|i: int| 0 <= i < short.len() ==> short[i] == long[i],
    ensures
        registered(short, n) == registered(long, n),
    decreases n,
{
    if n > 0 {
        lemma_registered_prefix(short, long, (n - 1) as nat);
    }
}

} // verus!
