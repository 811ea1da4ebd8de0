//! The balance ledger: how much of each asset kind the wallet holds.
//!
//! Balances live in an association list keyed by asset identifier, with at
//! most one entry per identifier. `balance_in` gives the list its map
//! meaning, and every operation is specified through it.

use vstd::prelude::*;

use crate::algebra::{bytes32_eq, FieldElement};
use crate::errors::SyncError;
use crate::typed::Asset;

verus! {

/// The held amount of `id` in an entry list: the value of the first entry
/// carrying that identifier, or zero when none does.
pub open spec fn balance_in(entries: Seq<(FieldElement, u128)>, id: Seq<u8>) -> u128
    decreases entries.len(),
{
    if entries.len() == 0 {
        0
    } else if entries[0].0.bytes@ == id {
        entries[0].1
    } else {
        balance_in(entries.drop_first(), id)
    }
}

/// No two entries carry the same asset identifier.
pub open spec fn unique_ids(entries: Seq<(FieldElement, u128)>) -> bool {
    forall|i: int, j: int|
        0 <= i < j < entries.len() ==> (#[trigger] entries[i]).0.bytes@ != (
        #[trigger] entries[j]).0.bytes@
}

/// An identifier that no entry carries has balance zero.
pub proof fn lemma_balance_in_absent(entries: Seq<(FieldElement, u128)>, id: Seq<u8>)
    requires
        forall|j: int| 0 <= j < entries.len() ==> (#[trigger] entries[j]).0.bytes@ != id,
    ensures
        balance_in(entries, id) == 0,
    decreases entries.len(),
{
    if entries.len() > 0 {
        assert forall|j: int| 0 <= j < entries.drop_first().len() implies (
        #[trigger] entries.drop_first()[j]).0.bytes@ != id by {
            assert(entries.drop_first()[j] == entries[j + 1]);
        }
        lemma_balance_in_absent(entries.drop_first(), id);
    }
}

/// The balance of an identifier is the value of its first entry.
pub proof fn lemma_balance_in_first_match(entries: Seq<(FieldElement, u128)>, id: Seq<u8>, i: int)
    requires
        0 <= i < entries.len(),
        entries[i].0.bytes@ == id,
        forall|j: int| 0 <= j < i ==> (#[trigger] entries[j]).0.bytes@ != id,
    ensures
        balance_in(entries, id) == entries[i].1,
    decreases i,
{
    if i > 0 {
        assert forall|j: int| 0 <= j < i - 1 implies (
        #[trigger] entries.drop_first()[j]).0.bytes@ != id by {
            assert(entries.drop_first()[j] == entries[j + 1]);
        }
        assert(entries.drop_first()[i - 1] == entries[i]);
        lemma_balance_in_first_match(entries.drop_first(), id, i - 1);
    }
}

/// Replacing the value of one entry moves only that identifier's balance.
pub proof fn lemma_balance_in_update(
    entries: Seq<(FieldElement, u128)>,
    i: int,
    v: u128,
    id: Seq<u8>,
)
    requires
        0 <= i < entries.len(),
    ensures
        entries[i].0.bytes@ != id ==> balance_in(
            entries.update(i, (entries[i].0, v)),
            id,
        ) == balance_in(entries, id),
        (entries[i].0.bytes@ == id && (forall|j: int|
            0 <= j < i ==> (#[trigger] entries[j]).0.bytes@ != id)) ==> balance_in(
            entries.update(i, (entries[i].0, v)),
            id,
        ) == v,
    decreases i,
{
    let updated = entries.update(i, (entries[i].0, v));
    if i == 0 {
        if entries[0].0.bytes@ != id {
            assert(updated.drop_first() =~= entries.drop_first());
        }
    } else {
        assert(updated.drop_first() =~= entries.drop_first().update(i - 1, (entries[i].0, v)));
        assert(entries.drop_first()[i - 1] == entries[i]);
        assert forall|j: int|
            0 <= j < i - 1 && (forall|k: int|
                0 <= k < i ==> (#[trigger] entries[k]).0.bytes@ != id) implies (
        #[trigger] entries.drop_first()[j]).0.bytes@ != id by {
            assert(entries.drop_first()[j] == entries[j + 1]);
        }
        lemma_balance_in_update(entries.drop_first(), i - 1, v, id);
    }
}

/// Appending an entry for a fresh identifier sets that identifier's balance
/// and moves no other.
pub proof fn lemma_balance_in_push(
    entries: Seq<(FieldElement, u128)>,
    e: (FieldElement, u128),
    id: Seq<u8>,
)
    ensures
        id != e.0.bytes@ ==> balance_in(entries.push(e), id) == balance_in(entries, id),
        ((forall|j: int| 0 <= j < entries.len() ==> (#[trigger] entries[j]).0.bytes@ != e.0.bytes@)
            && id == e.0.bytes@) ==> balance_in(entries.push(e), id) == e.1,
    decreases entries.len(),
{
    if entries.len() == 0 {
        assert(entries.push(e)[0] == e);
        assert(entries.push(e).drop_first() =~= entries);
    } else {
        assert(entries.push(e)[0] == entries[0]);
        assert(entries.push(e).drop_first() =~= entries.drop_first().push(e));
        assert forall|j: int|
            0 <= j < entries.drop_first().len() && (forall|k: int|
                0 <= k < entries.len() ==> (#[trigger] entries[k]).0.bytes@ != e.0.bytes@) implies (
        #[trigger] entries.drop_first()[j]).0.bytes@ != e.0.bytes@ by {
            assert(entries.drop_first()[j] == entries[j + 1]);
        }
        lemma_balance_in_push(entries.drop_first(), e, id);
    }
}

/// The balance ledger.
#[derive(Clone, Debug, PartialEq, Eq)]
pub struct AssetMap {
    /// One entry per held asset identifier.
    pub entries: Vec<(FieldElement, u128)>,
}

impl AssetMap {
    /// The ledger is well-formed: one entry per identifier.
    pub open spec fn wf(self) -> bool {
        unique_ids(self.entries@)
    }

    /// The held amount of the asset identified by `id`.
    pub open spec fn spec_balance(self, id: Seq<u8>) -> u128 {
        balance_in(self.entries@, id)
    }

    /// An empty ledger: every balance is zero.
    pub fn new() -> (r: AssetMap)
        ensures
            r.wf(),
            r.entries@.len() == 0,
            forall|id: Seq<u8>| r.spec_balance(id) == 0,
    {
        let r = AssetMap { entries: Vec::new() };
        proof {
            assert forall|id: Seq<u8>| r.spec_balance(id) == 0 by {
                lemma_balance_in_absent(r.entries@, id);
            }
        }
        r
    }

    /// Finds the entry carrying `id`, scanning from the front.
    fn find(&self, id: &FieldElement) -> (r: Option<usize>)
        ensures
            match r {
                Some(i) => {
                    &&& 0 <= i < self.entries@.len()
                    &&& self.entries@[i as int].0.bytes@ == id.bytes@
                    &&& forall|j: int|
                        0 <= j < i ==> (#[trigger] self.entries@[j]).0.bytes@ != id.bytes@
                    &&& self.spec_balance(id.bytes@) == self.entries@[i as int].1
                },
                None => {
                    &&& forall|j: int|
                        0 <= j < self.entries@.len() ==> (#[trigger] self.entries@[j]).0.bytes@
                            != id.bytes@
                    &&& self.spec_balance(id.bytes@) == 0
                },
            },
    {
        let n = self.entries.len();
        let mut i: usize = 0;
        while i < n
            invariant
                0 <= i <= n == self.entries@.len(),
                forall|j: int| 0 <= j < i ==> (#[trigger] self.entries@[j]).0.bytes@ != id.bytes@,
            decreases n - i,
        {
            if bytes32_eq(&self.entries[i].0.bytes, &id.bytes) {
                proof {
                    lemma_balance_in_first_match(self.entries@, id.bytes@, i as int);
                }
                return Some(i);
            }
            i += 1;
        }
        proof {
            lemma_balance_in_absent(self.entries@, id.bytes@);
        }
        None
    }

    /// The held amount of the asset identified by `id`; zero when the
    /// wallet holds none of it.
    pub fn balance(&self, id: &FieldElement) -> (r: u128)
        ensures
            r == self.spec_balance(id.bytes@),
    {
        match self.find(id) {
            Some(i) => self.entries[i].1,
            None => 0,
        }
    }

    /// Credits `asset.value` to `asset.id`. Fails exactly when the credited
    /// balance would not fit, leaving the ledger unchanged.
    pub fn deposit(&mut self, asset: &Asset) -> (r: Result<(), SyncError>)
        requires
            old(self).wf(),
        ensures
            final(self).wf(),
            match r {
                Ok(()) => {
                    &&& old(self).spec_balance(asset.id.bytes@) + asset.value <= u128::MAX
                    &&& final(self).spec_balance(asset.id.bytes@) == old(self).spec_balance(
                        asset.id.bytes@,
                    ) + asset.value
                    &&& forall|id: Seq<u8>|
                        id != asset.id.bytes@ ==> #[trigger] final(self).spec_balance(id) == old(
                            self,
                        ).spec_balance(id)
                },
                Err(e) => {
                    &&& e == SyncError::BalanceOverflow
                    &&& old(self).spec_balance(asset.id.bytes@) + asset.value > u128::MAX
                    &&& *final(self) == *old(self)
                },
            },
    {
        match self.find(&asset.id) {
            Some(i) => {
                let held = self.entries[i].1;
                if asset.value > u128::MAX - held {
                    return Err(SyncError::BalanceOverflow);
                }
                let fe = self.entries[i].0;
                proof {
                    assert forall|id: Seq<u8>| id != asset.id.bytes@ implies balance_in(
                        self.entries@.update(i as int, (self.entries@[i as int].0, (held
                            + asset.value) as u128)),
                        id,
                    ) == balance_in(self.entries@, id) by {
                        lemma_balance_in_update(
                            self.entries@,
                            i as int,
                            (held + asset.value) as u128,
                            id,
                        );
                    }
                    lemma_balance_in_update(
                        self.entries@,
                        i as int,
                        (held + asset.value) as u128,
                        asset.id.bytes@,
                    );
                }
                self.entries[i] = (fe, held + asset.value);
                Ok(())
            },
            None => {
                proof {
                    assert forall|id: Seq<u8>| id != asset.id.bytes@ implies balance_in(
                        self.entries@.push((asset.id, asset.value)),
                        id,
                    ) == balance_in(self.entries@, id) by {
                        lemma_balance_in_push(self.entries@, (asset.id, asset.value), id);
                    }
                    lemma_balance_in_push(
                        self.entries@,
                        (asset.id, asset.value),
                        asset.id.bytes@,
                    );
                }
                self.entries.push((asset.id, asset.value));
                Ok(())
            },
        }
    }

    /// Debits `asset.value` from `asset.id`. Fails exactly when the wallet
    /// holds less than the debited amount, leaving the ledger unchanged.
    pub fn withdraw(&mut self, asset: &Asset) -> (r: Result<(), SyncError>)
        requires
            old(self).wf(),
        ensures
            final(self).wf(),
            match r {
                Ok(()) => {
                    &&& asset.value <= old(self).spec_balance(asset.id.bytes@)
                    &&& final(self).spec_balance(asset.id.bytes@) == old(self).spec_balance(
                        asset.id.bytes@,
                    ) - asset.value
                    &&& forall|id: Seq<u8>|
                        id != asset.id.bytes@ ==> #[trigger] final(self).spec_balance(id) == old(
                            self,
                        ).spec_balance(id)
                },
                Err(e) => {
                    &&& e == SyncError::Inconsistency
                    &&& asset.value > old(self).spec_balance(asset.id.bytes@)
                    &&& *final(self) == *old(self)
                },
            },
    {
        match self.find(&asset.id) {
            Some(i) => {
                let held = self.entries[i].1;
                if asset.value > held {
                    return Err(SyncError::Inconsistency);
                }
                let fe = self.entries[i].0;
                proof {
                    assert forall|id: Seq<u8>| id != asset.id.bytes@ implies balance_in(
                        self.entries@.update(i as int, (self.entries@[i as int].0, (held
                            - asset.value) as u128)),
                        id,
                    ) == balance_in(self.entries@, id) by {
                        lemma_balance_in_update(
                            self.entries@,
                            i as int,
                            (held - asset.value) as u128,
                            id,
                        );
                    }
                    lemma_balance_in_update(
                        self.entries@,
                        i as int,
                        (held - asset.value) as u128,
                        asset.id.bytes@,
                    );
                }
                self.entries[i] = (fe, held - asset.value);
                Ok(())
            },
            None => {
                if asset.value == 0 {
                    Ok(())
                } else {
                    Err(SyncError::Inconsistency)
                }
            },
        }
    }

    /// Copies the ledger, entry for entry.
    pub fn duplicate(&self) -> (r: AssetMap)
        ensures
            r.entries@ == self.entries@,
    {
        let mut entries: Vec<(FieldElement, u128)> = Vec::new();
        let n = self.entries.len();
        let mut i: usize = 0;
        while i < n
            invariant
                0 <= i <= n == self.entries@.len(),
                entries@.len() == i,
                forall|j: int| 0 <= j < i ==> entries@[j] == self.entries@[j],
            decreases n - i,
        {
            entries.push(self.entries[i]);
            i += 1;
        }
        proof {
            assert(entries@ =~= self.entries@);
        }
        AssetMap { entries }
    }
}

} // verus!
