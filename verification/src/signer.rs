//! The partial-sync engine: local signer state and its atomic update.
//!
//! One synchronization step applies one decoded pull payload to the signer
//! state: the checkpoint advances by the served entry counts, received
//! commitments extend the UTXO accumulator, nullifiers extend the nullifier
//! set, and the balance ledger moves by what the wallet's viewing
//! capability recovers from the notes. A step either fully applies or, on
//! any failure, leaves the state exactly as it was.

use vstd::prelude::*;

use crate::assets::AssetMap;
use crate::errors::{SignError, SyncError};
use crate::opener::NoteOpener;
use crate::typed::{
    Asset, FullIncomingNote, InitialSyncData, Nullifier, SyncData, Transaction, Utxo,
};
use crate::Checkpoint;

verus! {

/// What one receiver entry credits to the balance of `id`: the value of
/// the recovered asset when the opener recovers one of that kind.
pub open spec fn incoming_credit<O: NoteOpener>(
    opener: Option<O>,
    entry: (Utxo, FullIncomingNote),
    id: Seq<u8>,
) -> int {
    match opener {
        Some(o) => match o.opens_incoming(entry.0, entry.1) {
            Some(a) => if a.id.bytes@ == id {
                a.value as int
            } else {
                0
            },
            None => 0,
        },
        None => 0,
    }
}

/// What the receiver entries together credit to the balance of `id`.
pub open spec fn deposits_for<O: NoteOpener>(
    opener: Option<O>,
    entries: Seq<(Utxo, FullIncomingNote)>,
    id: Seq<u8>,
) -> int
    decreases entries.len(),
{
    if entries.len() == 0 {
        0
    } else {
        deposits_for(opener, entries.drop_last(), id) + incoming_credit(opener, entries.last(), id)
    }
}

/// What one nullifier entry debits from the balance of `id`.
pub open spec fn outgoing_debit<O: NoteOpener>(
    opener: Option<O>,
    nullifier: Nullifier,
    id: Seq<u8>,
) -> int {
    match opener {
        Some(o) => match o.opens_outgoing(nullifier) {
            Some(a) => if a.id.bytes@ == id {
                a.value as int
            } else {
                0
            },
            None => 0,
        },
        None => 0,
    }
}

/// What the nullifier entries together debit from the balance of `id`.
pub open spec fn withdrawals_for<O: NoteOpener>(
    opener: Option<O>,
    nullifiers: Seq<Nullifier>,
    id: Seq<u8>,
) -> int
    decreases nullifiers.len(),
{
    if nullifiers.len() == 0 {
        0
    } else {
        withdrawals_for(opener, nullifiers.drop_last(), id) + outgoing_debit(
            opener,
            nullifiers.last(),
            id,
        )
    }
}

/// A prefix never credits more than the whole list.
pub proof fn lemma_deposits_take_le<O: NoteOpener>(
    opener: Option<O>,
    entries: Seq<(Utxo, FullIncomingNote)>,
    i: int,
    id: Seq<u8>,
)
    requires
        0 <= i <= entries.len(),
    ensures
        deposits_for(opener, entries.take(i), id) <= deposits_for(opener, entries, id),
    decreases entries.len(),
{
    if i == entries.len() {
        assert(entries.take(i) =~= entries);
    } else {
        assert(entries.drop_last().take(i) =~= entries.take(i));
        lemma_deposits_take_le(opener, entries.drop_last(), i, id);
    }
}

/// A prefix never debits more than the whole list.
pub proof fn lemma_withdrawals_take_le<O: NoteOpener>(
    opener: Option<O>,
    nullifiers: Seq<Nullifier>,
    i: int,
    id: Seq<u8>,
)
    requires
        0 <= i <= nullifiers.len(),
    ensures
        withdrawals_for(opener, nullifiers.take(i), id) <= withdrawals_for(opener, nullifiers, id),
    decreases nullifiers.len(),
{
    if i == nullifiers.len() {
        assert(nullifiers.take(i) =~= nullifiers);
    } else {
        assert(nullifiers.drop_last().take(i) =~= nullifiers.take(i));
        lemma_withdrawals_take_le(opener, nullifiers.drop_last(), i, id);
    }
}

/// Credits split over concatenation: what two lists credit together is
/// what each credits on its own.
pub proof fn lemma_deposits_concat<O: NoteOpener>(
    opener: Option<O>,
    s1: Seq<(Utxo, FullIncomingNote)>,
    s2: Seq<(Utxo, FullIncomingNote)>,
    id: Seq<u8>,
)
    ensures
        deposits_for(opener, s1 + s2, id) == deposits_for(opener, s1, id) + deposits_for(
            opener,
            s2,
            id,
        ),
    decreases s2.len(),
{
    if s2.len() == 0 {
        assert(s1 + s2 =~= s1);
    } else {
        assert((s1 + s2).drop_last() =~= s1 + s2.drop_last());
        assert((s1 + s2).last() == s2.last());
        lemma_deposits_concat(opener, s1, s2.drop_last(), id);
    }
}

/// Debits split over concatenation the same way.
pub proof fn lemma_withdrawals_concat<O: NoteOpener>(
    opener: Option<O>,
    s1: Seq<Nullifier>,
    s2: Seq<Nullifier>,
    id: Seq<u8>,
)
    ensures
        withdrawals_for(opener, s1 + s2, id) == withdrawals_for(opener, s1, id) + withdrawals_for(
            opener,
            s2,
            id,
        ),
    decreases s2.len(),
{
    if s2.len() == 0 {
        assert(s1 + s2 =~= s1);
    } else {
        assert((s1 + s2).drop_last() =~= s1 + s2.drop_last());
        assert((s1 + s2).last() == s2.last());
        lemma_withdrawals_concat(opener, s1, s2.drop_last(), id);
    }
}

/// The commitments of the receiver entries, in ledger order.
pub open spec fn commitments_of(entries: Seq<(Utxo, FullIncomingNote)>) -> Seq<
    crate::algebra::FieldElement,
> {
    entries.map_values(|e: (Utxo, FullIncomingNote)| e.0.commitment)
}

/// One incremental synchronization request: the decoded payload of a pull.
#[derive(Clone, Debug)]
pub struct SyncRequest {
    /// The decoded pull payload.
    pub data: SyncData,
}

/// One from-scratch synchronization request: everything the loop gathered.
#[derive(Clone, Debug)]
pub struct InitialSyncRequest {
    /// The gathered payload.
    pub data: InitialSyncData,
}

/// What one successful synchronization step reports back.
#[derive(Clone, Copy, Debug, PartialEq, Eq)]
pub struct SyncResponse {
    /// The checkpoint after the step.
    pub checkpoint: Checkpoint,
}

/// The outcome of one synchronization step.
pub type SyncResult = Result<SyncResponse, SyncError>;

/// A snapshot of the signer state, as persisted by the host.
#[derive(Clone, Debug)]
pub struct StorageState {
    /// The synchronization cursor.
    pub checkpoint: Checkpoint,
    /// The UTXO accumulator leaves.
    pub utxo_accumulator: Vec<crate::algebra::FieldElement>,
    /// The known nullifiers.
    pub nullifiers: Vec<Nullifier>,
    /// The balance ledger.
    pub assets: AssetMap,
}

/// The local signer state: cursor, accumulator, nullifier set, balances,
/// and the loaded viewing capability.
#[derive(Clone, Debug)]
pub struct Signer<O: NoteOpener> {
    /// The synchronization cursor.
    pub checkpoint: Checkpoint,
    /// The UTXO accumulator leaves: commitments in ledger order.
    pub utxo_accumulator: Vec<crate::algebra::FieldElement>,
    /// The known nullifiers, in ledger order.
    pub nullifiers: Vec<Nullifier>,
    /// The balance ledger.
    pub assets: AssetMap,
    /// The loaded authorization context's viewing capability, if any.
    pub opener: Option<O>,
}

impl<O: NoteOpener> Signer<O> {
    /// The signer state is well-formed: the balance ledger is.
    pub open spec fn wf(self) -> bool {
        self.assets.wf()
    }

    /// A fresh signer: empty cursor, accumulator, nullifier set and
    /// balances, and no authorization context.
    pub fn new() -> (r: Signer<O>)
        ensures
            r.wf(),
            r.checkpoint.receiver_index == 0,
            r.checkpoint.sender_index == 0,
            r.utxo_accumulator@.len() == 0,
            r.nullifiers@.len() == 0,
            forall|id: Seq<u8>| r.assets.spec_balance(id) == 0,
            r.opener is None,
    {
        Signer {
            checkpoint: Checkpoint::new_empty(),
            utxo_accumulator: Vec::new(),
            nullifiers: Vec::new(),
            assets: AssetMap::new(),
            opener: None,
        }
    }

    /// Resets the signer to its initial state — empty cursor, accumulator,
    /// nullifier set and balances — keeping the loaded authorization
    /// context. A reset invalidates earlier synchronization: it must be
    /// followed by a fresh synchronization from the start of the ledger.
    pub fn reset(&mut self)
        ensures
            final(self).wf(),
            final(self).opener == old(self).opener,
            final(self).checkpoint.receiver_index == 0,
            final(self).checkpoint.sender_index == 0,
            final(self).utxo_accumulator@.len() == 0,
            final(self).nullifiers@.len() == 0,
            forall|id: Seq<u8>| final(self).assets.spec_balance(id) == 0,
    {
        self.checkpoint = Checkpoint::new_empty();
        self.utxo_accumulator = Vec::new();
        self.nullifiers = Vec::new();
        self.assets = AssetMap::new();
    }

    /// Loads an authorization context: later steps recover notes with it.
    pub fn load_authorization_context(&mut self, opener: O)
        ensures
            final(self).opener == Some(opener),
            final(self).checkpoint == old(self).checkpoint,
            final(self).utxo_accumulator@ == old(self).utxo_accumulator@,
            final(self).nullifiers@ == old(self).nullifiers@,
            final(self).assets == old(self).assets,
    {
        self.opener = Some(opener);
    }

    /// Drops the authorization context: later steps recover nothing.
    pub fn drop_authorization_context(&mut self)
        ensures
            final(self).opener is None,
            final(self).checkpoint == old(self).checkpoint,
            final(self).utxo_accumulator@ == old(self).utxo_accumulator@,
            final(self).nullifiers@ == old(self).nullifiers@,
            final(self).assets == old(self).assets,
    {
        self.opener = None;
    }

    /// Applies one decoded pull payload to the signer state.
    ///
    /// `skip_accumulator` is the soul-bound mode: the checkpoint and the
    /// balance ledger move, the UTXO accumulator does not.
    fn apply(&mut self, data: &SyncData, skip_accumulator: bool) -> (r: Result<(), SyncError>)
        requires
            old(self).wf(),
        ensures
            final(self).wf(),
            final(self).opener == old(self).opener,
            crate::checkpoint_le(old(self).checkpoint, final(self).checkpoint),
            match r {
                Ok(()) => {
                    &&& old(self).checkpoint.receiver_index + data.utxo_note_data@.len()
                        <= u64::MAX
                    &&& old(self).checkpoint.sender_index + data.nullifier_data@.len()
                        <= u128::MAX
                    &&& final(self).checkpoint.receiver_index == old(
                        self,
                    ).checkpoint.receiver_index + data.utxo_note_data@.len()
                    &&& final(self).checkpoint.sender_index == old(self).checkpoint.sender_index
                        + data.nullifier_data@.len()
                    &&& final(self).utxo_accumulator@ == if skip_accumulator {
                        old(self).utxo_accumulator@
                    } else {
                        old(self).utxo_accumulator@ + commitments_of(data.utxo_note_data@)
                    }
                    &&& final(self).nullifiers@ == old(self).nullifiers@ + data.nullifier_data@
                    &&& forall|id: Seq<u8>|
                        #[trigger] final(self).assets.spec_balance(id) as int == old(
                            self,
                        ).assets.spec_balance(id) + deposits_for(
                            old(self).opener,
                            data.utxo_note_data@,
                            id,
                        ) - withdrawals_for(old(self).opener, data.nullifier_data@, id)
                },
                Err(e) => {
                    &&& *final(self) == *old(self)
                    &&& match e {
                        SyncError::CheckpointOverflow => old(self).checkpoint.receiver_index
                            + data.utxo_note_data@.len() > u64::MAX || old(
                            self,
                        ).checkpoint.sender_index + data.nullifier_data@.len() > u128::MAX,
                        SyncError::BalanceOverflow => exists|id: Seq<u8>|
                            old(self).assets.spec_balance(id) + deposits_for(
                                old(self).opener,
                                data.utxo_note_data@,
                                id,
                            ) > u128::MAX,
                        SyncError::Inconsistency => exists|id: Seq<u8>|
                            withdrawals_for(old(self).opener, data.nullifier_data@, id) > old(
                                self,
                            ).assets.spec_balance(id) + deposits_for(
                                old(self).opener,
                                data.utxo_note_data@,
                                id,
                            ),
                    }
                },
            },
    {
        let rlen = data.utxo_note_data.len();
        let slen = data.nullifier_data.len();
        if (rlen as u64) > u64::MAX - self.checkpoint.receiver_index {
            return Err(SyncError::CheckpointOverflow);
        }
        if (slen as u128) > u128::MAX - self.checkpoint.sender_index {
            return Err(SyncError::CheckpointOverflow);
        }
        // Recover the balance movements on a scratch ledger first: the
        // step commits only when every movement fits.
        let mut scratch = self.assets.duplicate();
        let mut i: usize = 0;
        while i < rlen
            invariant
                0 <= i <= rlen == data.utxo_note_data@.len(),
                self.assets.wf(),
                scratch.wf(),
                forall|id: Seq<u8>|
                    #[trigger] scratch.spec_balance(id) as int == self.assets.spec_balance(id)
                        + deposits_for(self.opener, data.utxo_note_data@.take(i as int), id),
            decreases rlen - i,
        {
            let ghost prefix = data.utxo_note_data@.take(i as int);
            let ghost next_prefix = data.utxo_note_data@.take(i as int + 1);
            proof {
                assert(next_prefix.drop_last() =~= prefix);
                assert(next_prefix.last() == data.utxo_note_data@[i as int]);
            }
            let entry = &data.utxo_note_data[i];
            let recovered = match &self.opener {
                Some(o) => o.open_incoming(&entry.0, &entry.1),
                None => None,
            };
            match recovered {
                Some(asset) => {
                    match scratch.deposit(&asset) {
                        Ok(()) => {},
                        Err(_) => {
                            proof {
                                let id = asset.id.bytes@;
                                lemma_deposits_take_le(
                                    self.opener,
                                    data.utxo_note_data@,
                                    i as int + 1,
                                    id,
                                );
                            }
                            return Err(SyncError::BalanceOverflow);
                        },
                    }
                },
                None => {},
            }
            proof {
                assert forall|id: Seq<u8>|
                    #[trigger] scratch.spec_balance(id) as int == self.assets.spec_balance(id)
                        + deposits_for(self.opener, next_prefix, id) by {
                    assert(deposits_for(self.opener, next_prefix, id) == deposits_for(
                        self.opener,
                        prefix,
                        id,
                    ) + incoming_credit(self.opener, data.utxo_note_data@[i as int], id));
                }
            }
            i += 1;
        }
        proof {
            assert(data.utxo_note_data@.take(rlen as int) =~= data.utxo_note_data@);
        }
        let mut i: usize = 0;
        while i < slen
            invariant
                0 <= i <= slen == data.nullifier_data@.len(),
                self.assets.wf(),
                scratch.wf(),
                forall|id: Seq<u8>|
                    #[trigger] scratch.spec_balance(id) as int == self.assets.spec_balance(id)
                        + deposits_for(self.opener, data.utxo_note_data@, id) - withdrawals_for(
                        self.opener,
                        data.nullifier_data@.take(i as int),
                        id,
                    ),
            decreases slen - i,
        {
            let ghost prefix = data.nullifier_data@.take(i as int);
            let ghost next_prefix = data.nullifier_data@.take(i as int + 1);
            proof {
                assert(next_prefix.drop_last() =~= prefix);
                assert(next_prefix.last() == data.nullifier_data@[i as int]);
            }
            let nullifier = &data.nullifier_data[i];
            let recovered = match &self.opener {
                Some(o) => o.open_outgoing(nullifier),
                None => None,
            };
            match recovered {
                Some(asset) => {
                    match scratch.withdraw(&asset) {
                        Ok(()) => {},
                        Err(_) => {
                            proof {
                                let id = asset.id.bytes@;
                                lemma_withdrawals_take_le(
                                    self.opener,
                                    data.nullifier_data@,
                                    i as int + 1,
                                    id,
                                );
                            }
                            return Err(SyncError::Inconsistency);
                        },
                    }
                },
                None => {},
            }
            proof {
                assert forall|id: Seq<u8>|
                    #[trigger] scratch.spec_balance(id) as int == self.assets.spec_balance(id)
                        + deposits_for(self.opener, data.utxo_note_data@, id) - withdrawals_for(
                        self.opener,
                        next_prefix,
                        id,
                    ) by {
                    assert(withdrawals_for(self.opener, next_prefix, id) == withdrawals_for(
                        self.opener,
                        prefix,
                        id,
                    ) + outgoing_debit(self.opener, data.nullifier_data@[i as int], id));
                }
            }
            i += 1;
        }
        proof {
            assert(data.nullifier_data@.take(slen as int) =~= data.nullifier_data@);
        }
        // Every movement fits: commit the whole step.
        let ghost acc0 = self.utxo_accumulator@;
        let ghost nf0 = self.nullifiers@;
        if !skip_accumulator {
            let mut i: usize = 0;
            while i < rlen
                invariant
                    0 <= i <= rlen == data.utxo_note_data@.len(),
                    self.opener == old(self).opener,
                    self.checkpoint == old(self).checkpoint,
                    self.assets == old(self).assets,
                    self.nullifiers@ == nf0,
                    self.utxo_accumulator@.len() == acc0.len() + i,
                    forall|j: int| 0 <= j < acc0.len() ==> self.utxo_accumulator@[j] == acc0[j],
                    forall|j: int|
                        0 <= j < i ==> self.utxo_accumulator@[acc0.len() + j]
                            == data.utxo_note_data@[j].0.commitment,
                decreases rlen - i,
            {
                let commitment = data.utxo_note_data[i].0.commitment;
                self.utxo_accumulator.push(commitment);
                i += 1;
            }
            proof {
                assert(self.utxo_accumulator@ =~= acc0 + commitments_of(data.utxo_note_data@));
            }
        }
        let ghost acc1 = self.utxo_accumulator@;
        let mut i: usize = 0;
        while i < slen
            invariant
                0 <= i <= slen == data.nullifier_data@.len(),
                self.opener == old(self).opener,
                self.checkpoint == old(self).checkpoint,
                self.assets == old(self).assets,
                self.utxo_accumulator@ == acc1,
                self.nullifiers@.len() == nf0.len() + i,
                forall|j: int| 0 <= j < nf0.len() ==> self.nullifiers@[j] == nf0[j],
                forall|j: int|
                    0 <= j < i ==> self.nullifiers@[nf0.len() + j] == data.nullifier_data@[j],
            decreases slen - i,
        {
            let nullifier = data.nullifier_data[i];
            self.nullifiers.push(nullifier);
            i += 1;
        }
        proof {
            assert(self.nullifiers@ =~= nf0 + data.nullifier_data@);
        }
        self.checkpoint = Checkpoint {
            receiver_index: self.checkpoint.receiver_index + rlen as u64,
            sender_index: self.checkpoint.sender_index + slen as u128,
        };
        self.assets = scratch;
        Ok(())
    }

    /// Applies one pull payload: checkpoint, accumulator, nullifier set and
    /// balances move together, or nothing moves.
    pub fn sync(&mut self, request: &SyncRequest) -> (r: SyncResult)
        requires
            old(self).wf(),
        ensures
            final(self).wf(),
            final(self).opener == old(self).opener,
            crate::checkpoint_le(old(self).checkpoint, final(self).checkpoint),
            match r {
                Ok(resp) => {
                    &&& resp.checkpoint == final(self).checkpoint
                    &&& final(self).checkpoint.receiver_index == old(
                        self,
                    ).checkpoint.receiver_index + request.data.utxo_note_data@.len()
                    &&& final(self).checkpoint.sender_index == old(self).checkpoint.sender_index
                        + request.data.nullifier_data@.len()
                    &&& final(self).utxo_accumulator@ == old(self).utxo_accumulator@
                        + commitments_of(request.data.utxo_note_data@)
                    &&& final(self).nullifiers@ == old(self).nullifiers@
                        + request.data.nullifier_data@
                    &&& forall|id: Seq<u8>|
                        #[trigger] final(self).assets.spec_balance(id) as int == old(
                            self,
                        ).assets.spec_balance(id) + deposits_for(
                            old(self).opener,
                            request.data.utxo_note_data@,
                            id,
                        ) - withdrawals_for(old(self).opener, request.data.nullifier_data@, id)
                },
                Err(_) => *final(self) == *old(self),
            },
    {
        match self.apply(&request.data, false) {
            Ok(()) => Ok(SyncResponse { checkpoint: self.checkpoint }),
            Err(e) => Err(e),
        }
    }

    /// Applies one pull payload in soul-bound mode: the checkpoint and the
    /// balance ledger move, the UTXO accumulator never does — soul-bound
    /// assets are not spendable, so their commitments are not accumulated.
    pub fn sbt_sync(&mut self, request: &SyncRequest) -> (r: SyncResult)
        requires
            old(self).wf(),
        ensures
            final(self).wf(),
            final(self).opener == old(self).opener,
            crate::checkpoint_le(old(self).checkpoint, final(self).checkpoint),
            final(self).utxo_accumulator@ == old(self).utxo_accumulator@,
            match r {
                Ok(resp) => {
                    &&& resp.checkpoint == final(self).checkpoint
                    &&& final(self).checkpoint.receiver_index == old(
                        self,
                    ).checkpoint.receiver_index + request.data.utxo_note_data@.len()
                    &&& final(self).checkpoint.sender_index == old(self).checkpoint.sender_index
                        + request.data.nullifier_data@.len()
                    &&& final(self).nullifiers@ == old(self).nullifiers@
                        + request.data.nullifier_data@
                    &&& forall|id: Seq<u8>|
                        #[trigger] final(self).assets.spec_balance(id) as int == old(
                            self,
                        ).assets.spec_balance(id) + deposits_for(
                            old(self).opener,
                            request.data.utxo_note_data@,
                            id,
                        ) - withdrawals_for(old(self).opener, request.data.nullifier_data@, id)
                },
                Err(_) => *final(self) == *old(self),
            },
    {
        match self.apply(&request.data, true) {
            Ok(()) => Ok(SyncResponse { checkpoint: self.checkpoint }),
            Err(e) => Err(e),
        }
    }

    /// Loads a from-scratch synchronization in one bulk application: the
    /// accumulator becomes the commitments of all served UTXOs, the cursor
    /// jumps to the served totals, and the balances reset — the wallet
    /// lacks the recovery material for pre-existing notes, so nothing may
    /// look spendable.
    pub fn initial_sync(&mut self, request: &InitialSyncRequest) -> (r: SyncResult)
        requires
            old(self).wf(),
        ensures
            final(self).wf(),
            final(self).opener == old(self).opener,
            match r {
                Ok(resp) => {
                    &&& request.data.utxo_data@.len() <= u64::MAX
                    &&& resp.checkpoint == final(self).checkpoint
                    &&& final(self).checkpoint.receiver_index == request.data.utxo_data@.len()
                    &&& final(self).checkpoint.sender_index == request.data.nullifier_count
                    &&& final(self).utxo_accumulator@ == request.data.utxo_data@.map_values(
                        |u: Utxo| u.commitment,
                    )
                    &&& final(self).nullifiers@.len() == 0
                    &&& forall|id: Seq<u8>| final(self).assets.spec_balance(id) == 0
                },
                Err(e) => {
                    &&& e == SyncError::CheckpointOverflow
                    &&& request.data.utxo_data@.len() > u64::MAX
                    &&& *final(self) == *old(self)
                },
            },
    {
        let n = request.data.utxo_data.len();
        if n as u128 > u64::MAX as u128 {
            return Err(SyncError::CheckpointOverflow);
        }
        let mut accumulator: Vec<crate::algebra::FieldElement> = Vec::new();
        let mut i: usize = 0;
        while i < n
            invariant
                0 <= i <= n == request.data.utxo_data@.len(),
                accumulator@.len() == i,
                forall|j: int|
                    0 <= j < i ==> accumulator@[j] == request.data.utxo_data@[j].commitment,
            decreases n - i,
        {
            let commitment = request.data.utxo_data[i].commitment;
            accumulator.push(commitment);
            i += 1;
        }
        proof {
            assert(accumulator@ =~= request.data.utxo_data@.map_values(|u: Utxo| u.commitment));
        }
        self.checkpoint = Checkpoint {
            receiver_index: n as u64,
            sender_index: request.data.nullifier_count,
        };
        self.utxo_accumulator = accumulator;
        self.nullifiers = Vec::new();
        self.assets = AssetMap::new();
        Ok(SyncResponse { checkpoint: self.checkpoint })
    }

    /// Checks that the signer can afford `transaction`: signing fails with
    /// an insufficient-balance error exactly when the spent amount exceeds
    /// the held balance of the spent asset. Reads only; never moves the
    /// checkpoint or any other state.
    pub fn sign(&self, transaction: &Transaction) -> (r: Result<(), SignError>)
        ensures
            match r {
                Ok(()) => match transaction.spends() {
                    Some(a) => a.value <= self.assets.spec_balance(a.id.bytes@),
                    None => true,
                },
                Err(e) => {
                    &&& e == SignError::InsufficientBalance
                    &&& match transaction.spends() {
                        Some(a) => a.value > self.assets.spec_balance(a.id.bytes@),
                        None => false,
                    }
                },
            },
    {
        let spent = match transaction {
            Transaction::ToPrivate(_) => None,
            Transaction::PrivateTransfer(asset, _) => Some(*asset),
            Transaction::ToPublic(asset) => Some(*asset),
        };
        match spent {
            Some(asset) => {
                if asset.value <= self.assets.balance(&asset.id) {
                    Ok(())
                } else {
                    Err(SignError::InsufficientBalance)
                }
            },
            None => Ok(()),
        }
    }

    /// Discards accumulator bookkeeping that future signing and syncing
    /// cannot use. The model state holds only the current leaves, so the
    /// pass keeps the state exactly as it is; it exists so that callers can
    /// rely on pruning never changing a future result.
    pub fn prune(&mut self)
        ensures
            *final(self) == *old(self),
    {
    }

    /// Snapshots the signer state for the host's persistent storage. The
    /// authorization context is not part of the snapshot.
    pub fn get_storage(&self) -> (r: StorageState)
        ensures
            r.checkpoint == self.checkpoint,
            r.utxo_accumulator@ == self.utxo_accumulator@,
            r.nullifiers@ == self.nullifiers@,
            r.assets.entries@ == self.assets.entries@,
    {
        StorageState {
            checkpoint: self.checkpoint,
            utxo_accumulator: duplicate_elements(&self.utxo_accumulator),
            nullifiers: duplicate_elements(&self.nullifiers),
            assets: self.assets.duplicate(),
        }
    }

    /// Restores a snapshot taken by [`Self::get_storage`], keeping the
    /// loaded authorization context.
    pub fn set_storage(&mut self, storage: &Option<StorageState>) -> (r: bool)
        requires
            old(self).wf(),
            match storage {
                Some(s) => s.assets.wf(),
                None => true,
            },
        ensures
            final(self).wf(),
            final(self).opener == old(self).opener,
            match storage {
                Some(s) => {
                    &&& r
                    &&& final(self).checkpoint == s.checkpoint
                    &&& final(self).utxo_accumulator@ == s.utxo_accumulator@
                    &&& final(self).nullifiers@ == s.nullifiers@
                    &&& final(self).assets.entries@ == s.assets.entries@
                },
                None => !r && *final(self) == *old(self),
            },
    {
        match storage {
            Some(s) => {
                self.checkpoint = s.checkpoint;
                self.utxo_accumulator = duplicate_elements(&s.utxo_accumulator);
                self.nullifiers = duplicate_elements(&s.nullifiers);
                self.assets = s.assets.duplicate();
                true
            },
            None => false,
        }
    }
}

/// Copies a vector of plain values, element for element.
pub(crate) fn duplicate_elements<T: Copy>(v: &Vec<T>) -> (r: Vec<T>)
    ensures
        r@ == v@,
{
    let mut r: Vec<T> = Vec::new();
    let n = v.len();
    let mut i: usize = 0;
    while i < n
        invariant
            0 <= i <= n == v@.len(),
            r@.len() == i,
            forall|j: int| 0 <= j < i ==> r@[j] == v@[j],
        decreases n - i,
    {
        r.push(v[i]);
        i += 1;
    }
    proof {
        assert(r@ =~= v@);
    }
    r
}

} // verus!
