//! The ledger boundary: what any connection to the remote ledger promises.
//!
//! The wallet core depends on three operations — incremental pull,
//! from-scratch pull, and post submission — through the [`Ledger`] trait.
//! Its contracts are the protocol assumptions: the ledger is an append-only
//! list of receiver and sender entries; a pull serves a contiguous run
//! starting at the caller's checkpoint; the terminal response serves the
//! rest; a continuing response serves at least one entry. Any transport may
//! fail with a [`LedgerError`], which loses no wallet state.
//! [`VectorLedger`] is an in-memory connection over explicit entry lists.

use vstd::prelude::*;

use crate::algebra::FieldElement;
use crate::errors::LedgerError;
use crate::signer::duplicate_elements;
use crate::typed::{
    CurrentPath, FullIncomingNote, InitialPullResponse, InitialSyncData, Nullifier, PullResponse,
    SyncData, TransferPost, Utxo,
};
use crate::Checkpoint;

verus! {

/// The ledger's answer to a post submission: acceptance or a semantic
/// rejection. A rejection is an ordinary value, not an error: the caller
/// may synchronize and submit again.
#[derive(Clone, Copy, Debug, PartialEq, Eq, Structural)]
pub struct PushResponse {
    /// Whether the ledger accepted the posts.
    pub accepted: bool,
}

/// A connection to the remote ledger.
pub trait Ledger: Sized {
    /// The receiver entries the ledger serves, in ledger order.
    spec fn receiver_entries(&self) -> Seq<(Utxo, FullIncomingNote)>;

    /// The sender (nullifier) entries the ledger serves, in ledger order.
    spec fn sender_entries(&self) -> Seq<Nullifier>;

    /// The membership paths the ledger serves to a from-scratch
    /// synchronization, as plain digests.
    spec fn membership_paths(&self) -> Seq<(FieldElement, u32, Seq<FieldElement>)>;

    /// Serves one incremental pull at `checkpoint`: a contiguous run of
    /// receiver and sender entries starting there. The terminal response
    /// (`should_continue == false`) serves everything that remains; a
    /// continuing response serves at least one entry. The served entries
    /// are not changed by the call.
    fn pull(&mut self, checkpoint: &Checkpoint) -> (r: Result<PullResponse, LedgerError>)
        requires
            checkpoint.receiver_index <= old(self).receiver_entries().len(),
            checkpoint.sender_index <= old(self).sender_entries().len(),
        ensures
            final(self).receiver_entries() == old(self).receiver_entries(),
            final(self).sender_entries() == old(self).sender_entries(),
            final(self).membership_paths() == old(self).membership_paths(),
            match r {
                Ok(resp) => {
                    &&& checkpoint.receiver_index + resp.data.utxo_note_data@.len() <= old(
                        self,
                    ).receiver_entries().len()
                    &&& resp.data.utxo_note_data@ == old(self).receiver_entries().subrange(
                        checkpoint.receiver_index as int,
                        checkpoint.receiver_index + resp.data.utxo_note_data@.len(),
                    )
                    &&& checkpoint.sender_index + resp.data.nullifier_data@.len() <= old(
                        self,
                    ).sender_entries().len()
                    &&& resp.data.nullifier_data@ == old(self).sender_entries().subrange(
                        checkpoint.sender_index as int,
                        checkpoint.sender_index + resp.data.nullifier_data@.len(),
                    )
                    &&& !resp.should_continue ==> {
                        &&& checkpoint.receiver_index + resp.data.utxo_note_data@.len() == old(
                            self,
                        ).receiver_entries().len()
                        &&& checkpoint.sender_index + resp.data.nullifier_data@.len() == old(
                            self,
                        ).sender_entries().len()
                    }
                    &&& resp.should_continue ==> resp.data.utxo_note_data@.len()
                        + resp.data.nullifier_data@.len() >= 1
                },
                Err(_) => true,
            },
    ;

    /// Serves one from-scratch pull at `checkpoint`: a contiguous run of
    /// the ledger's UTXOs starting at the receiver index. The terminal
    /// response also carries every membership path and the total nullifier
    /// count; a continuing response carries no paths and at least one UTXO.
    fn initial_pull(&mut self, checkpoint: &Checkpoint) -> (r: Result<
        InitialPullResponse,
        LedgerError,
    >)
        requires
            checkpoint.receiver_index <= old(self).receiver_entries().len(),
        ensures
            final(self).receiver_entries() == old(self).receiver_entries(),
            final(self).sender_entries() == old(self).sender_entries(),
            final(self).membership_paths() == old(self).membership_paths(),
            match r {
                Ok(resp) => {
                    &&& checkpoint.receiver_index + resp.data.utxo_data@.len() <= old(
                        self,
                    ).receiver_entries().len()
                    &&& resp.data.utxo_data@ == old(self).receiver_entries().map_values(
                        |e: (Utxo, FullIncomingNote)| e.0,
                    ).subrange(
                        checkpoint.receiver_index as int,
                        checkpoint.receiver_index + resp.data.utxo_data@.len(),
                    )
                    &&& !resp.should_continue ==> {
                        &&& checkpoint.receiver_index + resp.data.utxo_data@.len() == old(
                            self,
                        ).receiver_entries().len()
                        &&& resp.data.membership_proof_data@.map_values(
                            |p: CurrentPath| p.digests(),
                        ) == old(self).membership_paths()
                        &&& resp.data.nullifier_count == old(self).sender_entries().len()
                    }
                    &&& resp.should_continue ==> {
                        &&& resp.data.utxo_data@.len() >= 1
                        &&& resp.data.membership_proof_data@.len() == 0
                    }
                },
                Err(_) => true,
            },
    ;

    /// Submits transfer posts. The answer is the ledger's own: acceptance
    /// or semantic rejection. The call may append entries to the ledger —
    /// an accepted transfer creates them — but never removes any.
    fn push(&mut self, posts: &Vec<TransferPost>) -> (r: Result<PushResponse, LedgerError>)
        ensures
            old(self).receiver_entries().is_prefix_of(final(self).receiver_entries()),
            old(self).sender_entries().is_prefix_of(final(self).sender_entries()),
    ;
}

/// An in-memory ledger over explicit entry lists, serving pulls in chunks.
#[derive(Clone, Debug)]
pub struct VectorLedger {
    /// Receiver entries, in ledger order.
    pub receivers: Vec<(Utxo, FullIncomingNote)>,
    /// Sender (nullifier) entries, in ledger order.
    pub senders: Vec<Nullifier>,
    /// Membership paths served by the terminal from-scratch response.
    pub paths: Vec<CurrentPath>,
    /// How many entries of each list one pull serves at most; zero is
    /// served as one.
    pub chunk: usize,
    /// Whether this ledger accepts submitted posts.
    pub accept_posts: bool,
    /// How many more operations succeed before the connection fails;
    /// `usize::MAX` keeps it reliable forever.
    pub failures_after: usize,
    /// Every post submitted so far.
    pub pushed: Vec<TransferPost>,
}

impl VectorLedger {
    /// The chunk size actually served.
    fn step(&self) -> (r: usize)
        ensures
            r >= 1,
    {
        if self.chunk == 0 {
            1
        } else {
            self.chunk
        }
    }

    /// Counts down the configured failure budget: answers whether this
    /// operation loses the connection.
    fn connection_lost(&mut self) -> (r: bool)
        ensures
            final(self).receivers@ == old(self).receivers@,
            final(self).senders@ == old(self).senders@,
            final(self).paths@ == old(self).paths@,
            final(self).chunk == old(self).chunk,
            final(self).accept_posts == old(self).accept_posts,
            r == (old(self).failures_after == 0),
    {
        if self.failures_after == 0 {
            true
        } else {
            if self.failures_after != usize::MAX {
                self.failures_after = self.failures_after - 1;
            }
            false
        }
    }

    /// Copies `count` entries of `source` starting at `start`.
    fn copy_run<T: Copy>(source: &Vec<T>, start: usize, count: usize) -> (r: Vec<T>)
        requires
            start + count <= source@.len(),
        ensures
            r@ == source@.subrange(start as int, start + count),
    {
        let n = source.len();
        let mut r: Vec<T> = Vec::new();
        let mut i: usize = 0;
        while i < count
            invariant
                0 <= i <= count,
                start + count <= n == source@.len(),
                r@.len() == i,
                forall|j: int| 0 <= j < i ==> r@[j] == source@[start + j],
            decreases count - i,
        {
            r.push(source[start + i]);
            i += 1;
        }
        proof {
            assert(r@ =~= source@.subrange(start as int, start + count));
        }
        r
    }
}

impl Ledger for VectorLedger {
    open spec fn receiver_entries(&self) -> Seq<(Utxo, FullIncomingNote)> {
        self.receivers@
    }

    open spec fn sender_entries(&self) -> Seq<Nullifier> {
        self.senders@
    }

    open spec fn membership_paths(&self) -> Seq<(FieldElement, u32, Seq<FieldElement>)> {
        self.paths@.map_values(|p: CurrentPath| p.digests())
    }

    fn pull(&mut self, checkpoint: &Checkpoint) -> (r: Result<PullResponse, LedgerError>)
        ensures
            r is Ok <==> old(self).failures_after > 0,
    {
        if self.connection_lost() {
            return Err(LedgerError);
        }
        let step = self.step();
        let r0 = checkpoint.receiver_index as usize;
        let rremaining = self.receivers.len() - r0;
        let rcount = if rremaining < step {
            rremaining
        } else {
            step
        };
        let s0 = checkpoint.sender_index as usize;
        let sremaining = self.senders.len() - s0;
        let scount = if sremaining < step {
            sremaining
        } else {
            step
        };
        let utxo_note_data = Self::copy_run(&self.receivers, r0, rcount);
        let nullifier_data = Self::copy_run(&self.senders, s0, scount);
        let should_continue = rcount < rremaining || scount < sremaining;
        Ok(
            PullResponse {
                should_continue,
                data: SyncData { utxo_note_data, nullifier_data },
            },
        )
    }

    fn initial_pull(&mut self, checkpoint: &Checkpoint) -> (r: Result<
        InitialPullResponse,
        LedgerError,
    >)
        ensures
            r is Ok <==> old(self).failures_after > 0,
    {
        if self.connection_lost() {
            return Err(LedgerError);
        }
        let step = self.step();
        let r0 = checkpoint.receiver_index as usize;
        let rremaining = self.receivers.len() - r0;
        let rcount = if rremaining < step {
            rremaining
        } else {
            step
        };
        let mut utxo_data: Vec<Utxo> = Vec::new();
        let nr = self.receivers.len();
        let mut i: usize = 0;
        while i < rcount
            invariant
                0 <= i <= rcount,
                r0 + rcount <= nr == self.receivers@.len(),
                utxo_data@.len() == i,
                forall|j: int| 0 <= j < i ==> utxo_data@[j] == self.receivers@[r0 + j].0,
            decreases rcount - i,
        {
            let utxo = self.receivers[r0 + i].0;
            utxo_data.push(utxo);
            i += 1;
        }
        proof {
            assert(utxo_data@ =~= self.receivers@.map_values(
                |e: (Utxo, FullIncomingNote)| e.0,
            ).subrange(r0 as int, r0 + rcount));
        }
        let should_continue = rcount < rremaining;
        let mut membership_proof_data: Vec<CurrentPath> = Vec::new();
        if !should_continue {
            let np = self.paths.len();
            let mut i: usize = 0;
            while i < np
                invariant
                    0 <= i <= np == self.paths@.len(),
                    membership_proof_data@.len() == i,
                    forall|j: int|
                        0 <= j < i ==> (#[trigger] membership_proof_data@[j]).digests()
                            == self.paths@[j].digests(),
                decreases np - i,
            {
                let path = CurrentPath {
                    sibling_digest: self.paths[i].sibling_digest,
                    leaf_index: self.paths[i].leaf_index,
                    inner_path: duplicate_elements(&self.paths[i].inner_path),
                };
                membership_proof_data.push(path);
                i += 1;
            }
            proof {
                assert(membership_proof_data@.map_values(|p: CurrentPath| p.digests())
                    =~= self.paths@.map_values(|p: CurrentPath| p.digests()));
            }
        }
        let nullifier_count = self.senders.len() as u128;
        Ok(
            InitialPullResponse {
                should_continue,
                data: InitialSyncData { utxo_data, membership_proof_data, nullifier_count },
            },
        )
    }

    fn push(&mut self, posts: &Vec<TransferPost>) -> (r: Result<PushResponse, LedgerError>)
        ensures
            r is Ok <==> old(self).failures_after > 0,
            r matches Ok(resp) ==> resp.accepted == old(self).accept_posts,
    {
        if self.connection_lost() {
            return Err(LedgerError);
        }
        if self.accept_posts {
            let mut i: usize = 0;
            let n = posts.len();
            while i < n
                invariant
                    0 <= i <= n == posts@.len(),
                    self.receivers@ == old(self).receivers@,
                    self.senders@ == old(self).senders@,
                decreases n - i,
            {
                let post = posts[i].clone();
                self.pushed.push(post);
                i += 1;
            }
            Ok(PushResponse { accepted: true })
        } else {
            Ok(PushResponse { accepted: false })
        }
    }
}

} // verus!
