//! The wallet facade: one signer and one ledger connection per network.
//!
//! [`NetworkWallet`] drives the synchronization loop over its connection:
//! pulls are strictly sequential, the checkpoint for the next pull is the
//! one committed by the last applied step, and the checkpoint never moves
//! backwards within one call. A from-scratch synchronization gathers every
//! response first and applies them in one bulk step, or not at all.
//! [`Wallet`] is the fixed-size registry: one optional wallet per network,
//! and an operation on an unregistered network fails with a typed error.

use vstd::prelude::*;

use crate::algebra::FieldElement;
use crate::errors::{SignError, WalletError};
use crate::ledger::{Ledger, PushResponse};
use crate::opener::NoteOpener;
use crate::signer::{
    commitments_of, deposits_for, lemma_deposits_concat, lemma_withdrawals_concat,
    InitialSyncRequest, Signer, StorageState, SyncRequest, SyncResponse, withdrawals_for,
};
use crate::typed::{
    Asset, FullIncomingNote, InitialSyncData, Nullifier, Transaction, TransferPost, Utxo,
};
use crate::{checkpoint_le, Checkpoint};

verus! {

/// Whether one more partial step is wanted after this one.
#[derive(Clone, Copy, Debug, PartialEq, Eq, Structural)]
pub enum ControlFlow {
    /// More ledger data remains: call again.
    Continue,
    /// The wallet is synchronized with the ledger.
    Break,
}

/// One signer paired with one ledger connection.
#[derive(Clone, Debug)]
pub struct NetworkWallet<L: Ledger, O: NoteOpener> {
    /// The local signer state.
    pub signer: Signer<O>,
    /// The connection this wallet synchronizes against.
    pub ledger: L,
}

impl<L: Ledger, O: NoteOpener> NetworkWallet<L, O> {
    /// The pair is well-formed: the signer state is, and its checkpoint
    /// lies within the ledger it was synchronized against.
    pub open spec fn wf(self) -> bool {
        &&& self.signer.wf()
        &&& self.signer.checkpoint.receiver_index <= self.ledger.receiver_entries().len()
        &&& self.signer.checkpoint.sender_index <= self.ledger.sender_entries().len()
    }

    /// Pairs a signer with a ledger connection.
    pub fn new(ledger: L, signer: Signer<O>) -> (r: NetworkWallet<L, O>)
        requires
            signer.wf(),
            signer.checkpoint.receiver_index <= ledger.receiver_entries().len(),
            signer.checkpoint.sender_index <= ledger.sender_entries().len(),
        ensures
            r.wf(),
            r.signer == signer,
            r.ledger == ledger,
    {
        NetworkWallet { signer, ledger }
    }

    /// Performs one synchronization step: one pull, one atomic application.
    ///
    /// Whatever the outcome, the checkpoint never moves backwards, and the
    /// state reflects exactly the ledger run between the old and the new
    /// checkpoint. `Break` reports that the wallet has reached the end of
    /// the ledger.
    pub fn sync_partial(&mut self) -> (r: Result<ControlFlow, WalletError>)
        requires
            old(self).wf(),
        ensures
            final(self).wf(),
            final(self).ledger.receiver_entries() == old(self).ledger.receiver_entries(),
            final(self).ledger.sender_entries() == old(self).ledger.sender_entries(),
            final(self).ledger.membership_paths() == old(self).ledger.membership_paths(),
            final(self).signer.opener == old(self).signer.opener,
            checkpoint_le(old(self).signer.checkpoint, final(self).signer.checkpoint),
            final(self).signer.utxo_accumulator@ == old(self).signer.utxo_accumulator@
                + commitments_of(
                old(self).ledger.receiver_entries().subrange(
                    old(self).signer.checkpoint.receiver_index as int,
                    final(self).signer.checkpoint.receiver_index as int,
                ),
            ),
            final(self).signer.nullifiers@ == old(self).signer.nullifiers@ + old(
                self,
            ).ledger.sender_entries().subrange(
                old(self).signer.checkpoint.sender_index as int,
                final(self).signer.checkpoint.sender_index as int,
            ),
            forall|id: Seq<u8>|
                #[trigger] final(self).signer.assets.spec_balance(id) as int == old(
                    self,
                ).signer.assets.spec_balance(id) + deposits_for(
                    old(self).signer.opener,
                    old(self).ledger.receiver_entries().subrange(
                        old(self).signer.checkpoint.receiver_index as int,
                        final(self).signer.checkpoint.receiver_index as int,
                    ),
                    id,
                ) - withdrawals_for(
                    old(self).signer.opener,
                    old(self).ledger.sender_entries().subrange(
                        old(self).signer.checkpoint.sender_index as int,
                        final(self).signer.checkpoint.sender_index as int,
                    ),
                    id,
                ),
            match r {
                Ok(cf) => {
                    &&& (cf == ControlFlow::Break ==> {
                        &&& final(self).signer.checkpoint.receiver_index == old(
                            self,
                        ).ledger.receiver_entries().len()
                        &&& final(self).signer.checkpoint.sender_index == old(
                            self,
                        ).ledger.sender_entries().len()
                    })
                    &&& (cf == ControlFlow::Continue ==> final(self).signer.checkpoint.receiver_index + final(self).signer.checkpoint.sender_index
                        > old(self).signer.checkpoint.receiver_index + old(
                        self,
                    ).signer.checkpoint.sender_index)
                },
                Err(e) => e is Connection || e is Sync,
            },
    {
        let ghost ri0 = self.signer.checkpoint.receiver_index as int;
        let ghost si0 = self.signer.checkpoint.sender_index as int;
        let checkpoint = self.signer.checkpoint;
        let resp = match self.ledger.pull(&checkpoint) {
            Ok(resp) => resp,
            Err(e) => {
                proof {
                    lemma_unchanged_application::<O>(
                        self.signer.opener,
                        self.ledger.receiver_entries(),
                        self.ledger.sender_entries(),
                        ri0,
                        si0,
                        self.signer.utxo_accumulator@,
                        self.signer.nullifiers@,
                    );
                }
                return Err(WalletError::Connection(e));
            },
        };
        let should_continue = resp.should_continue;
        let request = SyncRequest { data: resp.data };
        match self.signer.sync(&request) {
            Ok(_) => {},
            Err(e) => {
                proof {
                    lemma_unchanged_application::<O>(
                        self.signer.opener,
                        self.ledger.receiver_entries(),
                        self.ledger.sender_entries(),
                        ri0,
                        si0,
                        self.signer.utxo_accumulator@,
                        self.signer.nullifiers@,
                    );
                }
                return Err(WalletError::Sync(e));
            },
        }
        if should_continue {
            Ok(ControlFlow::Continue)
        } else {
            Ok(ControlFlow::Break)
        }
    }

    /// Pulls and applies ledger data until none remains.
    ///
    /// The checkpoint after each step is never behind the checkpoint before
    /// it, and on success the wallet has applied exactly the ledger run
    /// from the old checkpoint to the end: the accumulator grew by those
    /// commitments, the nullifier set by those nullifiers, and every
    /// balance by what the loaded viewing capability recovered from them.
    pub fn sync(&mut self) -> (r: Result<SyncResponse, WalletError>)
        requires
            old(self).wf(),
        ensures
            final(self).wf(),
            final(self).ledger.receiver_entries() == old(self).ledger.receiver_entries(),
            final(self).ledger.sender_entries() == old(self).ledger.sender_entries(),
            final(self).ledger.membership_paths() == old(self).ledger.membership_paths(),
            final(self).signer.opener == old(self).signer.opener,
            checkpoint_le(old(self).signer.checkpoint, final(self).signer.checkpoint),
            final(self).signer.utxo_accumulator@ == old(self).signer.utxo_accumulator@
                + commitments_of(
                old(self).ledger.receiver_entries().subrange(
                    old(self).signer.checkpoint.receiver_index as int,
                    final(self).signer.checkpoint.receiver_index as int,
                ),
            ),
            final(self).signer.nullifiers@ == old(self).signer.nullifiers@ + old(
                self,
            ).ledger.sender_entries().subrange(
                old(self).signer.checkpoint.sender_index as int,
                final(self).signer.checkpoint.sender_index as int,
            ),
            forall|id: Seq<u8>|
                #[trigger] final(self).signer.assets.spec_balance(id) as int == old(
                    self,
                ).signer.assets.spec_balance(id) + deposits_for(
                    old(self).signer.opener,
                    old(self).ledger.receiver_entries().subrange(
                        old(self).signer.checkpoint.receiver_index as int,
                        final(self).signer.checkpoint.receiver_index as int,
                    ),
                    id,
                ) - withdrawals_for(
                    old(self).signer.opener,
                    old(self).ledger.sender_entries().subrange(
                        old(self).signer.checkpoint.sender_index as int,
                        final(self).signer.checkpoint.sender_index as int,
                    ),
                    id,
                ),
            match r {
                Ok(resp) => {
                    &&& resp.checkpoint == final(self).signer.checkpoint
                    &&& final(self).signer.checkpoint.receiver_index == old(
                        self,
                    ).ledger.receiver_entries().len()
                    &&& final(self).signer.checkpoint.sender_index == old(
                        self,
                    ).ledger.sender_entries().len()
                },
                Err(e) => e is Connection || e is Sync,
            },
    {
        proof {
            lemma_unchanged_application::<O>(
                self.signer.opener,
                self.ledger.receiver_entries(),
                self.ledger.sender_entries(),
                self.signer.checkpoint.receiver_index as int,
                self.signer.checkpoint.sender_index as int,
                self.signer.utxo_accumulator@,
                self.signer.nullifiers@,
            );
        }
        loop
            invariant
                self.wf(),
                self.ledger.receiver_entries() == old(self).ledger.receiver_entries(),
                self.ledger.sender_entries() == old(self).ledger.sender_entries(),
                self.ledger.membership_paths() == old(self).ledger.membership_paths(),
                self.signer.opener == old(self).signer.opener,
                checkpoint_le(old(self).signer.checkpoint, self.signer.checkpoint),
                self.signer.utxo_accumulator@ == old(self).signer.utxo_accumulator@
                    + commitments_of(
                    old(self).ledger.receiver_entries().subrange(
                        old(self).signer.checkpoint.receiver_index as int,
                        self.signer.checkpoint.receiver_index as int,
                    ),
                ),
                self.signer.nullifiers@ == old(self).signer.nullifiers@ + old(
                    self,
                ).ledger.sender_entries().subrange(
                    old(self).signer.checkpoint.sender_index as int,
                    self.signer.checkpoint.sender_index as int,
                ),
                forall|id: Seq<u8>|
                    #[trigger] self.signer.assets.spec_balance(id) as int == old(
                        self,
                    ).signer.assets.spec_balance(id) + deposits_for(
                        old(self).signer.opener,
                        old(self).ledger.receiver_entries().subrange(
                            old(self).signer.checkpoint.receiver_index as int,
                            self.signer.checkpoint.receiver_index as int,
                        ),
                        id,
                    ) - withdrawals_for(
                        old(self).signer.opener,
                        old(self).ledger.sender_entries().subrange(
                            old(self).signer.checkpoint.sender_index as int,
                            self.signer.checkpoint.sender_index as int,
                        ),
                        id,
                    ),
            decreases (self.ledger.receiver_entries().len()
                - self.signer.checkpoint.receiver_index) + (self.ledger.sender_entries().len()
                - self.signer.checkpoint.sender_index),
        {
            let ghost pre = *self;
            let step = self.sync_partial();
            proof {
                lemma_compose_application::<L, O>(*old(self), pre, *self);
                lemma_compose_accumulator(
                    old(self).ledger.receiver_entries(),
                    old(self).signer.utxo_accumulator@,
                    pre.signer.utxo_accumulator@,
                    self.signer.utxo_accumulator@,
                    old(self).signer.checkpoint.receiver_index as int,
                    pre.signer.checkpoint.receiver_index as int,
                    self.signer.checkpoint.receiver_index as int,
                );
            }
            match step {
                Ok(ControlFlow::Continue) => {},
                Ok(ControlFlow::Break) => {
                    return Ok(SyncResponse { checkpoint: self.signer.checkpoint });
                },
                Err(e) => {
                    return Err(e);
                },
            }
        }
    }

    /// Performs one soul-bound synchronization step: like
    /// [`Self::sync_partial`], but the UTXO accumulator never changes.
    pub fn sbt_sync_partial(&mut self) -> (r: Result<ControlFlow, WalletError>)
        requires
            old(self).wf(),
        ensures
            final(self).wf(),
            final(self).ledger.receiver_entries() == old(self).ledger.receiver_entries(),
            final(self).ledger.sender_entries() == old(self).ledger.sender_entries(),
            final(self).ledger.membership_paths() == old(self).ledger.membership_paths(),
            final(self).signer.opener == old(self).signer.opener,
            checkpoint_le(old(self).signer.checkpoint, final(self).signer.checkpoint),
            final(self).signer.utxo_accumulator@ == old(self).signer.utxo_accumulator@,
            final(self).signer.nullifiers@ == old(self).signer.nullifiers@ + old(
                self,
            ).ledger.sender_entries().subrange(
                old(self).signer.checkpoint.sender_index as int,
                final(self).signer.checkpoint.sender_index as int,
            ),
            forall|id: Seq<u8>|
                #[trigger] final(self).signer.assets.spec_balance(id) as int == old(
                    self,
                ).signer.assets.spec_balance(id) + deposits_for(
                    old(self).signer.opener,
                    old(self).ledger.receiver_entries().subrange(
                        old(self).signer.checkpoint.receiver_index as int,
                        final(self).signer.checkpoint.receiver_index as int,
                    ),
                    id,
                ) - withdrawals_for(
                    old(self).signer.opener,
                    old(self).ledger.sender_entries().subrange(
                        old(self).signer.checkpoint.sender_index as int,
                        final(self).signer.checkpoint.sender_index as int,
                    ),
                    id,
                ),
            match r {
                Ok(cf) => {
                    &&& (cf == ControlFlow::Break ==> {
                        &&& final(self).signer.checkpoint.receiver_index == old(
                            self,
                        ).ledger.receiver_entries().len()
                        &&& final(self).signer.checkpoint.sender_index == old(
                            self,
                        ).ledger.sender_entries().len()
                    })
                    &&& (cf == ControlFlow::Continue ==> final(self).signer.checkpoint.receiver_index + final(self).signer.checkpoint.sender_index
                        > old(self).signer.checkpoint.receiver_index + old(
                        self,
                    ).signer.checkpoint.sender_index)
                },
                Err(e) => e is Connection || e is Sync,
            },
    {
        let ghost ri0 = self.signer.checkpoint.receiver_index as int;
        let ghost si0 = self.signer.checkpoint.sender_index as int;
        let checkpoint = self.signer.checkpoint;
        let resp = match self.ledger.pull(&checkpoint) {
            Ok(resp) => resp,
            Err(e) => {
                proof {
                    lemma_unchanged_application::<O>(
                        self.signer.opener,
                        self.ledger.receiver_entries(),
                        self.ledger.sender_entries(),
                        ri0,
                        si0,
                        self.signer.utxo_accumulator@,
                        self.signer.nullifiers@,
                    );
                }
                return Err(WalletError::Connection(e));
            },
        };
        let should_continue = resp.should_continue;
        let request = SyncRequest { data: resp.data };
        match self.signer.sbt_sync(&request) {
            Ok(_) => {},
            Err(e) => {
                proof {
                    lemma_unchanged_application::<O>(
                        self.signer.opener,
                        self.ledger.receiver_entries(),
                        self.ledger.sender_entries(),
                        ri0,
                        si0,
                        self.signer.utxo_accumulator@,
                        self.signer.nullifiers@,
                    );
                }
                return Err(WalletError::Sync(e));
            },
        }
        if should_continue {
            Ok(ControlFlow::Continue)
        } else {
            Ok(ControlFlow::Break)
        }
    }

    /// Pulls and applies ledger data until none remains, in soul-bound
    /// mode: checkpoint and balances move, the UTXO accumulator never does.
    pub fn sbt_sync(&mut self) -> (r: Result<SyncResponse, WalletError>)
        requires
            old(self).wf(),
        ensures
            final(self).wf(),
            final(self).ledger.receiver_entries() == old(self).ledger.receiver_entries(),
            final(self).ledger.sender_entries() == old(self).ledger.sender_entries(),
            final(self).ledger.membership_paths() == old(self).ledger.membership_paths(),
            final(self).signer.opener == old(self).signer.opener,
            checkpoint_le(old(self).signer.checkpoint, final(self).signer.checkpoint),
            final(self).signer.utxo_accumulator@ == old(self).signer.utxo_accumulator@,
            final(self).signer.nullifiers@ == old(self).signer.nullifiers@ + old(
                self,
            ).ledger.sender_entries().subrange(
                old(self).signer.checkpoint.sender_index as int,
                final(self).signer.checkpoint.sender_index as int,
            ),
            forall|id: Seq<u8>|
                #[trigger] final(self).signer.assets.spec_balance(id) as int == old(
                    self,
                ).signer.assets.spec_balance(id) + deposits_for(
                    old(self).signer.opener,
                    old(self).ledger.receiver_entries().subrange(
                        old(self).signer.checkpoint.receiver_index as int,
                        final(self).signer.checkpoint.receiver_index as int,
                    ),
                    id,
                ) - withdrawals_for(
                    old(self).signer.opener,
                    old(self).ledger.sender_entries().subrange(
                        old(self).signer.checkpoint.sender_index as int,
                        final(self).signer.checkpoint.sender_index as int,
                    ),
                    id,
                ),
            match r {
                Ok(resp) => {
                    &&& resp.checkpoint == final(self).signer.checkpoint
                    &&& final(self).signer.checkpoint.receiver_index == old(
                        self,
                    ).ledger.receiver_entries().len()
                    &&& final(self).signer.checkpoint.sender_index == old(
                        self,
                    ).ledger.sender_entries().len()
                },
                Err(e) => e is Connection || e is Sync,
            },
    {
        proof {
            lemma_unchanged_application::<O>(
                self.signer.opener,
                self.ledger.receiver_entries(),
                self.ledger.sender_entries(),
                self.signer.checkpoint.receiver_index as int,
                self.signer.checkpoint.sender_index as int,
                self.signer.utxo_accumulator@,
                self.signer.nullifiers@,
            );
        }
        loop
            invariant
                self.wf(),
                self.ledger.receiver_entries() == old(self).ledger.receiver_entries(),
                self.ledger.sender_entries() == old(self).ledger.sender_entries(),
                self.ledger.membership_paths() == old(self).ledger.membership_paths(),
                self.signer.opener == old(self).signer.opener,
                checkpoint_le(old(self).signer.checkpoint, self.signer.checkpoint),
                self.signer.utxo_accumulator@ == old(self).signer.utxo_accumulator@,
                self.signer.nullifiers@ == old(self).signer.nullifiers@ + old(
                    self,
                ).ledger.sender_entries().subrange(
                    old(self).signer.checkpoint.sender_index as int,
                    self.signer.checkpoint.sender_index as int,
                ),
                forall|id: Seq<u8>|
                    #[trigger] self.signer.assets.spec_balance(id) as int == old(
                        self,
                    ).signer.assets.spec_balance(id) + deposits_for(
                        old(self).signer.opener,
                        old(self).ledger.receiver_entries().subrange(
                            old(self).signer.checkpoint.receiver_index as int,
                            self.signer.checkpoint.receiver_index as int,
                        ),
                        id,
                    ) - withdrawals_for(
                        old(self).signer.opener,
                        old(self).ledger.sender_entries().subrange(
                            old(self).signer.checkpoint.sender_index as int,
                            self.signer.checkpoint.sender_index as int,
                        ),
                        id,
                    ),
            decreases (self.ledger.receiver_entries().len()
                - self.signer.checkpoint.receiver_index) + (self.ledger.sender_entries().len()
                - self.signer.checkpoint.sender_index),
        {
            let ghost pre = *self;
            let step = self.sbt_sync_partial();
            proof {
                lemma_compose_application::<L, O>(*old(self), pre, *self);
            }
            match step {
                Ok(ControlFlow::Continue) => {},
                Ok(ControlFlow::Break) => {
                    return Ok(SyncResponse { checkpoint: self.signer.checkpoint });
                },
                Err(e) => {
                    return Err(e);
                },
            }
        }
    }
    /// Gathers the whole from-scratch synchronization first and applies it
    /// in one bulk step: if any intermediate pull fails, none of the
    /// already-gathered data touches the signer state.
    pub fn initial_sync(&mut self) -> (r: Result<SyncResponse, WalletError>)
        requires
            old(self).wf(),
        ensures
            final(self).wf(),
            final(self).ledger.receiver_entries() == old(self).ledger.receiver_entries(),
            final(self).ledger.sender_entries() == old(self).ledger.sender_entries(),
            final(self).ledger.membership_paths() == old(self).ledger.membership_paths(),
            final(self).signer.opener == old(self).signer.opener,
            match r {
                Ok(resp) => {
                    &&& resp.checkpoint == final(self).signer.checkpoint
                    &&& final(self).signer.checkpoint.receiver_index == old(
                        self,
                    ).ledger.receiver_entries().len()
                    &&& final(self).signer.checkpoint.sender_index == old(
                        self,
                    ).ledger.sender_entries().len()
                    &&& final(self).signer.utxo_accumulator@ == commitments_of(
                        old(self).ledger.receiver_entries(),
                    )
                    &&& final(self).signer.nullifiers@.len() == 0
                    &&& forall|id: Seq<u8>| final(self).signer.assets.spec_balance(id) == 0
                },
                Err(e) => final(self).signer == old(self).signer && (e is Connection || e is Sync),
            },
    {
        let mut utxos: Vec<Utxo> = Vec::new();
        let mut cursor: u64 = 0;
        loop
            invariant
                self.signer == old(self).signer,
                self.wf(),
                self.ledger.receiver_entries() == old(self).ledger.receiver_entries(),
                self.ledger.sender_entries() == old(self).ledger.sender_entries(),
                self.ledger.membership_paths() == old(self).ledger.membership_paths(),
                cursor <= self.ledger.receiver_entries().len(),
                utxos@ == self.ledger.receiver_entries().map_values(
                    |e: (Utxo, FullIncomingNote)| e.0,
                ).take(cursor as int),
            decreases self.ledger.receiver_entries().len() - cursor,
        {
            let checkpoint = Checkpoint { receiver_index: cursor, sender_index: 0 };
            let resp = match self.ledger.initial_pull(&checkpoint) {
                Ok(resp) => resp,
                Err(e) => {
                    return Err(WalletError::Connection(e));
                },
            };
            let should_continue = resp.should_continue;
            let data = resp.data;
            let mut chunk = data.utxo_data;
            let membership_proof_data = data.membership_proof_data;
            let nullifier_count = data.nullifier_count;
            let chunk_len = chunk.len();
            if (chunk_len as u64) > u64::MAX - cursor {
                return Err(WalletError::Sync(crate::errors::SyncError::CheckpointOverflow));
            }
            proof {
                let all = self.ledger.receiver_entries().map_values(
                    |e: (Utxo, FullIncomingNote)| e.0,
                );
                assert(all.take(cursor as int + chunk_len as int) =~= all.take(cursor as int)
                    + all.subrange(cursor as int, cursor as int + chunk_len as int));
            }
            utxos.append(&mut chunk);
            cursor = cursor + chunk_len as u64;
            if !should_continue {
                proof {
                    let all = self.ledger.receiver_entries().map_values(
                        |e: (Utxo, FullIncomingNote)| e.0,
                    );
                    assert(all.take(cursor as int) =~= all);
                }
                let request = InitialSyncRequest {
                    data: InitialSyncData {
                        utxo_data: utxos,
                        membership_proof_data,
                        nullifier_count,
                    },
                };
                match self.signer.initial_sync(&request) {
                    Ok(resp2) => {
                        proof {
                            let entries = self.ledger.receiver_entries();
                            assert(entries.map_values(|e: (Utxo, FullIncomingNote)| e.0).map_values(
                                |u: Utxo| u.commitment,
                            ) =~= commitments_of(entries));
                        }
                        return Ok(resp2);
                    },
                    Err(e) => {
                        return Err(WalletError::Sync(e));
                    },
                }
            }
        }
    }

    /// Resets the signer to its initial state, keeping the loaded
    /// authorization context. A fresh from-scratch or full synchronization
    /// must follow before the wallet is useful again.
    pub fn reset_state(&mut self)
        ensures
            final(self).wf(),
            final(self).ledger == old(self).ledger,
            final(self).signer.opener == old(self).signer.opener,
            final(self).signer.checkpoint.receiver_index == 0,
            final(self).signer.checkpoint.sender_index == 0,
            final(self).signer.utxo_accumulator@.len() == 0,
            final(self).signer.nullifiers@.len() == 0,
            forall|id: Seq<u8>| final(self).signer.assets.spec_balance(id) == 0,
    {
        self.signer.reset();
    }

    /// Performs full wallet recovery: resets the signer state and
    /// synchronizes from the start of the ledger.
    pub fn restart(&mut self) -> (r: Result<SyncResponse, WalletError>)
        ensures
            final(self).wf(),
            final(self).ledger.receiver_entries() == old(self).ledger.receiver_entries(),
            final(self).ledger.sender_entries() == old(self).ledger.sender_entries(),
            final(self).ledger.membership_paths() == old(self).ledger.membership_paths(),
            final(self).signer.opener == old(self).signer.opener,
            match r {
                Ok(resp) => {
                    &&& resp.checkpoint == final(self).signer.checkpoint
                    &&& final(self).signer.checkpoint.receiver_index == old(
                        self,
                    ).ledger.receiver_entries().len()
                    &&& final(self).signer.checkpoint.sender_index == old(
                        self,
                    ).ledger.sender_entries().len()
                    &&& final(self).signer.utxo_accumulator@ == commitments_of(
                        old(self).ledger.receiver_entries(),
                    )
                    &&& forall|id: Seq<u8>|
                        #[trigger] final(self).signer.assets.spec_balance(id) as int
                            == deposits_for(
                            old(self).signer.opener,
                            old(self).ledger.receiver_entries(),
                            id,
                        ) - withdrawals_for(
                            old(self).signer.opener,
                            old(self).ledger.sender_entries(),
                            id,
                        )
                },
                Err(e) => e is Connection || e is Sync,
            },
    {
        self.signer.reset();
        let r = self.sync();
        proof {
            let entries = self.ledger.receiver_entries();
            let senders = self.ledger.sender_entries();
            assert(entries.subrange(0, self.signer.checkpoint.receiver_index as int)
                =~= entries.take(self.signer.checkpoint.receiver_index as int));
            if self.signer.checkpoint.receiver_index == entries.len() {
                assert(entries.subrange(0, self.signer.checkpoint.receiver_index as int)
                    =~= entries);
            }
            if self.signer.checkpoint.sender_index == senders.len() {
                assert(senders.subrange(0, self.signer.checkpoint.sender_index as int) =~= senders);
            }
            assert(Seq::<FieldElement>::empty() + commitments_of(
                entries.subrange(0, self.signer.checkpoint.receiver_index as int),
            ) =~= commitments_of(entries.subrange(0, self.signer.checkpoint.receiver_index as int)));
        }
        r
    }

    /// Submits signed transfer posts as they stand. Whatever the ledger
    /// answers — acceptance, semantic rejection, or a transport failure —
    /// the signer state is untouched: the checkpoint and the accumulator
    /// only ever move during synchronization.
    pub fn push(&mut self, posts: &Vec<TransferPost>) -> (r: Result<PushResponse, WalletError>)
        requires
            old(self).wf(),
        ensures
            final(self).wf(),
            final(self).signer == old(self).signer,
            old(self).ledger.receiver_entries().is_prefix_of(
                final(self).ledger.receiver_entries(),
            ),
            old(self).ledger.sender_entries().is_prefix_of(final(self).ledger.sender_entries()),
            match r {
                Ok(_) => true,
                Err(e) => e is Connection,
            },
    {
        match self.ledger.push(posts) {
            Ok(resp) => Ok(resp),
            Err(e) => Err(WalletError::Connection(e)),
        }
    }

    /// Checks that the wallet can afford `transaction`. Reads only; the
    /// checkpoint and all other state stay untouched.
    pub fn sign(&self, transaction: &Transaction) -> (r: Result<(), SignError>)
        ensures
            match r {
                Ok(()) => match transaction.spends() {
                    Some(a) => a.value <= self.signer.assets.spec_balance(a.id.bytes@),
                    None => true,
                },
                Err(e) => {
                    &&& e == SignError::InsufficientBalance
                    &&& match transaction.spends() {
                        Some(a) => a.value > self.signer.assets.spec_balance(a.id.bytes@),
                        None => false,
                    }
                },
            },
    {
        self.signer.sign(transaction)
    }

    /// Posts a transaction: synchronizes first, validates the transaction
    /// against the synchronized balance, then submits the prepared posts.
    /// A semantic rejection comes back as an ordinary response, with the
    /// wallet state left at the synchronized point, so posting again is
    /// safe.
    pub fn post(&mut self, transaction: &Transaction, posts: &Vec<TransferPost>) -> (r: Result<
        PushResponse,
        WalletError,
    >)
        requires
            old(self).wf(),
        ensures
            final(self).wf(),
            final(self).signer.opener == old(self).signer.opener,
            checkpoint_le(old(self).signer.checkpoint, final(self).signer.checkpoint),
            old(self).ledger.receiver_entries().is_prefix_of(
                final(self).ledger.receiver_entries(),
            ),
            old(self).ledger.sender_entries().is_prefix_of(final(self).ledger.sender_entries()),
            match r {
                Ok(_) => {
                    &&& final(self).signer.checkpoint.receiver_index == old(
                        self,
                    ).ledger.receiver_entries().len()
                    &&& final(self).signer.checkpoint.sender_index == old(
                        self,
                    ).ledger.sender_entries().len()
                },
                Err(e) => {
                    &&& (e is Connection || e is Sync || e is Sign)
                    &&& (e == WalletError::Sign(SignError::InsufficientBalance)
                        ==> match transaction.spends() {
                        Some(a) => a.value > final(self).signer.assets.spec_balance(
                            a.id.bytes@,
                        ),
                        None => false,
                    })
                },
            },
    {
        let ghost entries0 = self.ledger.receiver_entries();
        let ghost senders0 = self.ledger.sender_entries();
        proof {
            assert(entries0.is_prefix_of(entries0));
            assert(senders0.is_prefix_of(senders0));
        }
        match self.sync() {
            Ok(_) => {},
            Err(e) => {
                return Err(e);
            },
        }
        match self.signer.sign(transaction) {
            Ok(()) => {},
            Err(e) => {
                return Err(WalletError::Sign(e));
            },
        }
        match self.ledger.push(posts) {
            Ok(resp) => Ok(resp),
            Err(e) => Err(WalletError::Connection(e)),
        }
    }

    /// The balance the wallet holds of the asset identified by `id`.
    /// Read-only: it reflects the last successfully applied step.
    pub fn balance(&self, id: &FieldElement) -> (r: u128)
        ensures
            r == self.signer.assets.spec_balance(id.bytes@),
    {
        self.signer.assets.balance(id)
    }

    /// Whether the wallet holds at least `asset.value` of `asset.id`.
    pub fn contains(&self, asset: &Asset) -> (r: bool)
        ensures
            r == (asset.value <= self.signer.assets.spec_balance(asset.id.bytes@)),
    {
        asset.value <= self.signer.assets.balance(&asset.id)
    }

    /// A copy of the whole balance ledger.
    pub fn assets(&self) -> (r: Vec<(FieldElement, u128)>)
        ensures
            r@ == self.signer.assets.entries@,
    {
        self.signer.assets.duplicate().entries
    }

    /// The wallet's current synchronization cursor.
    pub fn checkpoint(&self) -> (r: Checkpoint)
        ensures
            r == self.signer.checkpoint,
    {
        self.signer.checkpoint
    }

    /// Discards accumulator bookkeeping that future signing and syncing
    /// cannot use; never changes any future result.
    pub fn prune(&mut self)
        ensures
            *final(self) == *old(self),
    {
        self.signer.prune();
    }

    /// Loads an authorization context into the signer.
    pub fn load_authorization_context(&mut self, opener: O)
        requires
            old(self).wf(),
        ensures
            final(self).wf(),
            final(self).ledger == old(self).ledger,
            final(self).signer.opener == Some(opener),
            final(self).signer.checkpoint == old(self).signer.checkpoint,
            final(self).signer.utxo_accumulator@ == old(self).signer.utxo_accumulator@,
            final(self).signer.nullifiers@ == old(self).signer.nullifiers@,
            final(self).signer.assets == old(self).signer.assets,
    {
        self.signer.load_authorization_context(opener);
    }

    /// Drops the loaded authorization context from the signer.
    pub fn drop_authorization_context(&mut self)
        requires
            old(self).wf(),
        ensures
            final(self).wf(),
            final(self).ledger == old(self).ledger,
            final(self).signer.opener is None,
            final(self).signer.checkpoint == old(self).signer.checkpoint,
            final(self).signer.utxo_accumulator@ == old(self).signer.utxo_accumulator@,
            final(self).signer.nullifiers@ == old(self).signer.nullifiers@,
            final(self).signer.assets == old(self).signer.assets,
    {
        self.signer.drop_authorization_context();
    }

    /// Snapshots the signer state for persistent storage.
    pub fn get_storage(&self) -> (r: StorageState)
        ensures
            r.checkpoint == self.signer.checkpoint,
            r.utxo_accumulator@ == self.signer.utxo_accumulator@,
            r.nullifiers@ == self.signer.nullifiers@,
            r.assets.entries@ == self.signer.assets.entries@,
    {
        self.signer.get_storage()
    }

    /// Restores a snapshot taken by [`Self::get_storage`]. The snapshot
    /// must come from a signer synchronized against this ledger, so its
    /// checkpoint lies within the ledger's entries.
    pub fn set_storage(&mut self, storage: &Option<StorageState>) -> (r: bool)
        requires
            old(self).wf(),
            match storage {
                Some(s) => {
                    &&& s.assets.wf()
                    &&& s.checkpoint.receiver_index <= old(self).ledger.receiver_entries().len()
                    &&& s.checkpoint.sender_index <= old(self).ledger.sender_entries().len()
                },
                None => true,
            },
        ensures
            final(self).wf(),
            final(self).ledger == old(self).ledger,
            final(self).signer.opener == old(self).signer.opener,
            match storage {
                Some(s) => {
                    &&& r
                    &&& final(self).signer.checkpoint == s.checkpoint
                    &&& final(self).signer.utxo_accumulator@ == s.utxo_accumulator@
                    &&& final(self).signer.nullifiers@ == s.nullifiers@
                    &&& final(self).signer.assets.entries@ == s.assets.entries@
                },
                None => !r && *final(self) == *old(self),
            },
    {
        self.signer.set_storage(storage)
    }
}

/// A supported network: one registry slot each.
#[derive(Clone, Copy, Debug, PartialEq, Eq, Structural)]
pub enum Network {
    /// The test network.
    Dolphin,
    /// The canary network.
    Calamari,
    /// The main network.
    Manta,
}

/// The fixed-size network registry: one optional wallet per network,
/// lazily populated. Registration is last-write-wins; an operation on an
/// unregistered network fails with [`WalletError::NoWalletForNetwork`],
/// never with a default value.
#[derive(Clone, Debug)]
pub struct Wallet<L: Ledger, O: NoteOpener> {
    /// The test network's wallet.
    pub dolphin: Option<NetworkWallet<L, O>>,
    /// The canary network's wallet.
    pub calamari: Option<NetworkWallet<L, O>>,
    /// The main network's wallet.
    pub manta: Option<NetworkWallet<L, O>>,
}

impl<L: Ledger, O: NoteOpener> Wallet<L, O> {
    /// The slot of `network`.
    pub open spec fn slot(self, network: Network) -> Option<NetworkWallet<L, O>> {
        match network {
            Network::Dolphin => self.dolphin,
            Network::Calamari => self.calamari,
            Network::Manta => self.manta,
        }
    }

    /// Every registered wallet is well-formed.
    pub open spec fn wf(self) -> bool {
        forall|n: Network|
            match #[trigger] self.slot(n) {
                Some(nw) => nw.wf(),
                None => true,
            }
    }

    /// An empty registry: no wallet on any network.
    pub fn new() -> (r: Wallet<L, O>)
        ensures
            r.wf(),
            forall|n: Network| #[trigger] r.slot(n) is None,
    {
        Wallet { dolphin: None, calamari: None, manta: None }
    }

    /// The slot of `network`, borrowed mutably.
    fn slot_mut(&mut self, network: Network) -> (r: &mut Option<NetworkWallet<L, O>>)
        ensures
            *r == old(self).slot(network),
            final(self).slot(network) == *final(r),
            forall|n: Network| n != network ==> final(self).slot(n) == old(self).slot(n),
    {
        match network {
            Network::Dolphin => &mut self.dolphin,
            Network::Calamari => &mut self.calamari,
            Network::Manta => &mut self.manta,
        }
    }

    /// The slot of `network`, borrowed.
    fn slot_ref(&self, network: Network) -> (r: &Option<NetworkWallet<L, O>>)
        ensures
            *r == self.slot(network),
    {
        match network {
            Network::Dolphin => &self.dolphin,
            Network::Calamari => &self.calamari,
            Network::Manta => &self.manta,
        }
    }

    /// Starts a wallet on `network` from existing signer and ledger
    /// connections. A later registration on the same slot replaces the
    /// earlier occupant without merging any state.
    pub fn set_network(&mut self, ledger: L, signer: Signer<O>, network: Network)
        requires
            old(self).wf(),
            signer.wf(),
            signer.checkpoint.receiver_index <= ledger.receiver_entries().len(),
            signer.checkpoint.sender_index <= ledger.sender_entries().len(),
        ensures
            final(self).wf(),
            final(self).slot(network) matches Some(nw) && nw.signer == signer && nw.ledger
                == ledger,
            forall|n: Network| n != network ==> final(self).slot(n) == old(self).slot(n),
    {
        let slot = self.slot_mut(network);
        *slot = Some(NetworkWallet::new(ledger, signer));
    }

    /// Drives the synchronization loop of `network`'s wallet to completion.
    /// Within the call the checkpoint never moves backwards.
    pub fn sync(&mut self, network: Network) -> (r: Result<SyncResponse, WalletError>)
        requires
            old(self).wf(),
        ensures
            final(self).wf(),
            forall|n: Network| n != network ==> final(self).slot(n) == old(self).slot(n),
            (r == Err::<SyncResponse, WalletError>(WalletError::NoWalletForNetwork)) <==> old(
                self,
            ).slot(network) is None,
            old(self).slot(network) is None ==> final(self).slot(network) == old(self).slot(
                network,
            ),
            old(self).slot(network) matches Some(nw0) ==> (final(self).slot(network)
                matches Some(nw1) && {
                &&& nw1.ledger.receiver_entries() == nw0.ledger.receiver_entries()
                &&& nw1.ledger.sender_entries() == nw0.ledger.sender_entries()
                &&& nw1.signer.opener == nw0.signer.opener
                &&& checkpoint_le(nw0.signer.checkpoint, nw1.signer.checkpoint)
                &&& (r matches Ok(resp) ==> {
                    &&& resp.checkpoint == nw1.signer.checkpoint
                    &&& nw1.signer.checkpoint.receiver_index
                        == nw0.ledger.receiver_entries().len()
                    &&& nw1.signer.checkpoint.sender_index == nw0.ledger.sender_entries().len()
                })
            }),
    {
        let slot = self.slot_mut(network);
        match slot {
            Some(nw) => nw.sync(),
            None => Err(WalletError::NoWalletForNetwork),
        }
    }

    /// Drives the soul-bound synchronization loop of `network`'s wallet to
    /// completion. The wallet's UTXO accumulator never changes.
    pub fn sbt_sync(&mut self, network: Network) -> (r: Result<SyncResponse, WalletError>)
        requires
            old(self).wf(),
        ensures
            final(self).wf(),
            forall|n: Network| n != network ==> final(self).slot(n) == old(self).slot(n),
            (r == Err::<SyncResponse, WalletError>(WalletError::NoWalletForNetwork)) <==> old(
                self,
            ).slot(network) is None,
            old(self).slot(network) is None ==> final(self).slot(network) == old(self).slot(
                network,
            ),
            old(self).slot(network) matches Some(nw0) ==> (final(self).slot(network)
                matches Some(nw1) && {
                &&& nw1.signer.utxo_accumulator@ == nw0.signer.utxo_accumulator@
                &&& nw1.ledger.receiver_entries() == nw0.ledger.receiver_entries()
                &&& nw1.ledger.sender_entries() == nw0.ledger.sender_entries()
                &&& nw1.signer.opener == nw0.signer.opener
                &&& checkpoint_le(nw0.signer.checkpoint, nw1.signer.checkpoint)
                &&& (r matches Ok(resp) ==> {
                    &&& resp.checkpoint == nw1.signer.checkpoint
                    &&& nw1.signer.checkpoint.receiver_index
                        == nw0.ledger.receiver_entries().len()
                    &&& nw1.signer.checkpoint.sender_index == nw0.ledger.sender_entries().len()
                })
            }),
    {
        let slot = self.slot_mut(network);
        match slot {
            Some(nw) => nw.sbt_sync(),
            None => Err(WalletError::NoWalletForNetwork),
        }
    }

    /// Performs one synchronization step of `network`'s wallet.
    pub fn sync_partial(&mut self, network: Network) -> (r: Result<ControlFlow, WalletError>)
        requires
            old(self).wf(),
        ensures
            final(self).wf(),
            forall|n: Network| n != network ==> final(self).slot(n) == old(self).slot(n),
            (r == Err::<ControlFlow, WalletError>(WalletError::NoWalletForNetwork)) <==> old(
                self,
            ).slot(network) is None,
            old(self).slot(network) is None ==> final(self).slot(network) == old(self).slot(
                network,
            ),
            old(self).slot(network) matches Some(nw0) ==> (final(self).slot(network)
                matches Some(nw1) && {
                &&& checkpoint_le(nw0.signer.checkpoint, nw1.signer.checkpoint)
                &&& (r == Ok::<ControlFlow, WalletError>(ControlFlow::Break) ==> {
                    &&& nw1.signer.checkpoint.receiver_index
                        == nw0.ledger.receiver_entries().len()
                    &&& nw1.signer.checkpoint.sender_index == nw0.ledger.sender_entries().len()
                })
            }),
    {
        let slot = self.slot_mut(network);
        match slot {
            Some(nw) => nw.sync_partial(),
            None => Err(WalletError::NoWalletForNetwork),
        }
    }

    /// Performs one soul-bound synchronization step of `network`'s wallet.
    pub fn sbt_sync_partial(&mut self, network: Network) -> (r: Result<ControlFlow, WalletError>)
        requires
            old(self).wf(),
        ensures
            final(self).wf(),
            forall|n: Network| n != network ==> final(self).slot(n) == old(self).slot(n),
            (r == Err::<ControlFlow, WalletError>(WalletError::NoWalletForNetwork)) <==> old(
                self,
            ).slot(network) is None,
            old(self).slot(network) is None ==> final(self).slot(network) == old(self).slot(
                network,
            ),
            old(self).slot(network) matches Some(nw0) ==> (final(self).slot(network)
                matches Some(nw1) && {
                &&& nw1.signer.utxo_accumulator@ == nw0.signer.utxo_accumulator@
                &&& checkpoint_le(nw0.signer.checkpoint, nw1.signer.checkpoint)
            }),
    {
        let slot = self.slot_mut(network);
        match slot {
            Some(nw) => nw.sbt_sync_partial(),
            None => Err(WalletError::NoWalletForNetwork),
        }
    }

    /// Gathers and bulk-applies a from-scratch synchronization of
    /// `network`'s wallet: on any intermediate failure the signer state is
    /// untouched.
    pub fn initial_sync(&mut self, network: Network) -> (r: Result<SyncResponse, WalletError>)
        requires
            old(self).wf(),
        ensures
            final(self).wf(),
            forall|n: Network| n != network ==> final(self).slot(n) == old(self).slot(n),
            (r == Err::<SyncResponse, WalletError>(WalletError::NoWalletForNetwork)) <==> old(
                self,
            ).slot(network) is None,
            old(self).slot(network) is None ==> final(self).slot(network) == old(self).slot(
                network,
            ),
            old(self).slot(network) matches Some(nw0) ==> (final(self).slot(network)
                matches Some(nw1) && {
                &&& (r is Err ==> nw1.signer == nw0.signer)
                &&& (r is Ok ==> {
                    &&& nw1.signer.checkpoint.receiver_index
                        == nw0.ledger.receiver_entries().len()
                    &&& nw1.signer.checkpoint.sender_index == nw0.ledger.sender_entries().len()
                    &&& nw1.signer.utxo_accumulator@ == commitments_of(
                        nw0.ledger.receiver_entries(),
                    )
                    &&& forall|id: Seq<u8>| nw1.signer.assets.spec_balance(id) == 0
                })
            }),
    {
        let slot = self.slot_mut(network);
        match slot {
            Some(nw) => nw.initial_sync(),
            None => Err(WalletError::NoWalletForNetwork),
        }
    }

    /// Performs full recovery of `network`'s wallet: reset, then a full
    /// synchronization from the start of the ledger.
    pub fn restart(&mut self, network: Network) -> (r: Result<SyncResponse, WalletError>)
        requires
            old(self).wf(),
        ensures
            final(self).wf(),
            forall|n: Network| n != network ==> final(self).slot(n) == old(self).slot(n),
            (r == Err::<SyncResponse, WalletError>(WalletError::NoWalletForNetwork)) <==> old(
                self,
            ).slot(network) is None,
            old(self).slot(network) is None ==> final(self).slot(network) == old(self).slot(
                network,
            ),
            old(self).slot(network) matches Some(nw0) ==> (final(self).slot(network)
                matches Some(nw1) && (r is Ok ==> {
                &&& nw1.signer.checkpoint.receiver_index == nw0.ledger.receiver_entries().len()
                &&& nw1.signer.checkpoint.sender_index == nw0.ledger.sender_entries().len()
                &&& nw1.signer.utxo_accumulator@ == commitments_of(nw0.ledger.receiver_entries())
            })),
    {
        let slot = self.slot_mut(network);
        match slot {
            Some(nw) => nw.restart(),
            None => Err(WalletError::NoWalletForNetwork),
        }
    }

    /// Resets the signer state of `network`'s wallet.
    pub fn reset_state(&mut self, network: Network) -> (r: Result<(), WalletError>)
        requires
            old(self).wf(),
        ensures
            final(self).wf(),
            forall|n: Network| n != network ==> final(self).slot(n) == old(self).slot(n),
            (r == Err::<(), WalletError>(WalletError::NoWalletForNetwork)) <==> old(self).slot(
                network,
            ) is None,
            old(self).slot(network) is None ==> final(self).slot(network) == old(self).slot(
                network,
            ),
            old(self).slot(network) matches Some(nw0) ==> (final(self).slot(network)
                matches Some(nw1) && {
                &&& nw1.signer.checkpoint.receiver_index == 0
                &&& nw1.signer.checkpoint.sender_index == 0
                &&& nw1.signer.utxo_accumulator@.len() == 0
                &&& forall|id: Seq<u8>| nw1.signer.assets.spec_balance(id) == 0
            }),
    {
        let slot = self.slot_mut(network);
        match slot {
            Some(nw) => {
                nw.reset_state();
                Ok(())
            },
            None => Err(WalletError::NoWalletForNetwork),
        }
    }

    /// Posts a transaction on `network`: synchronizes, validates the
    /// transaction, and submits the prepared posts. A semantic rejection is
    /// an ordinary response and posting again is safe.
    pub fn post(
        &mut self,
        transaction: &Transaction,
        posts: &Vec<TransferPost>,
        network: Network,
    ) -> (r: Result<PushResponse, WalletError>)
        requires
            old(self).wf(),
        ensures
            final(self).wf(),
            forall|n: Network| n != network ==> final(self).slot(n) == old(self).slot(n),
            (r == Err::<PushResponse, WalletError>(WalletError::NoWalletForNetwork)) <==> old(
                self,
            ).slot(network) is None,
            old(self).slot(network) is None ==> final(self).slot(network) == old(self).slot(
                network,
            ),
            old(self).slot(network) matches Some(nw0) ==> (final(self).slot(network)
                matches Some(nw1) && checkpoint_le(nw0.signer.checkpoint, nw1.signer.checkpoint)),
    {
        let slot = self.slot_mut(network);
        match slot {
            Some(nw) => nw.post(transaction, posts),
            None => Err(WalletError::NoWalletForNetwork),
        }
    }

    /// Checks that `network`'s wallet can afford `transaction`. Read-only.
    pub fn sign(&self, transaction: &Transaction, network: Network) -> (r: Result<
        (),
        WalletError,
    >)
        ensures
            (r == Err::<(), WalletError>(WalletError::NoWalletForNetwork)) <==> self.slot(
                network,
            ) is None,
            self.slot(network) matches Some(nw) ==> match r {
                Ok(()) => match transaction.spends() {
                    Some(a) => a.value <= nw.signer.assets.spec_balance(a.id.bytes@),
                    None => true,
                },
                Err(e) => {
                    &&& e == WalletError::Sign(SignError::InsufficientBalance)
                    &&& match transaction.spends() {
                        Some(a) => a.value > nw.signer.assets.spec_balance(a.id.bytes@),
                        None => false,
                    }
                },
            },
    {
        match self.slot_ref(network) {
            Some(nw) => match nw.sign(transaction) {
                Ok(()) => Ok(()),
                Err(e) => Err(WalletError::Sign(e)),
            },
            None => Err(WalletError::NoWalletForNetwork),
        }
    }

    /// The balance `network`'s wallet holds of the asset identified by
    /// `id`. Fails on an unregistered network; never answers with a
    /// default or zero value in that case.
    pub fn balance(&self, id: &FieldElement, network: Network) -> (r: Result<u128, WalletError>)
        ensures
            match r {
                Ok(v) => self.slot(network) matches Some(nw) && v == nw.signer.assets.spec_balance(
                    id.bytes@,
                ),
                Err(e) => e == WalletError::NoWalletForNetwork && self.slot(network) is None,
            },
    {
        match self.slot_ref(network) {
            Some(nw) => Ok(nw.balance(id)),
            None => Err(WalletError::NoWalletForNetwork),
        }
    }

    /// Whether `network`'s wallet holds at least `asset.value` of
    /// `asset.id`.
    pub fn contains(&self, asset: &Asset, network: Network) -> (r: Result<bool, WalletError>)
        ensures
            match r {
                Ok(b) => self.slot(network) matches Some(nw) && b == (asset.value
                    <= nw.signer.assets.spec_balance(asset.id.bytes@)),
                Err(e) => e == WalletError::NoWalletForNetwork && self.slot(network) is None,
            },
    {
        match self.slot_ref(network) {
            Some(nw) => Ok(nw.contains(asset)),
            None => Err(WalletError::NoWalletForNetwork),
        }
    }

    /// A copy of the balance ledger of `network`'s wallet.
    pub fn assets(&self, network: Network) -> (r: Result<Vec<(FieldElement, u128)>, WalletError>)
        ensures
            match r {
                Ok(entries) => self.slot(network) matches Some(nw) && entries@
                    == nw.signer.assets.entries@,
                Err(e) => e == WalletError::NoWalletForNetwork && self.slot(network) is None,
            },
    {
        match self.slot_ref(network) {
            Some(nw) => Ok(nw.assets()),
            None => Err(WalletError::NoWalletForNetwork),
        }
    }

    /// The synchronization cursor of `network`'s wallet.
    pub fn checkpoint(&self, network: Network) -> (r: Result<Checkpoint, WalletError>)
        ensures
            match r {
                Ok(cp) => self.slot(network) matches Some(nw) && cp == nw.signer.checkpoint,
                Err(e) => e == WalletError::NoWalletForNetwork && self.slot(network) is None,
            },
    {
        match self.slot_ref(network) {
            Some(nw) => Ok(nw.checkpoint()),
            None => Err(WalletError::NoWalletForNetwork),
        }
    }

    /// Prunes `network`'s wallet; never changes any future result.
    pub fn prune(&mut self, network: Network) -> (r: Result<(), WalletError>)
        requires
            old(self).wf(),
        ensures
            final(self).wf(),
            forall|n: Network| #[trigger] final(self).slot(n) == old(self).slot(n),
            (r == Err::<(), WalletError>(WalletError::NoWalletForNetwork)) <==> old(self).slot(
                network,
            ) is None,
    {
        let slot = self.slot_mut(network);
        match slot {
            Some(nw) => {
                nw.prune();
                Ok(())
            },
            None => Err(WalletError::NoWalletForNetwork),
        }
    }

    /// Loads an authorization context into `network`'s wallet.
    pub fn load_authorization_context(&mut self, opener: O, network: Network) -> (r: Result<
        (),
        WalletError,
    >)
        requires
            old(self).wf(),
        ensures
            final(self).wf(),
            forall|n: Network| n != network ==> final(self).slot(n) == old(self).slot(n),
            (r == Err::<(), WalletError>(WalletError::NoWalletForNetwork)) <==> old(self).slot(
                network,
            ) is None,
            old(self).slot(network) is None ==> final(self).slot(network) == old(self).slot(
                network,
            ),
            old(self).slot(network) matches Some(nw0) ==> (final(self).slot(network)
                matches Some(nw1) && {
                &&& nw1.signer.opener == Some(opener)
                &&& nw1.signer.checkpoint == nw0.signer.checkpoint
                &&& nw1.signer.utxo_accumulator@ == nw0.signer.utxo_accumulator@
                &&& nw1.signer.assets == nw0.signer.assets
            }),
    {
        let slot = self.slot_mut(network);
        match slot {
            Some(nw) => {
                nw.load_authorization_context(opener);
                Ok(())
            },
            None => Err(WalletError::NoWalletForNetwork),
        }
    }

    /// Drops the authorization context from `network`'s wallet.
    pub fn drop_authorization_context(&mut self, network: Network) -> (r: Result<(), WalletError>)
        requires
            old(self).wf(),
        ensures
            final(self).wf(),
            forall|n: Network| n != network ==> final(self).slot(n) == old(self).slot(n),
            (r == Err::<(), WalletError>(WalletError::NoWalletForNetwork)) <==> old(self).slot(
                network,
            ) is None,
            old(self).slot(network) is None ==> final(self).slot(network) == old(self).slot(
                network,
            ),
            old(self).slot(network) matches Some(nw0) ==> (final(self).slot(network)
                matches Some(nw1) && {
                &&& nw1.signer.opener is None
                &&& nw1.signer.checkpoint == nw0.signer.checkpoint
                &&& nw1.signer.utxo_accumulator@ == nw0.signer.utxo_accumulator@
                &&& nw1.signer.assets == nw0.signer.assets
            }),
    {
        let slot = self.slot_mut(network);
        match slot {
            Some(nw) => {
                nw.drop_authorization_context();
                Ok(())
            },
            None => Err(WalletError::NoWalletForNetwork),
        }
    }

    /// Snapshots the signer state of `network`'s wallet.
    pub fn get_storage(&self, network: Network) -> (r: Result<StorageState, WalletError>)
        ensures
            match r {
                Ok(s) => self.slot(network) matches Some(nw) && {
                    &&& s.checkpoint == nw.signer.checkpoint
                    &&& s.utxo_accumulator@ == nw.signer.utxo_accumulator@
                    &&& s.nullifiers@ == nw.signer.nullifiers@
                    &&& s.assets.entries@ == nw.signer.assets.entries@
                },
                Err(e) => e == WalletError::NoWalletForNetwork && self.slot(network) is None,
            },
    {
        match self.slot_ref(network) {
            Some(nw) => Ok(nw.get_storage()),
            None => Err(WalletError::NoWalletForNetwork),
        }
    }

    /// Restores a snapshot into `network`'s wallet.
    pub fn set_storage(&mut self, storage: &Option<StorageState>, network: Network) -> (r: Result<
        bool,
        WalletError,
    >)
        requires
            old(self).wf(),
            match storage {
                Some(s) => {
                    &&& s.assets.wf()
                    &&& (old(self).slot(network) matches Some(nw0) ==> {
                        &&& s.checkpoint.receiver_index <= nw0.ledger.receiver_entries().len()
                        &&& s.checkpoint.sender_index <= nw0.ledger.sender_entries().len()
                    })
                },
                None => true,
            },
        ensures
            final(self).wf(),
            forall|n: Network| n != network ==> final(self).slot(n) == old(self).slot(n),
            (r == Err::<bool, WalletError>(WalletError::NoWalletForNetwork)) <==> old(self).slot(
                network,
            ) is None,
            old(self).slot(network) is None ==> final(self).slot(network) == old(self).slot(
                network,
            ),
            old(self).slot(network) matches Some(nw0) ==> storage matches Some(s) ==> (final(self).slot(network) matches Some(nw1) && {
                &&& r == Ok::<bool, WalletError>(true)
                &&& nw1.signer.checkpoint == s.checkpoint
                &&& nw1.signer.utxo_accumulator@ == s.utxo_accumulator@
                &&& nw1.signer.assets.entries@ == s.assets.entries@
            }),
    {
        let slot = self.slot_mut(network);
        match slot {
            Some(nw) => Ok(nw.set_storage(storage)),
            None => Err(WalletError::NoWalletForNetwork),
        }
    }
}

/// Applying the empty ledger run changes nothing: the step equations hold
/// with equal start and end cursors.
proof fn lemma_unchanged_application<O: NoteOpener>(
    opener: Option<O>,
    receivers: Seq<(Utxo, FullIncomingNote)>,
    senders: Seq<Nullifier>,
    ri: int,
    si: int,
    accumulator: Seq<FieldElement>,
    nullifiers: Seq<Nullifier>,
)
    requires
        0 <= ri <= receivers.len(),
        0 <= si <= senders.len(),
    ensures
        accumulator + commitments_of(receivers.subrange(ri, ri)) == accumulator,
        nullifiers + senders.subrange(si, si) == nullifiers,
        forall|id: Seq<u8>|
            deposits_for(opener, #[trigger] receivers.subrange(ri, ri), id) == 0
                && withdrawals_for(opener, senders.subrange(si, si), id) == 0,
{
    assert(commitments_of(receivers.subrange(ri, ri)) =~= Seq::<FieldElement>::empty());
    assert(accumulator + commitments_of(receivers.subrange(ri, ri)) =~= accumulator);
    assert(nullifiers + senders.subrange(si, si) =~= nullifiers);
    assert forall|id: Seq<u8>|
        deposits_for(opener, #[trigger] receivers.subrange(ri, ri), id) == 0 && withdrawals_for(
            opener,
            senders.subrange(si, si),
            id,
        ) == 0 by {
        assert(receivers.subrange(ri, ri).len() == 0);
        assert(senders.subrange(si, si).len() == 0);
    }
}

/// Two consecutive applications compose: the run from `w0` to `w2` is the
/// run from `w0` to `w1` followed by the run from `w1` to `w2`.
proof fn lemma_compose_application<L: Ledger, O: NoteOpener>(
    w0: NetworkWallet<L, O>,
    w1: NetworkWallet<L, O>,
    w2: NetworkWallet<L, O>,
)
    requires
        w1.ledger.receiver_entries() == w0.ledger.receiver_entries(),
        w1.ledger.sender_entries() == w0.ledger.sender_entries(),
        w1.signer.opener == w0.signer.opener,
        w2.signer.opener == w1.signer.opener,
        checkpoint_le(w0.signer.checkpoint, w1.signer.checkpoint),
        checkpoint_le(w1.signer.checkpoint, w2.signer.checkpoint),
        w1.signer.checkpoint.receiver_index <= w0.ledger.receiver_entries().len(),
        w1.signer.checkpoint.sender_index <= w0.ledger.sender_entries().len(),
        w2.signer.checkpoint.receiver_index <= w0.ledger.receiver_entries().len(),
        w2.signer.checkpoint.sender_index <= w0.ledger.sender_entries().len(),
        w1.signer.nullifiers@ == w0.signer.nullifiers@ + w0.ledger.sender_entries().subrange(
            w0.signer.checkpoint.sender_index as int,
            w1.signer.checkpoint.sender_index as int,
        ),
        w2.signer.nullifiers@ == w1.signer.nullifiers@ + w1.ledger.sender_entries().subrange(
            w1.signer.checkpoint.sender_index as int,
            w2.signer.checkpoint.sender_index as int,
        ),
        forall|id: Seq<u8>|
            #[trigger] w1.signer.assets.spec_balance(id) as int == w0.signer.assets.spec_balance(
                id,
            ) + deposits_for(
                w0.signer.opener,
                w0.ledger.receiver_entries().subrange(
                    w0.signer.checkpoint.receiver_index as int,
                    w1.signer.checkpoint.receiver_index as int,
                ),
                id,
            ) - withdrawals_for(
                w0.signer.opener,
                w0.ledger.sender_entries().subrange(
                    w0.signer.checkpoint.sender_index as int,
                    w1.signer.checkpoint.sender_index as int,
                ),
                id,
            ),
        forall|id: Seq<u8>|
            #[trigger] w2.signer.assets.spec_balance(id) as int == w1.signer.assets.spec_balance(
                id,
            ) + deposits_for(
                w1.signer.opener,
                w1.ledger.receiver_entries().subrange(
                    w1.signer.checkpoint.receiver_index as int,
                    w2.signer.checkpoint.receiver_index as int,
                ),
                id,
            ) - withdrawals_for(
                w1.signer.opener,
                w1.ledger.sender_entries().subrange(
                    w1.signer.checkpoint.sender_index as int,
                    w2.signer.checkpoint.sender_index as int,
                ),
                id,
            ),
    ensures
        checkpoint_le(w0.signer.checkpoint, w2.signer.checkpoint),
        w2.signer.nullifiers@ == w0.signer.nullifiers@ + w0.ledger.sender_entries().subrange(
            w0.signer.checkpoint.sender_index as int,
            w2.signer.checkpoint.sender_index as int,
        ),
        forall|id: Seq<u8>|
            #[trigger] w2.signer.assets.spec_balance(id) as int == w0.signer.assets.spec_balance(
                id,
            ) + deposits_for(
                w0.signer.opener,
                w0.ledger.receiver_entries().subrange(
                    w0.signer.checkpoint.receiver_index as int,
                    w2.signer.checkpoint.receiver_index as int,
                ),
                id,
            ) - withdrawals_for(
                w0.signer.opener,
                w0.ledger.sender_entries().subrange(
                    w0.signer.checkpoint.sender_index as int,
                    w2.signer.checkpoint.sender_index as int,
                ),
                id,
            ),
{
    let receivers = w0.ledger.receiver_entries();
    let senders = w0.ledger.sender_entries();
    let opener = w0.signer.opener;
    let a = w0.signer.checkpoint.receiver_index as int;
    let b = w1.signer.checkpoint.receiver_index as int;
    let c = w2.signer.checkpoint.receiver_index as int;
    let x = w0.signer.checkpoint.sender_index as int;
    let y = w1.signer.checkpoint.sender_index as int;
    let z = w2.signer.checkpoint.sender_index as int;
    assert(receivers.subrange(a, c) =~= receivers.subrange(a, b) + receivers.subrange(b, c));
    assert(senders.subrange(x, z) =~= senders.subrange(x, y) + senders.subrange(y, z));
    assert(w0.signer.nullifiers@ + senders.subrange(x, y) + senders.subrange(y, z)
        =~= w0.signer.nullifiers@ + (senders.subrange(x, y) + senders.subrange(y, z)));
    assert forall|id: Seq<u8>|
        #[trigger] w2.signer.assets.spec_balance(id) as int == w0.signer.assets.spec_balance(id)
            + deposits_for(opener, receivers.subrange(a, c), id) - withdrawals_for(
            opener,
            senders.subrange(x, z),
            id,
        ) by {
        lemma_deposits_concat(opener, receivers.subrange(a, b), receivers.subrange(b, c), id);
        lemma_withdrawals_concat(opener, senders.subrange(x, y), senders.subrange(y, z), id);
    }
}

/// The accumulator composes over two consecutive applications.
proof fn lemma_compose_accumulator(
    receivers: Seq<(Utxo, FullIncomingNote)>,
    acc0: Seq<FieldElement>,
    acc1: Seq<FieldElement>,
    acc2: Seq<FieldElement>,
    a: int,
    b: int,
    c: int,
)
    requires
        0 <= a <= b <= c <= receivers.len(),
        acc1 == acc0 + commitments_of(receivers.subrange(a, b)),
        acc2 == acc1 + commitments_of(receivers.subrange(b, c)),
    ensures
        acc2 == acc0 + commitments_of(receivers.subrange(a, c)),
{
    assert(receivers.subrange(a, c) =~= receivers.subrange(a, b) + receivers.subrange(b, c));
    assert(commitments_of(receivers.subrange(a, b) + receivers.subrange(b, c)) =~= commitments_of(
        receivers.subrange(a, b),
    ) + commitments_of(receivers.subrange(b, c)));
    assert(acc0 + commitments_of(receivers.subrange(a, b)) + commitments_of(
        receivers.subrange(b, c),
    ) =~= acc0 + (commitments_of(receivers.subrange(a, b)) + commitments_of(
        receivers.subrange(b, c),
    )));
}

} // verus!
