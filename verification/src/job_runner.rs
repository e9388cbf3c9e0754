//! Wiring of the stage's three parts, and one cycle of the
//! pick -> execute -> save lifecycle.
//!
//! The external runner loop, with its backoff and cooperative
//! cancellation, is a collaborator: between cycles it checks the
//! cancellation signal and, on an empty or transient outcome, delays the
//! next pick. One cycle, once started, runs to completion, so a claimed
//! job never stays `Picked` without a terminal outcome being attempted.

use vstd::prelude::*;

use crate::artifact_store::{ArtifactKey, ArtifactStore, StoredArtifactView};
use crate::job_queue::{
    batch_ids, claimable, is_first_claimable, lemma_batch_ids_update_same_ids,
    lemma_first_claimable_unique, marked_failed, marked_succeeded, picked_row, JobRowView,
    JobTable,
};
use crate::errors::StageError;
use crate::recursion_tip_executor::RecursionTipExecutor;
use crate::recursion_tip_job_picker::{
    aggregate_slots, leaf_params_table, present_queues, vk_commitment, RecursionTipJobPicker,
};
use crate::recursion_tip_job_saver::{elapsed, mirror_ready, RecursionTipJobSaver};
use crate::types::{
    Keystore, KeystoreView, RecursionTipCircuitView, RecursionTipMetadata,
    RecursionTipWitnessView, BASE_LAYER_CIRCUIT_COUNT, RECURSION_TIP_ARITY,
};

verus! {

/// What one cycle of the lifecycle reports to the external runner.
#[derive(Clone, Copy, Debug, PartialEq, Eq, Structural)]
pub enum CycleOutcome {
    /// No job was ready; the runner backs off.
    NothingToDo,
    /// The batch's job was claimed, executed and saved.
    Succeeded { batch_number: u32 },
    /// The batch's job was claimed and failed terminally.
    JobFailed { batch_number: u32 },
    /// A store could not be reached; the runner backs off and retries.
    TransientError,
}

/// The aggregate artifact one cycle owes a batch, determined by the
/// store contents and the key material at pick time: the slots built
/// from the batch's present queues, the parameter table, the key
/// commitment and the key words.
pub open spec fn owed_circuit(
    m: Map<ArtifactKey, StoredArtifactView>,
    batch_number: u32,
    ks: KeystoreView,
) -> RecursionTipCircuitView {
    RecursionTipCircuitView {
        witness: RecursionTipWitnessView {
            leaf_layer_parameters: leaf_params_table(ks),
            node_layer_vk_commitment: vk_commitment(ks.node_vk),
            slots: aggregate_slots(present_queues(m, batch_number)),
        },
        vk_words: ks.node_vk,
    }
}

/// Whether the dependency listing of row `i` matches the count recorded
/// when its job was scheduled.
pub open spec fn deps_consistent(rows: Seq<JobRowView>, i: int) -> bool {
    batch_ids(rows, rows[i].batch_number).len() == rows[i].expected_dependency_count
}

/// The fatal error the state determines for the claimed row `i`: a
/// dependency-count mismatch carrying both counts, else the
/// parameter-table cardinality mismatch carrying the found length.
pub open spec fn owed_failure(rows: Seq<JobRowView>, i: int, ks: KeystoreView) -> StageError {
    if !deps_consistent(rows, i) {
        StageError::DependencyInconsistency {
            expected: rows[i].expected_dependency_count,
            fetched: batch_ids(rows, rows[i].batch_number).len() as usize,
        }
    } else {
        StageError::ParameterCardinalityMismatch { found: ks.leaf_vk_params.len() as usize }
    }
}

/// The three parts of the stage, wired together.
pub struct RecursionTipRunner {
    pub executor: RecursionTipExecutor,
    pub picker: RecursionTipJobPicker,
    pub saver: RecursionTipJobSaver,
}

impl RecursionTipRunner {
    /// Runs one cycle: pick, and when a job was claimed, execute and
    /// save its outcome.
    ///
    /// The outcome is owed, not chosen: when a job is ready, its listed
    /// dependencies match the recorded count, the store is reachable,
    /// the parameter table has its fixed cardinality and the configured
    /// mirror is reachable, the cycle must succeed for that batch,
    /// leaving exactly the owed artifact under the batch's recursion-tip
    /// key and the row `Succeeded` with that location and the elapsed
    /// duration. A terminal failure records exactly the error the state
    /// determines, through the saver's failure path, and writes no
    /// artifact. A transient outcome happens only when a store was
    /// unreachable, and leaves the claimed row `Picked` for the external
    /// scheduler to deal with.
    pub fn run_cycle(
        &mut self,
        queue: &mut JobTable,
        store: &mut ArtifactStore,
        start_time: u64,
        pick_time: u64,
        save_time: u64,
    ) -> (r: CycleOutcome)
        ensures
            final(self).picker == old(self).picker,
            final(self).executor == old(self).executor,
            final(self).saver.shall_save_to_public_bucket == old(self).saver.shall_save_to_public_bucket,
            (forall|i: int|
                0 <= i < old(queue)@.len() ==> !claimable(
                    #[trigger] old(queue)@[i],
                    old(self).picker.protocol_version,
                )) ==> r == CycleOutcome::NothingToDo,
            r == CycleOutcome::NothingToDo ==> {
                &&& final(queue)@ == old(queue)@
                &&& *final(store) == *old(store)
                &&& *final(self) == *old(self)
                &&& forall|i: int|
                    0 <= i < old(queue)@.len() ==> !claimable(
                        #[trigger] old(queue)@[i],
                        old(self).picker.protocol_version,
                    )
            },
            forall|i: int|
                ({
                    &&& #[trigger] is_first_claimable(
                        old(queue)@,
                        old(self).picker.protocol_version,
                        i,
                    )
                    &&& deps_consistent(old(queue)@, i)
                    &&& old(store).is_available()
                    &&& old(self).picker.keystore@.leaf_vk_params.len()
                        == BASE_LAYER_CIRCUIT_COUNT
                    &&& mirror_ready(old(self).saver)
                }) ==> r == (CycleOutcome::Succeeded {
                    batch_number: old(queue)@[i].batch_number,
                }),
            r matches CycleOutcome::Succeeded { batch_number } ==> {
                let key = ArtifactKey::RecursionTip { block_number: batch_number };
                let ks = old(self).picker.keystore@;
                let c = owed_circuit(old(store).contents(), batch_number, ks);
                &&& exists|i: int|
                    {
                        &&& #[trigger] is_first_claimable(
                            old(queue)@,
                            old(self).picker.protocol_version,
                            i,
                        )
                        &&& old(queue)@[i].batch_number == batch_number
                        &&& deps_consistent(old(queue)@, i)
                        &&& marked_succeeded(
                            old(queue)@.update(
                                i,
                                picked_row(old(queue)@[i], old(self).picker.pod_name@),
                            ),
                            final(queue)@,
                            batch_number,
                            key,
                            elapsed(save_time, pick_time),
                        )
                    }
                &&& old(store).is_available()
                &&& final(store).is_available()
                &&& final(store).contents() == old(store).contents().insert(
                    key,
                    StoredArtifactView::RecursionTip(c),
                )
                &&& ks.leaf_vk_params.len() == BASE_LAYER_CIRCUIT_COUNT
                &&& if old(self).saver.shall_save_to_public_bucket && old(self).saver.public_blob_store is Some {
                    old(self).saver.public_blob_store matches Some(ps) && (final(self).saver.public_blob_store matches Some(ps2) && ps2.contents()
                        == ps.contents().insert(key, StoredArtifactView::RecursionTip(c))
                        && ps2.is_available())
                } else {
                    final(self).saver.public_blob_store == old(self).saver.public_blob_store
                }
            },
            r matches CycleOutcome::JobFailed { batch_number } ==> {
                let ks = old(self).picker.keystore@;
                &&& exists|i: int|
                    {
                        &&& #[trigger] is_first_claimable(
                            old(queue)@,
                            old(self).picker.protocol_version,
                            i,
                        )
                        &&& old(queue)@[i].batch_number == batch_number
                        &&& marked_failed(
                            old(queue)@.update(
                                i,
                                picked_row(old(queue)@[i], old(self).picker.pod_name@),
                            ),
                            final(queue)@,
                            batch_number,
                            owed_failure(old(queue)@, i, ks),
                        )
                        &&& (deps_consistent(old(queue)@, i) ==> old(store).is_available()
                            && ks.leaf_vk_params.len() != BASE_LAYER_CIRCUIT_COUNT)
                    }
                &&& *final(store) == *old(store)
                &&& final(self).saver == old(self).saver
            },
            r == CycleOutcome::TransientError ==> {
                let ks = old(self).picker.keystore@;
                &&& exists|i: int|
                    {
                        &&& #[trigger] is_first_claimable(
                            old(queue)@,
                            old(self).picker.protocol_version,
                            i,
                        )
                        &&& final(queue)@ == old(queue)@.update(
                            i,
                            picked_row(old(queue)@[i], old(self).picker.pod_name@),
                        )
                        &&& (old(store).is_available() ==> final(store).contents() == old(
                            store,
                        ).contents().insert(
                            ArtifactKey::RecursionTip {
                                block_number: old(queue)@[i].batch_number,
                            },
                            StoredArtifactView::RecursionTip(
                                owed_circuit(
                                    old(store).contents(),
                                    old(queue)@[i].batch_number,
                                    ks,
                                ),
                            ),
                        ))
                    }
                &&& (!old(store).is_available() ==> *final(store) == *old(store))
                &&& (!old(store).is_available() || (old(self).saver.shall_save_to_public_bucket
                    && (old(self).saver.public_blob_store matches Some(ps)
                    && !ps.is_available())))
                &&& final(store).is_available() == old(store).is_available()
                &&& final(self).saver.public_blob_store == old(self).saver.public_blob_store
            },
    {
        let ghost pre = queue@;
        let ghost pv = self.picker.protocol_version;
        let ghost pod = self.picker.pod_name@;
        let ghost ks = self.picker.keystore@;
        let picked = self.picker.pick_job(queue, store, start_time, pick_time);
        match picked {
            Ok(None) => CycleOutcome::NothingToDo,
            Ok(Some((input, metadata))) => {
                let batch_number = metadata.l1_batch_number;
                proof {
                    let j = choose|j: int|
                        {
                            &&& #[trigger] is_first_claimable(pre, pv, j)
                            &&& pre[j].batch_number == metadata@.l1_batch_number
                            &&& pre[j].expected_dependency_count
                                == metadata@.final_node_proof_job_ids.len() as usize
                            &&& queue@ == pre.update(j, picked_row(pre[j], pod))
                        };
                    lemma_batch_ids_update_same_ids(
                        pre,
                        j,
                        picked_row(pre[j], pod),
                        metadata@.l1_batch_number,
                    );
                    assert(metadata@.final_node_proof_job_ids.len()
                        == metadata.final_node_proof_job_ids.len());
                    assert(deps_consistent(pre, j));
                    assert forall|i: int| is_first_claimable(pre, pv, i) implies i == j by {
                        lemma_first_claimable_unique(pre, pv, i, j);
                    }
                    assert(aggregate_slots(
                        present_queues(store.contents(), metadata@.l1_batch_number),
                    ).len() == RECURSION_TIP_ARITY as nat);
                    assert(leaf_params_table(ks).len() == ks.leaf_vk_params.len());
                }
                let result = self.executor.execute(input, metadata.clone());
                proof {
                    assert(result is Ok);
                    let out = result->Ok_0;
                    assert(out@.witness =~= owed_circuit(
                        store.contents(),
                        metadata@.l1_batch_number,
                        ks,
                    ).witness);
                    assert(out@ =~= owed_circuit(store.contents(), metadata@.l1_batch_number, ks));
                }
                match self.saver.save_job_result((result, metadata), queue, store, save_time) {
                    Ok(_) => CycleOutcome::Succeeded { batch_number },
                    Err(_) => CycleOutcome::TransientError,
                }
            },
            Err(e) => {
                if e.error.is_fatal() {
                    let failure_metadata = RecursionTipMetadata {
                        l1_batch_number: e.batch_number,
                        final_node_proof_job_ids: Vec::new(),
                        start_time,
                        pick_time,
                    };
                    proof {
                        match e.error {
                            StageError::DependencyInconsistency { expected, fetched } => {
                                let j = choose|j: int|
                                    {
                                        &&& #[trigger] is_first_claimable(pre, pv, j)
                                        &&& pre[j].batch_number == e.batch_number
                                        &&& pre[j].expected_dependency_count == expected
                                        &&& queue@ == pre.update(j, picked_row(pre[j], pod))
                                    };
                                lemma_batch_ids_update_same_ids(
                                    pre,
                                    j,
                                    picked_row(pre[j], pod),
                                    e.batch_number,
                                );
                                assert(!deps_consistent(pre, j));
                                assert(owed_failure(pre, j, ks) == e.error);
                                assert forall|i: int|
                                    is_first_claimable(pre, pv, i) implies i == j by {
                                    lemma_first_claimable_unique(pre, pv, i, j);
                                }
                            },
                            StageError::ParameterCardinalityMismatch { found } => {
                                let j = choose|j: int|
                                    {
                                        &&& #[trigger] is_first_claimable(pre, pv, j)
                                        &&& pre[j].batch_number == e.batch_number
                                        &&& pre[j].expected_dependency_count == batch_ids(
                                            queue@,
                                            e.batch_number,
                                        ).len() as usize
                                        &&& queue@ == pre.update(j, picked_row(pre[j], pod))
                                    };
                                lemma_batch_ids_update_same_ids(
                                    pre,
                                    j,
                                    picked_row(pre[j], pod),
                                    e.batch_number,
                                );
                                queue.lemma_batch_ids_fit(e.batch_number);
                                assert(deps_consistent(pre, j));
                                assert(owed_failure(pre, j, ks) == e.error);
                                assert forall|i: int|
                                    is_first_claimable(pre, pv, i) implies i == j by {
                                    lemma_first_claimable_unique(pre, pv, i, j);
                                }
                            },
                            _ => {
                                assert(false);
                            },
                        }
                    }
                    match self.saver.save_job_result(
                        (Err(e.error), failure_metadata),
                        queue,
                        store,
                        save_time,
                    ) {
                        Ok(_) => CycleOutcome::JobFailed { batch_number: e.batch_number },
                        Err(_) => {
                            proof {
                                assert(false);
                            }
                            CycleOutcome::TransientError
                        },
                    }
                } else {
                    proof {
                        assert(e.error is StoreUnavailable);
                        let j = choose|j: int|
                            {
                                &&& #[trigger] is_first_claimable(pre, pv, j)
                                &&& pre[j].batch_number == e.batch_number
                                &&& pre[j].expected_dependency_count == batch_ids(
                                    queue@,
                                    e.batch_number,
                                ).len() as usize
                                &&& queue@ == pre.update(j, picked_row(pre[j], pod))
                            };
                        assert forall|i: int| is_first_claimable(pre, pv, i) implies i == j by {
                            lemma_first_claimable_unique(pre, pv, i, j);
                        }
                    }
                    CycleOutcome::TransientError
                }
            },
        }
    }
}

/// Gathers what the stage's parts need, and builds them wired together.
pub struct WgRunnerBuilder {
    pub keystore: Keystore,
    pub protocol_version: u32,
    pub pod_name: String,
    pub public_blob_store: Option<ArtifactStore>,
    pub shall_save_to_public_bucket: bool,
}

impl WgRunnerBuilder {
    pub fn new(
        keystore: Keystore,
        protocol_version: u32,
        pod_name: String,
        public_blob_store: Option<ArtifactStore>,
        shall_save_to_public_bucket: bool,
    ) -> (r: WgRunnerBuilder)
        ensures
            r.keystore == keystore,
            r.protocol_version == protocol_version,
            r.pod_name == pod_name,
            r.public_blob_store == public_blob_store,
            r.shall_save_to_public_bucket == shall_save_to_public_bucket,
    {
        WgRunnerBuilder {
            keystore,
            protocol_version,
            pod_name,
            public_blob_store,
            shall_save_to_public_bucket,
        }
    }

    /// Builds a runner for the recursion-tip stage from this builder's
    /// identity, key material and configuration.
    pub fn recursion_tip_runner(&self) -> (r: RecursionTipRunner)
        ensures
            r.picker.keystore@ == self.keystore@,
            r.picker.protocol_version == self.protocol_version,
            r.picker.pod_name@ == self.pod_name@,
            r.saver.shall_save_to_public_bucket == self.shall_save_to_public_bucket,
            self.public_blob_store is None ==> r.saver.public_blob_store is None,
            self.public_blob_store matches Some(ps) ==> (r.saver.public_blob_store matches Some(
                ps2,
            ) && ps2.contents() == ps.contents() && ps2.is_available() == ps.is_available()),
    {
        let executor = RecursionTipExecutor::new();
        let picker = RecursionTipJobPicker::new(
            self.keystore.duplicate(),
            self.protocol_version,
            self.pod_name.clone(),
        );
        let public_blob_store = match &self.public_blob_store {
            Some(ps) => Some(ps.duplicate()),
            None => None,
        };
        let saver = RecursionTipJobSaver::new(public_blob_store, self.shall_save_to_public_bucket);
        RecursionTipRunner { executor, picker, saver }
    }
}

} // verus!
