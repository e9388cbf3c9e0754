//! The job saver: persists the outcome of one attempt exactly once.
//!
//! On success it writes the aggregate artifact under the batch's key,
//! mirrors the write to an optional public store when configured to, and
//! records success with the artifact location and the elapsed duration.
//! On failure it records the error against the job row and writes no
//! artifact.

use vstd::prelude::*;

use crate::artifact_store::{ArtifactKey, ArtifactStore, StoredArtifactView};
use crate::errors::StageError;
use crate::job_queue::{marked_failed, marked_succeeded, JobTable};
use crate::types::{RecursionTipMetadata, RecursionTipOutput};

verus! {

/// The duration from `earlier` to `now`, clamped at zero; a recorded
/// duration is never negative.
pub open spec fn elapsed(now: u64, earlier: u64) -> u64 {
    if now >= earlier {
        (now - earlier) as u64
    } else {
        0u64
    }
}

/// Whether a save can reach every store it is configured to write: when
/// mirroring is enabled and a public store is configured, that store
/// must be reachable.
pub open spec fn mirror_ready(saver: RecursionTipJobSaver) -> bool {
    saver.shall_save_to_public_bucket ==> match saver.public_blob_store {
        Some(ps) => ps.is_available(),
        None => true,
    }
}

/// The job saver of the recursion-tip stage, holding the optional public
/// mirror store and the flag that enables mirroring.
pub struct RecursionTipJobSaver {
    pub public_blob_store: Option<ArtifactStore>,
    pub shall_save_to_public_bucket: bool,
}

impl RecursionTipJobSaver {
    pub fn new(public_blob_store: Option<ArtifactStore>, shall_save_to_public_bucket: bool) -> (r:
        RecursionTipJobSaver)
        ensures
            r.public_blob_store == public_blob_store,
            r.shall_save_to_public_bucket == shall_save_to_public_bucket,
    {
        RecursionTipJobSaver { public_blob_store, shall_save_to_public_bucket }
    }

    /// Persists one attempt's outcome.
    ///
    /// Success writes the artifact once under the batch's recursion-tip
    /// key (twice when mirroring is configured), then records success
    /// with that location and the duration elapsed since the pick;
    /// failure records the error and writes no artifact. An unreachable
    /// store fails the save transiently, leaving the job row `Picked`
    /// and, when the primary write could not happen, the stores
    /// untouched.
    pub fn save_job_result(
        &mut self,
        data: (Result<RecursionTipOutput, StageError>, RecursionTipMetadata),
        queue: &mut JobTable,
        store: &mut ArtifactStore,
        save_time: u64,
    ) -> (r: Result<(), StageError>)
        ensures
            data.0 matches Err(e) ==> {
                &&& r == Ok::<(), StageError>(())
                &&& marked_failed(old(queue)@, final(queue)@, data.1@.l1_batch_number, e)
                &&& *final(store) == *old(store)
                &&& *final(self) == *old(self)
            },
            data.0 matches Ok(out) ==> {
                let key = ArtifactKey::RecursionTip { block_number: data.1@.l1_batch_number };
                let duration = elapsed(save_time, data.1@.pick_time);
                if !old(store).is_available() {
                    &&& r == Err::<(), StageError>(StageError::StoreUnavailable)
                    &&& final(queue)@ == old(queue)@
                    &&& *final(store) == *old(store)
                    &&& *final(self) == *old(self)
                } else {
                    &&& final(store).contents() == old(store).contents().insert(
                        key,
                        StoredArtifactView::RecursionTip(out@),
                    )
                    &&& final(store).is_available()
                    &&& final(self).shall_save_to_public_bucket == old(
                        self,
                    ).shall_save_to_public_bucket
                    &&& if old(self).shall_save_to_public_bucket && old(self).public_blob_store
                        is Some {
                        old(self).public_blob_store matches Some(ps) && {
                            if ps.is_available() {
                                &&& final(self).public_blob_store matches Some(ps2)
                                    && ps2.contents() == ps.contents().insert(
                                    key,
                                    StoredArtifactView::RecursionTip(out@),
                                ) && ps2.is_available()
                                &&& r == Ok::<(), StageError>(())
                                &&& marked_succeeded(
                                    old(queue)@,
                                    final(queue)@,
                                    data.1@.l1_batch_number,
                                    key,
                                    duration,
                                )
                            } else {
                                &&& r == Err::<(), StageError>(StageError::StoreUnavailable)
                                &&& final(queue)@ == old(queue)@
                                &&& final(self).public_blob_store == old(self).public_blob_store
                            }
                        }
                    } else {
                        &&& r == Ok::<(), StageError>(())
                        &&& final(self).public_blob_store == old(self).public_blob_store
                        &&& marked_succeeded(
                            old(queue)@,
                            final(queue)@,
                            data.1@.l1_batch_number,
                            key,
                            duration,
                        )
                    }
                }
            },
    {
        let (result, metadata) = data;

        match result {
            Ok(recursion_tip_output) => {
                let location = match store.put_recursion_tip(
                    metadata.l1_batch_number,
                    recursion_tip_output.recursion_tip_circuit.duplicate(),
                ) {
                    Ok(k) => k,
                    Err(e) => {
                        return Err(e);
                    },
                };

                if self.shall_save_to_public_bucket {
                    match &mut self.public_blob_store {
                        Some(ps) => {
                            match ps.put_recursion_tip(
                                metadata.l1_batch_number,
                                recursion_tip_output.recursion_tip_circuit,
                            ) {
                                Ok(_) => {},
                                Err(e) => {
                                    return Err(e);
                                },
                            }
                        },
                        None => {},
                    }
                }

                let duration: u64 = if save_time >= metadata.pick_time {
                    save_time - metadata.pick_time
                } else {
                    0
                };
                queue.mark_succeeded(metadata.l1_batch_number, location, duration);
                Ok(())
            },
            Err(err) => {
                queue.mark_failed(metadata.l1_batch_number, err);
                Ok(())
            },
        }
    }
}

} // verus!
