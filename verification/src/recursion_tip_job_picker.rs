//! The job picker: claims a job, checks its dependencies, gathers the
//! per-circuit recursion queues, and builds the validated input and
//! metadata for the executor.
//!
//! The picker only reads the artifact store, so a fatal check fails a job
//! before any artifact write for it; the atomic claim is the one effect
//! it has on the job table.

use vstd::prelude::*;

use crate::artifact_store::{closed_form_input_at, ArtifactKey, ArtifactStore, StoredArtifactView};
use crate::errors::{PickError, StageError};
use crate::job_queue::{batch_ids, claim_transition, JobTable};
use crate::stored_objects::ClosedFormInputWrapper;
use crate::types::{
    copy_words, Keystore, KeystoreView, LeafParameters, NodeVerificationKey, QueueState,
    QueueStateView, RecursionTipInput, RecursionTipInputView, RecursionTipMetadata,
    RecursionTipWitness, Slot, SlotView, BASE_LAYER_CIRCUIT_COUNT, RECURSION_TIP_ARITY,
};

verus! {

/// The deterministic summary of key material: a fold of its words, each
/// step multiplying by 31 and adding the next word, modulo the word
/// range.
pub open spec fn vk_commitment(s: Seq<u64>) -> u64
    decreases s.len(),
{
    if s.len() == 0 {
        0u64
    } else {
        (((vk_commitment(s.drop_last()) as int) * 31 + s.last()) % 0x1_0000_0000_0000_0000) as u64
    }
}

/// Computes the commitment over the node-layer key material.
pub fn compute_node_vk_commitment(words: &Vec<u64>) -> (r: u64)
    ensures
        r == vk_commitment(words@),
{
    let mut c: u64 = 0;
    let mut i: usize = 0;
    while i < words.len()
        invariant
            i <= words@.len(),
            c == vk_commitment(words@.subrange(0, i as int)),
        decreases words@.len() - i,
    {
        let step: u128 = (c as u128) * 31 + (words[i] as u128);
        c = (step % 0x1_0000_0000_0000_0000u128) as u64;
        i = i + 1;
        proof {
            assert(words@.subrange(0, i as int).drop_last() =~= words@.subrange(0, i - 1));
            assert(words@.subrange(0, i as int).last() == words@[i - 1]);
        }
    }
    proof {
        assert(words@.subrange(0, words@.len() as int) =~= words@);
    }
    c
}

/// The recursion queue a batch's per-circuit stored object holds for one
/// circuit type, when the store holds one.
pub open spec fn queue_for(
    m: Map<ArtifactKey, StoredArtifactView>,
    batch_number: u32,
    circuit_id: u8,
) -> Option<QueueStateView> {
    match closed_form_input_at(m, batch_number, circuit_id) {
        Some(w) => Some(w.queue),
        None => None,
    }
}

/// The `(circuit type, queue)` pairs of the circuit types `1..=n` that
/// stored a recursion queue for the batch, in circuit-type order.
pub open spec fn present_queues_upto(
    m: Map<ArtifactKey, StoredArtifactView>,
    batch_number: u32,
    n: int,
) -> Seq<(u8, QueueStateView)>
    decreases n,
{
    if n <= 0 {
        Seq::empty()
    } else {
        let rest = present_queues_upto(m, batch_number, n - 1);
        match queue_for(m, batch_number, n as u8) {
            Some(q) => rest.push((n as u8, q)),
            None => rest,
        }
    }
}

/// The `(circuit type, queue)` pairs of every known circuit type that
/// stored a recursion queue for the batch, in circuit-type order.
pub open spec fn present_queues(m: Map<ArtifactKey, StoredArtifactView>, batch_number: u32) -> Seq<
    (u8, QueueStateView),
> {
    present_queues_upto(m, batch_number, BASE_LAYER_CIRCUIT_COUNT as int)
}

/// At most one queue per circuit type can be present.
pub proof fn lemma_present_queues_len(
    m: Map<ArtifactKey, StoredArtifactView>,
    batch_number: u32,
    n: int,
)
    requires
        0 <= n,
    ensures
        present_queues_upto(m, batch_number, n).len() <= n,
    decreases n,
{
    if n > 0 {
        lemma_present_queues_len(m, batch_number, n - 1);
    }
}

/// The present pairs carry strictly increasing circuit types drawn from
/// `1..=n`, each of which stored exactly the queue its pair carries.
pub proof fn lemma_present_queues_tags(
    m: Map<ArtifactKey, StoredArtifactView>,
    batch_number: u32,
    n: int,
)
    requires
        0 <= n <= 0xff,
    ensures
        forall|k: int|
            0 <= k < present_queues_upto(m, batch_number, n).len() ==> {
                let p = #[trigger] present_queues_upto(m, batch_number, n)[k];
                &&& 1 <= p.0 <= n
                &&& queue_for(m, batch_number, p.0) == Some(p.1)
            },
        forall|k1: int, k2: int|
            0 <= k1 < k2 < present_queues_upto(m, batch_number, n).len()
                ==> (#[trigger] present_queues_upto(m, batch_number, n)[k1]).0 < (
            #[trigger] present_queues_upto(m, batch_number, n)[k2]).0,
    decreases n,
{
    if n > 0 {
        lemma_present_queues_tags(m, batch_number, n - 1);
        let rest = present_queues_upto(m, batch_number, n - 1);
        let whole = present_queues_upto(m, batch_number, n);
        assert((n as u8) as int == n);
        match queue_for(m, batch_number, n as u8) {
            Some(q) => {
                assert(whole == rest.push((n as u8, q)));
                assert(forall|k: int| 0 <= k < rest.len() ==> whole[k] == rest[k]);
                assert(whole[whole.len() - 1] == (n as u8, q));
            },
            None => {
                assert(whole == rest);
            },
        }
    }
}

/// The views of a list of `(circuit type, queue)` pairs.
pub open spec fn pairs_view(s: Seq<(u8, QueueState)>) -> Seq<(u8, QueueStateView)> {
    s.map_values(|p: (u8, QueueState)| (p.0, p.1@))
}

/// Attempts to fetch the recursion queue of every known circuit type for
/// the batch; only circuit types with a stored object contribute a pair.
pub fn fetch_present_queues(store: &ArtifactStore, batch_number: u32) -> (r: Result<
    Vec<(u8, QueueState)>,
    StageError,
>)
    ensures
        store.is_available() ==> (r matches Ok(v) && pairs_view(v@) == present_queues(
            store.contents(),
            batch_number,
        )),
        !store.is_available() ==> r == Err::<Vec<(u8, QueueState)>, StageError>(
            StageError::StoreUnavailable,
        ),
{
    if !store.available() {
        return Err(StageError::StoreUnavailable);
    }
    let mut out: Vec<(u8, QueueState)> = Vec::new();
    let mut i: usize = 0;
    while i < BASE_LAYER_CIRCUIT_COUNT
        invariant
            i <= BASE_LAYER_CIRCUIT_COUNT,
            store.is_available(),
            pairs_view(out@) == present_queues_upto(store.contents(), batch_number, i as int),
        decreases BASE_LAYER_CIRCUIT_COUNT - i,
    {
        let circuit_id: u8 = (i as u8) + 1;
        let ghost pre = out@;
        match store.get_closed_form_input(batch_number, circuit_id)? {
            Some(w) => {
                let ClosedFormInputWrapper(_, queue) = w;
                out.push((circuit_id, queue));
                proof {
                    assert(pairs_view(out@) =~= pairs_view(pre).push((circuit_id, queue@)));
                }
            },
            None => {},
        }
        i = i + 1;
        proof {
            assert(pairs_view(out@) == present_queues_upto(
                store.contents(),
                batch_number,
                i as int,
            ));
        }
    }
    Ok(out)
}

/// The fixed-length aggregate input built from the present pairs: one
/// tagged slot per pair, in order, the remaining slots placeholders.
pub open spec fn aggregate_slots(s: Seq<(u8, QueueStateView)>) -> Seq<SlotView> {
    Seq::new(
        RECURSION_TIP_ARITY as nat,
        |i: int|
            if i < s.len() {
                SlotView::Present { circuit_type: s[i].0, queue: s[i].1 }
            } else {
                SlotView::Placeholder
            },
    )
}

/// Builds the aggregate input from the present pairs, enforcing the
/// arity bound: more pairs than slots is a fatal `ArityOverflow`, never a
/// silent truncation.
pub fn build_aggregate_input(present: &Vec<(u8, QueueState)>) -> (r: Result<Vec<Slot>, StageError>)
    ensures
        r is Ok <==> present@.len() <= RECURSION_TIP_ARITY,
        r matches Ok(slots) ==> slots@.len() == RECURSION_TIP_ARITY && slots@.map_values(
            |s: Slot| s@,
        ) == aggregate_slots(pairs_view(present@)),
        r matches Err(e) ==> e == (StageError::ArityOverflow { populated: present@.len() as usize }),
{
    if present.len() > RECURSION_TIP_ARITY {
        return Err(StageError::ArityOverflow { populated: present.len() });
    }
    let mut slots: Vec<Slot> = Vec::new();
    let mut i: usize = 0;
    while i < present.len()
        invariant
            i <= present@.len() <= RECURSION_TIP_ARITY,
            slots@.len() == i,
            forall|j: int|
                0 <= j < i ==> (#[trigger] slots@[j])@ == (SlotView::Present {
                    circuit_type: present@[j].0,
                    queue: present@[j].1@,
                }),
        decreases present@.len() - i,
    {
        slots.push(
            Slot::Present { circuit_type: present[i].0, queue: present[i].1.duplicate() },
        );
        i = i + 1;
    }
    while slots.len() < RECURSION_TIP_ARITY
        invariant
            present@.len() <= slots@.len() <= RECURSION_TIP_ARITY,
            forall|j: int|
                0 <= j < present@.len() ==> (#[trigger] slots@[j])@ == (SlotView::Present {
                    circuit_type: present@[j].0,
                    queue: present@[j].1@,
                }),
            forall|j: int|
                present@.len() <= j < slots@.len() ==> (#[trigger] slots@[j])@
                    == SlotView::Placeholder,
        decreases RECURSION_TIP_ARITY - slots@.len(),
    {
        slots.push(Slot::Placeholder);
    }
    proof {
        assert(slots@.map_values(|s: Slot| s@) =~= aggregate_slots(pairs_view(present@)));
    }
    Ok(slots)
}

/// How many slots of an aggregate input are populated.
pub open spec fn populated_count(slots: Seq<SlotView>) -> nat
    decreases slots.len(),
{
    if slots.len() == 0 {
        0
    } else {
        populated_count(slots.drop_last()) + if slots.last() is Present {
            1nat
        } else {
            0nat
        }
    }
}

proof fn lemma_populated_count_prefix(slots: Seq<SlotView>, k: int)
    requires
        0 <= k <= slots.len(),
        forall|i: int| 0 <= i < k ==> (#[trigger] slots[i]) is Present,
        forall|i: int| k <= i < slots.len() ==> !((#[trigger] slots[i]) is Present),
    ensures
        populated_count(slots) == k,
    decreases slots.len(),
{
    if slots.len() > 0 {
        let t = slots.drop_last();
        if k == slots.len() {
            lemma_populated_count_prefix(t, k - 1);
        } else {
            lemma_populated_count_prefix(t, k);
        }
    }
}

/// Law: the aggregate input built from a present subset of at most the
/// arity bound has the full slot count, exactly one populated slot per
/// member of the subset, in order and tagged with its circuit type, and
/// placeholders everywhere else; distinct members keep distinct tags.
pub proof fn lemma_aggregate_input_shape(s: Seq<(u8, QueueStateView)>)
    requires
        s.len() <= RECURSION_TIP_ARITY,
        forall|i: int, j: int| 0 <= i < j < s.len() ==> (#[trigger] s[i]).0 != (#[trigger] s[j]).0,
    ensures
        aggregate_slots(s).len() == RECURSION_TIP_ARITY,
        populated_count(aggregate_slots(s)) == s.len(),
        forall|i: int|
            0 <= i < s.len() ==> (#[trigger] aggregate_slots(s)[i]) == (SlotView::Present {
                circuit_type: s[i].0,
                queue: s[i].1,
            }),
        forall|i: int|
            s.len() <= i < RECURSION_TIP_ARITY ==> (#[trigger] aggregate_slots(s)[i])
                is Placeholder,
        forall|i: int, j: int|
            0 <= i < j < s.len() ==> (#[trigger] aggregate_slots(s)[i])->Present_circuit_type != (
            #[trigger] aggregate_slots(s)[j])->Present_circuit_type,
{
    lemma_populated_count_prefix(aggregate_slots(s), s.len() as int);
}

/// Law: rebuilding the aggregate input from the same present subset
/// yields the identical tagging; any two results the builder's contract
/// admits for one subset coincide.
pub proof fn lemma_rebuild_identical(
    slots_a: Seq<SlotView>,
    slots_b: Seq<SlotView>,
    s: Seq<(u8, QueueStateView)>,
)
    requires
        slots_a == aggregate_slots(s),
        slots_b == aggregate_slots(s),
    ensures
        slots_a == slots_b,
{
}

/// The parameter table of a keystore: the parameters of its entries, in
/// order.
pub open spec fn leaf_params_table(ks: KeystoreView) -> Seq<Seq<u64>> {
    ks.leaf_vk_params.map_values(|p: (u8, Seq<u64>)| p.1)
}

/// Loads the static verification-parameter table, enforcing its fixed
/// cardinality: one entry per known base-layer circuit type, any other
/// size being a fatal `ParameterCardinalityMismatch`.
pub fn load_leaf_vk_params(keystore: &Keystore) -> (r: Result<Vec<LeafParameters>, StageError>)
    ensures
        r is Ok <==> keystore@.leaf_vk_params.len() == BASE_LAYER_CIRCUIT_COUNT,
        r matches Ok(v) ==> v@.map_values(|p: LeafParameters| p@) == leaf_params_table(keystore@),
        r matches Err(e) ==> e == (StageError::ParameterCardinalityMismatch {
            found: keystore@.leaf_vk_params.len() as usize,
        }),
{
    if keystore.leaf_vk_params.len() != BASE_LAYER_CIRCUIT_COUNT {
        return Err(
            StageError::ParameterCardinalityMismatch { found: keystore.leaf_vk_params.len() },
        );
    }
    let mut out: Vec<LeafParameters> = Vec::new();
    let mut i: usize = 0;
    while i < keystore.leaf_vk_params.len()
        invariant
            i <= keystore@.leaf_vk_params.len(),
            out@.len() == i,
            forall|j: int|
                0 <= j < i ==> (#[trigger] out@[j])@ == keystore@.leaf_vk_params[j].1,
        decreases keystore@.leaf_vk_params.len() - i,
    {
        out.push(keystore.leaf_vk_params[i].1.duplicate());
        i = i + 1;
    }
    proof {
        assert(out@.map_values(|p: LeafParameters| p@) =~= leaf_params_table(keystore@));
    }
    Ok(out)
}

/// Claims the next ready job and checks its dependency listing: the
/// number of completed dependency jobs must equal the count recorded when
/// the job was scheduled, else the job fails with a
/// `DependencyInconsistency` carrying both counts.
pub fn load_recursion_tip_metadata(
    queue: &mut JobTable,
    protocol_version: u32,
    pod_name: &String,
    start_time: u64,
) -> (r: Result<Option<RecursionTipMetadata>, PickError>)
    ensures
        match r {
            Ok(None) => claim_transition(
                old(queue)@,
                final(queue)@,
                protocol_version,
                pod_name@,
                None,
            ),
            Ok(Some(m)) => {
                &&& claim_transition(
                    old(queue)@,
                    final(queue)@,
                    protocol_version,
                    pod_name@,
                    Some((m@.l1_batch_number, m@.final_node_proof_job_ids.len() as usize)),
                )
                &&& m@.final_node_proof_job_ids == batch_ids(final(queue)@, m@.l1_batch_number)
                &&& m@.start_time == start_time
                &&& m@.pick_time == start_time
            },
            Err(e) => {
                &&& e.error matches StageError::DependencyInconsistency { expected, fetched }
                &&& claim_transition(
                    old(queue)@,
                    final(queue)@,
                    protocol_version,
                    pod_name@,
                    Some((e.batch_number, expected)),
                )
                &&& fetched == batch_ids(final(queue)@, e.batch_number).len()
                &&& fetched != expected
            },
        },
{
    let claimed = queue.claim_next(protocol_version, pod_name);
    match claimed {
        None => Ok(None),
        Some((l1_batch_number, number_of_final_node_jobs)) => {
            let final_node_proof_job_ids = queue.get_final_node_proof_job_ids_for(l1_batch_number);
            if final_node_proof_job_ids.len() != number_of_final_node_jobs {
                return Err(
                    PickError {
                        batch_number: l1_batch_number,
                        error: StageError::DependencyInconsistency {
                            expected: number_of_final_node_jobs,
                            fetched: final_node_proof_job_ids.len(),
                        },
                    },
                );
            }
            Ok(
                Some(
                    RecursionTipMetadata {
                        l1_batch_number,
                        final_node_proof_job_ids,
                        start_time,
                        pick_time: start_time,
                    },
                ),
            )
        },
    }
}

/// What the picker promises of a successful pick's input: the aggregate
/// slots are built from exactly the queues the store holds for the batch,
/// and the parameter table, key material and commitment come from the
/// keystore.
pub open spec fn is_picked_input(
    input: RecursionTipInputView,
    m: Map<ArtifactKey, StoredArtifactView>,
    batch_number: u32,
    ks: KeystoreView,
) -> bool {
    &&& input.recursion_tip_witness.slots == aggregate_slots(present_queues(m, batch_number))
    &&& input.recursion_tip_witness.leaf_layer_parameters == leaf_params_table(ks)
    &&& input.recursion_tip_witness.node_layer_vk_commitment == vk_commitment(ks.node_vk)
    &&& input.node_vk == ks.node_vk
}

/// The job picker of the recursion-tip stage, scoped to one protocol
/// version and one worker identity.
pub struct RecursionTipJobPicker {
    pub keystore: Keystore,
    pub protocol_version: u32,
    pub pod_name: String,
}

impl RecursionTipJobPicker {
    pub fn new(keystore: Keystore, protocol_version: u32, pod_name: String) -> (r:
        RecursionTipJobPicker)
        ensures
            r.keystore == keystore,
            r.protocol_version == protocol_version,
            r.pod_name == pod_name,
    {
        RecursionTipJobPicker { keystore, protocol_version, pod_name }
    }

    /// Claims the next ready job and builds its input and metadata.
    ///
    /// `Ok(None)` means no job was ready; that is not an error. The
    /// atomic claim is the one change made to the job table; the store is
    /// only read. A claimed job fails with `DependencyInconsistency`
    /// before any artifact is read, with `StoreUnavailable` when a queue
    /// fetch cannot reach the store, and with
    /// `ParameterCardinalityMismatch` when the parameter table does not
    /// hold exactly one entry per known circuit type.
    pub fn pick_job(
        &mut self,
        queue: &mut JobTable,
        store: &ArtifactStore,
        start_time: u64,
        pick_time: u64,
    ) -> (r: Result<Option<(RecursionTipInput, RecursionTipMetadata)>, PickError>)
        ensures
            *final(self) == *old(self),
            match r {
                Ok(None) => claim_transition(
                    old(queue)@,
                    final(queue)@,
                    old(self).protocol_version,
                    old(self).pod_name@,
                    None,
                ),
                Ok(Some((input, m))) => {
                    &&& claim_transition(
                        old(queue)@,
                        final(queue)@,
                        old(self).protocol_version,
                        old(self).pod_name@,
                        Some((m@.l1_batch_number, m@.final_node_proof_job_ids.len() as usize)),
                    )
                    &&& m@.final_node_proof_job_ids == batch_ids(final(queue)@, m@.l1_batch_number)
                    &&& store.is_available()
                    &&& is_picked_input(
                        input@,
                        store.contents(),
                        m@.l1_batch_number,
                        old(self).keystore@,
                    )
                    &&& old(self).keystore@.leaf_vk_params.len() == BASE_LAYER_CIRCUIT_COUNT
                    &&& m@.start_time == start_time
                    &&& m@.pick_time == pick_time
                },
                Err(e) => match e.error {
                    StageError::DependencyInconsistency { expected, fetched } => {
                        &&& claim_transition(
                            old(queue)@,
                            final(queue)@,
                            old(self).protocol_version,
                            old(self).pod_name@,
                            Some((e.batch_number, expected)),
                        )
                        &&& fetched == batch_ids(final(queue)@, e.batch_number).len()
                        &&& fetched != expected
                    },
                    StageError::StoreUnavailable => {
                        &&& claim_transition(
                            old(queue)@,
                            final(queue)@,
                            old(self).protocol_version,
                            old(self).pod_name@,
                            Some(
                                (
                                    e.batch_number,
                                    batch_ids(final(queue)@, e.batch_number).len() as usize,
                                ),
                            ),
                        )
                        &&& !store.is_available()
                    },
                    StageError::ParameterCardinalityMismatch { found } => {
                        &&& claim_transition(
                            old(queue)@,
                            final(queue)@,
                            old(self).protocol_version,
                            old(self).pod_name@,
                            Some(
                                (
                                    e.batch_number,
                                    batch_ids(final(queue)@, e.batch_number).len() as usize,
                                ),
                            ),
                        )
                        &&& store.is_available()
                        &&& found == old(self).keystore@.leaf_vk_params.len()
                        &&& found != BASE_LAYER_CIRCUIT_COUNT
                    },
                    _ => false,
                },
            },
    {
        let mut metadata = match load_recursion_tip_metadata(
            queue,
            self.protocol_version,
            &self.pod_name,
            start_time,
        ) {
            Ok(None) => {
                return Ok(None);
            },
            Ok(Some(m)) => m,
            Err(e) => {
                return Err(e);
            },
        };

        proof {
            assert(claim_transition(
                old(queue)@,
                queue@,
                self.protocol_version,
                self.pod_name@,
                Some((metadata@.l1_batch_number, metadata@.final_node_proof_job_ids.len() as usize)),
            ));
        }

        let present = match fetch_present_queues(store, metadata.l1_batch_number) {
            Ok(p) => p,
            Err(e) => {
                proof {
                    assert(!store.is_available());
                    assert(metadata@.final_node_proof_job_ids.len() == batch_ids(
                        queue@,
                        metadata@.l1_batch_number,
                    ).len());
                }
                return Err(PickError { batch_number: metadata.l1_batch_number, error: e });
            },
        };
        proof {
            lemma_present_queues_len(
                store.contents(),
                metadata.l1_batch_number,
                BASE_LAYER_CIRCUIT_COUNT as int,
            );
        }

        proof {
            assert(pairs_view(present@).len() == present@.len());
            assert(present@.len() <= BASE_LAYER_CIRCUIT_COUNT);
        }
        let slots = match build_aggregate_input(&present) {
            Ok(s) => s,
            Err(e) => {
                proof {
                    assert(false);
                }
                return Err(PickError { batch_number: metadata.l1_batch_number, error: e });
            },
        };

        let leaf_layer_parameters = match load_leaf_vk_params(&self.keystore) {
            Ok(v) => v,
            Err(e) => {
                proof {
                    assert(store.is_available());
                    assert(self.keystore.leaf_vk_params@.len()
                        == self.keystore.leaf_vk_params.len());
                    assert(self.keystore@.leaf_vk_params.len()
                        == self.keystore.leaf_vk_params@.len());
                    assert(e matches StageError::ParameterCardinalityMismatch { found }
                        && found == self.keystore@.leaf_vk_params.len());
                    assert(self.keystore@.leaf_vk_params.len() != BASE_LAYER_CIRCUIT_COUNT);
                    assert(metadata@.final_node_proof_job_ids.len() == batch_ids(
                        queue@,
                        metadata@.l1_batch_number,
                    ).len());
                }
                return Err(PickError { batch_number: metadata.l1_batch_number, error: e });
            },
        };

        let node_layer_vk_commitment = compute_node_vk_commitment(&self.keystore.node_vk.words);

        let input = RecursionTipInput {
            recursion_tip_witness: RecursionTipWitness {
                leaf_layer_parameters,
                node_layer_vk_commitment,
                slots,
            },
            node_vk: NodeVerificationKey { words: copy_words(&self.keystore.node_vk.words) },
        };

        metadata.pick_time = pick_time;

        Ok(Some((input, metadata)))
    }
}

} // verus!
