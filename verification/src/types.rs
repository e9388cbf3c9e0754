//! Value types shared by the picker, the executor and the saver, with the
//! mathematical views their contracts are stated over.

use vstd::prelude::*;

verus! {

/// Maximum number of circuit-type slots the aggregate structure supports.
pub const RECURSION_TIP_ARITY: usize = 32;

/// Total count of known base-layer circuit types; their identifiers are
/// `1..=BASE_LAYER_CIRCUIT_COUNT`.
pub const BASE_LAYER_CIRCUIT_COUNT: usize = 16;

/// Ordered commitment state of one circuit type's pending proof inputs for
/// a batch; produced upstream, read-only here.
#[derive(Debug, PartialEq, Eq)]
pub struct QueueState {
    /// Commitment words of the queue.
    pub commitment: Vec<u64>,
    /// Number of pending proof inputs the queue stands for.
    pub num_items: u64,
}

/// Mathematical view of a [`QueueState`].
#[verifier::ext_equal]
pub struct QueueStateView {
    pub commitment: Seq<u64>,
    pub num_items: u64,
}

impl View for QueueState {
    type V = QueueStateView;

    open spec fn view(&self) -> QueueStateView {
        QueueStateView { commitment: self.commitment@, num_items: self.num_items }
    }
}

/// One slot of the aggregate input: either the recursion queue of one
/// contributing circuit type, tagged with that type, or the canonical
/// placeholder.
#[derive(Debug, PartialEq, Eq)]
pub enum Slot {
    Present { circuit_type: u8, queue: QueueState },
    Placeholder,
}

/// Mathematical view of a [`Slot`].
pub enum SlotView {
    Present { circuit_type: u8, queue: QueueStateView },
    Placeholder,
}

impl View for Slot {
    type V = SlotView;

    open spec fn view(&self) -> SlotView {
        match self {
            Slot::Present { circuit_type, queue } => SlotView::Present {
                circuit_type: *circuit_type,
                queue: queue@,
            },
            Slot::Placeholder => SlotView::Placeholder,
        }
    }
}

/// Static verification parameters of one base-layer circuit type, viewed
/// as the sequence of their commitment words.
#[derive(Debug, PartialEq, Eq)]
pub struct LeafParameters {
    pub commitment: Vec<u64>,
}

impl View for LeafParameters {
    type V = Seq<u64>;

    open spec fn view(&self) -> Seq<u64> {
        self.commitment@
    }
}

/// Key material of the node-layer verification key, viewed as the
/// sequence of its words.
#[derive(Debug, PartialEq, Eq)]
pub struct NodeVerificationKey {
    pub words: Vec<u64>,
}

impl View for NodeVerificationKey {
    type V = Seq<u64>;

    open spec fn view(&self) -> Seq<u64> {
        self.words@
    }
}

/// Protocol-version-scoped key material, loaded once at startup by the
/// external verification-key provider and read-only afterwards.
#[derive(Debug, PartialEq, Eq)]
pub struct Keystore {
    pub node_vk: NodeVerificationKey,
    /// One `(circuit_type, parameters)` entry per known base-layer circuit
    /// type, in a correctly deployed system.
    pub leaf_vk_params: Vec<(u8, LeafParameters)>,
}

/// Mathematical view of a [`Keystore`].
#[verifier::ext_equal]
pub struct KeystoreView {
    pub node_vk: Seq<u64>,
    pub leaf_vk_params: Seq<(u8, Seq<u64>)>,
}

impl View for Keystore {
    type V = KeystoreView;

    open spec fn view(&self) -> KeystoreView {
        KeystoreView {
            node_vk: self.node_vk@,
            leaf_vk_params: self.leaf_vk_params@.map_values(
                |p: (u8, LeafParameters)| (p.0, p.1@),
            ),
        }
    }
}

/// The witness assembled by the picker: the validated aggregate input
/// together with the parameter table and key material.
#[derive(Debug, PartialEq, Eq)]
pub struct RecursionTipWitness {
    /// Parameter table, one entry per known base-layer circuit type.
    pub leaf_layer_parameters: Vec<LeafParameters>,
    /// Deterministic summary of the node-layer key material.
    pub node_layer_vk_commitment: u64,
    /// Fixed-length aggregate input of `RECURSION_TIP_ARITY` slots.
    pub slots: Vec<Slot>,
}

/// Mathematical view of a [`RecursionTipWitness`].
#[verifier::ext_equal]
pub struct RecursionTipWitnessView {
    pub leaf_layer_parameters: Seq<Seq<u64>>,
    pub node_layer_vk_commitment: u64,
    pub slots: Seq<SlotView>,
}

impl View for RecursionTipWitness {
    type V = RecursionTipWitnessView;

    open spec fn view(&self) -> RecursionTipWitnessView {
        RecursionTipWitnessView {
            leaf_layer_parameters: self.leaf_layer_parameters@.map_values(
                |p: LeafParameters| p@,
            ),
            node_layer_vk_commitment: self.node_layer_vk_commitment,
            slots: self.slots@.map_values(|s: Slot| s@),
        }
    }
}

/// Input of the executor.
#[derive(Debug, PartialEq, Eq)]
pub struct RecursionTipInput {
    pub recursion_tip_witness: RecursionTipWitness,
    pub node_vk: NodeVerificationKey,
}

/// Mathematical view of a [`RecursionTipInput`].
#[verifier::ext_equal]
pub struct RecursionTipInputView {
    pub recursion_tip_witness: RecursionTipWitnessView,
    pub node_vk: Seq<u64>,
}

impl View for RecursionTipInput {
    type V = RecursionTipInputView;

    open spec fn view(&self) -> RecursionTipInputView {
        RecursionTipInputView {
            recursion_tip_witness: self.recursion_tip_witness@,
            node_vk: self.node_vk@,
        }
    }
}

/// Batch identity and timing carried alongside the input and the output;
/// set once by the picker and never reconstructed mid-pipeline.
#[derive(Debug, PartialEq, Eq)]
pub struct RecursionTipMetadata {
    pub l1_batch_number: u32,
    /// `(circuit_type, job id)` of every completed dependency job.
    pub final_node_proof_job_ids: Vec<(u8, u32)>,
    /// When the cycle started, for end-to-end latency accounting.
    pub start_time: u64,
    /// When the pick finished, for save-duration accounting.
    pub pick_time: u64,
}

/// Mathematical view of a [`RecursionTipMetadata`].
#[verifier::ext_equal]
pub struct RecursionTipMetadataView {
    pub l1_batch_number: u32,
    pub final_node_proof_job_ids: Seq<(u8, u32)>,
    pub start_time: u64,
    pub pick_time: u64,
}

impl View for RecursionTipMetadata {
    type V = RecursionTipMetadataView;

    open spec fn view(&self) -> RecursionTipMetadataView {
        RecursionTipMetadataView {
            l1_batch_number: self.l1_batch_number,
            final_node_proof_job_ids: self.final_node_proof_job_ids@,
            start_time: self.start_time,
            pick_time: self.pick_time,
        }
    }
}

/// The aggregate artifact ready for the next proving stage.
#[derive(Debug, PartialEq, Eq)]
pub struct RecursionTipCircuit {
    pub witness: RecursionTipWitness,
    pub vk_words: Vec<u64>,
}

/// Mathematical view of a [`RecursionTipCircuit`].
#[verifier::ext_equal]
pub struct RecursionTipCircuitView {
    pub witness: RecursionTipWitnessView,
    pub vk_words: Seq<u64>,
}

impl View for RecursionTipCircuit {
    type V = RecursionTipCircuitView;

    open spec fn view(&self) -> RecursionTipCircuitView {
        RecursionTipCircuitView { witness: self.witness@, vk_words: self.vk_words@ }
    }
}

/// Output of the executor.
#[derive(Debug, PartialEq, Eq)]
pub struct RecursionTipOutput {
    pub recursion_tip_circuit: RecursionTipCircuit,
}

impl View for RecursionTipOutput {
    type V = RecursionTipCircuitView;

    open spec fn view(&self) -> RecursionTipCircuitView {
        self.recursion_tip_circuit@
    }
}

/// The view of an optional value, when the value is present.
pub open spec fn option_view<T: View>(o: Option<T>) -> Option<T::V> {
    match o {
        Some(t) => Some(t@),
        None => None,
    }
}

/// Copies a vector of words, element for element.
pub fn copy_words(v: &Vec<u64>) -> (r: Vec<u64>)
    ensures
        r@ == v@,
{
    let mut r: Vec<u64> = Vec::new();
    let mut i: usize = 0;
    while i < v.len()
        invariant
            i <= v.len(),
            r@ == v@.subrange(0, i as int),
        decreases v.len() - i,
    {
        r.push(v[i]);
        i = i + 1;
        assert(r@ =~= v@.subrange(0, i as int));
    }
    assert(r@ =~= v@);
    r
}

/// Copies a list of dependency job identifiers, element for element.
pub fn copy_job_ids(v: &Vec<(u8, u32)>) -> (r: Vec<(u8, u32)>)
    ensures
        r@ == v@,
{
    let mut r: Vec<(u8, u32)> = Vec::new();
    let mut i: usize = 0;
    while i < v.len()
        invariant
            i <= v.len(),
            r@ == v@.subrange(0, i as int),
        decreases v.len() - i,
    {
        r.push(v[i]);
        i = i + 1;
        assert(r@ =~= v@.subrange(0, i as int));
    }
    assert(r@ =~= v@);
    r
}

impl QueueState {
    /// Copies the queue state, field for field.
    pub fn duplicate(&self) -> (r: QueueState)
        ensures
            r@ == self@,
    {
        QueueState { commitment: copy_words(&self.commitment), num_items: self.num_items }
    }
}

impl LeafParameters {
    /// Copies the parameters, field for field.
    pub fn duplicate(&self) -> (r: LeafParameters)
        ensures
            r@ == self@,
    {
        LeafParameters { commitment: copy_words(&self.commitment) }
    }
}

impl Slot {
    /// Copies the slot, field for field.
    pub fn duplicate(&self) -> (r: Slot)
        ensures
            r@ == self@,
    {
        match self {
            Slot::Present { circuit_type, queue } => Slot::Present {
                circuit_type: *circuit_type,
                queue: queue.duplicate(),
            },
            Slot::Placeholder => Slot::Placeholder,
        }
    }
}

/// Copies a vector of slots, element for element.
pub fn copy_slots(v: &Vec<Slot>) -> (r: Vec<Slot>)
    ensures
        r@.len() == v@.len(),
        forall|i: int| 0 <= i < v@.len() ==> (#[trigger] r@[i])@ == v@[i]@,
{
    let mut r: Vec<Slot> = Vec::new();
    let mut i: usize = 0;
    while i < v.len()
        invariant
            i <= v.len(),
            r@.len() == i,
            forall|j: int| 0 <= j < i ==> (#[trigger] r@[j])@ == v@[j]@,
        decreases v.len() - i,
    {
        r.push(v[i].duplicate());
        i = i + 1;
    }
    r
}

/// Copies a parameter table, element for element.
pub fn copy_leaf_parameters(v: &Vec<LeafParameters>) -> (r: Vec<LeafParameters>)
    ensures
        r@.len() == v@.len(),
        forall|i: int| 0 <= i < v@.len() ==> (#[trigger] r@[i])@ == v@[i]@,
{
    let mut r: Vec<LeafParameters> = Vec::new();
    let mut i: usize = 0;
    while i < v.len()
        invariant
            i <= v.len(),
            r@.len() == i,
            forall|j: int| 0 <= j < i ==> (#[trigger] r@[j])@ == v@[j]@,
        decreases v.len() - i,
    {
        r.push(v[i].duplicate());
        i = i + 1;
    }
    r
}

/// Copies a keystore parameter listing, element for element.
pub fn copy_leaf_pairs(v: &Vec<(u8, LeafParameters)>) -> (r: Vec<(u8, LeafParameters)>)
    ensures
        r@.len() == v@.len(),
        forall|i: int|
            0 <= i < v@.len() ==> (#[trigger] r@[i]).0 == v@[i].0 && r@[i].1@ == v@[i].1@,
{
    let mut r: Vec<(u8, LeafParameters)> = Vec::new();
    let mut i: usize = 0;
    while i < v.len()
        invariant
            i <= v.len(),
            r@.len() == i,
            forall|j: int|
                0 <= j < i ==> (#[trigger] r@[j]).0 == v@[j].0 && r@[j].1@ == v@[j].1@,
        decreases v.len() - i,
    {
        r.push((v[i].0, v[i].1.duplicate()));
        i = i + 1;
    }
    r
}

impl Keystore {
    /// Copies the keystore, field for field.
    pub fn duplicate(&self) -> (r: Keystore)
        ensures
            r@ == self@,
    {
        let r = Keystore {
            node_vk: NodeVerificationKey { words: copy_words(&self.node_vk.words) },
            leaf_vk_params: copy_leaf_pairs(&self.leaf_vk_params),
        };
        proof {
            assert(r.leaf_vk_params@.map_values(|p: (u8, LeafParameters)| (p.0, p.1@))
                =~= self.leaf_vk_params@.map_values(|p: (u8, LeafParameters)| (p.0, p.1@)));
        }
        r
    }
}

impl RecursionTipWitness {
    /// Copies the witness, field for field.
    pub fn duplicate(&self) -> (r: RecursionTipWitness)
        ensures
            r@ == self@,
    {
        let r = RecursionTipWitness {
            leaf_layer_parameters: copy_leaf_parameters(&self.leaf_layer_parameters),
            node_layer_vk_commitment: self.node_layer_vk_commitment,
            slots: copy_slots(&self.slots),
        };
        proof {
            assert(r.slots@.map_values(|s: Slot| s@) =~= self.slots@.map_values(|s: Slot| s@));
            assert(r.leaf_layer_parameters@.map_values(|p: LeafParameters| p@)
                =~= self.leaf_layer_parameters@.map_values(|p: LeafParameters| p@));
        }
        r
    }
}

impl RecursionTipCircuit {
    /// Copies the circuit, field for field.
    pub fn duplicate(&self) -> (r: RecursionTipCircuit)
        ensures
            r@ == self@,
    {
        RecursionTipCircuit {
            witness: self.witness.duplicate(),
            vk_words: copy_words(&self.vk_words),
        }
    }
}

impl Clone for RecursionTipMetadata {
    /// Copies the metadata, field for field.
    fn clone(&self) -> (r: Self)
        ensures
            r@ == self@,
    {
        RecursionTipMetadata {
            l1_batch_number: self.l1_batch_number,
            final_node_proof_job_ids: copy_job_ids(&self.final_node_proof_job_ids),
            start_time: self.start_time,
            pick_time: self.pick_time,
        }
    }
}

} // verus!
