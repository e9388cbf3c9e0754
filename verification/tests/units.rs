//! Unit tests of the stage's parts: claiming, aggregate building,
//! parameter loading, executing and saving.

use witness_generator_service::artifact_store::{ArtifactKey, ArtifactStore};
use witness_generator_service::errors::{PickError, StageError};
use witness_generator_service::job_queue::{JobStatus, JobTable};
use witness_generator_service::recursion_tip_executor::RecursionTipExecutor;
use witness_generator_service::recursion_tip_job_picker::{
    build_aggregate_input, compute_node_vk_commitment, load_leaf_vk_params,
    RecursionTipJobPicker,
};
use witness_generator_service::recursion_tip_job_saver::RecursionTipJobSaver;
use witness_generator_service::stored_objects::ClosedFormInputWrapper;
use witness_generator_service::types::{
    Keystore, LeafParameters, NodeVerificationKey, QueueState, RecursionTipCircuit,
    RecursionTipInput, RecursionTipMetadata, RecursionTipOutput, RecursionTipWitness, Slot,
    BASE_LAYER_CIRCUIT_COUNT, RECURSION_TIP_ARITY,
};

fn queue_state(seed: u64) -> QueueState {
    QueueState { commitment: vec![seed, seed * 2], num_items: seed }
}

fn full_keystore() -> Keystore {
    let mut leaf_vk_params = Vec::new();
    for circuit_id in 1..=(BASE_LAYER_CIRCUIT_COUNT as u8) {
        leaf_vk_params.push((circuit_id, LeafParameters { commitment: vec![circuit_id as u64] }));
    }
    Keystore { node_vk: NodeVerificationKey { words: vec![5] }, leaf_vk_params }
}

fn sample_witness() -> RecursionTipWitness {
    let mut slots = Vec::new();
    slots.push(Slot::Present { circuit_type: 1, queue: queue_state(4) });
    while slots.len() < RECURSION_TIP_ARITY {
        slots.push(Slot::Placeholder);
    }
    let mut leaf_layer_parameters = Vec::new();
    for circuit_id in 1..=(BASE_LAYER_CIRCUIT_COUNT as u8) {
        leaf_layer_parameters.push(LeafParameters { commitment: vec![circuit_id as u64] });
    }
    RecursionTipWitness { leaf_layer_parameters, node_layer_vk_commitment: 5, slots }
}

fn sample_metadata(batch_number: u32) -> RecursionTipMetadata {
    RecursionTipMetadata {
        l1_batch_number: batch_number,
        final_node_proof_job_ids: vec![(1, 11)],
        start_time: 100,
        pick_time: 140,
    }
}

#[test]
fn exactly_one_of_two_claims_on_one_job_succeeds() {
    let mut queue = JobTable::new();
    queue.enqueue(200, 1, 2, vec![(1, 10), (2, 20)]);
    let worker_a = "worker-a".to_string();
    let worker_b = "worker-b".to_string();
    let first = queue.claim_next(1, &worker_a);
    let second = queue.claim_next(1, &worker_b);
    assert_eq!(first, Some((200, 2)));
    assert_eq!(second, None);
    assert_eq!(queue.row(0).status, JobStatus::Picked);
    assert_eq!(queue.row(0).picked_by, Some(worker_a));
}

#[test]
fn racing_claims_on_two_jobs_observe_different_batches() {
    let mut queue = JobTable::new();
    queue.enqueue(201, 1, 0, Vec::new());
    queue.enqueue(202, 1, 0, Vec::new());
    let worker_a = "worker-a".to_string();
    let worker_b = "worker-b".to_string();
    let first = queue.claim_next(1, &worker_a);
    let second = queue.claim_next(1, &worker_b);
    assert_eq!(first, Some((201, 0)));
    assert_eq!(second, Some((202, 0)));
}

#[test]
fn aggregate_respects_the_arity_bound() {
    let mut too_many = Vec::new();
    for i in 0..(RECURSION_TIP_ARITY as u64 + 1) {
        too_many.push((i as u8, queue_state(i)));
    }
    assert_eq!(
        build_aggregate_input(&too_many),
        Err(StageError::ArityOverflow { populated: RECURSION_TIP_ARITY + 1 })
    );

    too_many.pop();
    let full = build_aggregate_input(&too_many).expect("the bound itself is accepted");
    assert_eq!(full.len(), RECURSION_TIP_ARITY);
    assert!(full.iter().all(|s| matches!(s, Slot::Present { .. })));
}

#[test]
fn aggregate_tags_each_populated_slot_and_pads_the_rest() {
    let present = vec![(3, queue_state(3)), (9, queue_state(9))];
    let slots = build_aggregate_input(&present).expect("two pairs fit");
    assert_eq!(slots.len(), RECURSION_TIP_ARITY);
    assert_eq!(
        slots[0],
        Slot::Present { circuit_type: 3, queue: queue_state(3) }
    );
    assert_eq!(
        slots[1],
        Slot::Present { circuit_type: 9, queue: queue_state(9) }
    );
    for i in 2..RECURSION_TIP_ARITY {
        assert_eq!(slots[i], Slot::Placeholder);
    }
}

#[test]
fn rebuilding_from_the_same_subset_yields_identical_tagging() {
    let present = vec![(2, queue_state(2)), (5, queue_state(5)), (11, queue_state(11))];
    let first = build_aggregate_input(&present).expect("three pairs fit");
    let second = build_aggregate_input(&present).expect("three pairs fit");
    assert_eq!(first, second);
}

#[test]
fn parameter_table_must_have_the_fixed_cardinality() {
    let mut keystore = full_keystore();
    let table = load_leaf_vk_params(&keystore).expect("sixteen entries are accepted");
    assert_eq!(table.len(), BASE_LAYER_CIRCUIT_COUNT);

    keystore.leaf_vk_params.pop();
    assert_eq!(
        load_leaf_vk_params(&keystore),
        Err(StageError::ParameterCardinalityMismatch { found: 15 })
    );

    let mut keystore = full_keystore();
    keystore.leaf_vk_params.push((17, LeafParameters { commitment: vec![17] }));
    assert_eq!(
        load_leaf_vk_params(&keystore),
        Err(StageError::ParameterCardinalityMismatch { found: 17 })
    );
}

#[test]
fn commitment_is_the_fold_of_the_key_words() {
    assert_eq!(compute_node_vk_commitment(&Vec::new()), 0);
    assert_eq!(compute_node_vk_commitment(&vec![1, 2, 3]), 1026);
    assert_eq!(compute_node_vk_commitment(&vec![u64::MAX]), u64::MAX);
    // One step past the word range wraps: (u64::MAX * 31 + 31) mod 2^64.
    assert_eq!(
        compute_node_vk_commitment(&vec![u64::MAX, 31]),
        (u64::MAX).wrapping_mul(31).wrapping_add(31)
    );
}

#[test]
fn executor_packages_the_witness_deterministically() {
    let executor = RecursionTipExecutor::new();
    let input = RecursionTipInput {
        recursion_tip_witness: sample_witness(),
        node_vk: NodeVerificationKey { words: vec![5] },
    };
    let output = executor
        .execute(input, sample_metadata(300))
        .expect("a well-formed input executes");
    assert_eq!(output.recursion_tip_circuit.witness, sample_witness());
    assert_eq!(output.recursion_tip_circuit.vk_words, vec![5]);
}

#[test]
fn executor_rejects_a_malformed_input() {
    let executor = RecursionTipExecutor::new();
    let mut witness = sample_witness();
    witness.slots.pop();
    let input = RecursionTipInput {
        recursion_tip_witness: witness,
        node_vk: NodeVerificationKey { words: vec![5] },
    };
    assert_eq!(
        executor.execute(input, sample_metadata(301)),
        Err(StageError::Compute)
    );
}

#[test]
fn saving_success_stores_the_artifact_and_records_the_duration() {
    let mut queue = JobTable::new();
    queue.enqueue(302, 1, 1, vec![(1, 11)]);
    let worker = "worker-s".to_string();
    queue.claim_next(1, &worker);
    let mut store = ArtifactStore::new();
    let mut saver = RecursionTipJobSaver::new(None, false);

    let output = RecursionTipOutput {
        recursion_tip_circuit: RecursionTipCircuit { witness: sample_witness(), vk_words: vec![5] },
    };
    let saved = saver.save_job_result((Ok(output), sample_metadata(302)), &mut queue, &mut store, 150);
    assert_eq!(saved, Ok(()));

    let row = queue.row(0);
    assert_eq!(row.status, JobStatus::Succeeded);
    assert_eq!(row.artifact_location, Some(ArtifactKey::RecursionTip { block_number: 302 }));
    assert_eq!(row.duration, Some(10));
    let circuit = store.get_recursion_tip(302).unwrap().expect("artifact must be stored");
    assert_eq!(circuit.witness, sample_witness());
}

#[test]
fn saving_failure_records_the_error_and_writes_no_artifact() {
    let mut queue = JobTable::new();
    queue.enqueue(303, 1, 1, vec![(1, 11)]);
    let worker = "worker-f".to_string();
    queue.claim_next(1, &worker);
    let mut store = ArtifactStore::new();
    let mut saver = RecursionTipJobSaver::new(None, false);

    let saved = saver.save_job_result(
        (Err(StageError::Compute), sample_metadata(303)),
        &mut queue,
        &mut store,
        150,
    );
    assert_eq!(saved, Ok(()));
    assert_eq!(queue.row(0).status, JobStatus::Failed);
    assert_eq!(queue.row(0).error, Some(StageError::Compute));
    assert_eq!(queue.row(0).duration, None);
    assert_eq!(store.get_recursion_tip(303).unwrap(), None);
}

#[test]
fn saving_into_an_unreachable_store_is_transient_and_records_nothing() {
    let mut queue = JobTable::new();
    queue.enqueue(304, 1, 1, vec![(1, 11)]);
    let worker = "worker-t".to_string();
    queue.claim_next(1, &worker);
    let mut store = ArtifactStore::new();
    store.set_available(false);
    let mut saver = RecursionTipJobSaver::new(None, false);

    let output = RecursionTipOutput {
        recursion_tip_circuit: RecursionTipCircuit { witness: sample_witness(), vk_words: vec![5] },
    };
    let saved = saver.save_job_result((Ok(output), sample_metadata(304)), &mut queue, &mut store, 150);
    assert_eq!(saved, Err(StageError::StoreUnavailable));
    assert_eq!(queue.row(0).status, JobStatus::Picked);
    store.set_available(true);
    assert_eq!(store.get_recursion_tip(304).unwrap(), None);
}

#[test]
fn picking_an_inconsistent_job_reports_both_counts_before_any_artifact_read() {
    let mut queue = JobTable::new();
    queue.enqueue(306, 1, 2, vec![(1, 11)]);
    let store = ArtifactStore::new();
    let mut picker = RecursionTipJobPicker::new(full_keystore(), 1, "worker-p".to_string());
    let picked = picker.pick_job(&mut queue, &store, 10, 11);
    assert_eq!(
        picked,
        Err(PickError {
            batch_number: 306,
            error: StageError::DependencyInconsistency { expected: 2, fetched: 1 },
        })
    );
    assert_eq!(queue.row(0).status, JobStatus::Picked);
}

#[test]
fn the_storage_key_text_names_batch_and_circuit() {
    assert_eq!(
        ClosedFormInputWrapper::encode_key(100, 2),
        b"closed_form_inputs_100_2.bin".to_vec()
    );
    assert_eq!(
        ClosedFormInputWrapper::encode_key(0, 16),
        b"closed_form_inputs_0_16.bin".to_vec()
    );
    assert_eq!(
        ClosedFormInputWrapper::encode_key(u32::MAX, 255),
        b"closed_form_inputs_4294967295_255.bin".to_vec()
    );
}

#[test]
fn a_save_duration_is_never_negative() {
    // A save stamped earlier than the pick is clamped to a zero duration.
    let mut queue = JobTable::new();
    queue.enqueue(305, 1, 1, vec![(1, 11)]);
    let worker = "worker-c".to_string();
    queue.claim_next(1, &worker);
    let mut store = ArtifactStore::new();
    let mut saver = RecursionTipJobSaver::new(None, false);
    let output = RecursionTipOutput {
        recursion_tip_circuit: RecursionTipCircuit { witness: sample_witness(), vk_words: vec![5] },
    };
    let saved = saver.save_job_result((Ok(output), sample_metadata(305)), &mut queue, &mut store, 120);
    assert_eq!(saved, Ok(()));
    assert_eq!(queue.row(0).duration, Some(0));
}
