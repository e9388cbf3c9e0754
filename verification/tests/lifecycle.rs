//! End-to-end scenarios of the pick -> execute -> save lifecycle.

use witness_generator_service::artifact_store::{ArtifactKey, ArtifactStore};
use witness_generator_service::errors::StageError;
use witness_generator_service::job_queue::{JobStatus, JobTable};
use witness_generator_service::job_runner::{CycleOutcome, WgRunnerBuilder};
use witness_generator_service::stored_objects::ClosedFormInputWrapper;
use witness_generator_service::types::{
    Keystore, LeafParameters, NodeVerificationKey, QueueState, Slot, BASE_LAYER_CIRCUIT_COUNT,
    RECURSION_TIP_ARITY,
};

fn sample_keystore() -> Keystore {
    let mut leaf_vk_params = Vec::new();
    for circuit_id in 1..=(BASE_LAYER_CIRCUIT_COUNT as u8) {
        leaf_vk_params.push((
            circuit_id,
            LeafParameters { commitment: vec![circuit_id as u64, 1000 + circuit_id as u64] },
        ));
    }
    Keystore { node_vk: NodeVerificationKey { words: vec![1, 2, 3] }, leaf_vk_params }
}

fn sample_queue_state(seed: u64) -> QueueState {
    QueueState { commitment: vec![seed, seed + 1, seed + 2], num_items: seed }
}

fn store_with_queues(batch_number: u32, circuit_ids: &[u8]) -> ArtifactStore {
    let mut store = ArtifactStore::new();
    for &circuit_id in circuit_ids {
        store
            .put_closed_form_input(
                batch_number,
                circuit_id,
                ClosedFormInputWrapper(vec![7, 8], sample_queue_state(circuit_id as u64)),
            )
            .unwrap();
    }
    store
}

#[test]
fn scenario_batch_with_two_present_circuit_types_succeeds() {
    let mut queue = JobTable::new();
    queue.enqueue(100, 1, 3, vec![(1, 10), (2, 20), (3, 30)]);
    let mut store = store_with_queues(100, &[1, 2]);

    let builder = WgRunnerBuilder::new(sample_keystore(), 1, "worker-1".to_string(), None, false);
    let mut runner = builder.recursion_tip_runner();

    let outcome = runner.run_cycle(&mut queue, &mut store, 10, 20, 50);
    assert_eq!(outcome, CycleOutcome::Succeeded { batch_number: 100 });

    let row = queue.row(0);
    assert_eq!(row.status, JobStatus::Succeeded);
    assert_eq!(
        row.artifact_location,
        Some(ArtifactKey::RecursionTip { block_number: 100 })
    );
    assert_eq!(row.duration, Some(30));
    assert_eq!(row.error, None);
    assert_eq!(row.picked_by, Some("worker-1".to_string()));

    let circuit = store.get_recursion_tip(100).unwrap().expect("artifact must be stored");
    assert_eq!(circuit.witness.slots.len(), RECURSION_TIP_ARITY);
    match &circuit.witness.slots[0] {
        Slot::Present { circuit_type, queue } => {
            assert_eq!(*circuit_type, 1);
            assert_eq!(*queue, sample_queue_state(1));
        }
        Slot::Placeholder => panic!("first slot must be populated"),
    }
    match &circuit.witness.slots[1] {
        Slot::Present { circuit_type, queue } => {
            assert_eq!(*circuit_type, 2);
            assert_eq!(*queue, sample_queue_state(2));
        }
        Slot::Placeholder => panic!("second slot must be populated"),
    }
    for i in 2..RECURSION_TIP_ARITY {
        assert_eq!(circuit.witness.slots[i], Slot::Placeholder);
    }
    assert_eq!(circuit.witness.leaf_layer_parameters.len(), BASE_LAYER_CIRCUIT_COUNT);
    // fold of [1, 2, 3]: ((0 * 31 + 1) * 31 + 2) * 31 + 3
    assert_eq!(circuit.witness.node_layer_vk_commitment, 1026);
    assert_eq!(circuit.vk_words, vec![1, 2, 3]);
}

#[test]
fn scenario_dependency_inconsistency_fails_only_that_batch() {
    let mut queue = JobTable::new();
    // Batch 101 was scheduled expecting four dependency jobs, but only
    // three are listed.
    queue.enqueue(101, 1, 4, vec![(1, 10), (2, 20), (3, 30)]);
    queue.enqueue(100, 1, 3, vec![(1, 11), (2, 21), (3, 31)]);
    let mut store = store_with_queues(100, &[1, 2]);

    let builder = WgRunnerBuilder::new(sample_keystore(), 1, "worker-1".to_string(), None, false);
    let mut runner = builder.recursion_tip_runner();

    let outcome = runner.run_cycle(&mut queue, &mut store, 1, 2, 3);
    assert_eq!(outcome, CycleOutcome::JobFailed { batch_number: 101 });
    assert_eq!(queue.row(0).status, JobStatus::Failed);
    assert_eq!(
        queue.row(0).error,
        Some(StageError::DependencyInconsistency { expected: 4, fetched: 3 })
    );
    // No artifact was written for the failed batch.
    assert_eq!(store.get_recursion_tip(101).unwrap(), None);
    // Batch 100 is unaffected and still succeeds.
    assert_eq!(queue.row(1).status, JobStatus::Queued);
    let outcome = runner.run_cycle(&mut queue, &mut store, 4, 5, 6);
    assert_eq!(outcome, CycleOutcome::Succeeded { batch_number: 100 });
    assert_eq!(queue.row(1).status, JobStatus::Succeeded);
}

#[test]
fn scenario_unreachable_store_is_transient_and_leaves_row_picked() {
    let mut queue = JobTable::new();
    queue.enqueue(102, 1, 2, vec![(1, 10), (2, 20)]);
    let mut store = store_with_queues(102, &[1]);
    store.set_available(false);

    let builder = WgRunnerBuilder::new(sample_keystore(), 1, "worker-2".to_string(), None, false);
    let mut runner = builder.recursion_tip_runner();

    let outcome = runner.run_cycle(&mut queue, &mut store, 1, 2, 3);
    assert_eq!(outcome, CycleOutcome::TransientError);
    assert_eq!(queue.row(0).status, JobStatus::Picked);
    assert_eq!(queue.row(0).error, None);
    assert_eq!(store.get_recursion_tip(102).ok(), None);

    // The caller backs off; once the store is reachable again, the row is
    // still claimed, so this worker's next cycle finds nothing to do.
    store.set_available(true);
    let outcome = runner.run_cycle(&mut queue, &mut store, 4, 5, 6);
    assert_eq!(outcome, CycleOutcome::NothingToDo);
    assert_eq!(queue.row(0).status, JobStatus::Picked);
}

#[test]
fn batch_with_no_present_circuit_types_builds_all_placeholders() {
    let mut queue = JobTable::new();
    queue.enqueue(103, 1, 0, Vec::new());
    let mut store = ArtifactStore::new();

    let builder = WgRunnerBuilder::new(sample_keystore(), 1, "worker-3".to_string(), None, false);
    let mut runner = builder.recursion_tip_runner();

    let outcome = runner.run_cycle(&mut queue, &mut store, 0, 0, 0);
    assert_eq!(outcome, CycleOutcome::Succeeded { batch_number: 103 });
    assert_eq!(queue.row(0).duration, Some(0));
    let circuit = store.get_recursion_tip(103).unwrap().expect("artifact must be stored");
    for i in 0..RECURSION_TIP_ARITY {
        assert_eq!(circuit.witness.slots[i], Slot::Placeholder);
    }
}

#[test]
fn parameter_cardinality_mismatch_is_fatal_for_the_batch() {
    let mut queue = JobTable::new();
    queue.enqueue(104, 1, 1, vec![(1, 10)]);
    let mut store = store_with_queues(104, &[1]);

    let mut keystore = sample_keystore();
    keystore.leaf_vk_params.pop();
    let builder = WgRunnerBuilder::new(keystore, 1, "worker-4".to_string(), None, false);
    let mut runner = builder.recursion_tip_runner();

    let outcome = runner.run_cycle(&mut queue, &mut store, 1, 2, 3);
    assert_eq!(outcome, CycleOutcome::JobFailed { batch_number: 104 });
    assert_eq!(
        queue.row(0).error,
        Some(StageError::ParameterCardinalityMismatch { found: 15 })
    );
    assert_eq!(store.get_recursion_tip(104).unwrap(), None);
}

#[test]
fn empty_table_has_nothing_to_do() {
    let mut queue = JobTable::new();
    let mut store = ArtifactStore::new();
    let builder = WgRunnerBuilder::new(sample_keystore(), 1, "worker-5".to_string(), None, false);
    let mut runner = builder.recursion_tip_runner();
    let outcome = runner.run_cycle(&mut queue, &mut store, 1, 2, 3);
    assert_eq!(outcome, CycleOutcome::NothingToDo);
}

#[test]
fn claim_is_scoped_by_protocol_version() {
    let mut queue = JobTable::new();
    queue.enqueue(105, 7, 0, Vec::new());
    let mut store = ArtifactStore::new();
    let builder = WgRunnerBuilder::new(sample_keystore(), 1, "worker-6".to_string(), None, false);
    let mut runner = builder.recursion_tip_runner();
    let outcome = runner.run_cycle(&mut queue, &mut store, 1, 2, 3);
    assert_eq!(outcome, CycleOutcome::NothingToDo);
    assert_eq!(queue.row(0).status, JobStatus::Queued);
}

#[test]
fn mirroring_writes_the_artifact_to_both_stores() {
    let mut queue = JobTable::new();
    queue.enqueue(106, 1, 0, Vec::new());
    let mut store = store_with_queues(106, &[3]);

    let builder = WgRunnerBuilder::new(
        sample_keystore(),
        1,
        "worker-7".to_string(),
        Some(ArtifactStore::new()),
        true,
    );
    let mut runner = builder.recursion_tip_runner();
    let outcome = runner.run_cycle(&mut queue, &mut store, 1, 2, 3);
    assert_eq!(outcome, CycleOutcome::Succeeded { batch_number: 106 });

    let primary = store.get_recursion_tip(106).unwrap().expect("primary must hold the artifact");
    let public = runner
        .saver
        .public_blob_store
        .as_ref()
        .expect("public store is configured")
        .get_recursion_tip(106)
        .unwrap()
        .expect("mirror must hold the artifact");
    assert_eq!(primary, public);
}

#[test]
fn disabled_mirroring_leaves_the_public_store_empty() {
    let mut queue = JobTable::new();
    queue.enqueue(107, 1, 0, Vec::new());
    let mut store = ArtifactStore::new();

    let builder = WgRunnerBuilder::new(
        sample_keystore(),
        1,
        "worker-8".to_string(),
        Some(ArtifactStore::new()),
        false,
    );
    let mut runner = builder.recursion_tip_runner();
    let outcome = runner.run_cycle(&mut queue, &mut store, 1, 2, 3);
    assert_eq!(outcome, CycleOutcome::Succeeded { batch_number: 107 });
    assert!(store.get_recursion_tip(107).unwrap().is_some());
    let public = runner
        .saver
        .public_blob_store
        .as_ref()
        .expect("public store is configured")
        .get_recursion_tip(107)
        .unwrap();
    assert_eq!(public, None);
}
