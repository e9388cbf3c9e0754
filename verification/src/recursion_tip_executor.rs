//! The executor: a pure, deterministic transform from validated input
//! and metadata to the aggregate artifact.

use vstd::prelude::*;

use crate::errors::StageError;
use crate::types::{
    RecursionTipCircuit, RecursionTipInput, RecursionTipInputView, RecursionTipMetadata,
    RecursionTipOutput, BASE_LAYER_CIRCUIT_COUNT, RECURSION_TIP_ARITY,
};

verus! {

/// An input the executor can turn into an artifact: a full complement of
/// aggregate slots and a full parameter table.
pub open spec fn well_formed_input(input: RecursionTipInputView) -> bool {
    &&& input.recursion_tip_witness.slots.len() == RECURSION_TIP_ARITY
    &&& input.recursion_tip_witness.leaf_layer_parameters.len() == BASE_LAYER_CIRCUIT_COUNT
}

/// The executor of the recursion-tip stage.
pub struct RecursionTipExecutor {}

impl RecursionTipExecutor {
    pub fn new() -> (r: RecursionTipExecutor) {
        RecursionTipExecutor {}
    }

    /// Builds the aggregate artifact from the validated input.
    ///
    /// Pure and deterministic: no store is touched, and the artifact
    /// carries exactly the witness and the key material of the input. A
    /// malformed input is a computation-class error; it is not retried
    /// here but handed to the saver's failure path.
    pub fn execute(&self, input: RecursionTipInput, _metadata: RecursionTipMetadata) -> (r: Result<
        RecursionTipOutput,
        StageError,
    >)
        ensures
            r is Ok <==> well_formed_input(input@),
            r matches Ok(out) ==> out@.witness == input@.recursion_tip_witness && out@.vk_words
                == input@.node_vk,
            r matches Err(e) ==> e == StageError::Compute,
    {
        if input.recursion_tip_witness.slots.len() != RECURSION_TIP_ARITY {
            return Err(StageError::Compute);
        }
        if input.recursion_tip_witness.leaf_layer_parameters.len() != BASE_LAYER_CIRCUIT_COUNT {
            return Err(StageError::Compute);
        }
        Ok(
            RecursionTipOutput {
                recursion_tip_circuit: RecursionTipCircuit {
                    witness: input.recursion_tip_witness,
                    vk_words: input.node_vk.words,
                },
            },
        )
    }
}

} // verus!
