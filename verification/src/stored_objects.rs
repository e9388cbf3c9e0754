//! The per-circuit stored object read back by the picker.

use vstd::prelude::*;

use crate::types::{copy_words, QueueState, QueueStateView};

verus! {

/// One circuit type's closed-form inputs and recursion queue for a batch,
/// as the upstream stage stored them.
#[derive(Debug, PartialEq, Eq)]
pub struct ClosedFormInputWrapper(pub Vec<u64>, pub QueueState);

/// Mathematical view of a [`ClosedFormInputWrapper`].
#[verifier::ext_equal]
pub struct ClosedFormInputWrapperView {
    pub closed_form_inputs: Seq<u64>,
    pub queue: QueueStateView,
}

impl View for ClosedFormInputWrapper {
    type V = ClosedFormInputWrapperView;

    open spec fn view(&self) -> ClosedFormInputWrapperView {
        ClosedFormInputWrapperView { closed_form_inputs: self.0@, queue: self.1@ }
    }
}

/// The decimal digits of `n`, most significant first, as ASCII bytes.
pub open spec fn dec_digits(n: nat) -> Seq<u8>
    decreases n,
{
    if n < 10 {
        seq![(0x30 + n) as u8]
    } else {
        dec_digits(n / 10).push((0x30 + n % 10) as u8)
    }
}

/// Appends the decimal digits of `n` to `out`.
fn push_dec(out: &mut Vec<u8>, n: u64)
    ensures
        final(out)@ == old(out)@ + dec_digits(n as nat),
    decreases n,
{
    if n < 10 {
        out.push((0x30 + n) as u8);
        proof {
            assert(out@ =~= old(out)@ + dec_digits(n as nat));
        }
    } else {
        let ghost pre = out@;
        push_dec(out, n / 10);
        out.push((0x30 + n % 10) as u8);
        proof {
            assert((n / 10) as nat == (n as nat) / 10);
            assert(out@ =~= pre + dec_digits(n as nat));
        }
    }
}

/// The ASCII bytes of `closed_form_inputs_`.
pub open spec fn closed_form_input_key_prefix() -> Seq<u8> {
    seq![
        0x63u8,
        0x6cu8,
        0x6fu8,
        0x73u8,
        0x65u8,
        0x64u8,
        0x5fu8,
        0x66u8,
        0x6fu8,
        0x72u8,
        0x6du8,
        0x5fu8,
        0x69u8,
        0x6eu8,
        0x70u8,
        0x75u8,
        0x74u8,
        0x73u8,
        0x5fu8,
    ]
}

/// The storage-key text a wrapper is stored under:
/// `closed_form_inputs_<block_number>_<circuit_id>.bin`, as ASCII bytes.
pub open spec fn encode_key_spec(block_number: u32, circuit_id: u8) -> Seq<u8> {
    closed_form_input_key_prefix() + dec_digits(block_number as nat) + seq![0x5fu8] + dec_digits(
        circuit_id as nat,
    ) + seq![0x2eu8, 0x62u8, 0x69u8, 0x6eu8]
}

impl ClosedFormInputWrapper {
    /// Copies the wrapper, field for field.
    pub fn duplicate(&self) -> (r: ClosedFormInputWrapper)
        ensures
            r@ == self@,
    {
        ClosedFormInputWrapper(copy_words(&self.0), self.1.duplicate())
    }

    /// Writes out the storage-key text of a batch's per-circuit wrapper.
    pub fn encode_key(block_number: u32, circuit_id: u8) -> (r: Vec<u8>)
        ensures
            r@ == encode_key_spec(block_number, circuit_id),
    {
        let mut r: Vec<u8> = Vec::new();
        r.push(0x63);
        r.push(0x6c);
        r.push(0x6f);
        r.push(0x73);
        r.push(0x65);
        r.push(0x64);
        r.push(0x5f);
        r.push(0x66);
        r.push(0x6f);
        r.push(0x72);
        r.push(0x6d);
        r.push(0x5f);
        r.push(0x69);
        r.push(0x6e);
        r.push(0x70);
        r.push(0x75);
        r.push(0x74);
        r.push(0x73);
        r.push(0x5f);
        proof {
            assert(r@ =~= closed_form_input_key_prefix());
        }
        push_dec(&mut r, block_number as u64);
        r.push(0x5f);
        push_dec(&mut r, circuit_id as u64);
        r.push(0x2e);
        r.push(0x62);
        r.push(0x69);
        r.push(0x6e);
        proof {
            assert(r@ =~= encode_key_spec(block_number, circuit_id));
        }
        r
    }
}

} // verus!
