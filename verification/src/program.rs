//! The on-platform entry points: one-time circuit definition, the submit
//! entry that validates and queues a request for the external executor, and
//! the callback entry that records the executor's outcome exactly once and
//! publishes it as an event. The surrounding ledger persists the state;
//! these functions own every decision about it.
use crate::orchestrator::Argument;
use crate::orchestrator::CallbackError;
use crate::orchestrator::ComputationOutcome;
use crate::orchestrator::Orchestrator;
use crate::orchestrator::Phase;
use crate::orchestrator::SubmitError;
use crate::orchestrator::is_terminal;
use crate::orchestrator::kinds_of;
use crate::registry::ArgKind;
use crate::registry::Registry;
use crate::registry::RegistryError;
use vstd::prelude::*;

verus! {

/// The identifier of the two-value sum circuit.
pub const COMP_DEF_OFFSET_ADD_TOGETHER: u32 = 1;

/// The identifier of the response-submission circuit.
pub const COMP_DEF_OFFSET_SUBMIT_RESPONSE: u32 = 2;

/// The declared argument shape of the sum circuit.
pub open spec fn add_together_shape() -> Seq<ArgKind> {
    seq![ArgKind::ArcisPubkey, ArgKind::PlaintextU128, ArgKind::EncryptedU8, ArgKind::EncryptedU8]
}

/// The declared argument shape of the response circuit.
pub open spec fn submit_response_shape() -> Seq<ArgKind> {
    seq![ArgKind::ArcisPubkey, ArgKind::PlaintextU128, ArgKind::EncryptedU64]
}

/// One encrypted output record as the executor delivers it: the ciphertext
/// blocks and the nonce they were sealed under.
pub struct EncryptedOutput {
    pub ciphertexts: Vec<[u8; 32]>,
    pub nonce: u128,
}

/// The sum circuit's delivered output.
pub struct AddTogetherOutput {
    pub field_0: EncryptedOutput,
}

/// The response circuit's delivered output.
pub struct SubmitResponseOutput {
    pub field_0: EncryptedOutput,
}

/// What the executor delivers to a callback: the circuit's output, or an
/// abort marker.
pub enum ComputationOutputs<T> {
    Success(T),
    Failure,
}

/// The published result of the sum circuit.
#[derive(PartialEq, Eq, Clone, Copy, Debug)]
pub struct SumEvent {
    pub sum: [u8; 32],
    pub nonce: [u8; 16],
}

/// The published result of the response circuit.
#[derive(PartialEq, Eq, Clone, Copy, Debug)]
pub struct ResponseEvent {
    pub response: [u8; 32],
    pub nonce: [u8; 16],
}

/// How a callback entry point can fail.
#[derive(PartialEq, Eq, Structural, Clone, Copy, Debug)]
pub enum ErrorCode {
    /// The computation was aborted by the executor.
    AbortedComputation,
    /// The executor cluster is not set.
    ClusterNotSet,
    /// No queued or executing request carries the offset.
    UnknownOffset,
    /// The offset's request already received its result.
    DuplicateResult,
}

/// A nonce's sixteen bytes, least significant first.
pub open spec fn nonce_le_bytes(n: u128) -> Seq<u8> {
    seq![
        (n & 0xff) as u8,
        ((n >> 8) & 0xff) as u8,
        ((n >> 16) & 0xff) as u8,
        ((n >> 24) & 0xff) as u8,
        ((n >> 32) & 0xff) as u8,
        ((n >> 40) & 0xff) as u8,
        ((n >> 48) & 0xff) as u8,
        ((n >> 56) & 0xff) as u8,
        ((n >> 64) & 0xff) as u8,
        ((n >> 72) & 0xff) as u8,
        ((n >> 80) & 0xff) as u8,
        ((n >> 88) & 0xff) as u8,
        ((n >> 96) & 0xff) as u8,
        ((n >> 104) & 0xff) as u8,
        ((n >> 112) & 0xff) as u8,
        ((n >> 120) & 0xff) as u8,
    ]
}

/// Serializes a nonce into its sixteen bytes, least significant first.
fn nonce_to_le_bytes(n: u128) -> (r: [u8; 16])
    ensures
        r@ == nonce_le_bytes(n),
{
    proof {
        assert((n & 0xff) < 256 && ((n >> 8) & 0xff) < 256 && ((n >> 16) & 0xff) < 256 && ((n
            >> 24) & 0xff) < 256 && ((n >> 32) & 0xff) < 256 && ((n >> 40) & 0xff) < 256 && ((n
            >> 48) & 0xff) < 256 && ((n >> 56) & 0xff) < 256 && ((n >> 64) & 0xff) < 256 && ((n
            >> 72) & 0xff) < 256 && ((n >> 80) & 0xff) < 256 && ((n >> 88) & 0xff) < 256 && ((n
            >> 96) & 0xff) < 256 && ((n >> 104) & 0xff) < 256 && ((n >> 112) & 0xff) < 256 && ((n
            >> 120) & 0xff) < 256) by (bit_vector);
    }
    let r: [u8; 16] = [
        (n & 0xff) as u8,
        ((n >> 8) & 0xff) as u8,
        ((n >> 16) & 0xff) as u8,
        ((n >> 24) & 0xff) as u8,
        ((n >> 32) & 0xff) as u8,
        ((n >> 40) & 0xff) as u8,
        ((n >> 48) & 0xff) as u8,
        ((n >> 56) & 0xff) as u8,
        ((n >> 64) & 0xff) as u8,
        ((n >> 72) & 0xff) as u8,
        ((n >> 80) & 0xff) as u8,
        ((n >> 88) & 0xff) as u8,
        ((n >> 96) & 0xff) as u8,
        ((n >> 104) & 0xff) as u8,
        ((n >> 112) & 0xff) as u8,
        ((n >> 120) & 0xff) as u8,
    ];
    proof {
        assert(r@ =~= nonce_le_bytes(n));
    }
    r
}

/// Defines the sum circuit exactly once; a second call fails with
/// `AlreadyDefined` and changes nothing.
pub fn init_add_together_comp_def(registry: &mut Registry) -> (r: Result<(), RegistryError>)
    requires
        old(registry).wf(),
    ensures
        final(registry).wf(),
        r is Ok <==> !old(registry).spec_defined(COMP_DEF_OFFSET_ADD_TOGETHER),
        r is Err ==> r == Result::<(), RegistryError>::Err(RegistryError::AlreadyDefined) && *final(registry) == *old(registry),
        r is Ok ==> final(registry).spec_defined(COMP_DEF_OFFSET_ADD_TOGETHER) && final(registry).spec_shape(COMP_DEF_OFFSET_ADD_TOGETHER) == add_together_shape(),
        forall|x: u32|
            final(registry).spec_defined(x) == (old(registry).spec_defined(x) || (r is Ok && x
                == COMP_DEF_OFFSET_ADD_TOGETHER)),
        forall|x: u32|
            old(registry).spec_defined(x) ==> final(registry).spec_shape(x) == old(
                registry,
            ).spec_shape(x),
{
    let mut shape: Vec<ArgKind> = Vec::new();
    shape.push(ArgKind::ArcisPubkey);
    shape.push(ArgKind::PlaintextU128);
    shape.push(ArgKind::EncryptedU8);
    shape.push(ArgKind::EncryptedU8);
    proof {
        assert(shape@ =~= add_together_shape());
    }
    registry.define(COMP_DEF_OFFSET_ADD_TOGETHER, shape)
}

/// Defines the response circuit exactly once; a second call fails with
/// `AlreadyDefined` and changes nothing.
pub fn init_submit_response_comp_def(registry: &mut Registry) -> (r: Result<(), RegistryError>)
    requires
        old(registry).wf(),
    ensures
        final(registry).wf(),
        r is Ok <==> !old(registry).spec_defined(COMP_DEF_OFFSET_SUBMIT_RESPONSE),
        r is Err ==> r == Result::<(), RegistryError>::Err(RegistryError::AlreadyDefined) && *final(registry) == *old(registry),
        r is Ok ==> final(registry).spec_defined(COMP_DEF_OFFSET_SUBMIT_RESPONSE) && final(registry).spec_shape(COMP_DEF_OFFSET_SUBMIT_RESPONSE) == submit_response_shape(),
        forall|x: u32|
            final(registry).spec_defined(x) == (old(registry).spec_defined(x) || (r is Ok && x
                == COMP_DEF_OFFSET_SUBMIT_RESPONSE)),
        forall|x: u32|
            old(registry).spec_defined(x) ==> final(registry).spec_shape(x) == old(
                registry,
            ).spec_shape(x),
{
    let mut shape: Vec<ArgKind> = Vec::new();
    shape.push(ArgKind::ArcisPubkey);
    shape.push(ArgKind::PlaintextU128);
    shape.push(ArgKind::EncryptedU64);
    proof {
        assert(shape@ =~= submit_response_shape());
    }
    registry.define(COMP_DEF_OFFSET_SUBMIT_RESPONSE, shape)
}

/// Validates and queues one sum request for the external executor: fresh
/// offset, defined circuit, matching shape, in that order; a refused request
/// never enters the queue.
pub fn add_together(
    orchestrator: &mut Orchestrator,
    registry: &Registry,
    computation_offset: u64,
    ciphertext_0: [u8; 32],
    ciphertext_1: [u8; 32],
    pub_key: [u8; 32],
    nonce: u128,
) -> (r: Result<u64, SubmitError>)
    requires
        old(orchestrator).wf(),
        registry.wf(),
    ensures
        final(orchestrator).wf(),
        r == if old(orchestrator).spec_known(computation_offset) {
            Err::<u64, SubmitError>(SubmitError::DuplicateOffset)
        } else if !registry.spec_defined(COMP_DEF_OFFSET_ADD_TOGETHER) {
            Err::<u64, SubmitError>(SubmitError::UndefinedComputation)
        } else if add_together_shape() != registry.spec_shape(COMP_DEF_OFFSET_ADD_TOGETHER) {
            Err::<u64, SubmitError>(SubmitError::ShapeMismatch)
        } else {
            Ok::<u64, SubmitError>(computation_offset)
        },
        r is Err ==> *final(orchestrator) == *old(orchestrator),
        r is Ok ==> final(orchestrator).spec_known(computation_offset) && final(orchestrator).spec_phase(computation_offset) == Phase::Queued,
        forall|x: u64|
            final(orchestrator).spec_known(x) == (old(orchestrator).spec_known(x) || (r is Ok && x
                == computation_offset)),
        forall|x: u64|
            old(orchestrator).spec_known(x) ==> final(orchestrator).spec_phase(x) == old(
                orchestrator,
            ).spec_phase(x),
{
    let mut args: Vec<Argument> = Vec::new();
    args.push(Argument::ArcisPubkey(pub_key));
    args.push(Argument::PlaintextU128(nonce));
    args.push(Argument::EncryptedU8(ciphertext_0));
    args.push(Argument::EncryptedU8(ciphertext_1));
    proof {
        assert(kinds_of(args@) =~= add_together_shape());
    }
    orchestrator.submit(registry, COMP_DEF_OFFSET_ADD_TOGETHER, computation_offset, &args)
}

/// Validates and queues one response request for the external executor:
/// fresh offset, defined circuit, matching shape, in that order; a refused
/// request never enters the queue.
pub fn submit_response(
    orchestrator: &mut Orchestrator,
    registry: &Registry,
    computation_offset: u64,
    ciphertext: [u8; 32],
    pub_key: [u8; 32],
    nonce: u128,
) -> (r: Result<u64, SubmitError>)
    requires
        old(orchestrator).wf(),
        registry.wf(),
    ensures
        final(orchestrator).wf(),
        r == if old(orchestrator).spec_known(computation_offset) {
            Err::<u64, SubmitError>(SubmitError::DuplicateOffset)
        } else if !registry.spec_defined(COMP_DEF_OFFSET_SUBMIT_RESPONSE) {
            Err::<u64, SubmitError>(SubmitError::UndefinedComputation)
        } else if submit_response_shape() != registry.spec_shape(COMP_DEF_OFFSET_SUBMIT_RESPONSE) {
            Err::<u64, SubmitError>(SubmitError::ShapeMismatch)
        } else {
            Ok::<u64, SubmitError>(computation_offset)
        },
        r is Err ==> *final(orchestrator) == *old(orchestrator),
        r is Ok ==> final(orchestrator).spec_known(computation_offset) && final(orchestrator).spec_phase(computation_offset) == Phase::Queued,
        forall|x: u64|
            final(orchestrator).spec_known(x) == (old(orchestrator).spec_known(x) || (r is Ok && x
                == computation_offset)),
        forall|x: u64|
            old(orchestrator).spec_known(x) ==> final(orchestrator).spec_phase(x) == old(
                orchestrator,
            ).spec_phase(x),
{
    let mut args: Vec<Argument> = Vec::new();
    args.push(Argument::ArcisPubkey(pub_key));
    args.push(Argument::PlaintextU128(nonce));
    args.push(Argument::EncryptedU64(ciphertext));
    proof {
        assert(kinds_of(args@) =~= submit_response_shape());
    }
    orchestrator.submit(registry, COMP_DEF_OFFSET_SUBMIT_RESPONSE, computation_offset, &args)
}

/// Records the sum circuit's callback exactly once and publishes the result
/// event; an abort is surfaced as `AbortedComputation`, and a replayed or
/// unknown callback is refused without touching any state.
pub fn add_together_callback(
    orchestrator: &mut Orchestrator,
    offset: u64,
    output: ComputationOutputs<AddTogetherOutput>,
) -> (r: Result<SumEvent, ErrorCode>)
    requires
        old(orchestrator).wf(),
        output matches ComputationOutputs::Success(o) ==> o.field_0.ciphertexts@.len() >= 1,
    ensures
        final(orchestrator).wf(),
        !old(orchestrator).spec_known(offset) ==> r == Result::<SumEvent, ErrorCode>::Err(
            ErrorCode::UnknownOffset,
        ) && *final(orchestrator) == *old(orchestrator),
        old(orchestrator).spec_known(offset) && is_terminal(old(orchestrator).spec_phase(offset))
            ==> r == Result::<SumEvent, ErrorCode>::Err(ErrorCode::DuplicateResult) && *final(orchestrator) == *old(orchestrator),
        old(orchestrator).spec_known(offset) && !is_terminal(old(orchestrator).spec_phase(offset))
            ==> match output {
            ComputationOutputs::Success(o) => {
                &&& r is Ok
                &&& r->Ok_0.sum == o.field_0.ciphertexts@[0]
                &&& r->Ok_0.nonce@ == nonce_le_bytes(o.field_0.nonce)
                &&& final(orchestrator).spec_phase(offset) == Phase::Completed
            },
            ComputationOutputs::Failure => {
                &&& r == Result::<SumEvent, ErrorCode>::Err(ErrorCode::AbortedComputation)
                &&& final(orchestrator).spec_phase(offset) == Phase::Aborted
            },
        },
        forall|x: u64| final(orchestrator).spec_known(x) == old(orchestrator).spec_known(x),
        forall|x: u64|
            x != offset && old(orchestrator).spec_known(x) ==> final(orchestrator).spec_phase(x)
                == old(orchestrator).spec_phase(x),
{
    let outcome = match output {
        ComputationOutputs::Success(o) => ComputationOutcome::Success {
            blocks: o.field_0.ciphertexts,
            nonce: o.field_0.nonce,
        },
        ComputationOutputs::Failure => ComputationOutcome::Abort,
    };
    match orchestrator.on_result(offset, &outcome) {
        Err(CallbackError::UnknownOffset) => Err(ErrorCode::UnknownOffset),
        Err(CallbackError::DuplicateResult) => Err(ErrorCode::DuplicateResult),
        Ok(_) => match outcome {
            ComputationOutcome::Success { blocks, nonce } => Ok(
                SumEvent { sum: blocks[0], nonce: nonce_to_le_bytes(nonce) },
            ),
            ComputationOutcome::Abort => Err(ErrorCode::AbortedComputation),
        },
    }
}

/// Records the response circuit's callback exactly once and publishes the
/// result event; an abort is surfaced as `AbortedComputation`, and a
/// replayed or unknown callback is refused without touching any state.
pub fn submit_response_callback(
    orchestrator: &mut Orchestrator,
    offset: u64,
    output: ComputationOutputs<SubmitResponseOutput>,
) -> (r: Result<ResponseEvent, ErrorCode>)
    requires
        old(orchestrator).wf(),
        output matches ComputationOutputs::Success(o) ==> o.field_0.ciphertexts@.len() >= 1,
    ensures
        final(orchestrator).wf(),
        !old(orchestrator).spec_known(offset) ==> r == Result::<ResponseEvent, ErrorCode>::Err(
            ErrorCode::UnknownOffset,
        ) && *final(orchestrator) == *old(orchestrator),
        old(orchestrator).spec_known(offset) && is_terminal(old(orchestrator).spec_phase(offset))
            ==> r == Result::<ResponseEvent, ErrorCode>::Err(ErrorCode::DuplicateResult) && *final(orchestrator) == *old(orchestrator),
        old(orchestrator).spec_known(offset) && !is_terminal(old(orchestrator).spec_phase(offset))
            ==> match output {
            ComputationOutputs::Success(o) => {
                &&& r is Ok
                &&& r->Ok_0.response == o.field_0.ciphertexts@[0]
                &&& r->Ok_0.nonce@ == nonce_le_bytes(o.field_0.nonce)
                &&& final(orchestrator).spec_phase(offset) == Phase::Completed
            },
            ComputationOutputs::Failure => {
                &&& r == Result::<ResponseEvent, ErrorCode>::Err(ErrorCode::AbortedComputation)
                &&& final(orchestrator).spec_phase(offset) == Phase::Aborted
            },
        },
        forall|x: u64| final(orchestrator).spec_known(x) == old(orchestrator).spec_known(x),
        forall|x: u64|
            x != offset && old(orchestrator).spec_known(x) ==> final(orchestrator).spec_phase(x)
                == old(orchestrator).spec_phase(x),
{
    let outcome = match output {
        ComputationOutputs::Success(o) => ComputationOutcome::Success {
            blocks: o.field_0.ciphertexts,
            nonce: o.field_0.nonce,
        },
        ComputationOutputs::Failure => ComputationOutcome::Abort,
    };
    match orchestrator.on_result(offset, &outcome) {
        Err(CallbackError::UnknownOffset) => Err(ErrorCode::UnknownOffset),
        Err(CallbackError::DuplicateResult) => Err(ErrorCode::DuplicateResult),
        Ok(_) => match outcome {
            ComputationOutcome::Success { blocks, nonce } => Ok(
                ResponseEvent { response: blocks[0], nonce: nonce_to_le_bytes(nonce) },
            ),
            ComputationOutcome::Abort => Err(ErrorCode::AbortedComputation),
        },
    }
}

} // verus!
