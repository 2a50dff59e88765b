//! The asynchronous computation orchestrator: a request with a fresh offset
//! is validated against the registry and enters the queue; the external
//! executor's acknowledgement moves it to executing; exactly one callback
//! moves it to a terminal state. A reused offset, an unknown offset and a
//! second callback are each refused without touching existing state, so no
//! two transitions on one offset can both succeed.
use crate::registry::ArgKind;
use crate::registry::Registry;
use vstd::prelude::*;

verus! {

/// One argument of a computation request, as handed to the executor.
pub enum Argument {
    ArcisPubkey([u8; 32]),
    PlaintextU128(u128),
    EncryptedU8([u8; 32]),
    EncryptedU64([u8; 32]),
}

/// The type tag of an argument.
pub open spec fn kind_of(arg: Argument) -> ArgKind {
    match arg {
        Argument::ArcisPubkey(_) => ArgKind::ArcisPubkey,
        Argument::PlaintextU128(_) => ArgKind::PlaintextU128,
        Argument::EncryptedU8(_) => ArgKind::EncryptedU8,
        Argument::EncryptedU64(_) => ArgKind::EncryptedU64,
    }
}

/// The type tags of a whole argument list.
pub open spec fn kinds_of(args: Seq<Argument>) -> Seq<ArgKind> {
    args.map_values(|a: Argument| kind_of(a))
}

/// Where one request stands in its lifecycle. `Completed` and `Aborted` are
/// terminal: nothing ever leaves them.
#[derive(PartialEq, Eq, Structural, Clone, Copy, Debug)]
pub enum Phase {
    Queued,
    Executing,
    Completed,
    Aborted,
}

/// Whether a phase is terminal.
pub open spec fn is_terminal(phase: Phase) -> bool {
    phase == Phase::Completed || phase == Phase::Aborted
}

/// What the external executor delivers for one request: the output
/// ciphertext blocks and their nonce, or an abort marker.
pub enum ComputationOutcome {
    Success { blocks: Vec<[u8; 32]>, nonce: u128 },
    Abort,
}

/// How a submission can fail.
#[derive(PartialEq, Eq, Structural, Clone, Copy, Debug)]
pub enum SubmitError {
    /// The offset was already used by an earlier request.
    DuplicateOffset,
    /// The identifier carries no definition.
    UndefinedComputation,
    /// The arguments do not match the defined shape.
    ShapeMismatch,
}

/// How a callback can fail.
#[derive(PartialEq, Eq, Structural, Clone, Copy, Debug)]
pub enum CallbackError {
    /// No request in the queue or executing carries the offset.
    UnknownOffset,
    /// The offset's request already reached a terminal state.
    DuplicateResult,
}

/// One tracked request: its offset and where it stands.
pub struct RequestRecord {
    pub offset: u64,
    pub phase: Phase,
}

/// Whether some record in the sequence carries the offset.
pub open spec fn has_offset(entries: Seq<RequestRecord>, offset: u64) -> bool {
    exists|j: int| 0 <= j < entries.len() && entries[j].offset == offset
}

/// The phase of the offset's record.
pub open spec fn phase_at(entries: Seq<RequestRecord>, offset: u64) -> Phase {
    entries[choose|j: int| 0 <= j < entries.len() && entries[j].offset == offset].phase
}

/// Whether no two records share an offset.
pub open spec fn unique_offsets(entries: Seq<RequestRecord>) -> bool {
    forall|j: int, k: int| 0 <= j < k < entries.len() ==> entries[j].offset != entries[k].offset
}

/// The record at a position answers for its own offset.
pub proof fn lemma_offset_index(entries: Seq<RequestRecord>, j: int)
    requires
        unique_offsets(entries),
        0 <= j < entries.len(),
    ensures
        has_offset(entries, entries[j].offset),
        phase_at(entries, entries[j].offset) == entries[j].phase,
{
    let offset = entries[j].offset;
    assert(0 <= j < entries.len() && entries[j].offset == offset);
    let k = choose|k: int| 0 <= k < entries.len() && entries[k].offset == offset;
    if k < j {
        assert(entries[k].offset != entries[j].offset);
    } else if j < k {
        assert(entries[j].offset != entries[k].offset);
    }
}

/// Updating a record in place, keeping its offset, keeps the offsets
/// pairwise distinct.
proof fn lemma_update_unique(entries: Seq<RequestRecord>, j: int, rec: RequestRecord)
    requires
        unique_offsets(entries),
        0 <= j < entries.len(),
        rec.offset == entries[j].offset,
    ensures
        unique_offsets(entries.update(j, rec)),
{
    let updated = entries.update(j, rec);
    assert forall|a: int, b: int| 0 <= a < b < updated.len() implies updated[a].offset
        != updated[b].offset by {
        assert(entries[a].offset != entries[b].offset);
    }
}

/// Updating one record's phase leaves every other offset's standing alone.
proof fn lemma_update_others(entries: Seq<RequestRecord>, j: int, rec: RequestRecord, other: u64)
    requires
        unique_offsets(entries),
        0 <= j < entries.len(),
        rec.offset == entries[j].offset,
        other != rec.offset,
    ensures
        unique_offsets(entries.update(j, rec)),
        has_offset(entries.update(j, rec), other) == has_offset(entries, other),
        has_offset(entries, other) ==> phase_at(entries.update(j, rec), other) == phase_at(
            entries,
            other,
        ),
{
    let updated = entries.update(j, rec);
    assert forall|a: int, b: int| 0 <= a < b < updated.len() implies updated[a].offset
        != updated[b].offset by {
        assert(entries[a].offset != entries[b].offset);
    }
    if has_offset(entries, other) {
        let k = choose|k: int| 0 <= k < entries.len() && entries[k].offset == other;
        assert(k != j);
        assert(updated[k].offset == other);
        lemma_offset_index(updated, k);
        lemma_offset_index(entries, k);
    }
    if has_offset(updated, other) {
        let k = choose|k: int| 0 <= k < updated.len() && updated[k].offset == other;
        assert(k != j);
        assert(entries[k].offset == other);
    }
}

/// The orchestrator's request table: the only mutable shared state, keyed by
/// offset.
pub struct Orchestrator {
    entries: Vec<RequestRecord>,
}

impl Orchestrator {
    /// Whether the table's offsets are pairwise distinct; every operation
    /// preserves this.
    pub closed spec fn wf(&self) -> bool {
        unique_offsets(self.entries@)
    }

    /// Whether the offset was ever accepted.
    pub closed spec fn spec_known(&self, offset: u64) -> bool {
        has_offset(self.entries@, offset)
    }

    /// Where the offset's request stands.
    pub closed spec fn spec_phase(&self, offset: u64) -> Phase {
        phase_at(self.entries@, offset)
    }

    /// An empty orchestrator: no offset is known.
    pub fn new() -> (r: Orchestrator)
        ensures
            r.wf(),
            forall|x: u64| !r.spec_known(x),
    {
        Orchestrator { entries: Vec::new() }
    }

    /// Finds the position of the offset's record, if any.
    fn find(&self, offset: u64) -> (r: Option<usize>)
        ensures
            match r {
                Some(j) => j < self.entries@.len() && self.entries@[j as int].offset == offset,
                None => !self.spec_known(offset),
            },
    {
        let mut i: usize = 0;
        while i < self.entries.len()
            invariant
                0 <= i <= self.entries@.len(),
                forall|j: int| 0 <= j < i ==> self.entries@[j].offset != offset,
            decreases self.entries@.len() - i,
        {
            if self.entries[i].offset == offset {
                return Some(i);
            }
            i = i + 1;
        }
        None
    }

    /// Compares an argument list's tags against a declared shape.
    fn kinds_match(args: &Vec<Argument>, shape: &Vec<ArgKind>) -> (r: bool)
        ensures
            r == (kinds_of(args@) == shape@),
    {
        if args.len() != shape.len() {
            proof {
                assert(kinds_of(args@).len() == args@.len());
            }
            return false;
        }
        let mut i: usize = 0;
        while i < args.len()
            invariant
                0 <= i <= args@.len(),
                args@.len() == shape@.len(),
                forall|j: int| 0 <= j < i ==> kind_of(args@[j]) == shape@[j],
            decreases args@.len() - i,
        {
            let matches_here = match (&args[i], &shape[i]) {
                (Argument::ArcisPubkey(_), ArgKind::ArcisPubkey) => true,
                (Argument::PlaintextU128(_), ArgKind::PlaintextU128) => true,
                (Argument::EncryptedU8(_), ArgKind::EncryptedU8) => true,
                (Argument::EncryptedU64(_), ArgKind::EncryptedU64) => true,
                _ => false,
            };
            if !matches_here {
                proof {
                    assert(kinds_of(args@)[i as int] == kind_of(args@[i as int]));
                }
                return false;
            }
            i = i + 1;
        }
        proof {
            assert(kinds_of(args@) =~= shape@);
        }
        true
    }

    /// Accepts a request when its offset is fresh, its identifier is defined
    /// and its arguments match the declared shape, and queues it; otherwise
    /// refuses it in that order of checks and changes nothing.
    pub fn submit(
        &mut self,
        registry: &Registry,
        identifier: u32,
        offset: u64,
        args: &Vec<Argument>,
    ) -> (r: Result<u64, SubmitError>)
        requires
            old(self).wf(),
            registry.wf(),
        ensures
            final(self).wf(),
            r == if old(self).spec_known(offset) {
                Err::<u64, SubmitError>(SubmitError::DuplicateOffset)
            } else if !registry.spec_defined(identifier) {
                Err::<u64, SubmitError>(SubmitError::UndefinedComputation)
            } else if kinds_of(args@) != registry.spec_shape(identifier) {
                Err::<u64, SubmitError>(SubmitError::ShapeMismatch)
            } else {
                Ok::<u64, SubmitError>(offset)
            },
            r is Err ==> *final(self) == *old(self),
            r is Ok ==> final(self).spec_known(offset) && final(self).spec_phase(offset)
                == Phase::Queued,
            forall|x: u64|
                final(self).spec_known(x) == (old(self).spec_known(x) || (r is Ok && x == offset)),
            forall|x: u64|
                old(self).spec_known(x) ==> final(self).spec_phase(x) == old(self).spec_phase(x),
    {
        if let Some(_) = self.find(offset) {
            return Err(SubmitError::DuplicateOffset);
        }
        let shape = match registry.lookup(identifier) {
            Ok(shape) => shape,
            Err(_) => {
                return Err(SubmitError::UndefinedComputation);
            },
        };
        if !Self::kinds_match(args, shape) {
            return Err(SubmitError::ShapeMismatch);
        }
        self.entries.push(RequestRecord { offset, phase: Phase::Queued });
        proof {
            let s = self.entries@;
            let prior = s.drop_last();
            assert(prior =~= old(self).entries@);
            assert forall|x: u64| old(self).spec_known(x) implies has_offset(s, x) && phase_at(
                s,
                x,
            ) == phase_at(prior, x) by {
                let j = choose|j: int| 0 <= j < prior.len() && prior[j].offset == x;
                assert(s[j].offset == x);
                lemma_offset_index(s, j);
                lemma_offset_index(prior, j);
            }
            assert forall|x: u64| has_offset(s, x) implies has_offset(prior, x) || x == offset by {
                let j = choose|j: int| 0 <= j < s.len() && s[j].offset == x;
                if j < s.len() - 1 {
                    assert(prior[j].offset == x);
                }
            }
            lemma_offset_index(s, s.len() - 1);
        }
        Ok(offset)
    }

    /// Records the external executor's acknowledgement: a queued request
    /// starts executing; any other offset is refused and nothing changes.
    pub fn mark_executing(&mut self, offset: u64) -> (r: Result<(), CallbackError>)
        requires
            old(self).wf(),
        ensures
            final(self).wf(),
            r is Ok <==> (old(self).spec_known(offset) && old(self).spec_phase(offset)
                == Phase::Queued),
            r is Err ==> r == Result::<(), CallbackError>::Err(CallbackError::UnknownOffset)
                && *final(self) == *old(self),
            r is Ok ==> final(self).spec_phase(offset) == Phase::Executing,
            forall|x: u64| final(self).spec_known(x) == old(self).spec_known(x),
            forall|x: u64|
                x != offset && old(self).spec_known(x) ==> final(self).spec_phase(x) == old(
                    self,
                ).spec_phase(x),
    {
        let j = match self.find(offset) {
            Some(j) => j,
            None => {
                return Err(CallbackError::UnknownOffset);
            },
        };
        proof {
            lemma_offset_index(self.entries@, j as int);
        }
        match self.entries[j].phase {
            Phase::Queued => {
                proof {
                    let rec = RequestRecord { offset, phase: Phase::Executing };
                    lemma_offset_index(self.entries@.update(j as int, rec), j as int);
                    assert forall|x: u64| x != offset implies (has_offset(
                        self.entries@.update(j as int, rec),
                        x,
                    ) == has_offset(self.entries@, x) && (has_offset(self.entries@, x)
                        ==> phase_at(self.entries@.update(j as int, rec), x) == phase_at(
                        self.entries@,
                        x,
                    ))) by {
                        lemma_update_others(self.entries@, j as int, rec, x);
                    }
                    lemma_update_unique(self.entries@, j as int, rec);
                }
                self.entries[j] = RequestRecord { offset, phase: Phase::Executing };
                Ok(())
            },
            _ => Err(CallbackError::UnknownOffset),
        }
    }

    /// Applies the executor's callback: a queued or executing request moves
    /// to `Completed` on a success outcome and to `Aborted` on an abort, and
    /// the terminal phase is returned for publication. An unknown offset and
    /// an already-terminal offset are refused and nothing changes.
    pub fn on_result(&mut self, offset: u64, outcome: &ComputationOutcome) -> (r: Result<
        Phase,
        CallbackError,
    >)
        requires
            old(self).wf(),
        ensures
            final(self).wf(),
            !old(self).spec_known(offset) ==> r == Result::<Phase, CallbackError>::Err(
                CallbackError::UnknownOffset,
            ),
            old(self).spec_known(offset) && is_terminal(old(self).spec_phase(offset)) ==> r
                == Result::<Phase, CallbackError>::Err(CallbackError::DuplicateResult),
            old(self).spec_known(offset) && !is_terminal(old(self).spec_phase(offset)) ==> r
                == Result::<Phase, CallbackError>::Ok(
                match outcome {
                    ComputationOutcome::Success { .. } => Phase::Completed,
                    ComputationOutcome::Abort => Phase::Aborted,
                },
            ),
            r is Err ==> *final(self) == *old(self),
            r is Ok ==> final(self).spec_phase(offset) == r->Ok_0,
            forall|x: u64| final(self).spec_known(x) == old(self).spec_known(x),
            forall|x: u64|
                x != offset && old(self).spec_known(x) ==> final(self).spec_phase(x) == old(
                    self,
                ).spec_phase(x),
    {
        let j = match self.find(offset) {
            Some(j) => j,
            None => {
                return Err(CallbackError::UnknownOffset);
            },
        };
        proof {
            lemma_offset_index(self.entries@, j as int);
        }
        match self.entries[j].phase {
            Phase::Completed => Err(CallbackError::DuplicateResult),
            Phase::Aborted => Err(CallbackError::DuplicateResult),
            _ => {
                let terminal = match outcome {
                    ComputationOutcome::Success { .. } => Phase::Completed,
                    ComputationOutcome::Abort => Phase::Aborted,
                };
                proof {
                    let rec = RequestRecord { offset, phase: terminal };
                    lemma_offset_index(self.entries@.update(j as int, rec), j as int);
                    assert forall|x: u64| x != offset implies (has_offset(
                        self.entries@.update(j as int, rec),
                        x,
                    ) == has_offset(self.entries@, x) && (has_offset(self.entries@, x)
                        ==> phase_at(self.entries@.update(j as int, rec), x) == phase_at(
                        self.entries@,
                        x,
                    ))) by {
                        lemma_update_others(self.entries@, j as int, rec, x);
                    }
                    lemma_update_unique(self.entries@, j as int, rec);
                }
                self.entries[j] = RequestRecord { offset, phase: terminal };
                Ok(terminal)
            },
        }
    }
}

} // verus!
