//! The computation-definition registry: one immutable descriptor per
//! circuit, created exactly once before any request referencing it is
//! accepted. A second definition of the same identifier is refused and
//! leaves the registry unchanged; a lookup of an undefined identifier is
//! refused.
use vstd::prelude::*;

verus! {

/// The type tag of one argument position of a circuit's declared shape.
#[derive(PartialEq, Eq, Structural, Clone, Copy, Debug)]
pub enum ArgKind {
    ArcisPubkey,
    PlaintextU128,
    EncryptedU8,
    EncryptedU64,
}

/// How a registry call can fail.
#[derive(PartialEq, Eq, Structural, Clone, Copy, Debug)]
pub enum RegistryError {
    /// The identifier already carries a definition.
    AlreadyDefined,
    /// The identifier carries no definition.
    Undefined,
}

/// One circuit's descriptor: its identifier and the argument shape every
/// request must match.
pub struct ComputationDefinition {
    pub identifier: u32,
    pub shape: Vec<ArgKind>,
}

/// Whether some definition in the sequence carries the identifier.
pub open spec fn has_id(defs: Seq<ComputationDefinition>, identifier: u32) -> bool {
    exists|j: int| 0 <= j < defs.len() && defs[j].identifier == identifier
}

/// The declared shape of the identifier's definition.
pub open spec fn shape_at(defs: Seq<ComputationDefinition>, identifier: u32) -> Seq<ArgKind> {
    defs[choose|j: int| 0 <= j < defs.len() && defs[j].identifier == identifier].shape@
}

/// Whether no two definitions share an identifier.
pub open spec fn unique_ids(defs: Seq<ComputationDefinition>) -> bool {
    forall|j: int, k: int|
        0 <= j < k < defs.len() ==> defs[j].identifier != defs[k].identifier
}

/// The definition at a position answers for its own identifier.
pub proof fn lemma_id_index(defs: Seq<ComputationDefinition>, j: int)
    requires
        unique_ids(defs),
        0 <= j < defs.len(),
    ensures
        has_id(defs, defs[j].identifier),
        shape_at(defs, defs[j].identifier) == defs[j].shape@,
{
    let identifier = defs[j].identifier;
    assert(0 <= j < defs.len() && defs[j].identifier == identifier);
    let k = choose|k: int| 0 <= k < defs.len() && defs[k].identifier == identifier;
    if k < j {
        assert(defs[k].identifier != defs[j].identifier);
    } else if j < k {
        assert(defs[j].identifier != defs[k].identifier);
    }
}

/// The write-once registry of circuit descriptors.
pub struct Registry {
    defs: Vec<ComputationDefinition>,
}

impl Registry {
    /// Whether the registry's identifiers are pairwise distinct; every
    /// operation preserves this.
    pub closed spec fn wf(&self) -> bool {
        unique_ids(self.defs@)
    }

    /// Whether the identifier has been defined.
    pub closed spec fn spec_defined(&self, identifier: u32) -> bool {
        has_id(self.defs@, identifier)
    }

    /// The shape the identifier was defined with.
    pub closed spec fn spec_shape(&self, identifier: u32) -> Seq<ArgKind> {
        shape_at(self.defs@, identifier)
    }

    /// An empty registry: nothing is defined.
    pub fn new() -> (r: Registry)
        ensures
            r.wf(),
            forall|x: u32| !r.spec_defined(x),
    {
        Registry { defs: Vec::new() }
    }

    /// Finds the position of the identifier's definition, if any.
    fn find(&self, identifier: u32) -> (r: Option<usize>)
        ensures
            match r {
                Some(j) => j < self.defs@.len() && self.defs@[j as int].identifier == identifier,
                None => !self.spec_defined(identifier),
            },
    {
        let mut i: usize = 0;
        while i < self.defs.len()
            invariant
                0 <= i <= self.defs@.len(),
                forall|j: int| 0 <= j < i ==> self.defs@[j].identifier != identifier,
            decreases self.defs@.len() - i,
        {
            if self.defs[i].identifier == identifier {
                return Some(i);
            }
            i = i + 1;
        }
        None
    }

    /// Defines the identifier's circuit exactly once: a second definition of
    /// the same identifier fails and changes nothing.
    pub fn define(&mut self, identifier: u32, shape: Vec<ArgKind>) -> (r: Result<
        (),
        RegistryError,
    >)
        requires
            old(self).wf(),
        ensures
            final(self).wf(),
            r is Ok <==> !old(self).spec_defined(identifier),
            r is Err ==> r == Result::<(), RegistryError>::Err(RegistryError::AlreadyDefined)
                && *final(self) == *old(self),
            r is Ok ==> final(self).spec_defined(identifier) && final(self).spec_shape(identifier)
                == shape@,
            forall|x: u32|
                final(self).spec_defined(x) == (old(self).spec_defined(x) || (r is Ok && x
                    == identifier)),
            forall|x: u32|
                old(self).spec_defined(x) ==> final(self).spec_shape(x) == old(self).spec_shape(
                    x,
                ),
    {
        match self.find(identifier) {
            Some(_) => Err(RegistryError::AlreadyDefined),
            None => {
                self.defs.push(ComputationDefinition { identifier, shape });
                proof {
                    let s = self.defs@;
                    let prior = s.drop_last();
                    assert(prior =~= old(self).defs@);
                    assert forall|x: u32| old(self).spec_defined(x) implies has_id(s, x)
                        && shape_at(s, x) == shape_at(prior, x) by {
                        let j = choose|j: int| 0 <= j < prior.len() && prior[j].identifier == x;
                        assert(s[j].identifier == x);
                        lemma_id_index(s, j);
                        lemma_id_index(prior, j);
                    }
                    assert forall|x: u32| has_id(s, x) implies has_id(prior, x) || x
                        == identifier by {
                        let j = choose|j: int| 0 <= j < s.len() && s[j].identifier == x;
                        if j < s.len() - 1 {
                            assert(prior[j].identifier == x);
                        }
                    }
                    lemma_id_index(s, s.len() - 1);
                }
                Ok(())
            },
        }
    }

    /// Yields the identifier's declared shape; an undefined identifier is
    /// refused.
    pub fn lookup(&self, identifier: u32) -> (r: Result<&Vec<ArgKind>, RegistryError>)
        requires
            self.wf(),
        ensures
            r is Ok <==> self.spec_defined(identifier),
            match r {
                Ok(shape) => shape@ == self.spec_shape(identifier),
                Err(e) => e == RegistryError::Undefined,
            },
    {
        match self.find(identifier) {
            Some(j) => {
                proof {
                    lemma_id_index(self.defs@, j as int);
                }
                Ok(&self.defs[j].shape)
            },
            None => Err(RegistryError::Undefined),
        }
    }
}

} // verus!
