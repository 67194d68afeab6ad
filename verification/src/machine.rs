//! The aggregate root: a machine owning a collection of parts keyed by
//! identity.
//!
//! The collection never holds two parts with the same identity
//! ([`Machine::wf`]). `add_part` is the only way an identity becomes
//! present (guarded by uniqueness) and `remove_part` the only way it
//! becomes absent (guarded by existence); both leave the machine unchanged
//! when they fail.

use vstd::prelude::*;
use crate::part::Part;

verus! {

/// UUID for identifying parts.
#[derive(Clone, Debug, PartialEq, Eq)]
pub struct Uuid {
    /// The actual UUID.
    pub id: String,
}

/// An inventory operation was rejected; the machine is left unchanged.
#[derive(Clone, Copy, Debug, PartialEq, Eq)]
pub enum InventoryError {
    /// An insertion carried an identity already present in the machine.
    DuplicateIdentity,
    /// A removal addressed an identity absent from the machine.
    NotFound,
}

/// A PC: a named, exclusive owner of a collection of parts with pairwise
/// distinct identities.
#[derive(Clone, Debug, PartialEq, Eq)]
pub struct Machine {
    /// The name of this machine.
    pub name: String,
    /// The components of this machine.
    parts: Vec<Part>,
}

/// The ghost image of a [`Machine`]: its name and the parts it holds, in
/// insertion order.
pub struct MachineView {
    pub name: Seq<char>,
    pub parts: Seq<Part>,
}

impl View for Machine {
    type V = MachineView;

    closed spec fn view(&self) -> MachineView {
        MachineView { name: self.name@, parts: self.parts@ }
    }
}

impl Machine {
    /// Whether some part with the given identity is present.
    pub open spec fn contains_id(&self, id: Seq<char>) -> bool {
        exists|i: int|
            0 <= i < self@.parts.len() && (#[trigger] self@.parts[i])@.id() == id
    }

    /// The set of identities currently present.
    pub open spec fn id_set(&self) -> Set<Seq<char>> {
        Set::new(|id: Seq<char>| self.contains_id(id))
    }

    /// No two parts of the machine share an identity.
    pub open spec fn wf(&self) -> bool {
        forall|i: int, j: int|
            0 <= i < j < self@.parts.len() ==> (#[trigger] self@.parts[i])@.id() != (
            #[trigger] self@.parts[j])@.id()
    }

    /// Create a machine with an empty parts collection.
    pub fn new(name: String) -> (r: Machine)
        ensures
            r@.name == name@,
            r@.parts == Seq::<Part>::empty(),
            r.wf(),
    {
        Machine { name, parts: Vec::new() }
    }

    /// Get the current parts of this machine. Read access only: the caller
    /// cannot mutate the machine through this view.
    pub fn get_parts(&self) -> (r: &Vec<Part>)
        ensures
            r@ == self@.parts,
    {
        &self.parts
    }

    /// Where a part with the given identity sits in the collection, if
    /// anywhere.
    fn index_of_id(&self, id: &String) -> (r: Option<usize>)
        ensures
            match r {
                Some(i) => i < self@.parts.len() && (self@.parts[i as int])@.id() == id@,
                None => !self.contains_id(id@),
            },
    {
        let n = self.parts.len();
        let mut i: usize = 0;
        while i < n
            invariant
                n == self@.parts.len(),
                i <= n,
                forall|j: int| 0 <= j < i ==> (#[trigger] self@.parts[j])@.id() != id@,
            decreases n - i,
        {
            if *self.parts[i].get_id() == *id {
                return Some(i);
            }
            i += 1;
        }
        None
    }

    /// Add a new part to this machine. The part's identity must be new:
    /// if it is already present the machine is left unchanged and the
    /// insertion is rejected, so an existing entry is never overwritten.
    pub fn add_part(&mut self, part: Part) -> (r: Result<(), InventoryError>)
        requires
            old(self).wf(),
        ensures
            final(self).wf(),
            final(self)@.name == old(self)@.name,
            old(self).contains_id(part@.id()) ==> {
                &&& r == Err::<(), InventoryError>(InventoryError::DuplicateIdentity)
                &&& *final(self) == *old(self)
            },
            !old(self).contains_id(part@.id()) ==> {
                &&& r == Ok::<(), InventoryError>(())
                &&& final(self)@.parts == old(self)@.parts.push(part)
                &&& final(self).id_set() == old(self).id_set().insert(part@.id())
            },
            !old(self).contains_id(part@.id()) ==> (forall|x: Seq<char>|
                #[trigger] final(self).contains_id(x) <==> (old(self).contains_id(x) || x
                    == part@.id())),
    {
        match self.index_of_id(part.get_id()) {
            Some(_) => Err(InventoryError::DuplicateIdentity),
            None => {
                self.parts.push(part);
                proof {
                    let ops = old(self)@.parts;
                    let nps = self@.parts;
                    assert forall|i: int, j: int| 0 <= i < j < nps.len() implies (
                    #[trigger] nps[i])@.id() != (#[trigger] nps[j])@.id() by {
                        if j < ops.len() {
                            assert(ops[i]@.id() != ops[j]@.id());
                        } else {
                            assert(nps[j] == part);
                            assert(ops[i]@.id() != part@.id());
                        }
                    }
                    assert forall|x: Seq<char>|
                        self.contains_id(x) <==> (old(self).contains_id(x) || x
                            == part@.id()) by {
                        if self.contains_id(x) {
                            let i = choose|i: int|
                                0 <= i < nps.len() && (#[trigger] nps[i])@.id() == x;
                            if i < ops.len() {
                                assert(ops[i] == nps[i]);
                                assert(old(self).contains_id(x));
                            }
                        }
                        if old(self).contains_id(x) {
                            let i = choose|i: int|
                                0 <= i < ops.len() && (#[trigger] ops[i])@.id() == x;
                            assert(nps[i] == ops[i]);
                            assert(self.contains_id(x));
                        }
                        if x == part@.id() {
                            assert(nps[ops.len() as int] == part);
                            assert(self.contains_id(x));
                        }
                    }
                    assert(self.id_set() =~= old(self).id_set().insert(part@.id()));
                }
                Ok(())
            },
        }
    }

    /// Remove the part with the given identity from this machine,
    /// returning ownership of it. If no part carries that identity the
    /// machine is left unchanged and the removal is rejected.
    pub fn remove_part(&mut self, id: &Uuid) -> (r: Result<Part, InventoryError>)
        requires
            old(self).wf(),
        ensures
            final(self).wf(),
            final(self)@.name == old(self)@.name,
            !old(self).contains_id(id.id@) ==> {
                &&& r == Err::<Part, InventoryError>(InventoryError::NotFound)
                &&& *final(self) == *old(self)
            },
            old(self).contains_id(id.id@) ==> (exists|i: int|
                {
                    &&& 0 <= i < old(self)@.parts.len()
                    &&& (#[trigger] old(self)@.parts[i])@.id() == id.id@
                    &&& r == Ok::<Part, InventoryError>(old(self)@.parts[i])
                    &&& final(self)@.parts == old(self)@.parts.remove(i)
                }),
            old(self).contains_id(id.id@) ==> final(self).id_set() == old(self).id_set().remove(
                id.id@,
            ),
            old(self).contains_id(id.id@) ==> (forall|x: Seq<char>|
                #[trigger] final(self).contains_id(x) <==> (old(self).contains_id(x) && x
                    != id.id@)),
    {
        match self.index_of_id(&id.id) {
            None => Err(InventoryError::NotFound),
            Some(i) => {
                let removed = self.parts.remove(i);
                proof {
                    let k = i as int;
                    let ops = old(self)@.parts;
                    let nps = self@.parts;
                    ops.remove_ensures(k);
                    assert(removed == ops[k]);
                    assert forall|a: int, b: int| 0 <= a < b < nps.len() implies (
                    #[trigger] nps[a])@.id() != (#[trigger] nps[b])@.id() by {
                        let a0: int = if a < k {
                            a
                        } else {
                            a + 1
                        };
                        let b0: int = if b < k {
                            b
                        } else {
                            b + 1
                        };
                        assert(ops.remove(k)[a] == ops[a0]);
                        assert(ops.remove(k)[b] == ops[b0]);
                        assert(ops[a0]@.id() != ops[b0]@.id());
                    }
                    assert forall|x: Seq<char>|
                        self.contains_id(x) <==> (old(self).contains_id(x) && x != id.id@) by {
                        if self.contains_id(x) {
                            let j = choose|j: int|
                                0 <= j < nps.len() && (#[trigger] nps[j])@.id() == x;
                            let j0: int = if j < k {
                                j
                            } else {
                                j + 1
                            };
                            assert(ops.remove(k)[j] == ops[j0]);
                            assert(old(self).contains_id(x));
                            assert(ops[k]@.id() == id.id@);
                            assert(x != id.id@);
                        }
                        if old(self).contains_id(x) && x != id.id@ {
                            let j0 = choose|j0: int|
                                0 <= j0 < ops.len() && (#[trigger] ops[j0])@.id() == x;
                            let j: int = if j0 < k {
                                j0
                            } else {
                                j0 - 1
                            };
                            assert(ops.remove(k)[j] == ops[j0]);
                            assert(self.contains_id(x));
                        }
                    }
                    assert(self.id_set() =~= old(self).id_set().remove(id.id@));
                }
                Ok(removed)
            },
        }
    }
}

/// In a well-formed machine the present identities never contain
/// duplicates: the sequence of the parts' identities has no repeated
/// element.
pub proof fn lemma_wf_ids_no_duplicates(m: Machine)
    requires
        m.wf(),
    ensures
        m@.parts.map_values(|p: Part| p@.id()).no_duplicates(),
{
    let ids = m@.parts.map_values(|p: Part| p@.id());
    assert forall|i: int, j: int|
        0 <= i < ids.len() && 0 <= j < ids.len() && i != j implies ids[i] != ids[j] by {
        assert(ids[i] == (m@.parts[i])@.id());
        assert(ids[j] == (m@.parts[j])@.id());
    }
}

} // verus!
