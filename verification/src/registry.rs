//! Which processor handles which job type.
//!
//! Processors are registered under the job type they handle; registering a
//! second processor for a type replaces the first. The registry hands out a
//! slot per job type, under which the caller keeps the processor itself.

use vstd::prelude::*;

verus! {

/// The job types that have a processor, each in its own slot.
#[derive(Debug)]
pub struct ProcessorRegistry {
    names: Vec<String>,
}

impl ProcessorRegistry {
    #[verifier::type_invariant]
    spec fn distinct(self) -> bool {
        forall|i: int, j: int|
            0 <= i < j < self.names@.len() ==> #[trigger] self.names@[i]@
                != #[trigger] self.names@[j]@
    }
}

impl View for ProcessorRegistry {
    type V = Seq<Seq<char>>;

    /// The job type in each slot.
    closed spec fn view(&self) -> Seq<Seq<char>> {
        self.names@.map_values(|name: String| name@)
    }
}

/// Whether no job type occupies two slots.
pub open spec fn slots_distinct(slots: Seq<Seq<char>>) -> bool {
    forall|i: int, j: int| 0 <= i < j < slots.len() ==> slots[i] != slots[j]
}

/// The slot of `name`, if it has one.
pub open spec fn slot_of(slots: Seq<Seq<char>>, name: Seq<char>) -> Option<nat> {
    if slots.contains(name) {
        Some(choose|i: nat| i < slots.len() && slots[i as int] == name)
    } else {
        None
    }
}

/// The slots after registering `name`: unchanged when it has a slot, else
/// with a new slot for it at the end.
pub open spec fn registered(slots: Seq<Seq<char>>, name: Seq<char>) -> Seq<Seq<char>> {
    if slots.contains(name) {
        slots
    } else {
        slots.push(name)
    }
}

/// In slots without repeats, the slot of a name is any index that holds it.
pub proof fn lemma_slot_of_index(slots: Seq<Seq<char>>, name: Seq<char>, i: int)
    requires
        slots_distinct(slots),
        0 <= i < slots.len(),
        slots[i] == name,
    ensures
        slot_of(slots, name) == Some(i as nat),
{
    assert(slots.contains(name));
    let j = choose|j: nat| j < slots.len() && slots[j as int] == name;
    assert((i as nat) < slots.len() && slots[i] == name);
    assert(j < slots.len() && slots[j as int] == name);
    if j as int != i {
        if (j as int) < i {
            assert(slots[j as int] != slots[i]);
        } else {
            assert(slots[i] != slots[j as int]);
        }
    }
}

impl ProcessorRegistry {
    /// A registry with no processors.
    pub fn new() -> (registry: ProcessorRegistry)
        ensures
            registry@ == Seq::<Seq<char>>::empty(),
    {
        let registry = ProcessorRegistry { names: Vec::new() };
        assert(registry@ =~= Seq::<Seq<char>>::empty());
        registry
    }

    /// The number of slots in use.
    pub fn len(&self) -> (n: usize)
        ensures
            n == self@.len(),
    {
        self.names.len()
    }

    /// The slot of the processor for `job_type`, if one is registered; no
    /// job type has two slots.
    pub fn lookup(&self, job_type: &str) -> (slot: Option<usize>)
        ensures
            slots_distinct(self@),
            slot matches Some(i) ==> slot_of(self@, job_type@) == Some(i as nat),
            slot is None ==> slot_of(self@, job_type@) is None,
    {
        proof {
            use_type_invariant(self);
            assert forall|a: int, b: int| 0 <= a < b < self@.len() implies self@[a] != self@[b] by {
                assert(self.names@[a]@ != self.names@[b]@);
            }
        }
        let wanted = job_type.to_owned();
        let mut i: usize = 0;
        while i < self.names.len()
            invariant
                i <= self.names@.len(),
                wanted@ == job_type@,
                slots_distinct(self@),
                forall|k: int| 0 <= k < i ==> self.names@[k]@ != job_type@,
            decreases self.names@.len() - i,
        {
            if self.names[i] == wanted {
                proof {
                    assert(self@[i as int] == self.names@[i as int]@);
                    lemma_slot_of_index(self@, job_type@, i as int);
                }
                return Some(i);
            }
            i = i + 1;
        }
        assert forall|k: int| 0 <= k < self@.len() implies self@[k] != job_type@ by {
            assert(self@[k] == self.names@[k]@);
        }
        None
    }

    /// Give `job_type` a slot: its existing one when it has a processor
    /// already (the caller replaces it), else a new slot after the others.
    pub fn register(&mut self, job_type: &str) -> (slot: usize)
        ensures
            slots_distinct(final(self)@),
            final(self)@ == registered(old(self)@, job_type@),
            slot_of(final(self)@, job_type@) == Some(slot as nat),
            !old(self)@.contains(job_type@) ==> slot == old(self)@.len(),
    {
        proof {
            use_type_invariant(&*self);
        }
        match self.lookup(job_type) {
            Some(slot) => slot,
            None => {
                let slot = self.names.len();
                let ghost before = self.names@;
                assert forall|k: int| 0 <= k < before.len() implies before[k]@ != job_type@ by {
                    assert(old(self)@[k] == before[k]@);
                }
                let mut names: Vec<String> = Vec::new();
                std::mem::swap(&mut names, &mut self.names);
                names.push(job_type.to_owned());
                self.names = names;
                assert(self@ =~= old(self)@.push(job_type@));
                proof {
                    lemma_slot_of_index(self@, job_type@, slot as int);
                }
                slot
            },
        }
    }
}

} // verus!
