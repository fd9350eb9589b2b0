use super::{InputPortId, OutputPortId};
use core::marker::PhantomData;
use vstd::prelude::*;

verus! {

/// Hands out fresh port identifiers: input identifiers count down from `-1`,
/// output identifiers count up from `1`, and none is handed out twice.
#[derive(Debug)]
pub struct PortIdAllocator {
    next_input: isize,
    next_output: isize,
}

impl PortIdAllocator {
    #[verifier::type_invariant]
    spec fn inv(self) -> bool {
        self.next_input < 0 && self.next_output > 0
    }

    /// The next input identifier to hand out.
    pub closed spec fn spec_next_input(self) -> int {
        self.next_input as int
    }

    /// The next output identifier to hand out.
    pub closed spec fn spec_next_output(self) -> int {
        self.next_output as int
    }

    /// The input identifiers handed out so far.
    pub open spec fn issued_inputs(self) -> Set<int> {
        Set::new(|x: int| self.spec_next_input() < x < 0)
    }

    /// The output identifiers handed out so far.
    pub open spec fn issued_outputs(self) -> Set<int> {
        Set::new(|x: int| 0 < x < self.spec_next_output())
    }

    /// Creates an allocator that has handed out nothing yet.
    pub fn new() -> (r: PortIdAllocator)
        ensures
            r.spec_next_input() == -1,
            r.spec_next_output() == 1,
            r.issued_inputs().is_empty(),
            r.issued_outputs().is_empty(),
    {
        let r = PortIdAllocator { next_input: -1, next_output: 1 };
        proof {
            assert(r.issued_inputs() =~= Set::<int>::empty());
            assert(r.issued_outputs() =~= Set::<int>::empty());
        }
        r
    }

    /// Hands out a fresh input port identifier; `None` once all the negative
    /// integers above `isize::MIN` are used up.
    pub fn next_input_id(&mut self) -> (r: Option<InputPortId>)
        ensures
            r is None <==> old(self).spec_next_input() == isize::MIN,
            r is None ==> *final(self) == *old(self),
            r matches Some(id) ==> {
                &&& id@ == old(self).spec_next_input()
                &&& id@ < 0
                &&& !old(self).issued_inputs().contains(id@)
                &&& final(self).issued_inputs() == old(self).issued_inputs().insert(id@)
                &&& final(self).issued_outputs() == old(self).issued_outputs()
                &&& final(self).spec_next_input() == old(self).spec_next_input() - 1
                &&& final(self).spec_next_output() == old(self).spec_next_output()
            },
    {
        proof {
            use_type_invariant(&*self);
        }
        if self.next_input == isize::MIN {
            return None;
        }
        let id = InputPortId::new(self.next_input).unwrap();
        self.next_input = self.next_input - 1;
        proof {
            assert(self.issued_inputs() =~= old(self).issued_inputs().insert(id@));
            assert(self.issued_outputs() =~= old(self).issued_outputs());
        }
        Some(id)
    }

    /// Hands out a fresh output port identifier; `None` once all the positive
    /// integers below `isize::MAX` are used up.
    pub fn next_output_id(&mut self) -> (r: Option<OutputPortId>)
        ensures
            r is None <==> old(self).spec_next_output() == isize::MAX,
            r is None ==> *final(self) == *old(self),
            r matches Some(id) ==> {
                &&& id@ == old(self).spec_next_output()
                &&& id@ > 0
                &&& !old(self).issued_outputs().contains(id@)
                &&& final(self).issued_outputs() == old(self).issued_outputs().insert(id@)
                &&& final(self).issued_inputs() == old(self).issued_inputs()
                &&& final(self).spec_next_output() == old(self).spec_next_output() + 1
                &&& final(self).spec_next_input() == old(self).spec_next_input()
            },
    {
        proof {
            use_type_invariant(&*self);
        }
        if self.next_output == isize::MAX {
            return None;
        }
        let id = OutputPortId::new(self.next_output).unwrap();
        self.next_output = self.next_output + 1;
        proof {
            assert(self.issued_outputs() =~= old(self).issued_outputs().insert(id@));
            assert(self.issued_inputs() =~= old(self).issued_inputs());
        }
        Some(id)
    }
}

impl Default for PortIdAllocator {
    fn default() -> (r: PortIdAllocator)
        ensures
            r.issued_inputs().is_empty(),
            r.issued_outputs().is_empty(),
    {
        PortIdAllocator::new()
    }
}

/// Of two input identifiers that one allocator hands out, the later one is
/// strictly smaller, so the two differ, and both are negative. `earlier` is the
/// allocator when `first` was handed out; `later` is the allocator, any number of
/// allocations on, when `second` is.
pub proof fn lemma_later_input_smaller(
    earlier: PortIdAllocator,
    later: PortIdAllocator,
    first: InputPortId,
    second: InputPortId,
)
    requires
        first@ == earlier.spec_next_input(),
        later.issued_inputs().contains(first@),
        second@ == later.spec_next_input(),
    ensures
        second@ < first@ < 0,
        second != first,
{
}

/// Of two output identifiers that one allocator hands out, the later one is
/// strictly larger, so the two differ, and both are positive. `earlier` is the
/// allocator when `first` was handed out; `later` is the allocator, any number of
/// allocations on, when `second` is.
pub proof fn lemma_later_output_larger(
    earlier: PortIdAllocator,
    later: PortIdAllocator,
    first: OutputPortId,
    second: OutputPortId,
)
    requires
        first@ == earlier.spec_next_output(),
        later.issued_outputs().contains(first@),
        second@ == later.spec_next_output(),
    ensures
        0 < first@ < second@,
        second != first,
{
}

/// Handing out identifiers only adds to what was handed out: a later allocator
/// state has issued everything an earlier one had, and its next identifiers lie
/// beyond all of them.
pub proof fn lemma_issued_grow(a: PortIdAllocator, b: PortIdAllocator)
    requires
        b.spec_next_input() <= a.spec_next_input(),
        a.spec_next_output() <= b.spec_next_output(),
    ensures
        a.issued_inputs().subset_of(b.issued_inputs()),
        a.issued_outputs().subset_of(b.issued_outputs()),
        forall|x: int| a.issued_inputs().contains(x) ==> b.spec_next_input() < x,
        forall|x: int| a.issued_outputs().contains(x) ==> x < b.spec_next_output(),
{
}

/// A typed input port: its identifier, and the type of the messages it takes.
#[derive(Debug)]
pub struct Inputs<T> {
    id: InputPortId,
    marker: PhantomData<T>,
}

impl<T> Inputs<T> {
    /// The identifier of this port.
    pub closed spec fn spec_id(self) -> InputPortId {
        self.id
    }

    /// Makes a typed input port with a fresh identifier from `ids`.
    pub fn new(ids: &mut PortIdAllocator) -> (r: Option<Inputs<T>>)
        ensures
            r is None <==> old(ids).spec_next_input() == isize::MIN,
            r matches Some(p) ==> {
                &&& p.spec_id()@ == old(ids).spec_next_input()
                &&& !old(ids).issued_inputs().contains(p.spec_id()@)
                &&& final(ids).issued_inputs() == old(ids).issued_inputs().insert(p.spec_id()@)
                &&& final(ids).issued_outputs() == old(ids).issued_outputs()
                &&& final(ids).spec_next_input() == old(ids).spec_next_input() - 1
                &&& final(ids).spec_next_output() == old(ids).spec_next_output()
            },
            r is None ==> *final(ids) == *old(ids),
    {
        match ids.next_input_id() {
            Some(id) => Some(Inputs { id, marker: PhantomData }),
            None => None,
        }
    }

    /// Makes a typed input port with a given identifier.
    pub fn from_id(id: InputPortId) -> (r: Inputs<T>)
        ensures
            r.spec_id() == id,
    {
        Inputs { id, marker: PhantomData }
    }

    /// Returns the identifier of this port.
    pub fn id(&self) -> (r: InputPortId)
        ensures
            r == self.spec_id(),
    {
        self.id
    }
}

impl<T> Clone for Inputs<T> {
    fn clone(&self) -> (r: Self)
        ensures
            r.spec_id() == self.spec_id(),
    {
        Inputs { id: self.id, marker: PhantomData }
    }
}

impl<T> Copy for Inputs<T> {
}

/// A typed output port: its identifier, and the type of the messages it sends.
#[derive(Debug)]
pub struct Outputs<T> {
    id: OutputPortId,
    marker: PhantomData<T>,
}

impl<T> Outputs<T> {
    /// The identifier of this port.
    pub closed spec fn spec_id(self) -> OutputPortId {
        self.id
    }

    /// Makes a typed output port with a fresh identifier from `ids`.
    pub fn new(ids: &mut PortIdAllocator) -> (r: Option<Outputs<T>>)
        ensures
            r is None <==> old(ids).spec_next_output() == isize::MAX,
            r matches Some(p) ==> {
                &&& p.spec_id()@ == old(ids).spec_next_output()
                &&& !old(ids).issued_outputs().contains(p.spec_id()@)
                &&& final(ids).issued_outputs() == old(ids).issued_outputs().insert(p.spec_id()@)
                &&& final(ids).issued_inputs() == old(ids).issued_inputs()
                &&& final(ids).spec_next_output() == old(ids).spec_next_output() + 1
                &&& final(ids).spec_next_input() == old(ids).spec_next_input()
            },
            r is None ==> *final(ids) == *old(ids),
    {
        match ids.next_output_id() {
            Some(id) => Some(Outputs { id, marker: PhantomData }),
            None => None,
        }
    }

    /// Makes a typed output port with a given identifier.
    pub fn from_id(id: OutputPortId) -> (r: Outputs<T>)
        ensures
            r.spec_id() == id,
    {
        Outputs { id, marker: PhantomData }
    }

    /// Returns the identifier of this port.
    pub fn id(&self) -> (r: OutputPortId)
        ensures
            r == self.spec_id(),
    {
        self.id
    }
}

impl<T> Clone for Outputs<T> {
    fn clone(&self) -> (r: Self)
        ensures
            r.spec_id() == self.spec_id(),
    {
        Outputs { id: self.id, marker: PhantomData }
    }
}

} // verus!
