use super::{InputPortId, OutputPortId, PortIdKey};
use core::ops::RangeInclusive;
use vstd::prelude::*;

verus! {

/// A block definition: a named unit of work with the input and output ports
/// that it uses for its whole lifetime.
///
/// A block states its ports twice: as the lists that `inputs` and `outputs`
/// return, and as the sequences `spec_inputs` and `spec_outputs` that those lists
/// equal, and likewise its name. A verified block defines both; the
/// specifications default to no ports and an empty name.
pub trait BlockDefinition {
    /// The input ports that the block declares, in order.
    open spec fn spec_inputs(&self) -> Seq<InputPortId> {
        Seq::empty()
    }

    /// The output ports that the block declares, in order.
    open spec fn spec_outputs(&self) -> Seq<OutputPortId> {
        Seq::empty()
    }

    /// The name of the block.
    open spec fn spec_name(&self) -> Seq<char> {
        Seq::empty()
    }

    /// The name of the block.
    fn name(&self) -> (r: String)
        ensures
            r@ == self.spec_name(),
    ;

    /// The input ports of the block, in order.
    fn inputs(&self) -> (r: Vec<InputPortId>)
        ensures
            r@ == self.spec_inputs(),
    ;

    /// The output ports of the block, in order.
    fn outputs(&self) -> (r: Vec<OutputPortId>)
        ensures
            r@ == self.spec_outputs(),
    ;
}

/// Whether `lo` and `hi` are the least and the greatest key in `s`.
pub open spec fn key_bounds<K: PortIdKey>(s: Seq<K>, lo: int, hi: int) -> bool {
    &&& exists|i: int| 0 <= i < s.len() && (#[trigger] s[i]).key() == lo
    &&& exists|i: int| 0 <= i < s.len() && (#[trigger] s[i]).key() == hi
    &&& forall|i: int| 0 <= i < s.len() ==> lo <= (#[trigger] s[i]).key() <= hi
}

/// Returns the least and the greatest key in `s`, if it is not empty.
pub fn bounds_of<K: PortIdKey>(s: &Vec<K>) -> (r: Option<(isize, isize)>)
    ensures
        r is None <==> s@.len() == 0,
        r matches Some((lo, hi)) ==> key_bounds(s@, lo as int, hi as int) && K::valid_key(
            lo as int,
        ) && K::valid_key(hi as int),
{
    if s.len() == 0 {
        return None;
    }
    let mut lo = s[0].as_key();
    let mut hi = lo;
    let ghost mut lo_at: int = 0;
    let ghost mut hi_at: int = 0;
    let mut i: usize = 1;
    while i < s.len()
        invariant
            1 <= i <= s@.len(),
            0 <= lo_at < i,
            0 <= hi_at < i,
            s@[lo_at].key() == lo,
            s@[hi_at].key() == hi,
            K::valid_key(lo as int),
            K::valid_key(hi as int),
            forall|j: int| 0 <= j < i ==> lo <= (#[trigger] s@[j]).key() <= hi,
        decreases s@.len() - i,
    {
        let k = s[i].as_key();
        if k < lo {
            lo = k;
            proof {
                lo_at = i as int;
            }
        }
        if k > hi {
            hi = k;
            proof {
                hi_at = i as int;
            }
        }
        i = i + 1;
    }
    Some((lo, hi))
}

/// Port identifiers that a block handle lists: input or output ones.
pub trait DeclaredPorts: PortIdKey {
    /// The ports of this kind that `block` declares.
    spec fn spec_ports(block: BlockHandle) -> Seq<Self>;

    /// Returns the ports of this kind that `block` declares.
    fn ports(block: &BlockHandle) -> (r: &Vec<Self>)
        ensures
            r@ == Self::spec_ports(*block),
    ;
}

impl DeclaredPorts for InputPortId {
    open spec fn spec_ports(block: BlockHandle) -> Seq<Self> {
        block.spec_inputs()
    }

    fn ports(block: &BlockHandle) -> (r: &Vec<Self>) {
        block.inputs()
    }
}

impl DeclaredPorts for OutputPortId {
    open spec fn spec_ports(block: BlockHandle) -> Seq<Self> {
        block.spec_outputs()
    }

    fn ports(block: &BlockHandle) -> (r: &Vec<Self>) {
        block.outputs()
    }
}

/// A registered block: its name and the ports that it declared when it was
/// registered.
#[derive(Clone, Debug)]
pub struct BlockHandle {
    name: String,
    inputs: Vec<InputPortId>,
    outputs: Vec<OutputPortId>,
}

impl BlockHandle {
    /// The name of the block.
    pub closed spec fn spec_name(self) -> Seq<char> {
        self.name@
    }

    /// The input ports of the block.
    pub closed spec fn spec_inputs(self) -> Seq<InputPortId> {
        self.inputs@
    }

    /// The output ports of the block.
    pub closed spec fn spec_outputs(self) -> Seq<OutputPortId> {
        self.outputs@
    }

    /// Makes a handle from a name and the lists of ports.
    pub fn from_parts(name: String, inputs: Vec<InputPortId>, outputs: Vec<OutputPortId>) -> (r:
        BlockHandle)
        ensures
            r.spec_name() == name@,
            r.spec_inputs() == inputs@,
            r.spec_outputs() == outputs@,
    {
        BlockHandle { name, inputs, outputs }
    }

    /// Makes a handle that records what a block declares.
    pub fn new<T: BlockDefinition>(block: &T) -> (r: BlockHandle)
        ensures
            r.spec_name() == block.spec_name(),
            r.spec_inputs() == block.spec_inputs(),
            r.spec_outputs() == block.spec_outputs(),
    {
        BlockHandle { name: block.name(), inputs: block.inputs(), outputs: block.outputs() }
    }

    /// Returns the name of the block.
    pub fn name(&self) -> (r: &String)
        ensures
            r@ == self.spec_name(),
    {
        &self.name
    }

    /// Returns the input ports of the block.
    pub fn inputs(&self) -> (r: &Vec<InputPortId>)
        ensures
            r@ == self.spec_inputs(),
    {
        &self.inputs
    }

    /// Returns the output ports of the block.
    pub fn outputs(&self) -> (r: &Vec<OutputPortId>)
        ensures
            r@ == self.spec_outputs(),
    {
        &self.outputs
    }

    /// Returns the range from the least to the greatest input port ID of the block,
    /// if it has input ports.
    pub fn inputs_range(&self) -> (r: Option<RangeInclusive<isize>>)
        ensures
            r is None <==> self.spec_inputs().len() == 0,
            r matches Some(range) ==> key_bounds(
                self.spec_inputs(),
                range@.start as int,
                range@.end as int,
            ) && range@.end < 0,
    {
        match bounds_of(&self.inputs) {
            None => None,
            Some((lo, hi)) => Some(RangeInclusive::new(lo, hi)),
        }
    }

    /// Returns the range from the least to the greatest output port ID of the
    /// block, if it has output ports.
    pub fn outputs_range(&self) -> (r: Option<RangeInclusive<isize>>)
        ensures
            r is None <==> self.spec_outputs().len() == 0,
            r matches Some(range) ==> key_bounds(
                self.spec_outputs(),
                range@.start as int,
                range@.end as int,
            ) && 0 < range@.start,
    {
        match bounds_of(&self.outputs) {
            None => None,
            Some((lo, hi)) => Some(RangeInclusive::new(lo, hi)),
        }
    }
}

} // verus!
