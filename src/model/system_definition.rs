use super::{
    bounds_of, BlockHandle, DeclaredPorts, InputPortId, OutputPortId, PortIdKey, PortIdMap,
    PortIdSet, SystemBuilder,
};
use core::ops::RangeInclusive;
use vstd::prelude::*;

verus! {

/// Whether `lo` and `hi` are the least and the greatest key over all the
/// sequences in `ss`.
pub open spec fn nested_key_bounds<K: PortIdKey>(ss: Seq<Seq<K>>, lo: int, hi: int) -> bool {
    &&& exists|b: int, i: int|
        0 <= b < ss.len() && 0 <= i < ss[b].len() && (#[trigger] ss[b][i]).key() == lo
    &&& exists|b: int, i: int|
        0 <= b < ss.len() && 0 <= i < ss[b].len() && (#[trigger] ss[b][i]).key() == hi
    &&& forall|b: int, i: int|
        0 <= b < ss.len() && 0 <= i < ss[b].len() ==> lo <= (#[trigger] ss[b][i]).key() <= hi
}

/// Whether none of the sequences in `ss` holds anything.
pub open spec fn all_empty<K>(ss: Seq<Seq<K>>) -> bool {
    forall|b: int| 0 <= b < ss.len() ==> (#[trigger] ss[b]).len() == 0
}

/// The input ports of each block.
pub open spec fn block_inputs(blocks: Seq<BlockHandle>) -> Seq<Seq<InputPortId>> {
    blocks.map_values(|b: BlockHandle| b.spec_inputs())
}

/// The output ports of each block.
pub open spec fn block_outputs(blocks: Seq<BlockHandle>) -> Seq<Seq<OutputPortId>> {
    blocks.map_values(|b: BlockHandle| b.spec_outputs())
}

/// The ports of one kind that each block declares.
pub open spec fn declared<K: DeclaredPorts>(blocks: Seq<BlockHandle>) -> Seq<Seq<K>> {
    blocks.map_values(|b: BlockHandle| K::spec_ports(b))
}

/// Returns the least and the greatest key among the ports of one kind that the
/// blocks declare, if any block declares such a port.
fn nested_bounds<K: DeclaredPorts>(blocks: &Vec<BlockHandle>) -> (r: Option<(isize, isize)>)
    ensures
        r is None <==> all_empty(declared::<K>(blocks@)),
        r matches Some((lo, hi)) ==> nested_key_bounds(
            declared::<K>(blocks@),
            lo as int,
            hi as int,
        ) && K::valid_key(lo as int) && K::valid_key(hi as int),
{
    let ghost ss = declared::<K>(blocks@);
    let mut found: Option<(isize, isize)> = None;
    let ghost mut lo_at: (int, int) = (0, 0);
    let ghost mut hi_at: (int, int) = (0, 0);
    let mut b: usize = 0;
    while b < blocks.len()
        invariant
            b <= blocks@.len(),
            ss == declared::<K>(blocks@),
            found is None <==> all_empty(ss.take(b as int)),
            found matches Some((lo, hi)) ==> {
                &&& K::valid_key(lo as int) && K::valid_key(hi as int)
                &&& 0 <= lo_at.0 < b && 0 <= lo_at.1 < ss[lo_at.0].len()
                &&& ss[lo_at.0][lo_at.1].key() == lo
                &&& 0 <= hi_at.0 < b && 0 <= hi_at.1 < ss[hi_at.0].len()
                &&& ss[hi_at.0][hi_at.1].key() == hi
                &&& forall|c: int, i: int|
                    0 <= c < b && 0 <= i < ss[c].len() ==> lo <= (#[trigger] ss[c][i]).key() <= hi
            },
        decreases blocks@.len() - b,
    {
        let bounds = bounds_of(K::ports(&blocks[b]));
        proof {
            let t0 = ss.take(b as int);
            let t1 = ss.take(b as int + 1);
            assert(ss[b as int] == K::spec_ports(blocks@[b as int]));
            assert forall|c: int| 0 <= c < b implies #[trigger] t1[c] == t0[c] by {}
            assert(t1[b as int] == ss[b as int]);
            if bounds is None {
                assert(all_empty(t1) <==> all_empty(t0)) by {
                    if all_empty(t0) {
                        assert forall|c: int| 0 <= c < t1.len() implies (#[trigger] t1[c]).len()
                            == 0 by {
                            if c < b {
                                assert(t1[c] == t0[c]);
                            }
                        }
                    }
                    if all_empty(t1) {
                        assert forall|c: int| 0 <= c < t0.len() implies (#[trigger] t0[c]).len()
                            == 0 by {
                            assert(t1[c] == t0[c]);
                        }
                    }
                }
            } else {
                assert(!all_empty(t1)) by {
                    assert(t1[b as int].len() != 0);
                }
            }
        }
        match bounds {
            None => {},
            Some((blo, bhi)) => {
                let ghost bi_lo = choose|i: int|
                    0 <= i < ss[b as int].len() && (#[trigger] ss[b as int][i]).key() == blo;
                let ghost bi_hi = choose|i: int|
                    0 <= i < ss[b as int].len() && (#[trigger] ss[b as int][i]).key() == bhi;
                match found {
                    None => {
                        found = Some((blo, bhi));
                        proof {
                            lo_at = (b as int, bi_lo);
                            hi_at = (b as int, bi_hi);
                            assert forall|c: int, i: int|
                                0 <= c < b + 1 && 0 <= i < ss[c].len() implies blo <= (
                                #[trigger] ss[c][i]).key() <= bhi by {
                                if c < b {
                                    assert(ss.take(b as int)[c] == ss[c]);
                                    assert((ss.take(b as int)[c]).len() == 0);
                                }
                            }
                        }
                    },
                    Some((lo, hi)) => {
                        let nlo = if blo < lo {
                            proof {
                                lo_at = (b as int, bi_lo);
                            }
                            blo
                        } else {
                            lo
                        };
                        let nhi = if bhi > hi {
                            proof {
                                hi_at = (b as int, bi_hi);
                            }
                            bhi
                        } else {
                            hi
                        };
                        found = Some((nlo, nhi));
                    },
                }
            },
        }
        b = b + 1;
    }
    proof {
        assert(ss.take(blocks@.len() as int) =~= ss);
    }
    found
}

/// A system definition: the frozen result of a successful build.
///
/// It holds the exported input and output ports, the registered blocks, and the
/// validated connections, each from an output port to the input port that it
/// feeds. Every method takes `&self`: once built, a definition does not change.
#[derive(Clone, Debug)]
pub struct SystemDefinition {
    inputs: PortIdSet<InputPortId>,
    outputs: PortIdSet<OutputPortId>,
    blocks: Vec<BlockHandle>,
    connections: PortIdMap<OutputPortId, InputPortId>,
}

impl SystemDefinition {
    /// The exported input ports.
    pub closed spec fn exported_inputs(self) -> Set<InputPortId> {
        self.inputs@
    }

    /// The exported output ports.
    pub closed spec fn exported_outputs(self) -> Set<OutputPortId> {
        self.outputs@
    }

    /// The registered blocks, in order of registration.
    pub closed spec fn spec_blocks(self) -> Seq<BlockHandle> {
        self.blocks@
    }

    /// The connections, from each connected output port to its input port.
    pub closed spec fn spec_connections(self) -> Map<OutputPortId, InputPortId> {
        self.connections@
    }

    /// Whether the definition holds nothing.
    pub open spec fn is_blank(self) -> bool {
        &&& self.exported_inputs().is_empty()
        &&& self.exported_outputs().is_empty()
        &&& self.spec_blocks().len() == 0
        &&& self.spec_connections().is_empty()
    }

    /// Creates an empty definition.
    pub fn new() -> (r: SystemDefinition)
        ensures
            r.is_blank(),
    {
        SystemDefinition {
            inputs: PortIdSet::new(),
            outputs: PortIdSet::new(),
            blocks: Vec::new(),
            connections: PortIdMap::new(),
        }
    }

    /// Returns a system builder.
    pub fn build() -> (r: SystemBuilder)
        ensures
            r.is_fresh(),
    {
        SystemBuilder::new()
    }

    /// Appends a block.
    pub(crate) fn push_block(&mut self, block: BlockHandle)
        ensures
            final(self).spec_blocks() == old(self).spec_blocks().push(block),
            final(self).exported_inputs() == old(self).exported_inputs(),
            final(self).exported_outputs() == old(self).exported_outputs(),
            final(self).spec_connections() == old(self).spec_connections(),
    {
        self.blocks.push(block);
    }

    /// Adds an input port to the exported ones.
    pub(crate) fn export_input(&mut self, id: InputPortId)
        ensures
            final(self).exported_inputs() == old(self).exported_inputs().insert(id),
            final(self).exported_outputs() == old(self).exported_outputs(),
            final(self).spec_blocks() == old(self).spec_blocks(),
            final(self).spec_connections() == old(self).spec_connections(),
    {
        self.inputs.insert(id);
    }

    /// Adds an output port to the exported ones.
    pub(crate) fn export_output(&mut self, id: OutputPortId)
        ensures
            final(self).exported_outputs() == old(self).exported_outputs().insert(id),
            final(self).exported_inputs() == old(self).exported_inputs(),
            final(self).spec_blocks() == old(self).spec_blocks(),
            final(self).spec_connections() == old(self).spec_connections(),
    {
        self.outputs.insert(id);
    }

    /// Records a connection from `output` to `input`.
    pub(crate) fn add_connection(&mut self, output: OutputPortId, input: InputPortId) -> (r: bool)
        ensures
            final(self).spec_connections() == old(self).spec_connections().insert(output, input),
            r == !old(self).spec_connections().contains_key(output),
            final(self).exported_inputs() == old(self).exported_inputs(),
            final(self).exported_outputs() == old(self).exported_outputs(),
            final(self).spec_blocks() == old(self).spec_blocks(),
    {
        self.connections.insert(output, input)
    }

    /// Returns the exported input ports.
    pub fn inputs(&self) -> (r: &PortIdSet<InputPortId>)
        ensures
            r@ == self.exported_inputs(),
    {
        &self.inputs
    }

    /// Returns the exported output ports.
    pub fn outputs(&self) -> (r: &PortIdSet<OutputPortId>)
        ensures
            r@ == self.exported_outputs(),
    {
        &self.outputs
    }

    /// Returns the registered blocks.
    pub fn blocks(&self) -> (r: &Vec<BlockHandle>)
        ensures
            r@ == self.spec_blocks(),
    {
        &self.blocks
    }

    /// Returns the connections.
    pub fn connections(&self) -> (r: &PortIdMap<OutputPortId, InputPortId>)
        ensures
            r@ == self.spec_connections(),
    {
        &self.connections
    }

    /// Returns the range from the least to the greatest input port ID of all the
    /// blocks, if any block has input ports.
    pub fn inputs_range(&self) -> (r: Option<RangeInclusive<isize>>)
        ensures
            r is None <==> all_empty(block_inputs(self.spec_blocks())),
            r matches Some(range) ==> nested_key_bounds(
                block_inputs(self.spec_blocks()),
                range@.start as int,
                range@.end as int,
            ) && range@.end < 0,
    {
        proof {
            assert(block_inputs(self.blocks@) =~= declared::<InputPortId>(self.blocks@));
        }
        match nested_bounds::<InputPortId>(&self.blocks) {
            None => None,
            Some((lo, hi)) => Some(RangeInclusive::new(lo, hi)),
        }
    }

    /// Returns the range from the least to the greatest output port ID of all the
    /// blocks, if any block has output ports.
    pub fn outputs_range(&self) -> (r: Option<RangeInclusive<isize>>)
        ensures
            r is None <==> all_empty(block_outputs(self.spec_blocks())),
            r matches Some(range) ==> nested_key_bounds(
                block_outputs(self.spec_blocks()),
                range@.start as int,
                range@.end as int,
            ) && 0 < range@.start,
    {
        proof {
            assert(block_outputs(self.blocks@) =~= declared::<OutputPortId>(self.blocks@));
        }
        match nested_bounds::<OutputPortId>(&self.blocks) {
            None => None,
            Some((lo, hi)) => Some(RangeInclusive::new(lo, hi)),
        }
    }
}

} // verus!
