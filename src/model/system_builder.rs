use super::{
    fresh_ports, BlockDefinition, BlockHandle, InputPortId, Inputs, OutputPortId, Outputs, PortId,
    PortIdSet,
    SystemDefinition,
};
use std::rc::Rc;
use vstd::prelude::*;

verus! {

/// Why a call on a [`SystemBuilder`] was refused.
#[derive(Clone, Copy, Debug, PartialEq, Eq, Structural)]
pub enum SystemBuildError {
    /// The input port was never registered.
    UnregisteredInput(InputPortId),
    /// The output port was never registered.
    UnregisteredOutput(OutputPortId),
    /// The output port is connected already.
    AlreadyConnectedOutput(OutputPortId),
    /// The input port is connected already.
    AlreadyConnectedInput(InputPortId),
    /// A block declares an input port that is registered already.
    AlreadyRegisteredInput(InputPortId),
    /// A block declares an output port that is registered already.
    AlreadyRegisteredOutput(OutputPortId),
}

/// A builder for system definitions.
///
/// Besides the definition under construction it keeps the registered input and
/// output ports and the output ports connected so far; `build` discards them.
#[derive(Clone, Debug)]
pub struct SystemBuilder {
    system: SystemDefinition,
    registered_inputs: PortIdSet<InputPortId>,
    registered_outputs: PortIdSet<OutputPortId>,
    connected_outputs: PortIdSet<OutputPortId>,
    connected_inputs: PortIdSet<InputPortId>,
}

impl SystemBuilder {
    /// The definition under construction.
    pub closed spec fn definition(self) -> SystemDefinition {
        self.system
    }

    /// The registered input ports.
    pub closed spec fn spec_registered_inputs(self) -> Set<InputPortId> {
        self.registered_inputs@
    }

    /// The registered output ports.
    pub closed spec fn spec_registered_outputs(self) -> Set<OutputPortId> {
        self.registered_outputs@
    }

    /// The output ports that are connected.
    pub closed spec fn spec_connected_outputs(self) -> Set<OutputPortId> {
        self.connected_outputs@
    }

    /// The input ports that are connected.
    pub closed spec fn spec_connected_inputs(self) -> Set<InputPortId> {
        self.connected_inputs@
    }

    /// The rules that every builder keeps: connections join registered ports,
    /// each connected output is connected once, exported and declared ports are
    /// registered.
    pub open spec fn wf(self) -> bool {
        let d = self.definition();
        &&& self.spec_connected_outputs() == d.spec_connections().dom()
        &&& self.spec_connected_inputs() == d.spec_connections().values()
        &&& forall|o1: OutputPortId, o2: OutputPortId|
            #![trigger d.spec_connections()[o1], d.spec_connections()[o2]]
            d.spec_connections().contains_key(o1) && d.spec_connections().contains_key(o2)
                && d.spec_connections()[o1] == d.spec_connections()[o2] ==> o1 == o2
        &&& forall|o: OutputPortId| #[trigger]
            d.spec_connections().contains_key(o) ==> self.spec_registered_outputs().contains(o)
                && self.spec_registered_inputs().contains(d.spec_connections()[o])
        &&& d.exported_inputs().subset_of(self.spec_registered_inputs())
        &&& d.exported_outputs().subset_of(self.spec_registered_outputs())
        &&& forall|b: int, i: int|
            0 <= b < d.spec_blocks().len() && 0 <= i < d.spec_blocks()[b].spec_inputs().len()
                ==> self.spec_registered_inputs().contains(
                #[trigger] d.spec_blocks()[b].spec_inputs()[i],
            )
        &&& forall|b: int, i: int|
            0 <= b < d.spec_blocks().len() && 0 <= i < d.spec_blocks()[b].spec_outputs().len()
                ==> self.spec_registered_outputs().contains(
                #[trigger] d.spec_blocks()[b].spec_outputs()[i],
            )
    }

    /// Whether nothing has been registered, exported or connected.
    pub open spec fn is_fresh(self) -> bool {
        &&& self.definition().is_blank()
        &&& self.spec_registered_inputs().is_empty()
        &&& self.spec_registered_outputs().is_empty()
        &&& self.spec_connected_outputs().is_empty()
        &&& self.spec_connected_inputs().is_empty()
    }

    /// Whether `next` is `self` with nothing changed.
    pub open spec fn same(self, next: SystemBuilder) -> bool {
        &&& next.definition().exported_inputs() == self.definition().exported_inputs()
        &&& next.definition().exported_outputs() == self.definition().exported_outputs()
        &&& next.definition().spec_blocks() == self.definition().spec_blocks()
        &&& next.definition().spec_connections() == self.definition().spec_connections()
        &&& next.spec_registered_inputs() == self.spec_registered_inputs()
        &&& next.spec_registered_outputs() == self.spec_registered_outputs()
        &&& next.spec_connected_outputs() == self.spec_connected_outputs()
        &&& next.spec_connected_inputs() == self.spec_connected_inputs()
    }

    /// Whether `next` is `self` with the ports `inputs` and `outputs` registered.
    pub open spec fn registered(
        self,
        next: SystemBuilder,
        inputs: Set<InputPortId>,
        outputs: Set<OutputPortId>,
    ) -> bool {
        &&& next.definition().exported_inputs() == self.definition().exported_inputs()
        &&& next.definition().exported_outputs() == self.definition().exported_outputs()
        &&& next.definition().spec_connections() == self.definition().spec_connections()
        &&& next.spec_registered_inputs() == self.spec_registered_inputs().union(inputs)
        &&& next.spec_registered_outputs() == self.spec_registered_outputs().union(outputs)
        &&& next.spec_connected_outputs() == self.spec_connected_outputs()
        &&& next.spec_connected_inputs() == self.spec_connected_inputs()
    }

    /// What connecting `output` to `input` gives: the first check that fails, in
    /// the order input registered, output registered, output not yet connected,
    /// input not yet connected; else `Ok(true)`.
    pub open spec fn connect_outcome(self, output: OutputPortId, input: InputPortId) -> Result<
        bool,
        SystemBuildError,
    > {
        if !self.spec_registered_inputs().contains(input) {
            Err(SystemBuildError::UnregisteredInput(input))
        } else if !self.spec_registered_outputs().contains(output) {
            Err(SystemBuildError::UnregisteredOutput(output))
        } else if self.spec_connected_outputs().contains(output) {
            Err(SystemBuildError::AlreadyConnectedOutput(output))
        } else if self.spec_connected_inputs().contains(input) {
            Err(SystemBuildError::AlreadyConnectedInput(input))
        } else {
            Ok(true)
        }
    }

    /// What exporting `id` gives: `id` itself if it is registered, else the error
    /// that names it.
    pub open spec fn export_outcome(self, id: PortId) -> Result<PortId, SystemBuildError> {
        match id {
            PortId::Input(input) => if self.spec_registered_inputs().contains(input) {
                Ok(id)
            } else {
                Err(SystemBuildError::UnregisteredInput(input))
            },
            PortId::Output(output) => if self.spec_registered_outputs().contains(output) {
                Ok(id)
            } else {
                Err(SystemBuildError::UnregisteredOutput(output))
            },
        }
    }

    /// Whether `next` is `self` with `id` added to the exported ports when `done`
    /// holds, and unchanged otherwise.
    pub open spec fn exported(self, next: SystemBuilder, id: PortId, done: bool) -> bool {
        let d = self.definition();
        let n = next.definition();
        &&& n.exported_inputs() == match id {
            PortId::Input(input) if done => d.exported_inputs().insert(input),
            _ => d.exported_inputs(),
        }
        &&& n.exported_outputs() == match id {
            PortId::Output(output) if done => d.exported_outputs().insert(output),
            _ => d.exported_outputs(),
        }
        &&& n.spec_blocks() == d.spec_blocks()
        &&& n.spec_connections() == d.spec_connections()
        &&& next.spec_registered_inputs() == self.spec_registered_inputs()
        &&& next.spec_registered_outputs() == self.spec_registered_outputs()
        &&& next.spec_connected_outputs() == self.spec_connected_outputs()
        &&& next.spec_connected_inputs() == self.spec_connected_inputs()
    }

    /// Whether `next` is `self` with the connection from `output` to `input` added.
    pub open spec fn connected(
        self,
        next: SystemBuilder,
        output: OutputPortId,
        input: InputPortId,
    ) -> bool {
        &&& next.definition().exported_inputs() == self.definition().exported_inputs()
        &&& next.definition().exported_outputs() == self.definition().exported_outputs()
        &&& next.definition().spec_blocks() == self.definition().spec_blocks()
        &&& next.definition().spec_connections() == self.definition().spec_connections().insert(
            output,
            input,
        )
        &&& next.spec_registered_inputs() == self.spec_registered_inputs()
        &&& next.spec_registered_outputs() == self.spec_registered_outputs()
        &&& next.spec_connected_outputs() == self.spec_connected_outputs().insert(output)
        &&& next.spec_connected_inputs() == self.spec_connected_inputs().insert(input)
    }

    /// Creates a new system builder.
    pub fn new() -> (r: SystemBuilder)
        ensures
            r.wf(),
            r.is_fresh(),
    {
        let r = SystemBuilder {
            system: SystemDefinition::new(),
            registered_inputs: PortIdSet::new(),
            registered_outputs: PortIdSet::new(),
            connected_outputs: PortIdSet::new(),
            connected_inputs: PortIdSet::new(),
        };
        proof {
            assert(r.definition().spec_connections().dom() =~= Set::<OutputPortId>::empty());
            assert(r.definition().spec_connections().values() =~= Set::<InputPortId>::empty());
        }
        r
    }

    /// Returns the definition under construction.
    pub fn system(&self) -> (r: &SystemDefinition)
        ensures
            *r == self.definition(),
    {
        &self.system
    }

    /// Registers an input port; registering it again changes nothing.
    pub fn register_input(&mut self, input: InputPortId)
        requires
            old(self).wf(),
        ensures
            final(self).wf(),
            old(self).registered(*final(self), set![input], Set::empty()),
            final(self).definition().spec_blocks() == old(self).definition().spec_blocks(),
    {
        self.registered_inputs.insert(input);
        proof {
            assert(self.spec_registered_outputs() =~= old(self).spec_registered_outputs().union(
                Set::empty(),
            ));
            assert(self.spec_registered_inputs() =~= old(self).spec_registered_inputs().union(
                set![input],
            ));
        }
    }

    /// Registers an output port; registering it again changes nothing.
    pub fn register_output(&mut self, output: OutputPortId)
        requires
            old(self).wf(),
        ensures
            final(self).wf(),
            old(self).registered(*final(self), Set::empty(), set![output]),
            final(self).definition().spec_blocks() == old(self).definition().spec_blocks(),
    {
        self.registered_outputs.insert(output);
        proof {
            assert(self.spec_registered_inputs() =~= old(self).spec_registered_inputs().union(
                Set::empty(),
            ));
            assert(self.spec_registered_outputs() =~= old(self).spec_registered_outputs().union(
                set![output],
            ));
        }
    }

    /// Registers an input or output port.
    pub fn register_port(&mut self, id: PortId)
        requires
            old(self).wf(),
        ensures
            final(self).wf(),
            final(self).definition().spec_blocks() == old(self).definition().spec_blocks(),
            match id {
                PortId::Input(input) => old(self).registered(
                    *final(self),
                    set![input],
                    Set::empty(),
                ),
                PortId::Output(output) => old(self).registered(
                    *final(self),
                    Set::empty(),
                    set![output],
                ),
            },
    {
        match id {
            PortId::Input(input) => self.register_input(input),
            PortId::Output(output) => self.register_output(output),
        }
    }

    /// Registers a block's record and its ports, which must all be distinct and
    /// not registered yet; returns the block's position.
    pub fn register_handle(&mut self, block: BlockHandle) -> (r: Result<usize, SystemBuildError>)
        requires
            old(self).wf(),
        ensures
            final(self).wf(),
            r is Ok <==> fresh_ports(block.spec_inputs(), old(self).spec_registered_inputs())
                && fresh_ports(block.spec_outputs(), old(self).spec_registered_outputs()),
            r matches Ok(n) ==> {
                &&& n == old(self).definition().spec_blocks().len()
                &&& final(self).definition().spec_blocks() == old(
                    self,
                ).definition().spec_blocks().push(block)
                &&& old(self).registered(
                    *final(self),
                    block.spec_inputs().to_set(),
                    block.spec_outputs().to_set(),
                )
            },
            r matches Err(e) ==> old(self).same(*final(self)) && match e {
                SystemBuildError::AlreadyRegisteredInput(id) => block.spec_inputs().contains(id),
                SystemBuildError::AlreadyRegisteredOutput(id) => block.spec_outputs().contains(
                    id,
                ),
                _ => false,
            },
    {
        if let Some(id) = self.registered_inputs.first_taken(block.inputs()) {
            return Err(SystemBuildError::AlreadyRegisteredInput(id));
        }
        if let Some(id) = self.registered_outputs.first_taken(block.outputs()) {
            return Err(SystemBuildError::AlreadyRegisteredOutput(id));
        }
        self.registered_inputs.insert_all(block.inputs());
        self.registered_outputs.insert_all(block.outputs());
        let n = self.system.blocks().len();
        proof {
            let ins = block.spec_inputs();
            let outs = block.spec_outputs();
            assert forall|i: int| 0 <= i < ins.len() implies self.spec_registered_inputs().contains(
                #[trigger] ins[i],
            ) by {
                assert(ins.to_set().contains(ins[i]));
            }
            assert forall|i: int|
                0 <= i < outs.len() implies self.spec_registered_outputs().contains(
                #[trigger] outs[i],
            ) by {
                assert(outs.to_set().contains(outs[i]));
            }
        }
        self.system.push_block(block);
        Ok(n)
    }

    /// Registers an instantiated block with the system under construction: records
    /// the block and registers the ports that it declares, which must all be
    /// distinct and not registered yet.
    pub fn register<T: BlockDefinition>(&mut self, block: T) -> (r: Result<Rc<T>, SystemBuildError>)
        requires
            old(self).wf(),
        ensures
            final(self).wf(),
            r is Ok <==> fresh_ports(block.spec_inputs(), old(self).spec_registered_inputs())
                && fresh_ports(block.spec_outputs(), old(self).spec_registered_outputs()),
            r matches Ok(rc) ==> {
                let b = final(self).definition().spec_blocks().last();
                &&& *rc == block
                &&& final(self).definition().spec_blocks() == old(
                    self,
                ).definition().spec_blocks().push(b)
                &&& b.spec_name() == block.spec_name()
                &&& b.spec_inputs() == block.spec_inputs()
                &&& b.spec_outputs() == block.spec_outputs()
                &&& old(self).registered(
                    *final(self),
                    block.spec_inputs().to_set(),
                    block.spec_outputs().to_set(),
                )
            },
            r matches Err(e) ==> old(self).same(*final(self)) && match e {
                SystemBuildError::AlreadyRegisteredInput(id) => block.spec_inputs().contains(id),
                SystemBuildError::AlreadyRegisteredOutput(id) => block.spec_outputs().contains(
                    id,
                ),
                _ => false,
            },
    {
        let handle = BlockHandle::new(&block);
        match self.register_handle(handle) {
            Ok(_) => Ok(Rc::new(block)),
            Err(e) => Err(e),
        }
    }

    /// Exports an input port registered with the system under construction.
    pub fn export_input(&mut self, input: InputPortId) -> (r: Result<InputPortId, SystemBuildError>)
        requires
            old(self).wf(),
        ensures
            final(self).wf(),
            r is Ok <==> old(self).export_outcome(PortId::Input(input)) is Ok,
            r is Ok ==> r == Ok::<InputPortId, SystemBuildError>(input),
            r is Err ==> r == Err::<InputPortId, SystemBuildError>(
                SystemBuildError::UnregisteredInput(input),
            ),
            old(self).exported(*final(self), PortId::Input(input), r is Ok),
    {
        if !self.registered_inputs.contains(input) {
            return Err(SystemBuildError::UnregisteredInput(input));
        }
        self.system.export_input(input);
        proof {
            assert(self.definition().exported_outputs() =~= old(
                self,
            ).definition().exported_outputs());
        }
        Ok(input)
    }

    /// Exports an output port registered with the system under construction.
    pub fn export_output(&mut self, output: OutputPortId) -> (r: Result<
        OutputPortId,
        SystemBuildError,
    >)
        requires
            old(self).wf(),
        ensures
            final(self).wf(),
            r is Ok <==> old(self).export_outcome(PortId::Output(output)) is Ok,
            r is Ok ==> r == Ok::<OutputPortId, SystemBuildError>(output),
            r is Err ==> r == Err::<OutputPortId, SystemBuildError>(
                SystemBuildError::UnregisteredOutput(output),
            ),
            old(self).exported(*final(self), PortId::Output(output), r is Ok),
    {
        if !self.registered_outputs.contains(output) {
            return Err(SystemBuildError::UnregisteredOutput(output));
        }
        self.system.export_output(output);
        Ok(output)
    }

    /// Exports an input or output port registered with the system under
    /// construction.
    pub fn export_port(&mut self, id: PortId) -> (r: Result<PortId, SystemBuildError>)
        requires
            old(self).wf(),
        ensures
            final(self).wf(),
            r == old(self).export_outcome(id),
            old(self).exported(*final(self), id, r is Ok),
    {
        match id {
            PortId::Input(input) => match self.export_input(input) {
                Ok(_) => Ok(id),
                Err(e) => Err(e),
            },
            PortId::Output(output) => match self.export_output(output) {
                Ok(_) => Ok(id),
                Err(e) => Err(e),
            },
        }
    }

    /// Exports an input or output port registered with the system under
    /// construction; the same as [`export_port`](Self::export_port).
    pub fn export(&mut self, id: PortId) -> (r: Result<PortId, SystemBuildError>)
        requires
            old(self).wf(),
        ensures
            final(self).wf(),
            r == old(self).export_outcome(id),
            old(self).exported(*final(self), id, r is Ok),
    {
        self.export_port(id)
    }

    /// Connects an output port to an input port of the same message type.
    ///
    /// Returns whether the connection was newly inserted, which is always so
    /// when it succeeds.
    pub fn connect<T>(&mut self, output: &Outputs<T>, input: &Inputs<T>) -> (r: Result<
        bool,
        SystemBuildError,
    >)
        requires
            old(self).wf(),
        ensures
            final(self).wf(),
            r == old(self).connect_outcome(output.spec_id(), input.spec_id()),
            r is Ok ==> old(self).connected(*final(self), output.spec_id(), input.spec_id()),
            r is Err ==> old(self).same(*final(self)),
    {
        self.connect_ids(output.id(), input.id())
    }

    /// Connects an output port ID to an input port ID, without a check that their
    /// message types agree.
    pub(crate) fn connect_ids(&mut self, output: OutputPortId, input: InputPortId) -> (r: Result<
        bool,
        SystemBuildError,
    >)
        requires
            old(self).wf(),
        ensures
            final(self).wf(),
            r == old(self).connect_outcome(output, input),
            r is Ok ==> old(self).connected(*final(self), output, input),
            r is Err ==> old(self).same(*final(self)),
    {
        if !self.registered_inputs.contains(input) {
            return Err(SystemBuildError::UnregisteredInput(input));
        }
        if !self.registered_outputs.contains(output) {
            return Err(SystemBuildError::UnregisteredOutput(output));
        }
        if self.connected_outputs.contains(output) {
            return Err(SystemBuildError::AlreadyConnectedOutput(output));
        }
        if self.connected_inputs.contains(input) {
            return Err(SystemBuildError::AlreadyConnectedInput(input));
        }
        let ghost old_conn = self.definition().spec_connections();
        let result = self.system.add_connection(output, input);
        // Each output and each input port takes part in one connection at most:
        self.connected_outputs.insert(output);
        self.connected_inputs.insert(input);
        proof {
            let conn = self.definition().spec_connections();
            assert(conn == old_conn.insert(output, input));
            assert forall|v: InputPortId| conn.contains_value(v) <==> old_conn.contains_value(v)
                || v == input by {
                if conn.contains_value(v) {
                    let k = choose|k: OutputPortId| conn.contains_key(k) && conn[k] == v;
                    if k != output {
                        assert(old_conn.contains_key(k) && old_conn[k] == v);
                    }
                }
                if old_conn.contains_value(v) {
                    let k = choose|k: OutputPortId| old_conn.contains_key(k) && old_conn[k] == v;
                    assert(conn.contains_key(k) && conn[k] == v);
                }
                if v == input {
                    assert(conn.contains_key(output) && conn[output] == v);
                }
            }
            assert(self.spec_connected_inputs() =~= conn.values());
            assert forall|o1: OutputPortId, o2: OutputPortId|
                conn.contains_key(o1) && conn.contains_key(o2) && #[trigger] conn[o1]
                    == #[trigger] conn[o2] implies o1 == o2 by {
                if o1 != output && o2 == output {
                    assert(old_conn.contains_value(old_conn[o1]));
                }
                if o2 != output && o1 == output {
                    assert(old_conn.contains_value(old_conn[o2]));
                }
            }
        }
        proof {
            assert(self.spec_connected_outputs() =~= self.definition().spec_connections().dom());
        }
        Ok(result)
    }

    /// Builds the system under construction.
    pub fn build(self) -> (r: SystemDefinition)
        ensures
            r == self.definition(),
    {
        self.system
    }
}

impl Default for SystemBuilder {
    fn default() -> (r: SystemBuilder)
        ensures
            r.wf(),
            r.is_fresh(),
    {
        SystemBuilder::new()
    }
}

/// Once an output port is connected, every later attempt to connect it fails with
/// `AlreadyConnectedOutput`, whichever registered input port it names.
pub proof fn lemma_output_connects_once(
    before: SystemBuilder,
    after: SystemBuilder,
    output: OutputPortId,
    first: InputPortId,
    second: InputPortId,
)
    requires
        before.connect_outcome(output, first) is Ok,
        before.connected(after, output, first),
        after.spec_registered_inputs().contains(second),
    ensures
        after.connect_outcome(output, second) == Err::<bool, SystemBuildError>(
            SystemBuildError::AlreadyConnectedOutput(output),
        ),
{
}

/// Once an input port is connected, connecting another registered output port that
/// is not connected yet to it fails with `AlreadyConnectedInput`: an input is the
/// target of one connection at most.
pub proof fn lemma_input_connects_once(
    before: SystemBuilder,
    after: SystemBuilder,
    first: OutputPortId,
    second: OutputPortId,
    input: InputPortId,
)
    requires
        before.connect_outcome(first, input) is Ok,
        before.connected(after, first, input),
        after.spec_registered_outputs().contains(second),
        !after.spec_connected_outputs().contains(second),
    ensures
        after.connect_outcome(second, input) == Err::<bool, SystemBuildError>(
            SystemBuildError::AlreadyConnectedInput(input),
        ),
{
}

/// A connection attempt fails with `UnregisteredInput` or `UnregisteredOutput`
/// exactly when the named input or output port was never registered.
pub proof fn lemma_unregistered_ports_refused(
    builder: SystemBuilder,
    output: OutputPortId,
    input: InputPortId,
)
    ensures
        builder.connect_outcome(output, input) == Err::<bool, SystemBuildError>(
            SystemBuildError::UnregisteredInput(input),
        ) <==> !builder.spec_registered_inputs().contains(input),
        builder.connect_outcome(output, input) == Err::<bool, SystemBuildError>(
            SystemBuildError::UnregisteredOutput(output),
        ) <==> builder.spec_registered_inputs().contains(input)
            && !builder.spec_registered_outputs().contains(output),
{
}

} // verus!
