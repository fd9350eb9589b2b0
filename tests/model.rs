use async_flow::io::{first_failure, Error, PortDirection, PortEvent, PortState, RecvError, SendError};
use async_flow::model::{
    BlockDefinition, BlockHandle, InputPortId, Inputs, OutputPortId, Outputs, PortId,
    PortIdAllocator, PortIdMap, PortIdSet, SystemBuildError, SystemBuilder, SystemDefinition,
};

fn input(id: isize) -> InputPortId {
    InputPortId::new(id).unwrap()
}

fn output(id: isize) -> OutputPortId {
    OutputPortId::new(id).unwrap()
}

struct Doubler {
    input: InputPortId,
    output: OutputPortId,
}

impl BlockDefinition for Doubler {
    fn name(&self) -> String {
        "doubler".to_string()
    }

    fn inputs(&self) -> Vec<InputPortId> {
        vec![self.input]
    }

    fn outputs(&self) -> Vec<OutputPortId> {
        vec![self.output]
    }
}

struct Silent;

impl BlockDefinition for Silent {
    fn name(&self) -> String {
        "silent".to_string()
    }

    fn inputs(&self) -> Vec<InputPortId> {
        Vec::new()
    }

    fn outputs(&self) -> Vec<OutputPortId> {
        Vec::new()
    }
}

#[test]
fn port_ids_take_their_sign() {
    assert_eq!(InputPortId::new(-3).unwrap().as_isize(), -3);
    assert!(InputPortId::new(0).is_none());
    assert!(InputPortId::new(4).is_none());
    assert_eq!(OutputPortId::new(4).unwrap().as_isize(), 4);
    assert!(OutputPortId::new(0).is_none());
    assert!(OutputPortId::new(-1).is_none());
    assert_eq!(
        InputPortId::try_from(5isize),
        Err("Input port IDs must be negative integers")
    );
    assert_eq!(
        OutputPortId::try_from(-5isize),
        Err("Output port IDs must be positive integers")
    );
}

#[test]
fn port_id_zero_is_rejected() {
    assert_eq!(PortId::try_from(0isize), Err("Port IDs cannot be zero"));
    assert_eq!(PortId::try_from(-2isize), Ok(PortId::Input(input(-2))));
    assert_eq!(PortId::try_from(7isize), Ok(PortId::Output(output(7))));
}

#[test]
fn port_id_sign_gives_direction() {
    for raw in [-9isize, -1, 1, 9, isize::MIN, isize::MAX] {
        let id = PortId::try_from(raw).unwrap();
        let expected = if raw < 0 { PortDirection::Input } else { PortDirection::Output };
        assert_eq!(id.direction(), expected);
        assert_eq!(id.as_isize(), raw);
    }
}

#[test]
fn port_id_conversions() {
    let id = PortId::from(input(-4));
    assert_eq!(id, PortId::Input(input(-4)));
    assert_eq!(isize::from(id), -4);
    assert_eq!(id.as_usize(), (-4isize) as usize);
    assert_eq!(isize::from(output(6)), 6);
    assert_eq!(isize::from(input(-6)), -6);
    assert_eq!(PortId::from(output(2)).as_usize(), 2);
}

#[test]
fn port_id_indexes() {
    assert_eq!(input(-1).index(), 0);
    assert_eq!(input(-5).index(), 4);
    assert_eq!(output(1).index(), 0);
    assert_eq!(output(5).index(), 4);
}

#[test]
fn allocator_hands_out_distinct_signed_ids() {
    let mut ids = PortIdAllocator::new();
    let a = ids.next_input_id().unwrap();
    let b = ids.next_input_id().unwrap();
    let c = ids.next_output_id().unwrap();
    let d = ids.next_output_id().unwrap();
    assert_eq!(a.as_isize(), -1);
    assert_eq!(b.as_isize(), -2);
    assert_eq!(c.as_isize(), 1);
    assert_eq!(d.as_isize(), 2);
    assert_ne!(a, b);
    assert_ne!(c, d);
    assert_eq!(PortId::from(a).direction(), PortDirection::Input);
    assert_eq!(PortId::from(c).direction(), PortDirection::Output);
}

#[test]
fn allocator_never_repeats_an_id() {
    let mut ids = PortIdAllocator::default();
    let mut seen = PortIdSet::new();
    for _ in 0..100 {
        assert!(seen.insert(ids.next_input_id().unwrap()));
    }
    assert_eq!(seen.len(), 100);
    assert_eq!(seen.first().unwrap().as_isize(), -100);
    assert_eq!(seen.last().unwrap().as_isize(), -1);
}

#[test]
fn typed_ports_take_fresh_ids() {
    let mut ids = PortIdAllocator::new();
    let i1: Inputs<u32> = Inputs::new(&mut ids).unwrap();
    let i2: Inputs<u32> = Inputs::new(&mut ids).unwrap();
    let o1: Outputs<u32> = Outputs::new(&mut ids).unwrap();
    assert_eq!(i1.id().as_isize(), -1);
    assert_eq!(i2.id().as_isize(), -2);
    assert_eq!(o1.id().as_isize(), 1);
    let o2: Outputs<u32> = Outputs::from_id(output(9));
    assert_eq!(o2.id(), output(9));
    let i3: Inputs<u32> = Inputs::from_id(input(-9));
    assert_eq!(i3.id(), input(-9));
}

#[test]
fn port_id_set_keeps_order_and_uniqueness() {
    let mut set = PortIdSet::new();
    assert!(set.is_empty());
    assert!(set.first().is_none());
    assert!(set.range().is_none());
    assert!(set.insert(output(5)));
    assert!(set.insert(output(2)));
    assert!(set.insert(output(9)));
    assert!(!set.insert(output(5)));
    assert_eq!(set.len(), 3);
    assert!(set.contains(output(2)));
    assert!(!set.contains(output(3)));
    assert_eq!(*set.first().unwrap(), output(2));
    assert_eq!(*set.last().unwrap(), output(9));
    let range = set.range().unwrap();
    assert_eq!(*range.start(), output(2));
    assert_eq!(*range.end(), output(9));
    let order: Vec<isize> = set.iter().map(|id| id.as_isize()).collect();
    assert_eq!(order, vec![2, 5, 9]);
    let copy = set.clone();
    assert_eq!(copy.len(), 3);
    assert!(PortIdSet::<InputPortId>::default().is_empty());
}

#[test]
fn port_id_map_replaces_values() {
    let mut map: PortIdMap<InputPortId, u8> = PortIdMap::new();
    assert!(map.is_empty());
    assert!(map.range().is_none());
    assert!(map.insert(input(-3), 30));
    assert!(map.insert(input(-1), 10));
    assert!(!map.insert(input(-3), 33));
    assert_eq!(map.len(), 2);
    assert!(map.contains(input(-1)));
    assert!(!map.contains(input(-2)));
    assert_eq!(map.get(input(-3)), Some(&33));
    assert_eq!(map.get(input(-2)), None);
    assert_eq!(*map.first().unwrap(), input(-3));
    assert_eq!(*map.last().unwrap(), input(-1));
    assert_eq!(map.range().unwrap(), -3..=-1);
    let keys: Vec<isize> = map.iter().map(|id| id.as_isize()).collect();
    assert_eq!(keys, vec![-3, -1]);
    let copy = map.clone();
    assert_eq!(copy.get(input(-1)), Some(&10));
    assert!(PortIdMap::<OutputPortId, u8>::default().is_empty());
}

#[test]
fn connect_requires_registered_ports() {
    let mut builder = SystemBuilder::new();
    let out: Outputs<String> = Outputs::from_id(output(1));
    let inp: Inputs<String> = Inputs::from_id(input(-1));
    assert!(matches!(
        builder.connect(&out, &inp),
        Err(SystemBuildError::UnregisteredInput(id)) if id == input(-1)
    ));
    builder.register_input(input(-1));
    assert!(matches!(
        builder.connect(&out, &inp),
        Err(SystemBuildError::UnregisteredOutput(id)) if id == output(1)
    ));
    builder.register_output(output(1));
    assert_eq!(builder.connect(&out, &inp), Ok(true));
}

#[test]
fn output_connects_only_once() {
    let mut builder = SystemBuilder::new();
    builder.register_port(PortId::Output(output(1)));
    builder.register_port(PortId::Input(input(-1)));
    builder.register_port(PortId::Input(input(-2)));
    let out: Outputs<u8> = Outputs::from_id(output(1));
    let first: Inputs<u8> = Inputs::from_id(input(-1));
    let second: Inputs<u8> = Inputs::from_id(input(-2));
    assert_eq!(builder.connect(&out, &first), Ok(true));
    assert_eq!(
        builder.connect(&out, &second),
        Err(SystemBuildError::AlreadyConnectedOutput(output(1)))
    );
    assert_eq!(
        builder.connect(&out, &first),
        Err(SystemBuildError::AlreadyConnectedOutput(output(1)))
    );
    let system = builder.build();
    assert_eq!(system.connections().len(), 1);
    assert_eq!(system.connections().get(output(1)), Some(&input(-1)));
}

#[test]
fn export_requires_registration() {
    let mut builder = SystemBuilder::default();
    assert_eq!(
        builder.export_input(input(-1)),
        Err(SystemBuildError::UnregisteredInput(input(-1)))
    );
    assert_eq!(
        builder.export_output(output(1)),
        Err(SystemBuildError::UnregisteredOutput(output(1)))
    );
    builder.register_input(input(-1));
    builder.register_output(output(1));
    assert_eq!(builder.export_input(input(-1)), Ok(input(-1)));
    assert_eq!(
        builder.export(PortId::Output(output(1))),
        Ok(PortId::Output(output(1)))
    );
    assert_eq!(
        builder.export_port(PortId::Input(input(-7))),
        Err(SystemBuildError::UnregisteredInput(input(-7)))
    );
    let system = builder.build();
    assert!(system.inputs().contains(input(-1)));
    assert!(system.outputs().contains(output(1)));
    assert_eq!(system.inputs().len(), 1);
}

#[test]
fn register_records_block_and_ports() {
    let mut builder = SystemDefinition::build();
    let block = builder
        .register(Doubler { input: input(-1), output: output(1) })
        .unwrap();
    assert_eq!(block.input, input(-1));
    builder.register(Silent).unwrap();
    let out: Outputs<i64> = Outputs::from_id(output(1));
    let inp: Inputs<i64> = Inputs::from_id(input(-1));
    assert_eq!(builder.connect(&out, &inp), Ok(true));
    let system = builder.build();
    assert_eq!(system.blocks().len(), 2);
    assert_eq!(system.blocks()[0].name(), "doubler");
    assert_eq!(system.blocks()[0].inputs(), &vec![input(-1)]);
    assert_eq!(system.blocks()[1].outputs(), &Vec::<OutputPortId>::new());
}

#[test]
fn register_rejects_a_port_taken_by_another_block() {
    let mut builder = SystemBuilder::new();
    builder
        .register(Doubler { input: input(-1), output: output(1) })
        .unwrap();
    assert!(matches!(
        builder.register(Doubler { input: input(-1), output: output(2) }),
        Err(SystemBuildError::AlreadyRegisteredInput(id)) if id == input(-1)
    ));
    assert!(matches!(
        builder.register(Doubler { input: input(-2), output: output(1) }),
        Err(SystemBuildError::AlreadyRegisteredOutput(id)) if id == output(1)
    ));
    let repeated = BlockHandle::from_parts("twice".to_string(), vec![input(-5), input(-5)], vec![]);
    assert_eq!(
        builder.register_handle(repeated),
        Err(SystemBuildError::AlreadyRegisteredInput(input(-5)))
    );
    assert_eq!(builder.system().blocks().len(), 1);
}

#[test]
fn block_ranges() {
    let handle = BlockHandle::from_parts(
        "b".to_string(),
        vec![input(-4), input(-1), input(-7)],
        vec![],
    );
    assert_eq!(handle.inputs_range(), Some(-7..=-1));
    assert_eq!(handle.outputs_range(), None);
    let block = BlockHandle::new(&Doubler { input: input(-2), output: output(3) });
    assert_eq!(block.outputs_range(), Some(3..=3));
}

#[test]
fn system_ranges_span_all_blocks() {
    let mut builder = SystemBuilder::new();
    assert!(builder.system().inputs_range().is_none());
    builder
        .register_handle(BlockHandle::from_parts("a".to_string(), vec![input(-2)], vec![output(4)]))
        .unwrap();
    builder
        .register_handle(BlockHandle::from_parts("b".to_string(), vec![], vec![]))
        .unwrap();
    builder
        .register_handle(BlockHandle::from_parts(
            "c".to_string(),
            vec![input(-5), input(-1)],
            vec![output(2), output(8)],
        ))
        .unwrap();
    let system = builder.build();
    assert_eq!(system.inputs_range(), Some(-5..=-1));
    assert_eq!(system.outputs_range(), Some(2..=8));
}

#[test]
fn built_definition_is_a_snapshot() {
    let mut builder = SystemBuilder::new();
    builder.register_input(input(-1));
    builder.register_output(output(1));
    let before = builder.clone().build();
    let out: Outputs<u8> = Outputs::from_id(output(1));
    let inp: Inputs<u8> = Inputs::from_id(input(-1));
    assert_eq!(builder.connect(&out, &inp), Ok(true));
    assert!(before.connections().is_empty());
    assert!(SystemDefinition::new().blocks().is_empty());
}

#[test]
fn port_state_names_and_checks() {
    assert_eq!(PortState::default(), PortState::Unconnected);
    assert!(PortState::Unconnected.is_unconnected());
    assert!(PortState::Connected.is_connected());
    assert!(PortState::Disconnected.is_disconnected());
    assert!(PortState::Closed.is_closed());
    assert!(!PortState::Closed.is_connected());
    assert_eq!(PortState::Unconnected.as_str(), "unconnected");
    assert_eq!(PortState::Connected.as_str(), "connected");
    assert_eq!(PortState::Disconnected.as_str(), "disconnected");
    assert_eq!(PortState::Closed.as_str(), "closed");
    assert_eq!(PortState::Connected.observed(true), PortState::Disconnected);
    assert_eq!(PortState::Connected.observed(false), PortState::Connected);
    assert_eq!(PortState::Closed.observed(true), PortState::Closed);
}

#[test]
fn port_direction_names_and_checks() {
    assert!(PortDirection::Input.is_input());
    assert!(!PortDirection::Input.is_output());
    assert!(PortDirection::Output.is_output());
    assert_eq!(PortDirection::Input.as_str(), "input");
    assert_eq!(PortDirection::Output.as_str(), "output");
}

#[test]
fn port_event_accessors() {
    let message = PortEvent::Message(5u8);
    assert_eq!(message.message(), Some(&5));
    assert!(message.is_message());
    assert_eq!(message.as_str(), "message");
    assert_eq!(message.into_message(), Some(5));
    let connect: PortEvent<u8> = PortEvent::Connect;
    assert!(connect.is_connect());
    assert_eq!(connect.message(), None);
    assert_eq!(connect.as_str(), "connect");
    let disconnect: PortEvent<u8> = PortEvent::Disconnect;
    assert!(disconnect.is_disconnect());
    assert_eq!(disconnect.into_message(), None);
    assert_eq!(disconnect.as_str(), "disconnect");
}

#[test]
fn errors_convert_and_describe() {
    assert_eq!(Error::from(RecvError), Error::Recv(RecvError));
    assert_eq!(Error::from(SendError), Error::Send(SendError));
    assert_eq!(Error::from(SendError).as_str(), "SendError");
    assert_eq!(Error::from(async_flow::io::TryRecvError).as_str(), "TryRecvError");
    assert_eq!(Error::from(async_flow::io::TrySendError).as_str(), "TrySendError");
    assert_eq!(RecvError.as_str(), "RecvError");
}

#[test]
fn input_connects_only_once() {
    let mut builder = SystemBuilder::new();
    builder.register_input(input(-1));
    builder.register_output(output(1));
    builder.register_output(output(2));
    let first: Outputs<u8> = Outputs::from_id(output(1));
    let second: Outputs<u8> = Outputs::from_id(output(2));
    let target: Inputs<u8> = Inputs::from_id(input(-1));
    assert_eq!(builder.connect(&first, &target), Ok(true));
    assert_eq!(
        builder.connect(&second, &target),
        Err(SystemBuildError::AlreadyConnectedInput(input(-1)))
    );
    assert_eq!(builder.build().connections().len(), 1);
}

#[test]
fn first_failure_is_reported() {
    assert_eq!(first_failure::<u8>(vec![]), Ok(()));
    assert_eq!(first_failure::<u8>(vec![Ok(()), Ok(())]), Ok(()));
    assert_eq!(first_failure(vec![Ok(()), Err(2u8), Ok(()), Err(4)]), Err(2));
}

#[test]
fn set_reports_taken_ids() {
    let mut set = PortIdSet::new();
    set.insert(input(-2));
    assert_eq!(set.first_taken(&vec![input(-1), input(-3)]), None);
    assert_eq!(set.first_taken(&vec![input(-1), input(-2)]), Some(input(-2)));
    assert_eq!(set.first_taken(&vec![input(-4), input(-4)]), Some(input(-4)));
    set.insert_all(&vec![input(-1), input(-3), input(-2)]);
    assert_eq!(set.len(), 3);
    assert!(set.contains(input(-3)));
}
