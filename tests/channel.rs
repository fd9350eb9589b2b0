use async_flow::channel::{
    bounded, forward_sent, forward_step, poll_step, poll_value, recv_step, single, Channel, Forward,
    Inputs, Outputs, Polled, RecvStep, SendFailure, MAX_BUFFER,
};
use async_flow::flume_ports::free_slots;
use async_flow::io::{
    Error, InputPort, OutputPort, Port, PortDirection, PortEvent, PortState, RecvError, SendError,
    TryRecvError, TrySendError,
};

fn drain<T>(inputs: &mut Inputs<T>) -> Vec<T> {
    let mut out = Vec::new();
    while let Some(value) = inputs.try_recv().unwrap() {
        out.push(value);
    }
    out
}

/// Relays what `inputs` holds into `outputs` with the forwarding steps; the
/// number of messages relayed, or the error that stopped it.
fn forward_all<T>(inputs: &mut Inputs<T>, outputs: &Outputs<T>) -> Result<usize, Error> {
    let mut relayed = 0;
    loop {
        let received = match inputs.try_recv_event() {
            Ok(event) => Ok(event),
            Err(TryRecvError) => Err(RecvError),
        };
        match forward_step(received) {
            Forward::Relay(message) => {
                let sent = match outputs.try_send(message) {
                    Ok(()) => Ok(()),
                    Err(TrySendError) => Err(SendError),
                };
                forward_sent(sent)?;
                relayed += 1;
            }
            Forward::Skip => {}
            Forward::Done => return Ok(relayed),
            Forward::Fail(e) => return Err(e),
        }
    }
}

#[test]
fn capacity_one_holds_one_message_until_received() {
    let (tx, mut rx) = bounded::<&str>(1);
    assert_eq!(tx.try_send("A"), Ok(()));
    assert_eq!(tx.capacity(), Some(0));
    assert_eq!(tx.try_send("B"), Err(TrySendError));
    assert_eq!(rx.try_recv(), Ok(Some("A")));
    assert_eq!(tx.capacity(), Some(1));
    assert_eq!(tx.try_send("B"), Ok(()));
    assert_eq!(rx.try_recv(), Ok(Some("B")));
    assert_eq!(rx.try_recv(), Err(TryRecvError));
}

#[test]
fn round_trip_with_a_waiting_sender() {
    let runtime = tokio::runtime::Builder::new_current_thread().build().unwrap();
    let (tx, mut rx) = bounded::<&str>(1);
    let received = runtime.block_on(async move {
        let sender = tx.as_sender().unwrap().clone();
        sender.send(PortEvent::Message("A")).await.unwrap();
        let second = tokio::spawn(async move { sender.send(PortEvent::Message("B")).await });
        tokio::task::yield_now().await;
        assert!(!second.is_finished());
        let first = rx.as_receiver_mut().unwrap().recv().await;
        second.await.unwrap().unwrap();
        let next = rx.as_receiver_mut().unwrap().recv().await;
        (first, next)
    });
    assert_eq!(received.0, Some(PortEvent::Message("A")));
    assert_eq!(received.1, Some(PortEvent::Message("B")));
}

#[test]
fn end_of_stream_repeats_after_senders_drop() {
    let (tx, mut rx) = bounded::<u32>(4);
    let copy = tx.clone();
    tx.try_send(1).unwrap();
    copy.try_send(2).unwrap();
    drop(tx);
    drop(copy);
    assert_eq!(rx.try_recv(), Ok(Some(1)));
    assert_eq!(rx.try_recv(), Ok(Some(2)));
    assert_eq!(rx.try_recv(), Ok(None));
    assert_eq!(rx.try_recv(), Ok(None));
    assert_eq!(rx.try_recv(), Ok(None));
}

#[test]
fn forwarding_keeps_order() {
    let (source, mut link_in) = bounded::<String>(2);
    let (link_out, mut sink) = bounded::<String>(2);
    source.try_send("value1".to_string()).unwrap();
    source.try_send("value2".to_string()).unwrap();
    drop(source);
    assert_eq!(forward_all(&mut link_in, &link_out), Ok(2));
    drop(link_out);
    assert_eq!(drain(&mut sink), vec!["value1".to_string(), "value2".to_string()]);
}

#[test]
fn square_root_pipeline() {
    let (source, mut block_in) = bounded::<f64>(2);
    let (block_out, mut sink) = bounded::<f64>(2);
    source.try_send(4.0).unwrap();
    source.try_send(9.0).unwrap();
    drop(source);
    while let Some(value) = block_in.try_recv().unwrap() {
        block_out.try_send(value.sqrt()).unwrap();
    }
    drop(block_out);
    assert_eq!(drain(&mut sink), vec![2.0, 3.0]);
}

#[test]
fn closing_the_input_fails_the_next_send() {
    let (tx, mut rx) = bounded::<u8>(2);
    tx.try_send(1).unwrap();
    rx.close();
    assert_eq!(tx.try_send(3), Err(TrySendError));
    assert!(matches!(
        tx.try_send_event(PortEvent::Message(4)),
        Err(SendFailure::Closed(PortEvent::Message(4)))
    ));
    assert_eq!(rx.state(), PortState::Closed);
    assert_eq!(tx.state(), PortState::Disconnected);
}

#[test]
fn closing_the_input_fails_a_waiting_send() {
    let runtime = tokio::runtime::Builder::new_current_thread().build().unwrap();
    let (tx, mut rx) = bounded::<u8>(1);
    let result = runtime.block_on(async move {
        let sender = tx.as_sender().unwrap().clone();
        sender.send(PortEvent::Message(1)).await.unwrap();
        let pending = tokio::spawn(async move { sender.send(PortEvent::Message(2)).await });
        tokio::task::yield_now().await;
        rx.close();
        pending.await.unwrap()
    });
    assert!(result.is_err());
}

#[test]
fn forwarding_fails_when_downstream_closes() {
    let (source, mut link_in) = bounded::<u8>(1);
    let (link_out, mut sink) = bounded::<u8>(1);
    sink.close();
    source.try_send(7).unwrap();
    assert_eq!(forward_all(&mut link_in, &link_out), Err(Error::Send(SendError)));
}

#[test]
fn forwarding_steps() {
    assert_eq!(forward_step(Ok(Some(PortEvent::Message(3u8)))), Forward::Relay(3));
    assert_eq!(forward_step::<u8>(Ok(Some(PortEvent::Connect))), Forward::Skip);
    assert_eq!(forward_step::<u8>(Ok(Some(PortEvent::Disconnect))), Forward::Done);
    assert_eq!(forward_step::<u8>(Ok(None)), Forward::Done);
    assert_eq!(forward_step::<u8>(Err(RecvError)), Forward::Fail(Error::Recv(RecvError)));
    assert_eq!(forward_sent(Ok(())), Ok(()));
    assert_eq!(forward_sent(Err(SendError)), Err(Error::Send(SendError)));
    assert_eq!(recv_step(Some(PortEvent::Message('x'))), RecvStep::Deliver('x'));
    assert_eq!(recv_step::<char>(Some(PortEvent::Connect)), RecvStep::Skip);
    assert_eq!(recv_step::<char>(None), RecvStep::End);
}

#[test]
fn disconnect_keeps_buffered_messages() {
    let (tx, mut rx) = bounded::<u8>(2);
    tx.try_send(1).unwrap();
    rx.disconnect();
    assert_eq!(rx.state(), PortState::Disconnected);
    assert_eq!(tx.try_send(2), Err(TrySendError));
    assert_eq!(rx.try_recv(), Ok(Some(1)));
    assert_eq!(rx.try_recv(), Ok(None));
    rx.close();
    rx.close();
    assert_eq!(rx.state(), PortState::Closed);
}

#[test]
fn port_states_and_directions() {
    let (mut tx, mut rx) = bounded::<u8>(3);
    assert_eq!(tx.state(), PortState::Connected);
    assert_eq!(rx.state(), PortState::Connected);
    assert_eq!(tx.direction(), PortDirection::Output);
    assert_eq!(rx.direction(), PortDirection::Input);
    assert!(Port::is_output(&tx));
    assert!(Port::is_input(&rx));
    assert!(Port::is_connected(&rx));
    tx.try_send(9).unwrap();
    tx.close();
    assert_eq!(tx.state(), PortState::Closed);
    assert!(Port::is_closed(&tx));
    assert_eq!(tx.capacity(), None);
    assert!(tx.as_sender().is_none());
    assert_eq!(tx.try_send(1), Err(TrySendError));
    drop(tx);
    assert_eq!(rx.state(), PortState::Disconnected);
    assert_eq!(rx.try_recv(), Ok(Some(9)));
    assert_eq!(rx.try_recv(), Ok(None));
}

#[test]
fn unconnected_ports_report_unknown_capacity() {
    let mut rx: Inputs<u8> = Inputs::new();
    let tx: Outputs<u8> = Outputs::default();
    assert_eq!(rx.state(), PortState::Unconnected);
    assert_eq!(tx.state(), PortState::Unconnected);
    assert_eq!(rx.capacity(), None);
    assert_eq!(rx.max_capacity(), None);
    assert_eq!(tx.max_capacity(), None);
    assert!(rx.is_empty());
    assert!(rx.as_receiver_mut().is_none());
    assert_eq!(rx.try_recv(), Ok(None));
    assert_eq!(tx.try_send(1), Err(TrySendError));
}

#[test]
fn capacities_follow_the_buffer() {
    let (tx, rx) = bounded::<u8>(3);
    assert_eq!(tx.max_capacity(), Some(3));
    assert_eq!(rx.max_capacity(), Some(3));
    tx.try_send(1).unwrap();
    assert_eq!(tx.capacity(), Some(2));
    assert_eq!(rx.capacity(), Some(2));
    assert!(!rx.is_empty());
}

#[test]
fn zero_capacity_asks_for_no_bound() {
    let (tx, mut rx) = bounded::<u32>(0);
    assert_eq!(tx.max_capacity(), None);
    assert_eq!(rx.capacity(), None);
    for i in 0..1000 {
        tx.try_send(i).unwrap();
    }
    assert_eq!(rx.try_recv(), Ok(Some(0)));
    assert!(MAX_BUFFER > 1000);
}

#[test]
fn connect_events_are_passed_over() {
    let (tx, mut rx) = bounded::<u8>(4);
    tx.try_send_event(PortEvent::Connect).ok().unwrap();
    tx.try_send_event(PortEvent::Message(3)).ok().unwrap();
    tx.try_send_event(PortEvent::Disconnect).ok().unwrap();
    tx.try_send(4).unwrap();
    assert_eq!(rx.try_recv(), Err(TryRecvError));
    assert_eq!(rx.try_recv(), Ok(Some(3)));
    assert_eq!(rx.try_recv(), Ok(None));
    assert_eq!(rx.try_recv_event(), Ok(Some(PortEvent::Message(4))));
    assert_eq!(rx.try_recv_event(), Err(TryRecvError));
}

#[test]
fn full_buffer_hands_the_event_back() {
    let (tx, _rx) = bounded::<u8>(1);
    tx.try_send(1).unwrap();
    assert!(matches!(
        tx.try_send_event(PortEvent::Message(2)),
        Err(SendFailure::Full(PortEvent::Message(2)))
    ));
}

#[test]
fn channel_constructors() {
    let channel = Channel::<u8>::oneshot();
    assert_eq!(channel.tx.max_capacity(), Some(1));
    let (a, b) = Channel::<u8>::pair();
    let (a_tx, mut a_rx) = a.into_inner();
    a_tx.try_send(1).unwrap();
    assert_eq!(a_rx.try_recv(), Ok(Some(1)));
    assert_eq!(b.rx.max_capacity(), Some(1));
    let c = Channel::<u8>::bounded(5);
    assert_eq!(c.rx.max_capacity(), Some(5));
}

#[test]
fn single_message_ports() {
    let (output, mut input) = single::<u16>();
    assert_eq!(output.max_capacity(), Some(1));
    assert_eq!(input.capacity(), Some(1));
    output.try_send(8).ok().unwrap();
    assert_eq!(input.capacity(), Some(0));
    assert!(matches!(output.try_send(5), Err(SendFailure::Full(5))));
    assert_eq!(input.try_recv(), Ok(Some(8)));
    assert_eq!(input.try_recv(), Err(TryRecvError));
    input.close();
    assert!(input.is_closed());
    assert!(output.is_closed());
    assert!(matches!(output.try_send(9), Err(SendFailure::Closed(9))));
    drop(output);
    assert_eq!(input.try_recv(), Ok(None));
}

#[test]
fn unconnected_ports_accept_one_channel() {
    let mut rx: Inputs<u8> = Inputs::new();
    let mut tx: Outputs<u8> = Outputs::new();
    let (raw_tx, raw_rx) = tokio::sync::mpsc::channel::<PortEvent<u8>>(2);
    assert!(rx.connect(raw_rx).is_ok());
    assert!(tx.connect(raw_tx).is_ok());
    assert_eq!(rx.state(), PortState::Connected);
    assert_eq!(tx.state(), PortState::Connected);
    tx.try_send(5).unwrap();
    assert_eq!(rx.try_recv(), Ok(Some(5)));
    let (other_tx, other_rx) = tokio::sync::mpsc::channel::<PortEvent<u8>>(1);
    assert!(rx.connect(other_rx).is_err());
    assert!(tx.connect(other_tx).is_err());
    rx.close();
    let (_late_tx, late_rx) = tokio::sync::mpsc::channel::<PortEvent<u8>>(1);
    assert!(rx.connect(late_rx).is_err());
    assert_eq!(rx.state(), PortState::Closed);
}

#[test]
fn flume_ports_deliver_in_order() {
    let (outputs, mut inputs) = async_flow::flume_ports::bounded::<&str>(2);
    assert_eq!(outputs.max_capacity(), Some(2));
    outputs.blocking_send("value1").unwrap();
    assert_eq!(outputs.capacity(), Some(1));
    assert_eq!(inputs.capacity(), Some(1));
    outputs.blocking_send("value2").unwrap();
    drop(outputs);
    assert!(inputs.is_closed());
    assert_eq!(inputs.blocking_recv(), Ok(Some("value1")));
    assert_eq!(inputs.try_recv(), Ok(Some("value2")));
    assert_eq!(inputs.blocking_recv(), Ok(None));
    assert_eq!(inputs.try_recv(), Ok(None));
}

#[test]
fn flume_send_fails_without_receivers() {
    let (outputs, inputs) = async_flow::flume_ports::bounded::<u8>(1);
    drop(inputs);
    assert!(outputs.is_closed());
    assert_eq!(outputs.blocking_send(1), Err(SendError));
    assert!(matches!(outputs.try_send(2), Err(SendFailure::Closed(2))));
}

#[test]
fn free_slots_never_go_below_zero() {
    assert_eq!(free_slots(Some(5), 2), Some(3));
    assert_eq!(free_slots(Some(1), 3), Some(0));
    assert_eq!(free_slots(None, 3), None);
}

fn relay_all<I: InputPort<u32>, O: OutputPort<u32>>(input: &mut I, output: &O) -> usize {
    let mut count = 0;
    while let Some(value) = input.try_recv().unwrap() {
        output.try_send(value * 10).unwrap();
        count += 1;
    }
    count
}

#[test]
fn port_traits_join_backends() {
    let (tokio_out, mut tokio_in) = bounded::<u32>(2);
    let (flume_out, mut flume_in) = async_flow::flume_ports::bounded::<u32>(2);
    assert!(InputPort::is_empty(&tokio_in));
    OutputPort::try_send(&tokio_out, 1).unwrap();
    tokio_out.try_send(2).unwrap();
    assert!(!InputPort::is_empty(&tokio_in));
    drop(tokio_out);
    assert_eq!(relay_all(&mut tokio_in, &flume_out), 2);
    drop(flume_out);
    assert!(!InputPort::is_empty(&flume_in));
    assert_eq!(InputPort::try_recv(&mut flume_in), Ok(Some(10)));
    assert_eq!(flume_in.try_recv(), Ok(Some(20)));
    assert_eq!(flume_in.try_recv(), Ok(None));
}

#[test]
fn poll_results_map_to_receives() {
    assert_eq!(poll_value(Polled::Ready(4u8)), Ok(Some(4)));
    assert_eq!(poll_value::<u8>(Polled::Empty), Err(TryRecvError));
    assert_eq!(poll_value::<u8>(Polled::Ended), Ok(None));
    assert_eq!(poll_step(Polled::Ready(PortEvent::Message(4u8))), Ok(Some(4)));
    assert_eq!(poll_step::<u8>(Polled::Ready(PortEvent::Connect)), Err(TryRecvError));
    assert_eq!(poll_step::<u8>(Polled::Ready(PortEvent::Disconnect)), Ok(None));
    assert_eq!(poll_step::<u8>(Polled::Empty), Err(TryRecvError));
    assert_eq!(poll_step::<u8>(Polled::Ended), Ok(None));
}

#[test]
fn fresh_channels_are_connected_and_stay_closed_once_closed() {
    let (tx, mut rx) = bounded::<u8>(2);
    assert_eq!(tx.state(), PortState::Connected);
    assert_eq!(rx.state(), PortState::Connected);
    assert!(rx.is_empty());
    rx.close();
    assert!(rx.as_receiver_mut().is_none());
    assert_eq!(rx.state(), PortState::Closed);
}
