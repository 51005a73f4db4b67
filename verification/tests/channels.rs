use crux_core::channels::channel;
use crux_core::Step;

#[test]
fn test_channels() {
    let (send, recv) = channel();

    send.send(Some(1));
    assert_eq!(recv.receive(), Some(Some(1)));

    let wrapped_send = send.map_input(Some);
    wrapped_send.send(1);
    assert_eq!(recv.receive(), Some(Some(1)));

    assert_eq!(recv.receive(), None);
}

#[test]
fn fifo_order_per_sender() {
    let (send, recv) = channel();
    send.send(1);
    send.send(2);
    send.send(3);
    assert_eq!(recv.receive(), Some(1));
    assert_eq!(recv.receive(), Some(2));
    assert_eq!(recv.receive(), Some(3));
    assert_eq!(recv.receive(), None);
}

#[test]
fn empty_channel_yields_nothing() {
    let (send, recv) = channel::<i32>();
    assert_eq!(recv.receive(), None);
    let mut drain = recv.drain();
    assert_eq!(drain.next(), None);
    drop(send);
}

#[test]
fn cloned_senders_share_the_receiver() {
    let (send, recv) = channel();
    let other = send.clone();
    send.send(10);
    other.send(20);
    send.send(30);
    other.send(40);
    let mut got = Vec::new();
    let mut drain = recv.drain();
    while let Some(v) = drain.next() {
        got.push(v);
    }
    assert_eq!(got, vec![10, 20, 30, 40]);
}

#[test]
fn drain_five_then_seven_then_nothing() {
    let (send, recv) = channel();
    send.send(5);
    send.send(7);
    let mut first = Vec::new();
    let mut drain = recv.drain();
    while let Some(v) = drain.next() {
        first.push(v);
    }
    assert_eq!(first, vec![5, 7]);
    let mut again = recv.drain();
    assert_eq!(again.next(), None);
}

#[test]
fn drain_is_lazy_not_a_snapshot() {
    let (send, recv) = channel::<i32>();
    send.send(1);
    let mut drain = recv.drain();
    assert_eq!(drain.next(), Some(1));
    send.send(2);
    assert_eq!(drain.next(), Some(2));
    assert_eq!(drain.next(), None);
}

#[test]
fn mapped_sender_wraps_values() {
    let (send, recv) = channel::<Option<i32>>();
    let wrapped = send.map_input(Some);
    wrapped.send(1);
    assert_eq!(recv.receive(), Some(Some(1)));
}

#[test]
fn mapping_twice_composes() {
    let (send, recv) = channel::<i32>();
    let f = |x: i32| x * 2;
    let g = |x: i32| x + 1;
    let twice = send.map_input(f).map_input(g);
    let once = send.map_input(move |x: i32| f(g(x)));
    twice.send(5);
    once.send(5);
    let first = recv.receive();
    let second = recv.receive();
    assert_eq!(first, Some(12));
    assert_eq!(first, second);
    assert_eq!(recv.receive(), None);
}

#[test]
fn map_effect_rewraps_step_payloads() {
    let (send, recv) = channel::<Step<i32>>();
    let remapped = send.map_effect(|_u: ()| 42);
    remapped.send(Step::once(()));
    assert!(matches!(recv.receive(), Some(Step::Once(42))));
    assert!(recv.receive().is_none());
}
