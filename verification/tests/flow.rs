use byte_relay::chunk::Chunk;
use byte_relay::handler::{step_for, StreamHandler, StreamStep};
use byte_relay::ingress::{on_read, IngressStep};
use byte_relay::lifecycle::{Directive, Lifecycle, Phase, Trigger};
use byte_relay::relay::{Delivery, RelayCore};

fn emitted(step: StreamStep) -> Vec<u8> {
    match step {
        StreamStep::Emit(c) => c.as_slice().to_vec(),
        StreamStep::Again => panic!("again"),
        StreamStep::Wait => panic!("wait"),
        StreamStep::Finish => panic!("finish"),
    }
}

#[test]
fn step_for_each_delivery() {
    let c = Chunk::from_read(b"abc", 3).unwrap();
    assert_eq!(emitted(step_for(Delivery::Chunk(c))), b"abc".to_vec());
    assert!(matches!(step_for(Delivery::Lagged(3)), StreamStep::Again));
    assert!(matches!(step_for(Delivery::Empty), StreamStep::Wait));
    assert!(matches!(step_for(Delivery::Closed), StreamStep::Finish));
    assert!(matches!(step_for(Delivery::Unknown), StreamStep::Finish));
}

#[test]
fn ingress_publishes_what_was_read() {
    let mut relay = RelayCore::new(4).unwrap();
    let s = relay.subscribe();
    let mut buf = [0u8; 512];
    buf[..5].copy_from_slice(b"hello");
    assert_eq!(on_read(&mut relay, &buf, Some(5)), IngressStep::ReadAgain);
    assert_eq!(relay.published(), 1);
    match relay.recv(s) {
        Delivery::Chunk(c) => assert_eq!(c.as_slice(), b"hello"),
        _ => panic!("expected a chunk"),
    }
    assert_eq!(on_read(&mut relay, &buf, Some(512)), IngressStep::ReadAgain);
    match relay.recv(s) {
        Delivery::Chunk(c) => assert_eq!(c.as_slice(), &buf[..]),
        _ => panic!("expected a chunk"),
    }
}

#[test]
fn ingress_ends_connection_on_eof_and_error() {
    let mut relay = RelayCore::new(4).unwrap();
    let buf = [0u8; 512];
    assert_eq!(on_read(&mut relay, &buf, Some(0)), IngressStep::AcceptNext);
    assert_eq!(on_read(&mut relay, &buf, None), IngressStep::AcceptNext);
    assert_eq!(on_read(&mut relay, &buf, Some(513)), IngressStep::AcceptNext);
    assert_eq!(on_read(&mut relay, &buf[..4], Some(5)), IngressStep::AcceptNext);
    assert_eq!(relay.published(), 0);
}

#[test]
fn ingress_publishes_with_nobody_listening() {
    let mut relay = RelayCore::new(4).unwrap();
    assert_eq!(on_read(&mut relay, b"data", Some(4)), IngressStep::ReadAgain);
    assert_eq!(relay.published(), 1);
    assert_eq!(relay.subscriber_count(), 0);
}

#[test]
fn new_producer_reaches_existing_subscribers() {
    let mut relay = RelayCore::new(4).unwrap();
    let mut handler = StreamHandler::start(&mut relay);
    assert_eq!(on_read(&mut relay, b"one", Some(3)), IngressStep::ReadAgain);
    assert_eq!(on_read(&mut relay, b"", None), IngressStep::AcceptNext);
    assert_eq!(relay.subscriber_count(), 1);
    assert_eq!(on_read(&mut relay, b"two", Some(3)), IngressStep::ReadAgain);
    assert_eq!(on_read(&mut relay, b"", Some(0)), IngressStep::AcceptNext);
    assert_eq!(emitted(handler.poll(&mut relay)), b"one".to_vec());
    assert_eq!(emitted(handler.poll(&mut relay)), b"two".to_vec());
    assert!(matches!(handler.poll(&mut relay), StreamStep::Wait));
    assert!(handler.open);
}

#[test]
fn handler_streams_then_releases() {
    let mut relay = RelayCore::new(4).unwrap();
    let before = relay.subscriber_count();
    let mut handler = StreamHandler::start(&mut relay);
    assert!(handler.open);
    assert_eq!(relay.subscriber_count(), before + 1);
    assert!(matches!(handler.poll(&mut relay), StreamStep::Wait));
    assert_eq!(on_read(&mut relay, b"abc", Some(3)), IngressStep::ReadAgain);
    assert_eq!(emitted(handler.poll(&mut relay)), b"abc".to_vec());
    handler.release(&mut relay);
    assert!(!handler.open);
    assert_eq!(relay.subscriber_count(), before);
    handler.release(&mut relay);
    assert_eq!(relay.subscriber_count(), before);
    assert!(matches!(handler.poll(&mut relay), StreamStep::Finish));
}

#[test]
fn handler_skips_over_a_lag() {
    let mut relay = RelayCore::new(2).unwrap();
    let mut handler = StreamHandler::start(&mut relay);
    for i in 0..5u8 {
        assert_eq!(on_read(&mut relay, &[i], Some(1)), IngressStep::ReadAgain);
    }
    assert!(matches!(handler.poll(&mut relay), StreamStep::Again));
    assert_eq!(emitted(handler.poll(&mut relay)), vec![3u8]);
    assert_eq!(emitted(handler.poll(&mut relay)), vec![4u8]);
    assert!(matches!(handler.poll(&mut relay), StreamStep::Wait));
}

#[test]
fn release_leaves_other_handlers_alone() {
    let mut relay = RelayCore::new(4).unwrap();
    let mut a = StreamHandler::start(&mut relay);
    let mut b = StreamHandler::start(&mut relay);
    a.release(&mut relay);
    assert_eq!(relay.subscriber_count(), 1);
    assert_eq!(on_read(&mut relay, b"z", Some(1)), IngressStep::ReadAgain);
    assert_eq!(emitted(b.poll(&mut relay)), b"z".to_vec());
    assert!(matches!(a.poll(&mut relay), StreamStep::Finish));
}

#[test]
fn terminate_ends_an_open_stream() {
    let mut relay = RelayCore::new(4).unwrap();
    let mut life = Lifecycle::new();
    assert_eq!(life.phase, Phase::Running);
    let mut handler = StreamHandler::start(&mut relay);
    assert_eq!(on_read(&mut relay, b"tail", Some(4)), IngressStep::ReadAgain);
    assert_eq!(life.on_trigger(&mut relay, Trigger::Terminate), Directive::BeginShutdown);
    assert_eq!(life.phase, Phase::Draining);
    assert!(relay.is_closed());
    assert_eq!(emitted(handler.poll(&mut relay)), b"tail".to_vec());
    assert!(matches!(handler.poll(&mut relay), StreamStep::Finish));
    assert!(!handler.open);
    assert_eq!(relay.subscriber_count(), 0);
    assert_eq!(life.on_trigger(&mut relay, Trigger::ServerFinished), Directive::Exit);
    assert!(life.is_stopped());
}

#[test]
fn ingress_keeps_running_through_shutdown() {
    let mut relay = RelayCore::new(4).unwrap();
    let mut life = Lifecycle::new();
    assert_eq!(life.on_trigger(&mut relay, Trigger::Interrupt), Directive::BeginShutdown);
    assert_eq!(on_read(&mut relay, b"more", Some(4)), IngressStep::ReadAgain);
    assert_eq!(relay.published(), 0);
}

#[test]
fn lifecycle_transitions() {
    let mut relay = RelayCore::new(4).unwrap();
    let mut life = Lifecycle::new();
    assert!(!life.is_stopped());
    assert_eq!(life.on_trigger(&mut relay, Trigger::Interrupt), Directive::BeginShutdown);
    assert_eq!(life.phase, Phase::Draining);
    assert_eq!(life.on_trigger(&mut relay, Trigger::Terminate), Directive::Carry);
    assert_eq!(life.on_trigger(&mut relay, Trigger::Interrupt), Directive::Carry);
    assert_eq!(life.phase, Phase::Draining);
    assert_eq!(life.on_trigger(&mut relay, Trigger::ServerFinished), Directive::Exit);
    assert_eq!(life.phase, Phase::Stopped);
    assert_eq!(life.on_trigger(&mut relay, Trigger::Interrupt), Directive::Exit);
    assert_eq!(life.on_trigger(&mut relay, Trigger::ServerFinished), Directive::Exit);
    assert_eq!(life.phase, Phase::Stopped);
}

#[test]
fn server_end_stops_a_running_process() {
    let mut relay = RelayCore::new(4).unwrap();
    let mut life = Lifecycle::new();
    assert_eq!(life.on_trigger(&mut relay, Trigger::ServerFinished), Directive::Exit);
    assert_eq!(life.phase, Phase::Stopped);
    assert!(relay.is_closed());
}
