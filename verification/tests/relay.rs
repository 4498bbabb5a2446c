use naps::args::Args;
use naps::msg::Msg;
use naps::proxy::{conclude, wiring, Queue, EGRESS_CAPACITY};
use naps::read::{deliver, ReadAction, ReadEvent};
use naps::stage::{Fault, StageError};
use naps::write::{FailureClass, PublishFailure, WriteAction, WriteEvent};

fn args_with_script(script: &str) -> Args {
    Args::from_values(None, None, None, Some(String::from(script)), false)
}

fn failure(fault: Fault, detail: &str) -> Result<(), StageError> {
    Err(StageError::new(fault, String::from(detail)))
}

#[test]
fn ingress_hands_on_the_message_and_its_size() {
    let delivery = deliver(String::from("a.b"), vec![5, 6, 7, 8]);
    assert_eq!(delivery.sample, 4);
    assert_eq!(delivery.msg.topic, "a.b");
    assert_eq!(delivery.msg.data, vec![5, 6, 7, 8]);
}

#[test]
fn an_empty_payload_gives_a_sample_of_zero() {
    let delivery = deliver(String::from("a.b"), Vec::new());
    assert_eq!(delivery.sample, 0);
    assert!(delivery.msg.data.is_empty());
}

#[test]
fn without_transform_the_message_is_published_as_it_came() {
    for size in [0_usize, 1, 1024, 70_000] {
        let payload: Vec<u8> = (0..size).map(|i| (i % 251) as u8).collect();
        let delivery = deliver(String::from("orders"), payload.clone());
        assert_eq!(delivery.sample, size);
        match naps::write::step(WriteEvent::Received(delivery.msg)) {
            WriteAction::Publish(msg) => {
                assert_eq!(msg.topic, "orders");
                assert_eq!(msg.data, payload);
            },
            other => panic!("unexpected action: {:?}", other),
        }
    }
}

#[test]
fn ingress_connects_first() {
    assert!(matches!(naps::read::step(3, ReadEvent::Started), ReadAction::Connect));
}

#[test]
fn ingress_subscribes_to_each_topic_in_order() {
    assert!(matches!(naps::read::step(3, ReadEvent::Connected(Ok(()))), ReadAction::Subscribe(0)));
    assert!(matches!(naps::read::step(3, ReadEvent::Subscribed(0, Ok(()))), ReadAction::Subscribe(1)));
    assert!(matches!(naps::read::step(3, ReadEvent::Subscribed(1, Ok(()))), ReadAction::Subscribe(2)));
    assert!(matches!(naps::read::step(3, ReadEvent::Subscribed(2, Ok(()))), ReadAction::Observe));
}

#[test]
fn ingress_without_topics_goes_straight_to_idling() {
    assert!(matches!(naps::read::step(0, ReadEvent::Connected(Ok(()))), ReadAction::Observe));
}

#[test]
fn the_last_index_does_not_overflow() {
    assert!(matches!(
        naps::read::step(usize::MAX, ReadEvent::Subscribed(usize::MAX, Ok(()))),
        ReadAction::Observe
    ));
    assert!(matches!(
        naps::read::step(usize::MAX, ReadEvent::Subscribed(usize::MAX - 1, Ok(()))),
        ReadAction::Observe
    ));
    assert!(matches!(
        naps::read::step(usize::MAX, ReadEvent::Subscribed(usize::MAX - 2, Ok(()))),
        ReadAction::Subscribe(i) if i == usize::MAX - 1
    ));
}

#[test]
fn ingress_fails_where_the_broker_does() {
    match naps::read::step(1, ReadEvent::Connected(Err(String::from("refused")))) {
        ReadAction::Finish(Err(error)) => {
            assert_eq!(error.fault, Fault::Connect);
            assert_eq!(error.detail, "refused");
        },
        other => panic!("unexpected action: {:?}", other),
    }
    match naps::read::step(2, ReadEvent::Subscribed(0, Err(String::from("bad subject")))) {
        ReadAction::Finish(Err(error)) => {
            assert_eq!(error.fault, Fault::Subscribe);
            assert_eq!(error.detail, "bad subject");
        },
        other => panic!("unexpected action: {:?}", other),
    }
}

#[test]
fn ingress_idles_until_it_sees_the_flag() {
    assert!(matches!(naps::read::step(1, ReadEvent::Observed(false)), ReadAction::Rest));
    assert!(matches!(naps::read::step(1, ReadEvent::Rested), ReadAction::Observe));
    assert!(matches!(naps::read::step(1, ReadEvent::Observed(true)), ReadAction::Linger));
    assert!(matches!(naps::read::step(1, ReadEvent::Lingered), ReadAction::Finish(Ok(()))));
}

#[test]
fn egress_connects_then_takes_turns() {
    assert!(matches!(naps::write::step(WriteEvent::Started), WriteAction::Connect));
    assert!(matches!(naps::write::step(WriteEvent::Connected(Ok(()))), WriteAction::Observe));
    assert!(matches!(naps::write::step(WriteEvent::Observed(false)), WriteAction::Receive));
    assert!(matches!(naps::write::step(WriteEvent::Observed(true)), WriteAction::Finish(Ok(()))));
    assert!(matches!(naps::write::step(WriteEvent::Published(Ok(()))), WriteAction::Observe));
}

#[test]
fn egress_fails_where_the_broker_is_unreachable() {
    match naps::write::step(WriteEvent::Connected(Err(String::from("no route")))) {
        WriteAction::Finish(Err(error)) => {
            assert_eq!(error.fault, Fault::Connect);
            assert_eq!(error.detail, "no route");
        },
        other => panic!("unexpected action: {:?}", other),
    }
}

#[test]
fn an_aborted_connection_ends_egress() {
    let aborted = PublishFailure {
        class: FailureClass::ConnectionAborted,
        detail: String::from("connection aborted"),
    };
    match naps::write::step(WriteEvent::Published(Err(aborted))) {
        WriteAction::Finish(Err(error)) => {
            assert_eq!(error.fault, Fault::Publish);
            assert_eq!(error.detail, "connection aborted");
        },
        other => panic!("unexpected action: {:?}", other),
    }
}

#[test]
fn another_publish_failure_loses_one_message_only() {
    let refused = PublishFailure { class: FailureClass::Other, detail: String::from("too large") };
    assert!(matches!(naps::write::step(WriteEvent::Published(Err(refused))), WriteAction::Observe));
}

#[test]
fn egress_publishes_what_it_receives() {
    match naps::write::step(WriteEvent::Received(Msg::new(vec![1], String::from("t")))) {
        WriteAction::Publish(msg) => {
            assert_eq!(msg.topic, "t");
            assert_eq!(msg.data, vec![1]);
        },
        other => panic!("unexpected action: {:?}", other),
    }
}

#[test]
fn the_queue_into_egress_is_the_bounded_one() {
    assert_eq!(EGRESS_CAPACITY, 1024);
    let direct = wiring(&args_with_script(""));
    assert_eq!(direct.stats, Queue::Unbounded);
    assert_eq!(direct.transform, None);
    assert_eq!(direct.egress, Queue::Bounded(1024));
    let scripted = wiring(&args_with_script("function recv() { return true }"));
    assert_eq!(scripted.stats, Queue::Unbounded);
    assert_eq!(scripted.transform, Some(Queue::Unbounded));
    assert_eq!(scripted.egress, Queue::Bounded(1024));
}

#[test]
fn a_run_of_stages_that_end_well_ends_well() {
    assert!(conclude(Ok(()), Ok(()), Ok(()), None).is_ok());
    assert!(conclude(Ok(()), Ok(()), Ok(()), Some(Ok(()))).is_ok());
}

#[test]
fn the_first_failure_in_order_is_the_run_s() {
    let ending = conclude(
        failure(Fault::Connect, "ingress"),
        failure(Fault::Engine, "stats"),
        failure(Fault::Publish, "egress"),
        Some(failure(Fault::Engine, "transform")),
    );
    assert_eq!(ending.unwrap_err().detail, "ingress");
    let ending = conclude(
        Ok(()),
        failure(Fault::Engine, "stats"),
        failure(Fault::Publish, "egress"),
        Some(failure(Fault::Engine, "transform")),
    );
    assert_eq!(ending.unwrap_err().detail, "stats");
    let ending = conclude(
        Ok(()),
        Ok(()),
        failure(Fault::Publish, "egress"),
        Some(failure(Fault::Engine, "transform")),
    );
    let error = ending.unwrap_err();
    assert_eq!(error.fault, Fault::Publish);
    assert_eq!(error.detail, "egress");
    let ending = conclude(Ok(()), Ok(()), Ok(()), Some(failure(Fault::Engine, "transform")));
    let error = ending.unwrap_err();
    assert_eq!(error.fault, Fault::Engine);
    assert_eq!(error.detail, "transform");
}

#[test]
fn an_aborted_publish_fails_the_run() {
    let aborted = PublishFailure {
        class: FailureClass::ConnectionAborted,
        detail: String::from("broken pipe"),
    };
    let egress = match naps::write::step(WriteEvent::Published(Err(aborted))) {
        WriteAction::Finish(ending) => ending,
        other => panic!("unexpected action: {:?}", other),
    };
    let error = conclude(Ok(()), Ok(()), egress, Some(Ok(()))).unwrap_err();
    assert_eq!(error.fault, Fault::Publish);
    assert_eq!(error.detail, "broken pipe");
}
