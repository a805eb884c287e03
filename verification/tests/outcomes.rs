use std::io;

use spsc_pump::{conclude_poll, conclude_recv, conclude_send, Async, Error};

#[test]
fn a_recorded_notification_is_a_successful_send() {
    assert!(conclude_send(Ok(())).is_ok());
}

#[test]
fn a_refused_notification_is_a_saturation_error() {
    let cause = io::Error::new(io::ErrorKind::WouldBlock, "counter is full");
    match conclude_send(Err(cause)) {
        Err(Error::NotificationSaturated(cause)) => {
            assert_eq!(cause.kind(), io::ErrorKind::WouldBlock);
            assert_eq!(format!("{}", cause), "counter is full");
        }
        Ok(()) => panic!("the failure was swallowed"),
    }
}

#[test]
fn an_empty_pop_is_an_empty_receive() {
    assert_eq!(conclude_recv::<u8>(None).unwrap(), None);
}

#[test]
fn a_popped_value_is_the_received_value() {
    assert_eq!(conclude_recv(Some(41u8)).unwrap(), Some(41u8));
}

#[test]
fn an_empty_pop_is_not_ready() {
    assert_eq!(conclude_poll::<u8>(None).unwrap(), Async::NotReady);
}

#[test]
fn a_popped_value_is_ready() {
    assert_eq!(conclude_poll(Some(41u8)).unwrap(), Async::Ready(Some(41u8)));
}

#[test]
fn the_error_names_its_variant_when_printed() {
    let cause = io::Error::new(io::ErrorKind::Other, "no room");
    let shown = format!("{:?}", conclude_send(Err(cause)).unwrap_err());
    assert!(shown.starts_with("NotificationSaturated"));
}
