use rpmsg_async_notify::channel::{ChannelError, OpenOutcome, RPMsgEndpoint};
use rpmsg_async_notify::PAYLOAD_MAX_SIZE;

fn open_endpoint() -> RPMsgEndpoint {
    RPMsgEndpoint::new("/dev/rpmsg0".to_string(), OpenOutcome::Opened { fd: 9 }).unwrap()
}

#[test]
fn endpoint_open_outcomes() {
    let ep = open_endpoint();
    assert_eq!(ep.name, "/dev/rpmsg0");
    assert_eq!(ep.endpoint_handler, 9);
    assert_eq!(
        RPMsgEndpoint::new("/dev/rpmsg1".to_string(), OpenOutcome::Absent).unwrap_err(),
        ChannelError::EndpointNotFound { endpoint_name: "/dev/rpmsg1".to_string() }
    );
    assert_eq!(
        RPMsgEndpoint::new("/dev/rpmsg1".to_string(), OpenOutcome::OpenFailed { errno: 13 })
            .unwrap_err(),
        ChannelError::EndpointOpenFailed { path: "/dev/rpmsg1".to_string(), errno: 13 }
    );
}

#[test]
fn short_endpoint_write_detected_and_survivable() {
    let mut ep = open_endpoint();
    let message = vec![0xabu8; PAYLOAD_MAX_SIZE];
    // a stub kernel accepts only 400 of the 472 bytes
    let err = ep.send(&message, Ok(400)).unwrap_err();
    assert_eq!(
        err,
        ChannelError::ShortWrite {
            endpoint_name: "/dev/rpmsg0".to_string(),
            expected: PAYLOAD_MAX_SIZE,
            written: 400,
        }
    );
    // the harness records the error and carries on with the next send
    assert_eq!(ep.send(&message, Ok(PAYLOAD_MAX_SIZE)), Ok(()));
}

#[test]
fn failed_write_carries_errno() {
    let mut ep = open_endpoint();
    assert_eq!(
        ep.send(&[1, 2, 3], Err(32)).unwrap_err(),
        ChannelError::EndpointWriteFailed { errno: 32 }
    );
}

#[test]
fn read_returns_exactly_the_received_bytes() {
    let mut ep = open_endpoint();
    let mut scratch = vec![0u8; 1024];
    scratch[0] = 5;
    scratch[1] = 6;
    scratch[2] = 7;
    let data = ep.read(512, Ok((scratch, 3))).unwrap();
    assert_eq!(data, vec![5, 6, 7]);
}

#[test]
fn read_would_block_is_normal() {
    let mut ep = open_endpoint();
    assert_eq!(ep.read(512, Err(11)).unwrap_err(), ChannelError::WouldBlock);
    assert_eq!(
        ep.read(512, Err(5)).unwrap_err(),
        ChannelError::EndpointReadFailed { errno: 5 }
    );
}

#[test]
fn read_over_capacity_is_an_overflow() {
    let mut ep = open_endpoint();
    let scratch = vec![0u8; 1024];
    assert_eq!(
        ep.read(512, Ok((scratch, 600))).unwrap_err(),
        ChannelError::MessageBufferOverflow { capacity: 512, message_size: 600 }
    );
}
