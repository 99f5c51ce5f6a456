use rpmsg_async_notify::channel::{ChannelError, RPMsgEndpointInfo};
use rpmsg_async_notify::RPMSG_ADDR_ANY;

#[test]
fn name_round_trip() {
    let info = RPMsgEndpointInfo::new("rpmsg-openamp-demo-channel", RPMSG_ADDR_ANY, 0).unwrap();
    assert_eq!(info.name.len(), 32);
    assert_eq!(info.name_prefix(), b"rpmsg-openamp-demo-channel".to_vec());
    assert_eq!(info.src, RPMSG_ADDR_ANY);
    assert_eq!(info.dst, 0);
}

#[test]
fn name_round_trip_short() {
    let info = RPMsgEndpointInfo::new("a", 1, 2).unwrap();
    assert_eq!(info.name_prefix(), b"a".to_vec());
    assert_eq!(&info.name[1..], &[0u8; 31]);
}

#[test]
fn name_of_max_length_fits() {
    let name = "abcdefghijklmnopqrstuvwxyz01234";
    assert_eq!(name.len(), 31);
    let info = RPMsgEndpointInfo::new(name, 0, 0).unwrap();
    assert_eq!(info.name_prefix(), name.as_bytes().to_vec());
    assert_eq!(info.name[31], 0);
}

#[test]
fn name_of_length_32_rejected() {
    let name = "abcdefghijklmnopqrstuvwxyz012345";
    assert_eq!(name.len(), 32);
    let err = RPMsgEndpointInfo::new(name, 0, 0).unwrap_err();
    assert_eq!(err, ChannelError::EndpointNameTooLong { length: 32 });
}

#[test]
fn non_ascii_name_rejected() {
    let err = RPMsgEndpointInfo::new("caf\u{e9}", 0, 0).unwrap_err();
    // the first byte of the UTF-8 encoding of the accented character
    assert_eq!(err, ChannelError::EndpointNameNonAscii { num: 0xc3 });
}

#[test]
fn non_ascii_reported_before_excessive_length() {
    // both faults at once: the bytes are checked first
    let name = "caf\u{e9}caf\u{e9}caf\u{e9}caf\u{e9}caf\u{e9}caf\u{e9}caf\u{e9}caf\u{e9}";
    assert!(name.len() > 31);
    let err = RPMsgEndpointInfo::new(name, 0, 0).unwrap_err();
    assert_eq!(err, ChannelError::EndpointNameNonAscii { num: 0xc3 });
}

#[test]
fn descriptor_layout_is_name_then_src_then_dst() {
    let info = RPMsgEndpointInfo::new("echo", 0x01020304, RPMSG_ADDR_ANY).unwrap();
    let bytes = info.to_bytes();
    assert_eq!(bytes.len(), 40);
    assert_eq!(&bytes[0..4], b"echo");
    assert_eq!(&bytes[4..32], &[0u8; 28]);
    assert_eq!(&bytes[32..36], &[0x04, 0x03, 0x02, 0x01]);
    assert_eq!(&bytes[36..40], &[0xff, 0xff, 0xff, 0xff]);
}
