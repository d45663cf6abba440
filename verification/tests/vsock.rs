use trustvault::vsock::{frame_message, read_message_length, VsockReceiveError, VsockSendError, VSOCK_MAX_MESSAGE_LEN};

#[test]
fn frame_message_prefixes_the_big_endian_length() {
    assert_eq!(frame_message(b"abc").unwrap(), vec![0, 0, 0, 3, b'a', b'b', b'c']);
    assert_eq!(frame_message(b"").unwrap(), vec![0, 0, 0, 0]);
    let payload = vec![9u8; 0x0102];
    let frame = frame_message(&payload).unwrap();
    assert_eq!(frame[..4].to_vec(), vec![0, 0, 1, 2]);
    assert_eq!(frame[4..].to_vec(), payload);
}

#[test]
fn frame_message_accepts_the_largest_message() {
    let payload = vec![1u8; VSOCK_MAX_MESSAGE_LEN];
    let frame = frame_message(&payload).unwrap();
    assert_eq!(frame[..4].to_vec(), vec![0, 0x10, 0, 0]);
    assert_eq!(frame.len(), VSOCK_MAX_MESSAGE_LEN + 4);
}

#[test]
fn frame_message_refuses_a_larger_message() {
    let payload = vec![1u8; VSOCK_MAX_MESSAGE_LEN + 1];
    match frame_message(&payload) {
        Err(VsockSendError::MessageTooLarge { len, max }) => {
            assert_eq!(len, 1024 * 1024 + 1);
            assert_eq!(max, 1024 * 1024);
        }
        _ => panic!("expected MessageTooLarge"),
    }
}

#[test]
fn read_message_length_reads_big_endian() {
    assert_eq!(read_message_length([0, 0, 1, 0]).unwrap(), 256);
    assert_eq!(read_message_length([0, 0x10, 0, 0]).unwrap(), VSOCK_MAX_MESSAGE_LEN);
    assert_eq!(read_message_length([0, 0, 0, 0]).unwrap(), 0);
}

#[test]
fn read_message_length_refuses_a_larger_message() {
    match read_message_length([0xff, 0xff, 0xff, 0xff]) {
        Err(VsockReceiveError::MessageTooLarge { len, max }) => {
            assert_eq!(len, 0xffff_ffff);
            assert_eq!(max, VSOCK_MAX_MESSAGE_LEN);
        }
        _ => panic!("expected MessageTooLarge"),
    }
    assert!(matches!(
        read_message_length([0, 0x10, 0, 1]),
        Err(VsockReceiveError::MessageTooLarge { len: 0x10_0001, .. })
    ));
}

#[test]
fn a_frame_reads_back_its_length() {
    let payload = vec![7u8; 70_000];
    let frame = frame_message(&payload).unwrap();
    let header = [frame[0], frame[1], frame[2], frame[3]];
    assert_eq!(read_message_length(header).unwrap(), payload.len());
}
