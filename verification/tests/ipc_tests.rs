use pcpaneld::control::{AppMatcher, AudioTarget};
use pcpaneld::ipc::{encode_message, read_length_prefix, IpcError, MAX_MESSAGE_SIZE};

#[test]
fn length_prefix_encode_decode() {
    let msg = b"hello world";
    let encoded = encode_message(msg).unwrap();
    assert_eq!(encoded.len(), 4 + msg.len());

    let len_bytes: [u8; 4] = encoded[..4].try_into().unwrap();
    let len = read_length_prefix(&len_bytes).unwrap();
    assert_eq!(len as usize, msg.len());
    assert_eq!(&encoded[4..], msg);
}

#[test]
fn oversized_message_rejected() {
    let len = MAX_MESSAGE_SIZE + 1;
    let bytes = len.to_le_bytes();
    let result = read_length_prefix(&bytes);
    assert!(result.is_err());
    match result.unwrap_err() {
        IpcError::MessageTooLarge { size } => assert_eq!(size, len),
        e => panic!("expected MessageTooLarge, got {e:?}"),
    }
}

#[test]
fn max_valid_length_accepted() {
    let bytes = MAX_MESSAGE_SIZE.to_le_bytes();
    let result = read_length_prefix(&bytes);
    assert!(result.is_ok());
    assert_eq!(result.unwrap(), MAX_MESSAGE_SIZE);
}

#[test]
fn zero_length_message() {
    let encoded = encode_message(b"").unwrap();
    assert_eq!(encoded.len(), 4);
    let len_bytes: [u8; 4] = encoded[..4].try_into().unwrap();
    assert_eq!(read_length_prefix(&len_bytes).unwrap(), 0);
}

#[test]
fn oversized_payload_rejected_on_encode() {
    let msg = vec![0u8; MAX_MESSAGE_SIZE as usize + 1];
    match encode_message(&msg) {
        Err(IpcError::MessageTooLarge { size }) => {
            assert_eq!(size, MAX_MESSAGE_SIZE + 1);
        }
        other => panic!("expected MessageTooLarge, got {other:?}"),
    }
}

#[test]
fn max_size_payload_accepted_on_encode() {
    let msg = vec![7u8; MAX_MESSAGE_SIZE as usize];
    let encoded = encode_message(&msg).unwrap();
    assert_eq!(encoded.len(), 4 + MAX_MESSAGE_SIZE as usize);
    let len_bytes: [u8; 4] = encoded[..4].try_into().unwrap();
    assert_eq!(read_length_prefix(&len_bytes).unwrap(), MAX_MESSAGE_SIZE);
}

#[test]
fn audio_target_display() {
    assert_eq!(AudioTarget::DefaultOutput.description(), "default-output");
    assert_eq!(AudioTarget::DefaultInput.description(), "default-input");
    assert_eq!(
        AudioTarget::App {
            matcher: AppMatcher {
                binary: Some("firefox".into()),
                ..Default::default()
            }
        }
        .description(),
        "app(binary=firefox)"
    );
    assert_eq!(
        AudioTarget::App {
            matcher: AppMatcher {
                binary: Some("firefox".into()),
                name: Some("Firefox".into()),
                flatpak_id: None,
            }
        }
        .description(),
        "app(binary=firefox, name=Firefox)"
    );
    assert_eq!(AudioTarget::FocusedApp.description(), "focused");
}
