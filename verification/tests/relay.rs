use pty_session::{OutputRelay, ReadEvent, RelayAction};

#[test]
fn data_is_published_in_order() {
    let mut relay = OutputRelay::new();
    let a = relay.on_read(ReadEvent::Data(b"Hel".to_vec()));
    assert_eq!(a, RelayAction::Output("Hel".to_string()));
    let a = relay.on_read(ReadEvent::Data(b"lo\r\n".to_vec()));
    assert_eq!(a, RelayAction::Output("lo\r\n".to_string()));
    assert!(!relay.done);
}

#[test]
fn hello_roundtrip_then_eof() {
    let mut relay = OutputRelay::new();
    let mut text = String::new();
    for chunk in [b"Hello".to_vec(), b"\r\n".to_vec()] {
        match relay.on_read(ReadEvent::Data(chunk)) {
            RelayAction::Output(s) => text.push_str(&s),
            RelayAction::Exit => panic!("data must not end the relay"),
        }
    }
    assert_eq!(text, "Hello\r\n");
    let a = relay.on_read(ReadEvent::Eof);
    assert_eq!(a, RelayAction::Exit);
    assert!(relay.done);
}

#[test]
fn eof_publishes_exit() {
    let mut relay = OutputRelay::new();
    let a = relay.on_read(ReadEvent::Eof);
    assert_eq!(a, RelayAction::Exit);
    assert!(relay.done);
}

#[test]
fn read_error_publishes_exit() {
    let mut relay = OutputRelay::new();
    let a = relay.on_read(ReadEvent::Data(b"partial".to_vec()));
    assert_eq!(a, RelayAction::Output("partial".to_string()));
    let a = relay.on_read(ReadEvent::ReadFailed);
    assert_eq!(a, RelayAction::Exit);
    assert!(relay.done);
}

#[test]
fn invalid_bytes_are_replaced_not_echoed() {
    let mut relay = OutputRelay::new();
    let a = relay.on_read(ReadEvent::Data(vec![b'H', 0xFF, b'i']));
    assert_eq!(a, RelayAction::Output("H\u{FFFD}i".to_string()));
}

#[test]
fn multibyte_text_is_decoded() {
    let mut relay = OutputRelay::new();
    let a = relay.on_read(ReadEvent::Data("héllo ✓".as_bytes().to_vec()));
    assert_eq!(a, RelayAction::Output("héllo ✓".to_string()));
}
