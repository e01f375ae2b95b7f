use jonect::utils::{
    decimal::{parse_u64, u64_to_string},
    endian::{
        i16_from_le_bytes, i32_from_be_bytes, u16_from_be_bytes, u16_to_be_bytes,
        u32_from_be_bytes, u32_to_be_bytes,
    },
    error::{IoError, IoErrorKind},
    message::{message_size_bytes, MessageReader, ReadStep},
    Connection, ConnectionEvent, ConnectionTaskAction, ConnectionTaskEvent, ReadError, WriteError,
};

#[test]
fn integers_as_bytes() {
    assert_eq!(u16_to_be_bytes(0x1234), [0x12, 0x34]);
    assert_eq!(u16_from_be_bytes(0x12, 0x34), 0x1234);
    assert_eq!(u32_to_be_bytes(0x1234_5678), [0x12, 0x34, 0x56, 0x78]);
    assert_eq!(u32_from_be_bytes(&[0x12, 0x34, 0x56, 0x78]), 0x1234_5678);
    assert_eq!(i32_from_be_bytes(&[0xff, 0xff, 0xff, 0xff]), -1);
    assert_eq!(i32_from_be_bytes(&[0x80, 0, 0, 0]), i32::MIN);
    assert_eq!(i32_from_be_bytes(&[0x7f, 0xff, 0xff, 0xff]), i32::MAX);
    assert_eq!(i16_from_le_bytes(0x00, 0x80), i16::MIN);
    assert_eq!(i16_from_le_bytes(0x34, 0x12), 0x1234);
    assert_eq!(i16_from_le_bytes(0xff, 0xff), -1);
}

#[test]
fn numbers_as_text() {
    for value in [0, 7, 10, 1234567890, u64::MAX] {
        let text = u64_to_string(value);
        assert_eq!(text, format!("{}", value));
        assert_eq!(parse_u64(&text), Some(value));
    }
    assert_eq!(parse_u64("+5"), Some(5));
    assert_eq!(parse_u64("007"), Some(7));
    assert_eq!(parse_u64("00018446744073709551615"), Some(u64::MAX));
    for text in ["", "+", "-1", "++1", "1 ", "0x1", "18446744073709551616", "99999999999999999999"] {
        assert_eq!(parse_u64(text), None);
        assert!(text.parse::<u64>().is_err());
    }
}

fn read_all(reader: &mut MessageReader, bytes: &[u8], size: usize) {
    for piece in bytes.chunks(size) {
        assert!(matches!(reader.handle_read(Ok(piece)), Ok(ReadStep::Continue)));
    }
    assert!(matches!(reader.handle_read(Ok(&[])), Ok(ReadStep::MessageReady)));
}

#[test]
fn message_is_read_in_any_pieces() {
    let (size_bytes, message) = message_size_bytes("{\"ä\":1}".to_string()).unwrap();
    assert_eq!(size_bytes, [0, 0, 0, 8]);
    let mut reader = MessageReader::new();
    for size in 1..10 {
        let len = i32_from_be_bytes(&size_bytes);
        assert!(matches!(reader.start_message(Ok(len)), Ok(8)));
        assert!(reader.message().is_empty());
        read_all(&mut reader, message.as_bytes(), size);
        assert_eq!(reader.message().to_vec(), message.as_bytes().to_vec());
    }
    assert!(matches!(reader.start_message(Ok(0)), Ok(0)));
    assert!(matches!(reader.handle_read(Ok(&[])), Ok(ReadStep::MessageReady)));
    assert!(reader.message().is_empty());
}

#[test]
fn reading_errors() {
    let mut reader = MessageReader::new();
    assert!(matches!(reader.start_message(Ok(-1)), Err(ReadError::MessageSize(-1))));
    let error = IoError::from_kind(IoErrorKind::Other);
    assert!(matches!(reader.start_message(Err(error)), Err(ReadError::Io(_))));
    assert!(matches!(reader.start_message(Ok(2)), Ok(2)));
    assert!(matches!(reader.handle_read(Ok(&[1])), Ok(ReadStep::Continue)));
    match reader.handle_read(Ok(&[])) {
        Err(ReadError::Io(e)) => assert_eq!(e.kind, IoErrorKind::UnexpectedEof),
        _ => panic!(),
    }
    let error = IoError::from_kind(IoErrorKind::BrokenPipe);
    assert!(matches!(reader.handle_read(Err(error)), Err(ReadError::Io(_))));
}

#[test]
fn connection_waits_quit_after_an_error() {
    type Event = ConnectionTaskEvent<u8, u8>;
    let mut connection = Connection::new(6);
    assert_eq!(connection.id(), 6);
    assert!(matches!(
        connection.connection_task(Event::SendMessage(1)),
        ConnectionTaskAction::WriteMessage(1)
    ));
    match connection.connection_task(Event::ReadingReady(Ok(2))) {
        ConnectionTaskAction::SendEvent { event, read_next: true } => {
            assert!(!event.is_error());
            assert!(matches!(event, ConnectionEvent::Message(6, 2)));
        }
        _ => panic!(),
    }
    match connection.connection_task(Event::ReadingReady(Err(ReadError::MessageSize(-4)))) {
        ConnectionTaskAction::SendEvent { event, read_next: false } => {
            assert!(event.is_error());
            assert!(matches!(event, ConnectionEvent::ReadError(6, _)));
        }
        _ => panic!(),
    }
    assert!(matches!(
        connection.connection_task(Event::SendMessage(1)),
        ConnectionTaskAction::Wait
    ));
    assert!(matches!(
        connection.connection_task(Event::ReadingReady(Ok(3))),
        ConnectionTaskAction::Wait
    ));
    assert!(matches!(connection.connection_task(Event::QuitRequest), ConnectionTaskAction::Quit));

    let mut connection = Connection::new(7);
    let failed = Event::WritingFailed(WriteError::Serialize("x".to_string()));
    match connection.connection_task(failed) {
        ConnectionTaskAction::SendEvent { event, read_next: false } => {
            assert!(matches!(event, ConnectionEvent::WriteError(7, _)));
        }
        _ => panic!(),
    }
    assert!(connection.waiting_quit);
}
