use tock::console_read::{ConsoleRead, ConsoleReadClient};
use tock::console_write::{BytesWritten, ConsoleWrite, ConsoleWriteClient, ConsoleWriteStr};
use tock::error::Error;
use tock::syscalls::{CallbackMessage, Syscall};
use tock::task::{DriverTask, DriverTaskClient, DriverTaskWithState};

fn ok_event(n: usize) -> CallbackMessage {
    CallbackMessage::new(n, 0, 0, 0)
}

fn start_read(reader: &mut ConsoleRead, client: &ConsoleReadClient, len: usize) {
    let calls = reader.initiate_read(client, len).unwrap();
    assert_eq!(calls.len(), 3);
    assert_eq!(reader.read_initiated(len, Ok(0)), Ok(()));
}

fn start_write(writer: &mut ConsoleWrite, client: &ConsoleWriteClient, bytes: &[u8]) {
    writer.initiate_write(client, bytes).unwrap();
    assert_eq!(writer.write_initiated(bytes.len(), Ok(0)), Ok(()));
}

#[test]
fn read_abort_then_partial_event() {
    let mut reader = ConsoleRead::new();
    let mut client = ConsoleReadClient::new();
    start_read(&mut reader, &client, 5);
    let abort = reader.abort().unwrap();
    assert_eq!(abort, vec![Syscall::Command { driver: 1, num: 3, arg0: 0, arg1: 0 }]);
    assert_eq!(reader.abort_issued(Ok(0)), Ok(()));
    assert!(reader.is_active());
    reader.deliver(ok_event(3));
    reader.advance(&mut client);
    assert!(!reader.is_active());
    let mut buf = [0u8; 3];
    assert_eq!(client.reap_read_to_buffer(&mut reader, &mut buf), Ok(()));
}

#[test]
fn write_two_events_then_error() {
    let mut writer = ConsoleWrite::new();
    let mut client = ConsoleWriteClient::new();
    start_write(&mut writer, &client, b"0123456789");
    writer.deliver(ok_event(4));
    writer.advance(&mut client);
    assert!(!client.has_message());
    writer.deliver(ok_event(6));
    writer.advance(&mut client);
    assert_eq!(client.reap_bytes_written_message(), Ok(BytesWritten(10)));

    start_write(&mut writer, &client, b"0123456789");
    writer.deliver(ok_event(4));
    writer.advance(&mut client);
    writer.deliver(CallbackMessage::new(0, 7, 0, 0));
    writer.advance(&mut client);
    assert!(!writer.is_active());
    assert_eq!(client.reap_bytes_written_message(), Err(Error::Code(7)));
}

#[test]
fn read_plan_matches_driver_table() {
    let reader = ConsoleRead::new();
    let client = ConsoleReadClient::new();
    let calls = reader.initiate_read(&client, 5).unwrap();
    assert_eq!(
        calls,
        vec![
            Syscall::Allow { driver: 1, num: 2, len: 5 },
            Syscall::Subscribe { driver: 1, num: 2 },
            Syscall::Command { driver: 1, num: 2, arg0: 5, arg1: 0 },
        ]
    );
}

#[test]
fn read_split_events_complete_with_requested_length() {
    let mut reader = ConsoleRead::new();
    let mut client = ConsoleReadClient::new();
    start_read(&mut reader, &client, 5);
    reader.fill_buffer(b"hello");
    for n in [2usize, 0, 3] {
        assert!(reader.is_active());
        reader.deliver(ok_event(n));
        assert!(reader.has_message());
        reader.advance(&mut client);
        assert!(!reader.has_message());
    }
    assert!(!reader.is_active());
    let mut buf = [0u8; 5];
    assert_eq!(client.reap_read_to_buffer(&mut reader, &mut buf), Ok(()));
    assert_eq!(&buf, b"hello");
    assert!(reader.buffer().iter().all(|b| *b == 0));
    assert!(!client.has_message());
}

#[test]
fn read_while_ongoing_is_busy() {
    let mut reader = ConsoleRead::new();
    let client = ConsoleReadClient::new();
    start_read(&mut reader, &client, 5);
    assert_eq!(reader.initiate_read(&client, 1), Err(Error::Busy));
    assert_eq!(reader.abort_issued(Ok(0)), Ok(()));
    assert_eq!(reader.initiate_read(&client, 1), Err(Error::Busy));
}

#[test]
fn read_with_unread_message_is_busy() {
    let mut reader = ConsoleRead::new();
    let mut client = ConsoleReadClient::new();
    start_read(&mut reader, &client, 2);
    reader.deliver(ok_event(2));
    reader.advance(&mut client);
    assert!(client.has_message());
    assert_eq!(reader.initiate_read(&client, 2), Err(Error::Busy));
    client.reap_message();
    assert!(!client.has_message());
    assert!(reader.initiate_read(&client, 2).is_ok());
}

#[test]
fn read_too_long_is_invalid() {
    let reader = ConsoleRead::new();
    let client = ConsoleReadClient::new();
    assert_eq!(reader.initiate_read(&client, 65), Err(Error::InvalidArgument));
    assert!(reader.initiate_read(&client, 64).is_ok());
}

#[test]
fn read_failed_issue_stays_idle() {
    let mut reader = ConsoleRead::new();
    assert_eq!(reader.read_initiated(3, Err(Error::Busy)), Err(Error::Busy));
    assert!(!reader.is_active());
}

#[test]
fn abort_when_idle_or_aborting() {
    let mut reader = ConsoleRead::new();
    let client = ConsoleReadClient::new();
    assert_eq!(reader.abort(), Err(Error::InvalidArgument));
    start_read(&mut reader, &client, 4);
    assert_eq!(reader.abort_issued(Err(Error::Code(1))), Err(Error::Code(1)));
    assert!(reader.abort().is_ok());
    assert_eq!(reader.abort_issued(Ok(0)), Ok(()));
    assert_eq!(reader.abort(), Err(Error::Busy));
}

#[test]
fn read_error_event_ends_read() {
    let mut reader = ConsoleRead::new();
    let mut client = ConsoleReadClient::new();
    start_read(&mut reader, &client, 5);
    reader.deliver(ok_event(2));
    reader.advance(&mut client);
    reader.deliver(CallbackMessage::new(1, 9, 0, 0));
    reader.advance(&mut client);
    assert!(!reader.is_active());
    let mut buf = [0u8; 2];
    assert_eq!(client.reap_read_to_buffer(&mut reader, &mut buf), Err(Error::Code(9)));
    assert!(!client.has_message());
}

#[test]
fn read_consume_wrong_length_is_invalid() {
    let mut reader = ConsoleRead::new();
    let mut client = ConsoleReadClient::new();
    start_read(&mut reader, &client, 3);
    reader.deliver(ok_event(3));
    reader.advance(&mut client);
    let mut buf = [0u8; 4];
    assert_eq!(client.reap_read_to_buffer(&mut reader, &mut buf), Err(Error::InvalidArgument));
    assert!(!client.has_message());
}

#[test]
fn read_consume_empty_is_not_found() {
    let mut reader = ConsoleRead::new();
    let mut client = ConsoleReadClient::new();
    reader.fill_buffer(b"abc");
    let mut buf = [5u8; 3];
    assert_eq!(client.reap_read_to_buffer(&mut reader, &mut buf), Err(Error::NotFound));
    assert_eq!(buf, [5u8; 3]);
    assert_eq!(&reader.buffer()[..3], b"abc");
}

#[test]
fn read_event_larger_than_pending_counts_the_rest() {
    let mut reader = ConsoleRead::new();
    let mut client = ConsoleReadClient::new();
    start_read(&mut reader, &client, 4);
    reader.deliver(ok_event(10));
    reader.advance(&mut client);
    let mut buf = [0u8; 4];
    assert_eq!(client.reap_read_to_buffer(&mut reader, &mut buf), Ok(()));
}

#[test]
fn read_event_when_idle_is_dropped() {
    let mut reader = ConsoleRead::new();
    let mut client = ConsoleReadClient::new();
    reader.deliver(ok_event(3));
    reader.advance(&mut client);
    assert!(!reader.has_message());
    assert!(!client.has_message());
}

#[test]
fn aborting_state_keeps_counts() {
    let mut reader = ConsoleRead::new();
    let mut client = ConsoleReadClient::new();
    start_read(&mut reader, &client, 6);
    reader.deliver(ok_event(2));
    reader.advance(&mut client);
    assert!(reader.abort().is_ok());
    assert_eq!(reader.abort_issued(Ok(0)), Ok(()));
    reader.deliver(ok_event(1));
    reader.advance(&mut client);
    let mut buf = [0u8; 3];
    assert_eq!(client.reap_read_to_buffer(&mut reader, &mut buf), Ok(()));
}

#[test]
fn write_round_trip_buffer_holds_bytes() {
    let mut writer = ConsoleWrite::new();
    let mut client = ConsoleWriteClient::new();
    let calls = writer.initiate_write(&client, b"abc").unwrap();
    assert_eq!(
        calls,
        vec![
            Syscall::Allow { driver: 1, num: 1, len: 3 },
            Syscall::Subscribe { driver: 1, num: 1 },
            Syscall::Command { driver: 1, num: 1, arg0: 3, arg1: 0 },
        ]
    );
    assert_eq!(writer.write_initiated(3, Ok(0)), Ok(()));
    writer.deliver(ok_event(1));
    writer.advance(&mut client);
    writer.deliver(ok_event(2));
    writer.advance(&mut client);
    assert_eq!(&writer.buffer()[..3], b"abc");
    assert!(writer.buffer()[3..].iter().all(|b| *b == 0));
    assert_eq!(writer.buffer().len(), 64);
    assert_eq!(client.reap_bytes_written_message(), Ok(BytesWritten(3)));
}

#[test]
fn write_while_ongoing_or_unread_is_busy() {
    let mut writer = ConsoleWrite::new();
    let mut client = ConsoleWriteClient::new();
    start_write(&mut writer, &client, b"xy");
    assert_eq!(writer.initiate_write(&client, b"z"), Err(Error::Busy));
    assert_eq!(&writer.buffer()[..2], b"xy");
    writer.deliver(ok_event(2));
    writer.advance(&mut client);
    assert_eq!(writer.initiate_write(&client, b"z"), Err(Error::Busy));
    assert_eq!(client.reap_bytes_written_message(), Ok(BytesWritten(2)));
    assert_eq!(client.reap_bytes_written_message(), Err(Error::NotFound));
}

#[test]
fn write_too_long_is_invalid() {
    let mut writer = ConsoleWrite::new();
    let client = ConsoleWriteClient::new();
    let long = [1u8; 65];
    assert_eq!(writer.initiate_write(&client, &long), Err(Error::InvalidArgument));
    assert!(writer.buffer().iter().all(|b| *b == 0));
}

#[test]
fn write_failed_issue_clears_buffer_and_stays_idle() {
    let mut writer = ConsoleWrite::new();
    let client = ConsoleWriteClient::new();
    writer.initiate_write(&client, b"abc").unwrap();
    assert_eq!(writer.write_initiated(3, Err(Error::InvalidArgument)), Err(Error::InvalidArgument));
    assert!(!writer.is_active());
    assert!(writer.buffer().iter().all(|b| *b == 0));
}

#[test]
fn write_str_appends_and_refuses_overflow() {
    let mut w = ConsoleWriteStr::new(vec![0u8; 8]);
    assert_eq!(w.write_str("Hi "), Ok(()));
    assert_eq!(w.get_offset(), 3);
    assert_eq!(w.write_str("there!"), Err(Error::InvalidArgument));
    assert_eq!(w.get_offset(), 3);
    assert_eq!(w.write_str("you!!"), Ok(()));
    assert_eq!(w.get_offset(), 8);
    assert_eq!(&w.buffer()[..], b"Hi you!!");
    assert_eq!(w.write_bytes(b""), Ok(()));
}
