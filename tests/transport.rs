use fn_gateway::transport::{Action, Exchange, MessageReader, Phase, TransportError, CHUNK_SIZE};

fn read_all(data: &[u8]) -> (usize, Vec<u8>) {
    let mut reader = MessageReader::new();
    let mut at = 0;
    loop {
        let end = std::cmp::min(at + CHUNK_SIZE, data.len());
        let more = reader.push_chunk(&data[at..end]);
        at = end;
        if !more {
            break;
        }
    }
    reader.finish()
}

#[test]
fn read_all_returns_exactly_what_was_sent() {
    for n in [0usize, 1, 127, 128, 129, 256, 300, 1000] {
        let data: Vec<u8> = (0..n).map(|i| (i % 251) as u8).collect();
        let (total, out) = read_all(&data);
        assert_eq!(total, n);
        assert_eq!(out, data);
    }
}

#[test]
fn short_read_ends_the_message() {
    let mut reader = MessageReader::new();
    assert!(reader.push_chunk(&[7u8; 128]));
    assert!(!reader.is_finished());
    assert!(!reader.push_chunk(&[1, 2, 3]));
    assert!(reader.is_finished());
    let (n, out) = reader.finish();
    assert_eq!(n, 131);
    assert_eq!(&out[128..], &[1, 2, 3]);
}

#[test]
fn exchange_runs_connect_write_read_close() {
    let mut ex = Exchange::new(b"request".to_vec());
    assert_eq!(ex.next_action(), Action::Connect);
    ex.on_connect(true).unwrap();
    assert_eq!(ex.next_action(), Action::PollWrite(2500));
    ex.on_poll(1).unwrap();
    assert_eq!(ex.next_action(), Action::Write(0));
    ex.on_write(Some(3)).unwrap();
    assert_eq!(ex.next_action(), Action::Write(3));
    assert_eq!(ex.pending(), b"uest");
    ex.on_write(Some(4)).unwrap();
    assert_eq!(ex.next_action(), Action::PollRead(2500));
    ex.on_poll(1).unwrap();
    assert_eq!(ex.next_action(), Action::Read(128));
    let full = [b'a'; 128];
    ex.on_read(Some(&full[..])).unwrap();
    assert_eq!(ex.phase(), Phase::Reading);
    ex.on_read(Some(&b"end"[..])).unwrap();
    assert_eq!(ex.next_action(), Action::Close);
    let (n, reply) = ex.on_close(true).unwrap();
    assert_eq!(n, 131);
    assert_eq!(&reply[128..], b"end");
}

#[test]
fn poll_timeout_fails_the_exchange() {
    let mut ex = Exchange::new(b"x".to_vec());
    ex.on_connect(true).unwrap();
    assert_eq!(ex.on_poll(0), Err(TransportError::PollTimeout));
    assert_eq!(ex.phase(), Phase::Failed(TransportError::PollTimeout));
    assert_eq!(ex.next_action(), Action::Close);
    assert_eq!(ex.on_close(true), Err(TransportError::PollTimeout));
}

#[test]
fn failures_of_each_step() {
    let mut ex = Exchange::new(b"x".to_vec());
    assert_eq!(ex.on_connect(false), Err(TransportError::ConnectError));
    assert_eq!(ex.next_action(), Action::Close);
    assert_eq!(ex.on_close(false), Err(TransportError::ConnectError));

    let mut ex = Exchange::new(b"xy".to_vec());
    ex.on_connect(true).unwrap();
    assert_eq!(ex.on_poll(-1), Err(TransportError::PollError));

    let mut ex = Exchange::new(b"xy".to_vec());
    ex.on_connect(true).unwrap();
    ex.on_poll(1).unwrap();
    assert_eq!(ex.on_write(Some(0)), Err(TransportError::WriteError));

    let mut ex = Exchange::new(b"xy".to_vec());
    ex.on_connect(true).unwrap();
    ex.on_poll(1).unwrap();
    assert_eq!(ex.on_write(Some(3)), Err(TransportError::WriteError));

    let mut ex = Exchange::new(b"xy".to_vec());
    ex.on_connect(true).unwrap();
    ex.on_poll(1).unwrap();
    ex.on_write(Some(2)).unwrap();
    ex.on_poll(1).unwrap();
    assert_eq!(ex.on_read(None), Err(TransportError::ReadError));

    let mut ex = Exchange::new(b"xy".to_vec());
    ex.on_connect(true).unwrap();
    ex.on_poll(1).unwrap();
    ex.on_write(Some(2)).unwrap();
    ex.on_poll(1).unwrap();
    ex.on_read(Some(&b""[..])).unwrap();
    assert_eq!(ex.on_close(false), Err(TransportError::CloseError));
}

#[test]
fn transport_errors_have_messages() {
    assert_eq!(TransportError::PollTimeout.message(), "Failed to become ready in time");
    assert_eq!(TransportError::ConnectError.message(), "Failed to connect to socket");
}
