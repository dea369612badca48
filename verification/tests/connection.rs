use bounded_cache::server::{
    decide, Action, Connection, HeadError, ReadEvent, OK_RESPONSE, READ_BUFFER_SIZE,
};

fn read(connection: &mut Connection, bytes: &[u8]) -> Action {
    connection.on_read(ReadEvent::Read(bytes.to_vec()))
}

fn first_read(bytes: &[u8]) -> Action {
    read(&mut Connection::new(), bytes)
}

#[test]
fn response_text() {
    assert_eq!(OK_RESPONSE, "HTTP/1.1 200 OK\r\nConnection: close\r\n\r\n");
    assert_eq!(READ_BUFFER_SIZE, 2048);
}

#[test]
fn new_connection_has_no_data() {
    let connection = Connection::new();
    assert_eq!(connection.total(), 0);
    assert!(connection.data().is_empty());
}

#[test]
fn decide_follows_the_parse_outcome() {
    assert_eq!(decide(Ok(None)), Action::AwaitReadable);
    assert_eq!(decide(Ok(Some(0))), Action::Respond);
    assert_eq!(decide(Ok(Some(18))), Action::Respond);
    assert_eq!(decide(Err(HeadError::HeaderName)), Action::Reject(HeadError::HeaderName));
    assert_eq!(decide(Err(HeadError::HeaderValue)), Action::Reject(HeadError::HeaderValue));
    assert_eq!(decide(Err(HeadError::NewLine)), Action::Reject(HeadError::NewLine));
    assert_eq!(decide(Err(HeadError::Status)), Action::Reject(HeadError::Status));
    assert_eq!(decide(Err(HeadError::Token)), Action::Reject(HeadError::Token));
    assert_eq!(decide(Err(HeadError::TooManyHeaders)), Action::Reject(HeadError::TooManyHeaders));
    assert_eq!(decide(Err(HeadError::Version)), Action::Reject(HeadError::Version));
}

#[test]
fn empty_read_closes() {
    let mut connection = Connection::new();
    assert_eq!(read(&mut connection, b""), Action::Close);
    assert_eq!(connection.total(), 0);
}

#[test]
fn would_block_waits_and_keeps_the_data() {
    let mut connection = Connection::new();
    assert_eq!(connection.on_read(ReadEvent::WouldBlock), Action::AwaitReadable);
    assert_eq!(connection.total(), 0);
}

#[test]
fn failed_read_aborts() {
    let mut connection = Connection::new();
    assert_eq!(connection.on_read(ReadEvent::Failed), Action::Abort);
    assert_eq!(connection.total(), 0);
}

#[test]
fn complete_head_is_answered() {
    let mut connection = Connection::new();
    let request = b"GET / HTTP/1.1\r\nHost: x\r\n\r\n";
    assert_eq!(read(&mut connection, request), Action::Respond);
    assert_eq!(connection.total(), request.len());
    assert_eq!(connection.data().as_slice(), request);
}

#[test]
fn head_that_fills_the_window_without_ending_waits() {
    let mut bytes = b"GET /".to_vec();
    while bytes.len() < READ_BUFFER_SIZE {
        bytes.push(b'a');
    }
    let mut connection = Connection::new();
    assert_eq!(read(&mut connection, &bytes), Action::AwaitReadable);
    assert_eq!(connection.total(), READ_BUFFER_SIZE);
}

#[test]
fn short_read_is_parsed_with_the_rest_of_the_window() {
    // The window behind the eight bytes read is still zero, so the version
    // cannot be completed.
    assert_eq!(first_read(b"GET / HT"), Action::Reject(HeadError::Version));
}

#[test]
fn later_read_overwrites_the_start_of_the_window() {
    let mut bytes = b"GET /".to_vec();
    while bytes.len() < READ_BUFFER_SIZE {
        bytes.push(b'a');
    }
    let mut connection = Connection::new();
    assert_eq!(read(&mut connection, &bytes), Action::AwaitReadable);
    // The second read lands on top of the first; what follows it in the
    // window is the tail of the first read.
    let second = b"GET /b HTTP/1.1\r\n\r\n";
    assert_eq!(read(&mut connection, second), Action::Respond);
    assert_eq!(connection.total(), READ_BUFFER_SIZE + second.len());
    let mut all = bytes.clone();
    all.extend_from_slice(second);
    assert_eq!(connection.data(), &all);
    // A third, shorter read leaves the end of the second one behind it:
    // the window now starts with `PUT /b HTTP/1.1`, again a complete head.
    assert_eq!(read(&mut connection, b"PUT"), Action::Respond);
    // A single space in front of it spoils the method.
    assert_eq!(read(&mut connection, b" "), Action::Reject(HeadError::Token));
}

#[test]
fn leading_space_is_a_token_error() {
    assert_eq!(first_read(b" GET / HTTP/1.1\r\n\r\n"), Action::Reject(HeadError::Token));
}

#[test]
fn unknown_version_is_a_version_error() {
    assert_eq!(first_read(b"GET / HTTX/1.1\r\n\r\n"), Action::Reject(HeadError::Version));
}

#[test]
fn bare_carriage_return_is_a_new_line_error() {
    assert_eq!(first_read(b"GET / HTTP/1.1\rX"), Action::Reject(HeadError::NewLine));
}

#[test]
fn bad_header_name_is_refused() {
    assert_eq!(
        first_read(b"GET / HTTP/1.1\r\n@: x\r\n\r\n"),
        Action::Reject(HeadError::HeaderName)
    );
}

#[test]
fn bad_header_value_is_refused() {
    assert_eq!(
        first_read(b"GET / HTTP/1.1\r\nA: \x01\r\n\r\n"),
        Action::Reject(HeadError::HeaderValue)
    );
}

#[test]
fn one_header_too_many_is_refused() {
    let mut bytes = b"GET / HTTP/1.1\r\n".to_vec();
    for _ in 0..101 {
        bytes.extend_from_slice(b"a:b\r\n");
    }
    bytes.extend_from_slice(b"\r\n");
    assert_eq!(first_read(&bytes), Action::Reject(HeadError::TooManyHeaders));
}

#[test]
fn a_full_set_of_headers_is_accepted() {
    let mut bytes = b"GET / HTTP/1.1\r\n".to_vec();
    for _ in 0..100 {
        bytes.extend_from_slice(b"a:b\r\n");
    }
    bytes.extend_from_slice(b"\r\n");
    assert_eq!(first_read(&bytes), Action::Respond);
}
