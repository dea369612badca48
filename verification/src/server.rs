//! The decisions taken while a connection is read: what to do after each
//! attempt to read from the socket. The socket itself is driven by the
//! caller, which reports each attempt and carries out the answer.

use crate::utils::MAX_HEADER_SIZE;
use vstd::prelude::*;

verus! {

/// Size of the window that each read fills from its start.
pub const READ_BUFFER_SIZE: usize = 2048;

/// The answer sent once a complete request head has arrived.
pub const OK_RESPONSE: &'static str = "HTTP/1.1 200 OK\r\nConnection: close\r\n\r\n";

/// Why a request head was refused.
#[derive(Debug, Clone, Copy, PartialEq, Eq, Structural)]
pub enum HeadError {
    HeaderName,
    HeaderValue,
    NewLine,
    Status,
    Token,
    TooManyHeaders,
    Version,
}

/// What one attempt to read from the socket gave.
#[derive(Debug)]
pub enum ReadEvent {
    /// The read returned these bytes; none at all means the peer is done.
    Read(Vec<u8>),
    /// Nothing to read yet.
    WouldBlock,
    /// The read failed for another reason.
    Failed,
}

/// What the caller is to do next.
#[derive(Debug, Clone, Copy, PartialEq, Eq, Structural)]
pub enum Action {
    /// Wait until the socket is readable and read again.
    AwaitReadable,
    /// Send `OK_RESPONSE` and finish.
    Respond,
    /// Finish without sending anything.
    Close,
    /// Give up with a parse error.
    Reject(HeadError),
    /// Give up with the error that the read reported.
    Abort,
}

/// What `httparse` makes of `buf` as the head of a request when it has
/// `max_headers` header slots to fill: the offset at which the body starts,
/// nothing yet if the head is incomplete, or the reason for refusing it.
pub uninterp spec fn parsed_head(buf: Seq<u8>, max_headers: usize) -> Result<Option<usize>, HeadError>;

/// `httparse::Request::parse`, run on `buf` with a fresh set of
/// `max_headers` empty header slots. The outcome depends on nothing but
/// these two and is carried over variant by variant; the number of slots is
/// bounded so that allocating them cannot fail on their count alone.
#[verifier::external_body]
pub(crate) fn parse_head(buf: &[u8], max_headers: usize) -> (head: Result<Option<usize>, HeadError>)
    requires
        max_headers <= MAX_HEADER_SIZE,
    ensures
        head == parsed_head(buf@, max_headers),
{
    let mut headers = vec![httparse::EMPTY_HEADER; max_headers];
    match httparse::Request::new(&mut headers).parse(buf) {
        Ok(httparse::Status::Complete(offset)) => Ok(Some(offset)),
        Ok(httparse::Status::Partial) => Ok(None),
        Err(httparse::Error::HeaderName) => Err(HeadError::HeaderName),
        Err(httparse::Error::HeaderValue) => Err(HeadError::HeaderValue),
        Err(httparse::Error::NewLine) => Err(HeadError::NewLine),
        Err(httparse::Error::Status) => Err(HeadError::Status),
        Err(httparse::Error::Token) => Err(HeadError::Token),
        Err(httparse::Error::TooManyHeaders) => Err(HeadError::TooManyHeaders),
        Err(httparse::Error::Version) => Err(HeadError::Version),
    }
}

/// The action that a parse outcome calls for.
pub open spec fn verdict(head: Result<Option<usize>, HeadError>) -> Action {
    match head {
        Ok(None) => Action::AwaitReadable,
        Ok(Some(_)) => Action::Respond,
        Err(reason) => Action::Reject(reason),
    }
}

/// Decides on a parse outcome: an incomplete head waits for more input, a
/// complete one is answered, a malformed one ends the connection.
pub fn decide(head: Result<Option<usize>, HeadError>) -> (action: Action)
    ensures
        action == verdict(head),
{
    match head {
        Ok(None) => Action::AwaitReadable,
        Ok(Some(_)) => Action::Respond,
        Err(reason) => Action::Reject(reason),
    }
}

/// A connection as contracts see it.
pub struct ConnectionState {
    /// Every byte received so far, in order.
    pub data: Seq<u8>,
    /// The read window: the latest read at its start, older bytes behind.
    pub window: Seq<u8>,
}

impl ConnectionState {
    /// The window has its fixed size.
    pub open spec fn wf(self) -> bool {
        self.window.len() == READ_BUFFER_SIZE
    }

    /// A connection on which nothing has been read: no data, a window of
    /// zeros.
    pub open spec fn fresh() -> ConnectionState {
        ConnectionState { data: Seq::empty(), window: Seq::new(READ_BUFFER_SIZE as nat, |i: int| 0u8) }
    }

    /// The state after `chunk` has been read: it is appended to the data
    /// and overwrites the start of the window.
    pub open spec fn received(self, chunk: Seq<u8>) -> ConnectionState {
        ConnectionState {
            data: self.data + chunk,
            window: chunk + self.window.subrange(chunk.len() as int, self.window.len() as int),
        }
    }

    /// State and action after a read attempt. An empty read closes the
    /// connection; a read with bytes is recorded, and the whole window is
    /// then parsed as a request head; a read that would block is retried;
    /// any other failure ends the connection.
    pub open spec fn step(self, event: ReadEvent) -> (ConnectionState, Action) {
        match event {
            ReadEvent::Read(chunk) => if chunk@.len() == 0 {
                (self, Action::Close)
            } else {
                (
                    self.received(chunk@),
                    verdict(parsed_head(self.received(chunk@).window, MAX_HEADER_SIZE)),
                )
            },
            ReadEvent::WouldBlock => (self, Action::AwaitReadable),
            ReadEvent::Failed => (self, Action::Abort),
        }
    }
}

/// The reading side of one connection.
#[derive(Debug)]
pub struct Connection {
    data: Vec<u8>,
    window: Vec<u8>,
}

impl View for Connection {
    type V = ConnectionState;

    closed spec fn view(&self) -> ConnectionState {
        ConnectionState { data: self.data@, window: self.window@ }
    }
}

impl Connection {
    /// A connection on which nothing has been read yet.
    pub fn new() -> (connection: Connection)
        ensures
            connection@ == ConnectionState::fresh(),
            connection@.wf(),
    {
        let mut window: Vec<u8> = Vec::new();
        let mut i: usize = 0;
        while i < READ_BUFFER_SIZE
            invariant
                i <= READ_BUFFER_SIZE,
                window@.len() == i,
                forall|j: int| 0 <= j < i ==> window@[j] == 0u8,
            decreases READ_BUFFER_SIZE - i,
        {
            window.push(0u8);
            i = i + 1;
        }
        assert(window@ =~= ConnectionState::fresh().window);
        Connection { data: Vec::new(), window }
    }

    /// Number of bytes received so far.
    pub fn total(&self) -> (total: usize)
        ensures
            total == self@.data.len(),
    {
        self.data.len()
    }

    /// Every byte received so far.
    pub fn data(&self) -> (data: &Vec<u8>)
        ensures
            data@ == self@.data,
    {
        &self.data
    }

    /// Takes note of a read attempt and says what to do next.
    pub fn on_read(&mut self, event: ReadEvent) -> (action: Action)
        requires
            old(self)@.wf(),
            event matches ReadEvent::Read(chunk) ==> chunk@.len() <= READ_BUFFER_SIZE,
        ensures
            final(self)@.wf(),
            (final(self)@, action) == old(self)@.step(event),
    {
        match event {
            ReadEvent::Read(chunk) => {
                let n = chunk.len();
                if n == 0 {
                    return Action::Close;
                }
                let mut i: usize = 0;
                while i < n
                    invariant
                        i <= n,
                        n == chunk@.len(),
                        n <= READ_BUFFER_SIZE,
                        self.data@ == old(self).data@ + chunk@.take(i as int),
                        self.window@.len() == READ_BUFFER_SIZE,
                        forall|j: int| 0 <= j < i ==> self.window@[j] == chunk@[j],
                        forall|j: int|
                            i <= j < READ_BUFFER_SIZE ==> self.window@[j] == old(self).window@[j],
                    decreases n - i,
                {
                    let byte = chunk[i];
                    self.data.push(byte);
                    self.window.set(i, byte);
                    assert(chunk@.take(i + 1) =~= chunk@.take(i as int).push(byte));
                    i = i + 1;
                }
                assert(chunk@.take(n as int) =~= chunk@);
                assert(self.window@ =~= old(self)@.received(chunk@).window);
                decide(parse_head(self.window.as_slice(), MAX_HEADER_SIZE))
            },
            ReadEvent::WouldBlock => Action::AwaitReadable,
            ReadEvent::Failed => Action::Abort,
        }
    }
}

} // verus!
