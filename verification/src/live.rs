use crate::ident::{is_poll_id_text, poll_id_bytes, PollId};
use crate::models::{Poll, PollView};
use crate::session::{id_set, lemma_id_set_push};
use crate::text::{has_prefix, starts_with};
use vstd::prelude::*;

verus! {

/// The seconds between two keepalive pings on a connection.
pub const KEEPALIVE_SECONDS: u64 = 30;

/// The poll that a text frame asks to join, if it asks for one: the frame is
/// the word `join_poll:` followed by a poll identifier's text.
pub open spec fn join_request(text: Seq<char>) -> Option<Seq<u8>> {
    if has_prefix(text, "join_poll:"@) && is_poll_id_text(text.skip(10)) {
        Some(poll_id_bytes(text.skip(10)))
    } else {
        None
    }
}

/// Reads a text frame as a request to join a poll.
pub fn parse_join(text: &str) -> (r: Option<PollId>)
    ensures
        match r {
            Some(id) => join_request(text@) == Some(id@),
            None => join_request(text@).is_none(),
        },
{
    proof {
        reveal_strlit("join_poll:");
    }
    if !starts_with(text, "join_poll:") {
        return None;
    }
    let n: usize = text.unicode_len();
    let rest = text.substring_char(10, n);
    PollId::parse_str(rest)
}

/// What happens on a connection.
#[derive(Debug)]
pub enum SocketEvent {
    /// The client sent a text frame.
    Text(String),
    /// The client sent a ping.
    Ping(Vec<u8>),
    /// The client sent a frame of another kind.
    Other,
    /// The client closed the connection.
    Close,
    /// Reading from the client failed.
    ReceiveFailed,
    /// The client's stream of frames has ended.
    StreamEnded,
    /// The store answered the fetch of a poll: the poll, or that there is none.
    Fetched(PollId, Option<Poll>),
    /// The store failed to answer a fetch.
    FetchFailed,
    /// The hub published a poll.
    Published(Poll),
    /// The hub dropped polls that this connection was too slow to take.
    Lagged,
    /// The hub has shut down.
    HubClosed,
    /// A poll could not be written as a frame.
    EncodeFailed,
    /// The keepalive interval has passed.
    Tick,
    /// Writing a frame to the client failed.
    SendFailed,
}

/// What the connection's handler does next.
#[derive(Debug)]
pub enum SocketAction {
    /// Fetch the poll from the store and hand back the answer.
    Fetch(PollId),
    /// Send the pong that answers a ping, with the ping's bytes.
    SendPong(Vec<u8>),
    /// Send the poll as a text frame.
    SendPoll(Poll),
    /// Send a ping without bytes.
    SendPing,
    /// Tear the connection down.
    Stop,
    /// Nothing.
    Nothing,
}

/// What an event is.
pub enum EventView {
    Text(Seq<char>),
    Ping(Seq<u8>),
    Other,
    Close,
    ReceiveFailed,
    StreamEnded,
    Fetched(Seq<u8>, Option<PollView>),
    FetchFailed,
    Published(PollView),
    Lagged,
    HubClosed,
    EncodeFailed,
    Tick,
    SendFailed,
}

/// What an action is.
pub enum ActionView {
    Fetch(Seq<u8>),
    SendPong(Seq<u8>),
    SendPoll(PollView),
    SendPing,
    Stop,
    Nothing,
}

impl View for SocketEvent {
    type V = EventView;

    open spec fn view(&self) -> EventView {
        match self {
            SocketEvent::Text(text) => EventView::Text(text@),
            SocketEvent::Ping(bytes) => EventView::Ping(bytes@),
            SocketEvent::Other => EventView::Other,
            SocketEvent::Close => EventView::Close,
            SocketEvent::ReceiveFailed => EventView::ReceiveFailed,
            SocketEvent::StreamEnded => EventView::StreamEnded,
            SocketEvent::Fetched(id, found) => EventView::Fetched(
                id@,
                match found {
                    Some(poll) => Some(poll@),
                    None => None,
                },
            ),
            SocketEvent::FetchFailed => EventView::FetchFailed,
            SocketEvent::Published(poll) => EventView::Published(poll@),
            SocketEvent::Lagged => EventView::Lagged,
            SocketEvent::HubClosed => EventView::HubClosed,
            SocketEvent::EncodeFailed => EventView::EncodeFailed,
            SocketEvent::Tick => EventView::Tick,
            SocketEvent::SendFailed => EventView::SendFailed,
        }
    }
}

impl View for SocketAction {
    type V = ActionView;

    open spec fn view(&self) -> ActionView {
        match self {
            SocketAction::Fetch(id) => ActionView::Fetch(id@),
            SocketAction::SendPong(bytes) => ActionView::SendPong(bytes@),
            SocketAction::SendPoll(poll) => ActionView::SendPoll(poll@),
            SocketAction::SendPing => ActionView::SendPing,
            SocketAction::Stop => ActionView::Stop,
            SocketAction::Nothing => ActionView::Nothing,
        }
    }
}

/// What a connection is: whether it is still up, and the polls that it has
/// joined.
pub struct ConnectionView {
    pub open: bool,
    pub joined: Set<Seq<u8>>,
}

/// The snapshot of a fetched poll: the poll, under the identifier that was
/// asked for.
pub open spec fn snapshot(id: Seq<u8>, poll: PollView) -> PollView {
    poll.under(id)
}

/// Whether a connection forwards a published poll: the poll carries an
/// identifier, and the connection has joined it.
pub open spec fn forwards(connection: ConnectionView, poll: PollView) -> bool {
    poll.id matches Some(id) && connection.joined.contains(id)
}

/// One step of a connection: the connection after an event, and what its
/// handler does. A connection that is down stays down and does nothing but
/// stop. A request to join a poll has the poll fetched; the fetched poll is
/// sent as a snapshot, and with it the connection joins the poll. A ping is
/// answered by a pong. A published poll is sent on if the connection has
/// joined it. Polls that the hub dropped for a slow connection are done
/// without, and so is a poll that could not be written as a frame: the
/// connection goes on. A tick has a ping sent. A close frame, the end of the
/// client's stream, the end of the hub and every failure to read, fetch or
/// send take the connection down.
pub open spec fn step(connection: ConnectionView, event: EventView) -> (ConnectionView, ActionView) {
    if !connection.open {
        (connection, ActionView::Stop)
    } else {
        match event {
            EventView::Text(text) => match join_request(text) {
                Some(id) => (connection, ActionView::Fetch(id)),
                None => (connection, ActionView::Nothing),
            },
            EventView::Ping(bytes) => (connection, ActionView::SendPong(bytes)),
            EventView::Other => (connection, ActionView::Nothing),
            EventView::Fetched(id, Some(poll)) => (
                ConnectionView { joined: connection.joined.insert(id), ..connection },
                ActionView::SendPoll(snapshot(id, poll)),
            ),
            EventView::Fetched(id, None) => (connection, ActionView::Nothing),
            EventView::Published(poll) => if forwards(connection, poll) {
                (connection, ActionView::SendPoll(poll))
            } else {
                (connection, ActionView::Nothing)
            },
            EventView::Lagged | EventView::EncodeFailed => (connection, ActionView::Nothing),
            EventView::Tick => (connection, ActionView::SendPing),
            EventView::Close
            | EventView::ReceiveFailed
            | EventView::StreamEnded
            | EventView::FetchFailed
            | EventView::HubClosed
            | EventView::SendFailed => (
                ConnectionView { open: false, ..connection },
                ActionView::Stop,
            ),
        }
    }
}

/// The state of one connection to a viewer.
#[derive(Debug)]
pub struct Connection {
    open: bool,
    joined: Vec<PollId>,
}

impl View for Connection {
    type V = ConnectionView;

    closed spec fn view(&self) -> ConnectionView {
        ConnectionView { open: self.open, joined: id_set(self.joined@) }
    }
}

impl Connection {
    /// A connection that is up and has joined no poll.
    pub fn new() -> (connection: Connection)
        ensures
            connection@ == (ConnectionView { open: true, joined: Set::empty() }),
    {
        let connection = Connection { open: true, joined: Vec::new() };
        assert(connection@.joined =~= Set::empty());
        connection
    }

    /// Whether the connection is still up.
    pub fn is_open(&self) -> (b: bool)
        ensures
            b == self@.open,
    {
        self.open
    }

    /// Whether the connection has joined a poll.
    pub fn has_joined(&self, id: &PollId) -> (b: bool)
        ensures
            b == self@.joined.contains(id@),
    {
        let mut i: usize = 0;
        while i < self.joined.len()
            invariant
                i <= self.joined.len(),
                forall|j: int| 0 <= j < i ==> (#[trigger] self.joined@[j])@ != id@,
            decreases self.joined.len() - i,
        {
            if self.joined[i].same(id) {
                return true;
            }
            i = i + 1;
        }
        false
    }

    /// Notes that the connection has joined a poll.
    fn join(&mut self, id: PollId)
        ensures
            final(self)@ == (ConnectionView {
                joined: old(self)@.joined.insert(id@),
                ..old(self)@
            }),
    {
        if self.has_joined(&id) {
            assert(self@.joined.insert(id@) =~= self@.joined);
            return ;
        }
        proof {
            lemma_id_set_push(self.joined@, id);
        }
        self.joined.push(id);
    }

    /// Takes one event on the connection and says what its handler does next.
    pub fn handle_socket(&mut self, event: SocketEvent) -> (action: SocketAction)
        ensures
            (final(self)@, action@) == step(old(self)@, event@),
    {
        if !self.open {
            return SocketAction::Stop;
        }
        match event {
            SocketEvent::Text(text) => match parse_join(text.as_str()) {
                Some(id) => SocketAction::Fetch(id),
                None => SocketAction::Nothing,
            },
            SocketEvent::Ping(bytes) => SocketAction::SendPong(bytes),
            SocketEvent::Other => SocketAction::Nothing,
            SocketEvent::Fetched(id, Some(poll)) => {
                self.join(id);
                SocketAction::SendPoll(poll.under(id))
            },
            SocketEvent::Fetched(_, None) => SocketAction::Nothing,
            SocketEvent::Published(poll) => {
                let wanted = match &poll.id {
                    Some(id) => self.has_joined(id),
                    None => false,
                };
                if wanted {
                    SocketAction::SendPoll(poll)
                } else {
                    SocketAction::Nothing
                }
            },
            SocketEvent::Lagged => SocketAction::Nothing,
            SocketEvent::EncodeFailed => SocketAction::Nothing,
            SocketEvent::Tick => SocketAction::SendPing,
            SocketEvent::Close => {
                self.open = false;
                SocketAction::Stop
            },
            SocketEvent::StreamEnded => {
                self.open = false;
                SocketAction::Stop
            },
            SocketEvent::HubClosed => {
                self.open = false;
                SocketAction::Stop
            },
            SocketEvent::ReceiveFailed => {
                self.open = false;
                SocketAction::Stop
            },
            SocketEvent::FetchFailed => {
                self.open = false;
                SocketAction::Stop
            },
            SocketEvent::SendFailed => {
                self.open = false;
                SocketAction::Stop
            },
        }
    }
}

} // verus!
