//! Some utility types.

pub mod channel;
pub mod decimal;
pub mod endian;
pub mod error;
pub mod message;

use vstd::prelude::*;

use self::error::IoError;

verus! {

/// Internally used ID number for device connections.
pub type ConnectionId = u64;

/// `Connection` task reading errors.
#[derive(Debug)]
pub enum ReadError {
    Io(IoError),
    Deserialize(String),
    /// Negative message size (-1 or less).
    MessageSize(i32),
}

/// `Connection` task writing errors.
#[derive(Debug)]
pub enum WriteError {
    Io(IoError),
    Serialize(String),
    /// Serialized message byte count does not fit in `i32` data type.
    ///
    /// Returns serialized message (JSON data).
    MessageSize(String),
}

/// Event from `Connection` task.
#[derive(Debug)]
pub enum ConnectionEvent<M> {
    /// Reading error occurred. No new messages will be received or sent. `Connection`
    /// task is waiting quit request.
    ReadError(ConnectionId, ReadError),
    /// Writing error occurred. No new messages will be received or sent. `Connection`
    /// task is waiting quit request.
    WriteError(ConnectionId, WriteError),
    /// New message from connections.
    Message(ConnectionId, M),
}

impl<M> ConnectionEvent<M> {
    /// Is the event `ReadError` or `WriteError`.
    pub open spec fn error_event(self) -> bool {
        self !is Message
    }

    /// Returns true if event is `ReadError` or `WriteError`.
    pub fn is_error(&self) -> (error: bool)
        ensures
            error == self.error_event(),
    {
        match self {
            Self::ReadError(_, _) | Self::WriteError(_, _) => true,
            Self::Message(_, _) => false,
        }
    }
}

/// What happened in `Connection` task. `ReceiveM` is a received message and
/// `SendM` is a message to be sent.
pub enum ConnectionTaskEvent<ReceiveM, SendM> {
    QuitRequest,
    /// There is a message to be sent.
    SendMessage(SendM),
    /// Reading a message is ready.
    ReadingReady(Result<ReceiveM, ReadError>),
    /// Writing messages is not possible.
    WritingFailed(WriteError),
}

/// What `Connection` task asks for.
pub enum ConnectionTaskAction<ReceiveM, SendM> {
    /// Wait for the next event.
    Wait,
    /// Close the task.
    Quit,
    /// Give the message to the writer.
    WriteMessage(SendM),
    /// Send the event to the owner of the connection. If `read_next` is true,
    /// start reading the next message.
    SendEvent { event: ConnectionEvent<ReceiveM>, read_next: bool },
}

/// `Connection` task.
#[derive(Debug, Clone, Copy, PartialEq, Eq, Structural)]
pub struct Connection {
    pub id: ConnectionId,
    /// An error occurred, and only a quit request is waited for.
    pub waiting_quit: bool,
}

impl Connection {
    /// What the task asks for when `event` happens.
    pub open spec fn action<ReceiveM, SendM>(
        self,
        event: ConnectionTaskEvent<ReceiveM, SendM>,
    ) -> ConnectionTaskAction<ReceiveM, SendM> {
        match event {
            ConnectionTaskEvent::QuitRequest => ConnectionTaskAction::Quit,
            _ if self.waiting_quit => ConnectionTaskAction::Wait,
            ConnectionTaskEvent::SendMessage(message) => ConnectionTaskAction::WriteMessage(
                message,
            ),
            ConnectionTaskEvent::ReadingReady(Ok(message)) => ConnectionTaskAction::SendEvent {
                event: ConnectionEvent::Message(self.id, message),
                read_next: true,
            },
            ConnectionTaskEvent::ReadingReady(Err(e)) => ConnectionTaskAction::SendEvent {
                event: ConnectionEvent::ReadError(self.id, e),
                read_next: false,
            },
            ConnectionTaskEvent::WritingFailed(e) => ConnectionTaskAction::SendEvent {
                event: ConnectionEvent::WriteError(self.id, e),
                read_next: false,
            },
        }
    }

    /// State after `event`.
    pub open spec fn after<ReceiveM, SendM>(
        self,
        event: ConnectionTaskEvent<ReceiveM, SendM>,
    ) -> Connection {
        Connection {
            id: self.id,
            waiting_quit: self.waiting_quit || match event {
                ConnectionTaskEvent::ReadingReady(Err(_)) => true,
                ConnectionTaskEvent::WritingFailed(_) => true,
                _ => false,
            },
        }
    }

    pub fn new(id: ConnectionId) -> (connection: Self)
        ensures
            connection.id == id,
            !connection.waiting_quit,
    {
        Self { id, waiting_quit: false }
    }

    /// Get connection id.
    pub fn id(&self) -> (id: ConnectionId)
        ensures
            id == self.id,
    {
        self.id
    }

    /// Handle what happened.
    pub fn connection_task<ReceiveM, SendM>(
        &mut self,
        event: ConnectionTaskEvent<ReceiveM, SendM>,
    ) -> (action: ConnectionTaskAction<ReceiveM, SendM>)
        ensures
            action == old(self).action(event),
            *final(self) == old(self).after(event),
    {
        let id: ConnectionId = self.id;
        let waiting_quit = self.waiting_quit;
        match event {
            ConnectionTaskEvent::QuitRequest => ConnectionTaskAction::Quit,
            ConnectionTaskEvent::SendMessage(message) => {
                if waiting_quit {
                    return ConnectionTaskAction::Wait;
                }
                ConnectionTaskAction::WriteMessage(message)
            },
            ConnectionTaskEvent::ReadingReady(Ok(message)) => {
                if waiting_quit {
                    return ConnectionTaskAction::Wait;
                }
                ConnectionTaskAction::SendEvent {
                    event: ConnectionEvent::Message(id, message),
                    read_next: true,
                }
            },
            ConnectionTaskEvent::ReadingReady(Err(e)) => {
                if waiting_quit {
                    return ConnectionTaskAction::Wait;
                }
                self.waiting_quit = true;
                ConnectionTaskAction::SendEvent {
                    event: ConnectionEvent::ReadError(id, e),
                    read_next: false,
                }
            },
            ConnectionTaskEvent::WritingFailed(e) => {
                if waiting_quit {
                    return ConnectionTaskAction::Wait;
                }
                self.waiting_quit = true;
                ConnectionTaskAction::SendEvent {
                    event: ConnectionEvent::WriteError(id, e),
                    read_next: false,
                }
            },
        }
    }
}

/// After the task has reported an error, it sends and receives nothing more,
/// whatever happens then, and only a quit request closes it.
pub proof fn law_error_is_the_last_event<ReceiveM, SendM>(
    connection: Connection,
    event: ConnectionTaskEvent<ReceiveM, SendM>,
    later_event: ConnectionTaskEvent<ReceiveM, SendM>,
)
    requires
        connection.action(event) matches ConnectionTaskAction::SendEvent { event: reported, .. }
            && reported.error_event(),
    ensures
        connection.after(event).waiting_quit,
        connection.after(event).after(later_event) == connection.after(event),
        connection.after(event).action(later_event) == if later_event is QuitRequest {
            ConnectionTaskAction::<ReceiveM, SendM>::Quit
        } else {
            ConnectionTaskAction::<ReceiveM, SendM>::Wait
        },
{
}

/// Until there is an error, messages pass unchanged in both directions with the ID of
/// the connection, and the next one is read. An error is reported as it came. A quit
/// request always closes the task.
pub proof fn law_messages_pass_until_an_error<ReceiveM, SendM>(
    connection: Connection,
    event: ConnectionTaskEvent<ReceiveM, SendM>,
)
    ensures
        connection.after(event).id == connection.id,
        connection.action(event) is Quit <==> event is QuitRequest,
        connection.waiting_quit && !(event is QuitRequest) ==> connection.action(event) is Wait,
        connection.after(event).waiting_quit <==> connection.waiting_quit || (event
            matches ConnectionTaskEvent::ReadingReady(result) && result is Err) || event
            is WritingFailed,
        !connection.waiting_quit ==> match event {
            ConnectionTaskEvent::QuitRequest => true,
            ConnectionTaskEvent::SendMessage(message) => {
                &&& connection.action(event) matches ConnectionTaskAction::WriteMessage(written)
                &&& written == message
            },
            ConnectionTaskEvent::ReadingReady(Ok(message)) => {
                &&& connection.action(event) matches ConnectionTaskAction::SendEvent {
                    event: ConnectionEvent::Message(id, received),
                    read_next,
                }
                &&& id == connection.id
                &&& received == message
                &&& read_next
            },
            ConnectionTaskEvent::ReadingReady(Err(error)) => {
                &&& connection.action(event) matches ConnectionTaskAction::SendEvent {
                    event: ConnectionEvent::ReadError(id, reported),
                    read_next,
                }
                &&& id == connection.id
                &&& reported == error
                &&& !read_next
            },
            ConnectionTaskEvent::WritingFailed(error) => {
                &&& connection.action(event) matches ConnectionTaskAction::SendEvent {
                    event: ConnectionEvent::WriteError(id, reported),
                    read_next,
                }
                &&& id == connection.id
                &&& reported == error
                &&& !read_next
            },
        },
{
}

/// An event is an error or brings a message, and not both.
pub proof fn law_event_is_an_error_or_a_message<M>(event: ConnectionEvent<M>)
    ensures
        event.error_event() <==> event is ReadError || event is WriteError,
        !event.error_event() <==> event is Message,
{
}

} // verus!
