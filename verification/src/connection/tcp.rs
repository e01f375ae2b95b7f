//! Listening for TCP connections.

use vstd::prelude::*;

use super::CmInternalEvent;
use crate::{net::SocketAddress, utils::error::IoError};

verus! {

#[derive(Debug)]
pub enum ListenerError {
    BindJsonSocket(IoError),
    BindDataSocket(IoError),
    AcceptJsonConnection(IoError),
    AcceptDataConnection(IoError),
}

/// Which socket of `ConnectionListener`.
#[derive(Debug, Clone, Copy, PartialEq, Eq, Structural)]
pub enum ListenerSocket {
    Json,
    Data,
}

/// Listens for JSON and data connections. After an error only a quit request is
/// waited for.
pub struct ConnectionListener {
    pub listening: bool,
}

impl ConnectionListener {
    pub fn new() -> (listener: Self)
        ensures
            listener.listening,
    {
        Self { listening: true }
    }

    /// Handle the result of binding a socket. If there is an event, send it to
    /// the connection manager.
    pub fn handle_bind<J, D>(&mut self, socket: ListenerSocket, result: Result<(), IoError>) -> (event:
        Option<CmInternalEvent<J, D>>)
        ensures
            final(self).listening == (old(self).listening && result is Ok),
            event == match result {
                Ok(()) => None,
                Err(e) => Some(
                    CmInternalEvent::<J, D>::ListenerError(
                        match socket {
                            ListenerSocket::Json => ListenerError::BindJsonSocket(e),
                            ListenerSocket::Data => ListenerError::BindDataSocket(e),
                        },
                    ),
                ),
            },
    {
        match result {
            Ok(()) => None,
            Err(e) => {
                self.listening = false;
                let e = match socket {
                    ListenerSocket::Json => ListenerError::BindJsonSocket(e),
                    ListenerSocket::Data => ListenerError::BindDataSocket(e),
                };
                Some(CmInternalEvent::ListenerError(e))
            },
        }
    }

    /// Handle an accepted JSON connection. Send the event to the connection
    /// manager.
    pub fn handle_json_connection<J, D>(
        &mut self,
        result: Result<(J, SocketAddress), IoError>,
    ) -> (event: CmInternalEvent<J, D>)
        requires
            old(self).listening,
        ensures
            final(self).listening == result is Ok,
            event == match result {
                Ok((stream, address)) => CmInternalEvent::<J, D>::NewJsonStream {
                    stream,
                    address,
                    usb: false,
                },
                Err(e) => CmInternalEvent::ListenerError(ListenerError::AcceptJsonConnection(e)),
            },
    {
        match result {
            Ok((stream, address)) => CmInternalEvent::NewJsonStream { stream, address, usb: false },
            Err(e) => {
                self.listening = false;
                CmInternalEvent::ListenerError(ListenerError::AcceptJsonConnection(e))
            },
        }
    }

    /// Handle an accepted data connection. Send the event to the connection
    /// manager.
    pub fn handle_data_connection<J, D>(
        &mut self,
        result: Result<(D, SocketAddress), IoError>,
    ) -> (event: CmInternalEvent<J, D>)
        requires
            old(self).listening,
        ensures
            final(self).listening == result is Ok,
            event == match result {
                Ok((stream, address)) => CmInternalEvent::<J, D>::NewDataStream(stream, address),
                Err(e) => CmInternalEvent::ListenerError(ListenerError::AcceptDataConnection(e)),
            },
    {
        match result {
            Ok((stream, address)) => CmInternalEvent::NewDataStream(stream, address),
            Err(e) => {
                self.listening = false;
                CmInternalEvent::ListenerError(ListenerError::AcceptDataConnection(e))
            },
        }
    }
}

} // verus!
