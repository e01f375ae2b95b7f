//! Device data connection.

use vstd::prelude::*;

use crate::{net::SocketAddress, utils::error::IoError};

verus! {

/// Events which `DataConnection` can send. `H` is a handle for sending data to
/// the device.
#[derive(Debug)]
#[allow(inconsistent_fields)]
pub enum DataConnectionEvent<H> {
    TcpListenerBindError(IoError),
    GetPortNumberError(IoError),
    AcceptError(IoError),
    SendConnectionError(IoError),
    /// `DataConnection` is now waiting a new connection to this port.
    PortNumber(u16),
    /// Device is now connected. Use the handle to send data to the device.
    NewConnection(H),
}

/// What to do after a connection was accepted or was not.
pub enum AcceptAction<H> {
    /// Close the connection. It is not from the device.
    Ignore,
    /// Make a handle from the connection and call
    /// `DataConnection::handle_connection`.
    MakeHandle,
    SendEvent(DataConnectionEvent<H>),
}

/// Task for waiting data connection from the device.
pub struct DataConnection {
    pub accept_from: SocketAddress,
    /// There is a connection to close when the task quits.
    pub connected: bool,
}

impl DataConnection {
    pub fn new(accept_from: SocketAddress) -> (connection: Self)
        ensures
            connection.accept_from == accept_from,
            !connection.connected,
    {
        Self { accept_from, connected: false }
    }

    /// Handle the result of binding the listener. If there is an event, send it
    /// and wait for a quit request.
    pub fn handle_bind<H>(result: Result<(), IoError>) -> (event: Option<DataConnectionEvent<H>>)
        ensures
            event == match result {
                Ok(()) => None,
                Err(e) => Some(DataConnectionEvent::<H>::TcpListenerBindError(e)),
            },
    {
        match result {
            Ok(()) => None,
            Err(e) => Some(DataConnectionEvent::TcpListenerBindError(e)),
        }
    }

    /// Handle the port number of the listener. Send the event. If the second
    /// value is false, wait for a quit request.
    pub fn handle_port_number<H>(port: Result<u16, IoError>) -> (event: (
        DataConnectionEvent<H>,
        bool,
    ))
        ensures
            event == match port {
                Ok(port) => (DataConnectionEvent::<H>::PortNumber(port), true),
                Err(e) => (DataConnectionEvent::<H>::GetPortNumberError(e), false),
            },
    {
        match port {
            Ok(port) => (DataConnectionEvent::PortNumber(port), true),
            Err(e) => (DataConnectionEvent::GetPortNumberError(e), false),
        }
    }

    /// Handle an accepted connection. Only connections from the IP address of the
    /// device are used.
    pub fn handle_accept<H>(&self, address: Result<SocketAddress, IoError>) -> (action:
        AcceptAction<H>)
        ensures
            action == match address {
                Ok(address) => if address.ip_address() == self.accept_from.ip_address() {
                    AcceptAction::<H>::MakeHandle
                } else {
                    AcceptAction::Ignore
                },
                Err(e) => AcceptAction::SendEvent(DataConnectionEvent::AcceptError(e)),
            },
    {
        match address {
            Ok(address) => {
                if address.ip() != self.accept_from.ip() {
                    AcceptAction::Ignore
                } else {
                    AcceptAction::MakeHandle
                }
            },
            Err(e) => AcceptAction::SendEvent(DataConnectionEvent::AcceptError(e)),
        }
    }

    /// Handle the result of making a handle from a connection.
    pub fn handle_connection<H>(&mut self, handle: Result<H, IoError>) -> (event:
        DataConnectionEvent<H>)
        ensures
            final(self).accept_from == old(self).accept_from,
            final(self).connected == (old(self).connected || handle is Ok),
            event == match handle {
                Ok(handle) => DataConnectionEvent::NewConnection(handle),
                Err(e) => DataConnectionEvent::SendConnectionError(e),
            },
    {
        match handle {
            Ok(handle) => {
                self.connected = true;
                DataConnectionEvent::NewConnection(handle)
            },
            Err(e) => DataConnectionEvent::SendConnectionError(e),
        }
    }
}

} // verus!
