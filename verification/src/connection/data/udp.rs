//! UDP data connection code.

use vstd::prelude::*;

use crate::{
    config::{DATA_PORT_UDP_RECEIVE, DATA_PORT_UDP_SEND},
    net::{IpAddress, SocketAddress},
    utils::error::IoError,
};

verus! {

#[derive(Debug)]
pub enum UdpError {
    Bind(IoError),
    SetNonblokingCall(IoError),
    Clone(IoError),
    Connect(IoError),
}

/// Where a socket comes from.
#[derive(Debug)]
pub enum UdpSocketSource<S> {
    /// Socket which is already bound.
    Bound(S),
    /// Bind a new socket to this address. An error is `UdpError::Bind`.
    BindTo(SocketAddress),
}

/// Address 127.0.0.1.
pub const LOCALHOST: u32 = 0x7f00_0001;

/// UDP sockets. `S` is a socket.
pub struct UdpManager<S> {
    pub udp_socket_send: Option<S>,
    pub udp_socket_receive: Option<S>,
}

impl<S> UdpManager<S> {
    pub fn new() -> (manager: Self)
        ensures
            manager.udp_socket_send is None,
            manager.udp_socket_receive is None,
    {
        Self { udp_socket_send: None, udp_socket_receive: None }
    }

    /// Take the socket for receiving. Clone it and connect the clone to the
    /// address from `receive_peer_address`. Then call `build_mode_receive`.
    pub fn take_receive_socket(&mut self) -> (source: UdpSocketSource<S>)
        ensures
            source == match old(self).udp_socket_receive {
                Some(socket) => UdpSocketSource::Bound(socket),
                None => UdpSocketSource::BindTo(
                    SocketAddress::from_parts(IpAddress::V4(LOCALHOST), DATA_PORT_UDP_RECEIVE),
                ),
            },
            final(self).udp_socket_receive is None,
            final(self).udp_socket_send == old(self).udp_socket_send,
    {
        match self.udp_socket_receive.take() {
            Some(socket) => UdpSocketSource::Bound(socket),
            None => UdpSocketSource::BindTo(
                SocketAddress::new(IpAddress::V4(LOCALHOST), DATA_PORT_UDP_RECEIVE),
            ),
        }
    }

    /// Address which sends data.
    pub fn receive_peer_address(json_connection_ip: IpAddress) -> (address: SocketAddress)
        ensures
            address == SocketAddress::from_parts(json_connection_ip, DATA_PORT_UDP_SEND),
            address.ip_address() == json_connection_ip,
            address.port_number() == 8082,
    {
        SocketAddress::new(json_connection_ip, DATA_PORT_UDP_SEND)
    }

    /// Keep `udp_socket` for the next receiver if there is a connected clone of
    /// it. Otherwise it is closed.
    pub fn build_mode_receive(
        &mut self,
        udp_socket: S,
        connected: Result<S, UdpError>,
    ) -> (result: Result<UdpDataConnectionBuilder<S>, UdpError>)
        requires
            old(self).udp_socket_receive is None,
        ensures
            final(self).udp_socket_send == old(self).udp_socket_send,
            match connected {
                Ok(socket) => {
                    &&& result == Ok::<UdpDataConnectionBuilder<S>, UdpError>(
                        UdpDataConnectionBuilder { udp_socket: socket, nonblocking: false },
                    )
                    &&& final(self).udp_socket_receive == Some(udp_socket)
                },
                Err(e) => {
                    &&& result == Err::<UdpDataConnectionBuilder<S>, UdpError>(e)
                    &&& final(self).udp_socket_receive is None
                },
            },
    {
        match connected {
            Ok(socket) => {
                self.udp_socket_receive = Some(udp_socket);
                Ok(UdpDataConnectionBuilder::build_mode_receive(socket))
            },
            Err(e) => Err(e),
        }
    }

    /// Take the socket for sending. Clone it and connect the clone to the
    /// address from `send_peer_address`. Then call `build_mode_send`.
    pub fn take_send_socket(&mut self) -> (source: UdpSocketSource<S>)
        ensures
            source == match old(self).udp_socket_send {
                Some(socket) => UdpSocketSource::Bound(socket),
                None => UdpSocketSource::BindTo(
                    SocketAddress::from_parts(IpAddress::V4(LOCALHOST), DATA_PORT_UDP_SEND),
                ),
            },
            final(self).udp_socket_send is None,
            final(self).udp_socket_receive == old(self).udp_socket_receive,
    {
        match self.udp_socket_send.take() {
            Some(socket) => UdpSocketSource::Bound(socket),
            None => UdpSocketSource::BindTo(
                SocketAddress::new(IpAddress::V4(LOCALHOST), DATA_PORT_UDP_SEND),
            ),
        }
    }

    /// Address which receives data.
    pub fn send_peer_address(json_connection_ip: IpAddress) -> (address: SocketAddress)
        ensures
            address == SocketAddress::from_parts(json_connection_ip, DATA_PORT_UDP_RECEIVE),
            address.ip_address() == json_connection_ip,
            address.port_number() == 8083,
    {
        SocketAddress::new(json_connection_ip, DATA_PORT_UDP_RECEIVE)
    }

    /// Keep `udp_socket` for the next sender if there is a connected clone of
    /// it. Otherwise it is closed.
    pub fn build_mode_send(&mut self, udp_socket: S, connected: Result<S, UdpError>) -> (result:
        Result<UdpDataConnectionBuilder<S>, UdpError>)
        requires
            old(self).udp_socket_send is None,
        ensures
            final(self).udp_socket_receive == old(self).udp_socket_receive,
            match connected {
                Ok(socket) => {
                    &&& result == Ok::<UdpDataConnectionBuilder<S>, UdpError>(
                        UdpDataConnectionBuilder { udp_socket: socket, nonblocking: false },
                    )
                    &&& final(self).udp_socket_send == Some(udp_socket)
                },
                Err(e) => {
                    &&& result == Err::<UdpDataConnectionBuilder<S>, UdpError>(e)
                    &&& final(self).udp_socket_send is None
                },
            },
    {
        match connected {
            Ok(socket) => {
                self.udp_socket_send = Some(udp_socket);
                Ok(UdpDataConnectionBuilder::build_mode_send(socket))
            },
            Err(e) => Err(e),
        }
    }
}

/// UDP connection which is not yet in use. `S` is the socket.
#[derive(Debug)]
pub struct UdpDataConnectionBuilder<S> {
    pub udp_socket: S,
    /// Should the socket be in nonblocking mode. An error from setting the mode
    /// is `UdpError::SetNonblokingCall`.
    pub nonblocking: bool,
}

impl<S> UdpDataConnectionBuilder<S> {
    pub fn build_mode_receive(udp_socket: S) -> (builder: Self)
        ensures
            builder == (Self { udp_socket, nonblocking: false }),
    {
        Self { udp_socket, nonblocking: false }
    }

    pub fn build_mode_send(udp_socket: S) -> (builder: Self)
        ensures
            builder == (Self { udp_socket, nonblocking: false }),
    {
        Self { udp_socket, nonblocking: false }
    }

    /// UDP might lose packets and change their order.
    pub fn is_reliable_connection(&self) -> (reliable: bool)
        ensures
            !reliable,
    {
        false
    }

    pub fn build(self) -> (connection: UdpDataConnection<S>)
        ensures
            connection.udp_socket == self.udp_socket,
    {
        UdpDataConnection::new(self.udp_socket)
    }
}

/// UDP data connection. Every packet is sent as one datagram.
#[derive(Debug)]
pub struct UdpDataConnection<S> {
    pub udp_socket: S,
}

impl<S> UdpDataConnection<S> {
    pub fn new(udp_socket: S) -> (connection: Self)
        ensures
            connection.udp_socket == udp_socket,
    {
        Self { udp_socket }
    }

    /// UDP might lose packets and change their order.
    pub fn is_reliable_connection(&self) -> (reliable: bool)
        ensures
            !reliable,
    {
        false
    }
}

} // verus!
