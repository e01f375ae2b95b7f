//! USB data connection code.

use std::{
    sync::mpsc::{Receiver, Sender},
    time::Duration,
};

use vstd::prelude::*;

use super::{
    DataReceiverBuilderInterface, DataReceiverInterface, DataSenderBuilderInterface,
    DataSenderInterface,
};
use crate::{
    connection::usb::protocol::{self, UsbPacket, USB_PACKET_MAX_DATA_SIZE},
    utils::{
        channel::{self, ReceiveError},
        endian,
        error::{IoError, IoErrorKind},
    },
};

verus! {

/// Message which can carry a USB packet.
pub trait UsbMessage: Sized {
    /// The packet which the message carries.
    spec fn usb_packet(&self) -> Option<UsbPacket>;

    fn from_usb_packet(packet: UsbPacket) -> (message: Self)
        ensures
            message.usb_packet() == Some(packet),
    ;
}

impl UsbMessage for UsbPacket {
    open spec fn usb_packet(&self) -> Option<UsbPacket> {
        Some(*self)
    }

    fn from_usb_packet(packet: UsbPacket) -> (message: Self)
        ensures
            message == packet,
    {
        packet
    }
}

#[derive(Debug)]
pub struct UsbDataConnectionBuilder;

impl UsbDataConnectionBuilder {
    /// Connection for sending data to USB.
    pub fn build_sender() -> (ends: (UsbDataConnectionSender<UsbPacket>, UsbDataConnectionReceiver))
        ensures
            channel::are_ends(ends.0.sender, ends.1.receiver),
            ends.1.timeout is None,
    {
        let (sender, receiver) = std::sync::mpsc::channel();
        let usb_sender = UsbDataConnectionSender { sender };
        let usb_receiver = UsbDataConnectionReceiver { receiver, timeout: None };
        (usb_sender, usb_receiver)
    }

    /// Connection for receiving data from USB.
    pub fn build_receiver() -> (ends: (
        UsbDataConnectionSender<UsbPacket>,
        UsbDataConnectionReceiver,
    ))
        ensures
            channel::are_ends(ends.0.sender, ends.1.receiver),
            ends.1.timeout is None,
    {
        let (sender, receiver) = std::sync::mpsc::channel();
        let usb_sender = UsbDataConnectionSender { sender };
        let usb_receiver = UsbDataConnectionReceiver { receiver, timeout: None };
        (usb_sender, usb_receiver)
    }
}

/// Sending end of a USB data connection.
#[verifier::reject_recursive_types(P)]
#[derive(Debug)]
pub struct UsbDataConnectionSender<P> {
    pub sender: Sender<P>,
}

impl<P> UsbDataConnectionSender<P> {
    pub fn new(sender: Sender<P>) -> (connection: Self)
        ensures
            connection.sender == sender,
    {
        Self { sender }
    }
}

impl<P: UsbMessage> UsbDataConnectionSender<P> {
    /// Can sending `packet` on this connection succeed, if `sent` is true, or fail,
    /// if it is false. The message for the packet is given to the channel, and the
    /// thread which has the receiving end decides.
    pub open spec fn sends(self, packet: Seq<u8>, sent: bool) -> bool {
        exists|message: P|
            is_packet_message(message, packet) && #[trigger] send_outcome(
                self.sender,
                message,
                sent,
            )
    }
}

/// Can `std::sync::mpsc::Sender::send`, given `message`, succeed, if `sent` is true,
/// or fail, if it is false.
pub closed spec fn send_outcome<P>(sender: Sender<P>, message: P, sent: bool) -> bool {
    call_ensures(channel::send::<P>, (&sender, message), sent)
}

/// Does the message carry a USB packet of the empty type with the data of `packet`.
pub open spec fn is_packet_message<P: UsbMessage>(message: P, packet: Seq<u8>) -> bool {
    &&& message.usb_packet() matches Some(usb_packet)
    &&& usb_packet.payload() == packet
    &&& usb_packet.bytes() == protocol::packet_bytes(
        protocol::USB_EMPTY_PACKET,
        packet,
        protocol::USB_OUT_PACKET_SIZE as nat,
    )
}

/// Message which `UsbDataConnectionSender::send_packet` sends for a packet.
pub fn packet_message<P: UsbMessage>(packet: &[u8]) -> (message: P)
    requires
        packet@.len() <= USB_PACKET_MAX_DATA_SIZE,
    ensures
        is_packet_message(message, packet@),
{
    P::from_usb_packet(UsbPacket::with_data(packet))
}

/// What `UsbDataConnectionSender::send_packet` returns when the message was sent
/// or was not.
pub fn send_result(sent: bool) -> (result: Result<(), IoError>)
    ensures
        result is Ok <==> sent,
        result matches Err(e) ==> e.kind == IoErrorKind::BrokenPipe,
{
    if sent {
        Ok(())
    } else {
        Err(IoError::from_kind(IoErrorKind::BrokenPipe))
    }
}

impl<P: UsbMessage> DataSenderBuilderInterface for UsbDataConnectionSender<P> {
    type Sender = UsbDataConnectionSender<P>;

    open spec fn reliable_builder(&self) -> bool {
        true
    }

    fn is_reliable_connection(&self) -> bool {
        true
    }

    fn build(self) -> (sender: Self::Sender)
        ensures
            sender == self,
    {
        self
    }
}

impl<P: UsbMessage> DataSenderInterface for UsbDataConnectionSender<P> {
    open spec fn reliable_sender(&self) -> bool {
        true
    }

    fn is_reliable_connection(&self) -> bool {
        true
    }

    open spec fn max_packet_size(&self) -> usize {
        USB_PACKET_MAX_DATA_SIZE as usize
    }

    fn packet_size_limit(&self) -> usize {
        USB_PACKET_MAX_DATA_SIZE as usize
    }

    /// The connection stays the same, and the only error is that it is broken.
    open spec fn send_outcome(
        &self,
        packet: Seq<u8>,
        after: &Self,
        result: Result<(), IoError>,
    ) -> bool {
        &&& after == self
        &&& self.sends(packet, result is Ok)
        &&& result matches Err(e) ==> e.kind == IoErrorKind::BrokenPipe
    }

    /// Sends the message which `packet_message` makes and returns what
    /// `send_result` does. Another thread decides whether the message can be sent.
    fn send_packet(&mut self, packet: &[u8]) -> (result: Result<(), IoError>)
        ensures
            *final(self) == *old(self),
            old(self).sends(packet@, result is Ok),
            result matches Err(e) ==> e.kind == IoErrorKind::BrokenPipe,
    {
        let message = packet_message::<P>(packet);
        let sent = channel::send(&self.sender, message);
        assert(send_outcome(self.sender, message, sent));
        send_result(sent)
    }
}

/// Receiving end of a USB data connection.
#[derive(Debug)]
pub struct UsbDataConnectionReceiver {
    pub receiver: Receiver<UsbPacket>,
    pub timeout: Option<Duration>,
}

/// Can `std::sync::mpsc::Receiver::try_recv` give `received`. Threads which have the
/// sending ends decide.
pub closed spec fn try_recv_outcome(
    receiver: Receiver<UsbPacket>,
    received: Result<UsbPacket, ReceiveError>,
) -> bool {
    call_ensures(channel::try_recv::<UsbPacket>, (&receiver,), received)
}

/// Can `std::sync::mpsc::Receiver::recv` give `received`, which is `None` if the
/// connection is broken. Threads which have the sending ends decide.
pub closed spec fn recv_outcome(receiver: Receiver<UsbPacket>, received: Option<UsbPacket>) -> bool {
    call_ensures(channel::recv::<UsbPacket>, (&receiver,), received)
}

/// Can `std::sync::mpsc::Receiver::recv_timeout` with this timeout give `received`.
/// Threads which have the sending ends decide.
pub closed spec fn recv_timeout_outcome(
    receiver: Receiver<UsbPacket>,
    timeout: Duration,
    received: Result<UsbPacket, ReceiveError>,
) -> bool {
    call_ensures(channel::recv_timeout::<UsbPacket>, (&receiver, timeout), received)
}

impl UsbDataConnectionReceiver {
    /// Can waiting for a packet without a timeout give `received`. The only error is
    /// that the connection is broken.
    pub open spec fn receives(self, received: Result<UsbPacket, ReceiveError>) -> bool {
        match received {
            Ok(packet) => recv_outcome(self.receiver, Some(packet)),
            Err(e) => e == ReceiveError::Disconnected && recv_outcome(self.receiver, None),
        }
    }

    /// Can waiting for a packet give `received` when the timeout is in use if it is
    /// set.
    pub open spec fn receives_in_time(self, received: Result<UsbPacket, ReceiveError>) -> bool {
        match self.timeout {
            Some(timeout) => recv_timeout_outcome(self.receiver, timeout, received),
            None => self.receives(received),
        }
    }

    /// Receive a packet without waiting.
    pub fn try_recv(&mut self) -> (result: Result<UsbPacket, ReceiveError>)
        ensures
            *final(self) == *old(self),
            try_recv_outcome(old(self).receiver, result),
    {
        channel::try_recv(&self.receiver)
    }

    /// Wait for a packet. The only error is that the connection is broken.
    pub fn recv(&mut self) -> (result: Result<UsbPacket, ReceiveError>)
        ensures
            *final(self) == *old(self),
            old(self).receives(result),
    {
        recv_result(channel::recv(&self.receiver))
    }
}

/// What `UsbDataConnectionReceiver::recv` returns when it gets a packet or the
/// connection is broken.
pub fn recv_result(received: Option<UsbPacket>) -> (result: Result<UsbPacket, ReceiveError>)
    ensures
        result == match received {
            Some(packet) => Ok::<UsbPacket, ReceiveError>(packet),
            None => Err(ReceiveError::Disconnected),
        },
{
    match received {
        Some(packet) => Ok(packet),
        None => Err(ReceiveError::Disconnected),
    }
}

/// Was what was received given to the caller of
/// `UsbDataConnectionReceiver::recv_packet`, who had `buffer` and gets `new_buffer` and
/// `result`.
pub open spec fn is_delivered(
    received: Result<UsbPacket, ReceiveError>,
    buffer: Seq<u8>,
    new_buffer: Seq<u8>,
    result: Result<usize, IoError>,
) -> bool {
    match received {
        Ok(packet) => {
            let data = packet.payload();
            let copied = if data.len() < buffer.len() {
                data.len()
            } else {
                buffer.len()
            } as int;
            &&& result == Ok::<usize, IoError>(data.len() as usize)
            &&& data.len() <= USB_PACKET_MAX_DATA_SIZE
            &&& new_buffer == data.take(copied) + buffer.skip(copied)
        },
        Err(ReceiveError::Empty) => {
            &&& result matches Err(e) && e.kind == IoErrorKind::WouldBlock
            &&& new_buffer == buffer
        },
        Err(ReceiveError::Disconnected) => {
            &&& result == Ok::<usize, IoError>(0)
            &&& new_buffer == buffer
        },
    }
}

/// Give what was received to the caller of
/// `UsbDataConnectionReceiver::recv_packet`. The returned size is the size of the
/// packet, also when only a part of it fits in the buffer. It is zero if the
/// connection is broken.
pub fn deliver_packet(received: Result<UsbPacket, ReceiveError>, buffer: &mut [u8]) -> (result:
    Result<usize, IoError>)
    ensures
        is_delivered(received, old(buffer)@, final(buffer)@, result),
{
    match received {
        Ok(packet) => {
            let data: &[u8] = packet.data();
            protocol::copy_bytes(data, buffer);
            Ok(data.len())
        },
        Err(ReceiveError::Empty) => Err(IoError::from_kind(IoErrorKind::WouldBlock)),
        Err(ReceiveError::Disconnected) => Ok(0),
    }
}

impl DataReceiverBuilderInterface for UsbDataConnectionReceiver {
    type Receiver = UsbDataConnectionReceiver;

    open spec fn reliable_receiver_builder(&self) -> bool {
        true
    }

    /// The timeout can always be set.
    open spec fn builder_timeout_outcome(
        &self,
        timeout: Option<Duration>,
        after: &Self,
        success: bool,
    ) -> bool {
        success && after.timeout == timeout && after.receiver == self.receiver
    }

    fn is_reliable_connection(&self) -> bool {
        true
    }

    fn set_timeout(&mut self, timeout: Option<Duration>) -> Result<(), IoError> {
        self.timeout = timeout;
        Ok(())
    }

    fn build(self) -> (receiver: Self::Receiver)
        ensures
            receiver == self,
    {
        self
    }
}

impl DataReceiverInterface for UsbDataConnectionReceiver {
    open spec fn reliable_receiver(&self) -> bool {
        true
    }

    /// The timeout can always be set.
    open spec fn timeout_outcome(
        &self,
        timeout: Option<Duration>,
        after: &Self,
        success: bool,
    ) -> bool {
        success && after.timeout == timeout && after.receiver == self.receiver
    }

    fn is_reliable_connection(&self) -> bool {
        true
    }

    fn set_timeout(&mut self, timeout: Option<Duration>) -> Result<(), IoError> {
        self.timeout = timeout;
        Ok(())
    }

    /// Without a timeout this waits until a packet comes or the connection is
    /// broken.
    fn recv_packet(&mut self, buffer: &mut [u8]) -> (result: Result<usize, IoError>)
        ensures
            *final(self) == *old(self),
            exists|received: Result<UsbPacket, ReceiveError>|
                old(self).receives_in_time(received) && #[trigger] is_delivered(
                    received,
                    old(buffer)@,
                    final(buffer)@,
                    result,
                ),
            match result {
                Ok(size) => size <= USB_PACKET_MAX_DATA_SIZE,
                Err(e) => {
                    &&& e.kind == IoErrorKind::WouldBlock
                    &&& old(self).timeout is Some
                    &&& final(buffer)@ == old(buffer)@
                },
            },
    {
        let received = match self.timeout {
            Some(timeout) => channel::recv_timeout(&self.receiver, timeout),
            None => self.recv(),
        };
        deliver_packet(received, buffer)
    }
}

/// A message carries a packet unchanged, as the data of a USB packet which has no type
/// yet.
pub proof fn law_message_carries_the_packet<P: UsbMessage>(message: P, packet: Seq<u8>)
    requires
        packet.len() <= 509,
        is_packet_message(message, packet),
    ensures
        message.usb_packet() matches Some(usb_packet) && {
            &&& usb_packet.payload() == packet
            &&& usb_packet.bytes().len() == 512
            &&& usb_packet.bytes()[0] == 1
            &&& usb_packet.bytes().subrange(1, 3) == endian::be16_bytes(packet.len() as int)
            &&& usb_packet.bytes().subrange(3, 3 + packet.len() as int) == packet
        },
{
    let usb_packet = message.usb_packet()->0;
    let content = protocol::packet_content(1, packet);
    assert(content[0] == 1);
    assert(content.subrange(1, 3) =~= endian::be16_bytes(packet.len() as int));
    assert(content.skip(3) =~= packet);
    assert(usb_packet.bytes().subrange(1, 3) =~= content.subrange(1, 3));
    assert(usb_packet.bytes().subrange(3, 3 + packet.len() as int) =~= content.skip(3));
}

/// A packet which is sent is received as it was, if the buffer has room for it. Otherwise
/// the buffer gets the beginning of the packet, and the size tells of the whole packet.
pub proof fn law_packet_is_received_as_sent<P: UsbMessage>(
    message: P,
    packet: Seq<u8>,
    buffer: Seq<u8>,
    new_buffer: Seq<u8>,
    result: Result<usize, IoError>,
)
    requires
        packet.len() <= 509,
        is_packet_message(message, packet),
        is_delivered(Ok(message.usb_packet()->0), buffer, new_buffer, result),
    ensures
        result matches Ok(size) && size == packet.len(),
        new_buffer.len() == buffer.len(),
        packet.len() <= buffer.len() ==> {
            &&& new_buffer.take(packet.len() as int) == packet
            &&& new_buffer.skip(packet.len() as int) == buffer.skip(packet.len() as int)
        },
        packet.len() > buffer.len() ==> new_buffer == packet.take(buffer.len() as int),
{
    if packet.len() <= buffer.len() {
        assert(new_buffer.take(packet.len() as int) =~= packet);
        assert(new_buffer.skip(packet.len() as int) =~= buffer.skip(packet.len() as int));
    } else {
        assert(new_buffer =~= packet.take(buffer.len() as int));
    }
}

/// The data of any packet which is received is delivered from its start, as far as the
/// buffer has room.
pub proof fn law_packet_data_is_delivered(
    packet: UsbPacket,
    buffer: Seq<u8>,
    new_buffer: Seq<u8>,
    result: Result<usize, IoError>,
)
    requires
        packet.payload().len() <= 509,
        is_delivered(Ok(packet), buffer, new_buffer, result),
    ensures
        result matches Ok(size) && size == packet.payload().len(),
        new_buffer.len() == buffer.len(),
        forall|i: int|
            0 <= i < buffer.len() ==> #[trigger] new_buffer[i] == if i < packet.payload().len() {
                packet.payload()[i]
            } else {
                buffer[i]
            },
{
}

/// When nothing is received, the buffer stays as it is. The caller can try again later if
/// nothing came in time, and a size of zero tells that the connection is broken.
pub proof fn law_broken_connection_has_size_zero(
    error: ReceiveError,
    buffer: Seq<u8>,
    new_buffer: Seq<u8>,
    result: Result<usize, IoError>,
)
    requires
        is_delivered(Err(error), buffer, new_buffer, result),
    ensures
        new_buffer == buffer,
        error is Empty ==> (result matches Err(e) && e.kind is WouldBlock),
        error is Disconnected ==> (result matches Ok(size) && size == 0),
{
}

/// What is received comes from the channel of the connection. Without a timeout the only
/// error is a broken connection, and with one the channel is waited for just that long.
pub proof fn law_receiver_waits_for_its_channel(
    connection: UsbDataConnectionReceiver,
    received: Result<UsbPacket, ReceiveError>,
)
    ensures
        connection.receives(received) ==> match received {
            Ok(packet) => recv_outcome(connection.receiver, Some(packet)),
            Err(e) => e is Disconnected && recv_outcome(connection.receiver, None),
        },
        connection.timeout is None ==> (connection.receives_in_time(received)
            <==> connection.receives(received)),
        connection.timeout matches Some(timeout) ==> (connection.receives_in_time(received)
            <==> recv_timeout_outcome(connection.receiver, timeout, received)),
{
}

/// A USB connection is reliable, sends packets of at most 509 bytes, stays the same when
/// it sends one, and can fail only by breaking.
pub proof fn law_usb_connection_is_reliable<P: UsbMessage>(
    sender: UsbDataConnectionSender<P>,
    packet: Seq<u8>,
    after: UsbDataConnectionSender<P>,
    result: Result<(), IoError>,
)
    ensures
        sender.reliable_builder(),
        sender.reliable_sender(),
        sender.max_packet_size() == 509,
        DataSenderInterface::send_outcome(&sender, packet, &after, result) ==> {
            &&& after == sender
            &&& result matches Err(e) ==> e.kind is BrokenPipe
            &&& exists|message: P|
                is_packet_message(message, packet) && #[trigger] send_outcome(
                    sender.sender,
                    message,
                    result is Ok,
                )
        },
{
}

/// A USB connection receives reliably, and its timeout can always be set. Only the timeout
/// changes then.
pub proof fn law_receiver_timeout_can_be_set(
    connection: UsbDataConnectionReceiver,
    timeout: Option<Duration>,
    after: UsbDataConnectionReceiver,
    success: bool,
)
    ensures
        connection.reliable_receiver_builder(),
        connection.reliable_receiver(),
        connection.builder_timeout_outcome(timeout, &after, success) ==> {
            &&& success
            &&& after.timeout == timeout
            &&& after.receiver == connection.receiver
        },
        connection.timeout_outcome(timeout, &after, success) ==> {
            &&& success
            &&& after.timeout == timeout
            &&& after.receiver == connection.receiver
        },
{
}

/// What sending and receiving give is what the channel of the connection gave.
pub(crate) proof fn law_outcomes_come_from_the_channel<P>(
    sender: Sender<P>,
    message: P,
    sent: bool,
    receiver: Receiver<UsbPacket>,
    timeout: Duration,
    received: Result<UsbPacket, ReceiveError>,
    packet: Option<UsbPacket>,
)
    ensures
        send_outcome(sender, message, sent) ==> call_ensures(
            channel::send::<P>,
            (&sender, message),
            sent,
        ),
        try_recv_outcome(receiver, received) ==> call_ensures(
            channel::try_recv::<UsbPacket>,
            (&receiver,),
            received,
        ),
        recv_outcome(receiver, packet) ==> call_ensures(
            channel::recv::<UsbPacket>,
            (&receiver,),
            packet,
        ),
        recv_timeout_outcome(receiver, timeout, received) ==> call_ensures(
            channel::recv_timeout::<UsbPacket>,
            (&receiver, timeout),
            received,
        ),
{
}

} // verus!
