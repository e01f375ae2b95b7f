//! Data connection

pub mod tcp;
pub mod udp;
pub mod usb;

use std::time::Duration;

use vstd::prelude::*;

use crate::utils::error::IoError;

verus! {

pub const MAX_PACKET_SIZE: usize = 65_507;

/// Bytes of a packet in a specification.
pub type PacketBytes = Seq<u8>;

/// Data connection which is not yet in use and will send packets.
pub trait DataSenderBuilderInterface: Sized {
    type Sender: DataSenderInterface;

    spec fn reliable_builder(&self) -> bool;

    /// Are packets delivered in order and without loss.
    fn is_reliable_connection(&self) -> (reliable: bool)
        ensures
            reliable == self.reliable_builder(),
    ;

    fn build(self) -> (sender: Self::Sender)
        ensures
            sender.reliable_sender() == self.reliable_builder(),
    ;
}

/// Data connection which is not yet in use and will receive packets.
pub trait DataReceiverBuilderInterface: Sized {
    type Receiver: DataReceiverInterface;

    spec fn reliable_receiver_builder(&self) -> bool;

    /// Can setting the timeout lead from this connection to `after`, with a
    /// success or an error.
    spec fn builder_timeout_outcome(
        &self,
        timeout: Option<Duration>,
        after: &Self,
        success: bool,
    ) -> bool;

    /// Are packets delivered in order and without loss.
    fn is_reliable_connection(&self) -> (reliable: bool)
        ensures
            reliable == self.reliable_receiver_builder(),
    ;

    fn set_timeout(&mut self, timeout: Option<Duration>) -> (result: Result<(), IoError>)
        ensures
            final(self).reliable_receiver_builder() == old(self).reliable_receiver_builder(),
            old(self).builder_timeout_outcome(timeout, final(self), result is Ok),
    ;

    fn build(self) -> (receiver: Self::Receiver)
        ensures
            receiver.reliable_receiver() == self.reliable_receiver_builder(),
    ;
}

pub trait DataSenderInterface {
    spec fn reliable_sender(&self) -> bool;

    /// Are packets delivered in order and without loss.
    fn is_reliable_connection(&self) -> (reliable: bool)
        ensures
            reliable == self.reliable_sender(),
    ;

    /// The longest packet which can be sent.
    spec fn max_packet_size(&self) -> usize;

    /// The longest packet which can be sent.
    fn packet_size_limit(&self) -> (size: usize)
        ensures
            size == self.max_packet_size(),
    ;

    /// Can sending `packet` lead from this connection to `after` and give `result`.
    spec fn send_outcome(
        &self,
        packet: PacketBytes,
        after: &Self,
        result: Result<(), IoError>,
    ) -> bool;

    /// Max packet length is 65 507 bytes (max packet length with IPv4 and UDP).
    ///
    /// If underlying data transfer method is USB then the max packet length is
    /// `USB_PACKET_MAX_DATA_SIZE`.
    ///
    /// Data sending might fail if underlying connection can detect disconnects.
    ///
    /// This might return `IoErrorKind::WouldBlock` if underlying buffer is full.
    fn send_packet(&mut self, packet: &[u8]) -> (result: Result<(), IoError>)
        requires
            packet@.len() <= old(self).max_packet_size(),
        ensures
            final(self).reliable_sender() == old(self).reliable_sender(),
            final(self).max_packet_size() == old(self).max_packet_size(),
            old(self).send_outcome(packet@, final(self), result),
    ;
}

pub trait DataReceiverInterface {
    spec fn reliable_receiver(&self) -> bool;

    /// Can setting the timeout lead from this connection to `after`, with a
    /// success or an error.
    spec fn timeout_outcome(&self, timeout: Option<Duration>, after: &Self, success: bool) -> bool;

    /// Are packets delivered in order and without loss.
    fn is_reliable_connection(&self) -> (reliable: bool)
        ensures
            reliable == self.reliable_receiver(),
    ;

    fn set_timeout(&mut self, timeout: Option<Duration>) -> (result: Result<(), IoError>)
        ensures
            final(self).reliable_receiver() == old(self).reliable_receiver(),
            old(self).timeout_outcome(timeout, final(self), result is Ok),
    ;

    /// Max packet length is 65 507 bytes (max packet length with IPv4 and UDP).
    ///
    /// If underlying data transfer method is USB then the max packet length is
    /// `USB_PACKET_MAX_DATA_SIZE`.
    ///
    /// Data receiving might fail if underlying connection can detect disconnects.
    ///
    /// Returns `IoErrorKind::WouldBlock` if timeout is set.
    /// Returns `Ok(0)` if connection is broken and it can be detected.
    fn recv_packet(&mut self, buffer: &mut [u8]) -> (result: Result<usize, IoError>)
        ensures
            final(self).reliable_receiver() == old(self).reliable_receiver(),
            final(buffer)@.len() == old(buffer)@.len(),
    ;
}

/// Receiver which never has anything to receive.
#[derive(Debug)]
pub struct EmptyReceiver;

impl DataReceiverBuilderInterface for EmptyReceiver {
    type Receiver = EmptyReceiver;

    open spec fn reliable_receiver_builder(&self) -> bool {
        false
    }

    /// The timeout can always be set, and changes nothing.
    open spec fn builder_timeout_outcome(
        &self,
        timeout: Option<Duration>,
        after: &Self,
        success: bool,
    ) -> bool {
        success && after == self
    }

    fn is_reliable_connection(&self) -> bool {
        false
    }

    fn set_timeout(&mut self, timeout: Option<Duration>) -> Result<(), IoError> {
        Ok(())
    }

    fn build(self) -> (receiver: Self::Receiver)
        ensures
            receiver == self,
    {
        self
    }
}

impl DataReceiverInterface for EmptyReceiver {
    open spec fn reliable_receiver(&self) -> bool {
        false
    }

    /// The timeout can always be set, and changes nothing.
    open spec fn timeout_outcome(
        &self,
        timeout: Option<Duration>,
        after: &Self,
        success: bool,
    ) -> bool {
        success && after == self
    }

    fn is_reliable_connection(&self) -> bool {
        false
    }

    fn set_timeout(&mut self, timeout: Option<Duration>) -> Result<(), IoError> {
        Ok(())
    }

    fn recv_packet(&mut self, buffer: &mut [u8]) -> (result: Result<usize, IoError>)
        ensures
            result == Ok::<usize, IoError>(0),
            final(buffer)@ == old(buffer)@,
    {
        Ok(0)
    }
}

/// A receiver which has nothing to receive is not reliable, and its timeout can always be
/// set, which changes nothing.
pub proof fn law_empty_receiver_stays_the_same(
    receiver: EmptyReceiver,
    timeout: Option<Duration>,
    after: EmptyReceiver,
    success: bool,
)
    ensures
        !receiver.reliable_receiver_builder(),
        !receiver.reliable_receiver(),
        receiver.builder_timeout_outcome(timeout, &after, success) ==> success && after == receiver,
        receiver.timeout_outcome(timeout, &after, success) ==> success && after == receiver,
{
}

} // verus!
