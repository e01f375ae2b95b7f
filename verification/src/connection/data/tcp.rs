//! TCP data connection code.
//!
//! Every packet is sent as its size, which is two bytes, the most significant
//! first, and its bytes.

use vstd::prelude::*;

use super::MAX_PACKET_SIZE;
use crate::utils::{
    endian,
    error::{IoError, IoErrorKind},
};

verus! {

/// TCP connection which is not yet in use. `S` is the socket.
#[derive(Debug)]
pub struct TcpDataConnectionBuilder<S> {
    pub tcp_stream: S,
    /// Should the socket be in nonblocking mode.
    pub nonblocking: bool,
}

impl<S> TcpDataConnectionBuilder<S> {
    pub fn build_mode_receive(tcp_stream: S) -> (builder: Self)
        ensures
            builder == (Self { tcp_stream, nonblocking: false }),
    {
        Self { tcp_stream, nonblocking: false }
    }

    pub fn build_mode_send(tcp_stream: S) -> (builder: Self)
        ensures
            builder == (Self { tcp_stream, nonblocking: true }),
    {
        Self { tcp_stream, nonblocking: true }
    }

    /// TCP delivers packets in order and without loss.
    pub fn is_reliable_connection(&self) -> (reliable: bool)
        ensures
            reliable,
    {
        true
    }

    pub fn build(self) -> (connection: TcpDataConnection<S>)
        ensures
            connection.tcp_stream == self.tcp_stream,
            connection.is_idle(),
            connection.unsent@.len() == 0,
    {
        TcpDataConnection::new(self.tcp_stream)
    }
}

/// What is sent for one packet.
pub open spec fn packet_frame(packet: Seq<u8>) -> Seq<u8> {
    endian::be16_bytes(packet.len() as int) + packet
}

/// What is sent for packets which follow each other.
pub open spec fn packet_frames(packets: Seq<Seq<u8>>) -> Seq<u8>
    decreases packets.len(),
{
    if packets.len() == 0 {
        Seq::empty()
    } else {
        packet_frame(packets[0]) + packet_frames(packets.drop_first())
    }
}

/// Packet which a receiver with a large enough buffer reads first from `stream`.
pub open spec fn first_packet(stream: Seq<u8>) -> Seq<u8> {
    stream.subrange(2, 2 + endian::be16(stream[0], stream[1]))
}

/// What is left of `stream` after the first packet is read.
pub open spec fn after_first_packet(stream: Seq<u8>) -> Seq<u8> {
    stream.skip(2 + endian::be16(stream[0], stream[1]))
}

/// What happened when a packet was sent.
pub enum TcpSendEvent {
    /// Start sending the packet.
    Start,
    /// `unsent` was written to the socket once, and as many of its first bytes were
    /// taken.
    Written(Result<usize, IoError>),
}

/// What to do next for sending a packet.
pub enum TcpSendStep {
    /// Write `unsent` to the socket.
    Write,
    /// The packet is handled. If there is no error, it is sent, or a part of it is
    /// and the connection keeps the rest.
    Done(Result<(), IoError>),
}

/// TCP data connection.
#[derive(Debug)]
pub struct TcpDataConnection<S> {
    pub tcp_stream: S,
    /// Bytes which are to be written next.
    pub unsent: Vec<u8>,
    /// Do the bytes belong to the packet which is being sent. Otherwise they are the
    /// rest of the previous packet.
    pub packet_started: bool,
}

impl<S> TcpDataConnection<S> {
    pub fn new(tcp_stream: S) -> (connection: Self)
        ensures
            connection.tcp_stream == tcp_stream,
            connection.is_idle(),
            !connection.packet_started,
            connection.unsent@.len() == 0,
    {
        Self { tcp_stream, unsent: Vec::new(), packet_started: false }
    }

    /// TCP delivers packets in order and without loss.
    pub fn is_reliable_connection(&self) -> (reliable: bool)
        ensures
            reliable,
    {
        true
    }

    /// No packet is being sent.
    pub open spec fn is_idle(self) -> bool {
        !self.packet_started
    }

    /// Can the event be handled when `packet` is being sent.
    pub open spec fn accepts(self, packet: Seq<u8>, event: TcpSendEvent) -> bool {
        match event {
            TcpSendEvent::Start => self.is_idle(),
            TcpSendEvent::Written(result) => {
                &&& self.unsent@.len() > 0
                &&& self.packet_started ==> self.unsent@.len() <= packet_frame(packet).len()
                &&& result matches Ok(size) ==> size <= self.unsent@.len()
            },
        }
    }

    /// Is the whole packet still unsent.
    pub open spec fn nothing_sent(self, packet: Seq<u8>) -> bool {
        self.packet_started && self.unsent@.len() == packet_frame(packet).len()
    }

    /// Does an event which happens when `packet` is being sent change the connection
    /// to `after` and lead to `step`.
    pub open spec fn sends(
        self,
        packet: Seq<u8>,
        event: TcpSendEvent,
        after: Self,
        step: TcpSendStep,
    ) -> bool {
        let left = match event {
            TcpSendEvent::Written(Ok(size)) => self.unsent@.skip(size as int),
            _ => self.unsent@,
        };
        &&& after.tcp_stream == self.tcp_stream
        &&& match event {
            TcpSendEvent::Written(Err(e)) => {
                // A packet which has been sent in part is kept.
                let kept = self.packet_started && !self.nothing_sent(packet) && e.kind
                    == IoErrorKind::WouldBlock;
                &&& step == TcpSendStep::Done(
                    if kept {
                        Ok(())
                    } else {
                        Err(e)
                    },
                )
                &&& after.is_idle()
                &&& after.unsent@ == if self.nothing_sent(packet) {
                    Seq::<u8>::empty()
                } else {
                    left
                }
            },
            TcpSendEvent::Written(Ok(0)) => {
                &&& step matches TcpSendStep::Done(Err(e)) && e.kind == IoErrorKind::Other
                &&& after.is_idle()
                &&& after.unsent@ == left
            },
            _ => if left.len() > 0 {
                &&& step == TcpSendStep::Write
                &&& after.packet_started == self.packet_started
                &&& after.unsent@ == left
            } else if self.packet_started {
                &&& step == TcpSendStep::Done(Ok(()))
                &&& after.is_idle()
                &&& after.unsent@ == left
            } else {
                &&& step == TcpSendStep::Write
                &&& after.packet_started
                &&& after.unsent@ == packet_frame(packet)
            },
        }
    }

    /// Handle an event which happens when `packet` is being sent. The rest of the
    /// previous packet is written first. If the socket has room for a part of the
    /// packet, the rest of it is written when the next packet is sent.
    pub fn send_packet_step(&mut self, packet: &[u8], event: TcpSendEvent) -> (step: TcpSendStep)
        requires
            packet@.len() <= MAX_PACKET_SIZE,
            old(self).accepts(packet@, event),
        ensures
            old(self).sends(packet@, event, *final(self), step),
            step is Done ==> final(self).is_idle(),
            step is Write ==> final(self).unsent@.len() > 0,
            final(self).packet_started ==> final(self).unsent@.len() <= packet_frame(packet@).len(),
    {
        match event {
            TcpSendEvent::Start => {},
            TcpSendEvent::Written(Ok(size)) => {
                if size == 0 {
                    self.packet_started = false;
                    assert(self.unsent@.skip(0) =~= self.unsent@);
                    return TcpSendStep::Done(Err(IoError::from_kind(IoErrorKind::Other)));
                }
                let unsent: Vec<u8> = self.unsent.split_off(size);
                assert(unsent@ =~= old(self).unsent@.skip(size as int));
                self.unsent = unsent;
            },
            TcpSendEvent::Written(Err(e)) => {
                let part_sent = self.packet_started && self.unsent.len() < packet.len() + 2;
                if self.packet_started && !part_sent {
                    self.unsent.clear();
                }
                self.packet_started = false;
                return if part_sent && e.kind == IoErrorKind::WouldBlock {
                    TcpSendStep::Done(Ok(()))
                } else {
                    TcpSendStep::Done(Err(e))
                };
            },
        }
        if self.unsent.len() > 0 {
            TcpSendStep::Write
        } else if self.packet_started {
            self.packet_started = false;
            TcpSendStep::Done(Ok(()))
        } else {
            let size_bytes: [u8; 2] = send_packet_size(packet);
            self.unsent.extend_from_slice(size_bytes.as_slice());
            self.unsent.extend_from_slice(packet);
            assert(self.unsent@ =~= packet_frame(packet@));
            self.packet_started = true;
            TcpSendStep::Write
        }
    }

    /// Have packets been sent so that `written` is what was written to the socket.
    /// `packets` are those which were handled without an error. `packet` is the one
    /// which is being sent.
    pub open spec fn has_written(
        self,
        written: Seq<u8>,
        packets: Seq<Seq<u8>>,
        packet: Seq<u8>,
    ) -> bool {
        written + self.unsent@ == packet_frames(packets) + if self.packet_started {
            packet_frame(packet)
        } else {
            Seq::empty()
        }
    }
}

/// What to send before the bytes of the packet.
pub fn send_packet_size(packet: &[u8]) -> (size_bytes: [u8; 2])
    requires
        packet@.len() <= MAX_PACKET_SIZE,
    ensures
        size_bytes@ + packet@ == packet_frame(packet@),
{
    endian::u16_to_be_bytes(packet.len() as u16)
}

/// How many bytes to read to a buffer of `buffer_len` bytes when the received
/// packet size is `size_bytes`.
pub fn recv_packet_size(size_bytes: [u8; 2], buffer_len: usize) -> (size: usize)
    ensures
        size == if endian::be16(size_bytes@[0], size_bytes@[1]) < buffer_len {
            endian::be16(size_bytes@[0], size_bytes@[1])
        } else {
            buffer_len as int
        },
{
    let size: usize = endian::u16_from_be_bytes(size_bytes[0], size_bytes[1]) as usize;
    if size < buffer_len {
        size
    } else {
        buffer_len
    }
}

/// Is it known from the error that the connection is broken.
pub open spec fn is_broken(error: IoErrorKind) -> bool {
    match error {
        IoErrorKind::WouldBlock | IoErrorKind::Other => false,
        _ => true,
    }
}

/// What receiving a packet returns when reading its `size` bytes, or the two bytes
/// of its size, gives `result`. It is zero if the connection is broken.
pub fn recv_packet_result(size: usize, result: Result<(), IoError>) -> (received: Result<
    usize,
    IoError,
>)
    ensures
        received == match result {
            Ok(()) => Ok::<usize, IoError>(size),
            Err(e) => if is_broken(e.kind) {
                Ok(0)
            } else {
                Err(e)
            },
        },
        result matches Err(e) ==> (received is Err <==> e.kind is WouldBlock || e.kind is Other),
{
    match result {
        Ok(()) => Ok(size),
        Err(e) => match e.kind {
            IoErrorKind::WouldBlock | IoErrorKind::Other => Err(e),
            _ => Ok(0),
        },
    }
}

/// What was sent for the last packet comes last.
proof fn lemma_packet_frames_push(packets: Seq<Seq<u8>>, packet: Seq<u8>)
    ensures
        packet_frames(packets.push(packet)) == packet_frames(packets) + packet_frame(packet),
    decreases packets.len(),
{
    let more = packets.push(packet);
    if packets.len() == 0 {
        assert(more.drop_first() =~= packets);
        assert(packet_frames(packets) =~= Seq::<u8>::empty());
        assert(packet_frame(packet) + Seq::<u8>::empty() =~= Seq::<u8>::empty() + packet_frame(
            packet,
        ));
    } else {
        lemma_packet_frames_push(packets.drop_first(), packet);
        assert(more.drop_first() =~= packets.drop_first().push(packet));
        assert(packet_frames(more) =~= packet_frames(packets) + packet_frame(packet));
    }
}

/// What is written to the socket, with what the connection keeps, is always whole
/// frames of the packets which were handled without an error, also when the socket
/// has room for only a part of a packet. A packet which did not fit at all can be
/// sent again later.
pub proof fn law_socket_gets_whole_frames<S>(
    before: TcpDataConnection<S>,
    packet: Seq<u8>,
    event: TcpSendEvent,
    after: TcpDataConnection<S>,
    step: TcpSendStep,
    written: Seq<u8>,
    packets: Seq<Seq<u8>>,
)
    requires
        before.accepts(packet, event),
        before.sends(packet, event, after, step),
        before.has_written(written, packets, packet),
    ensures
        ({
            let new_written = match event {
                TcpSendEvent::Written(Ok(size)) => written + before.unsent@.take(size as int),
                _ => written,
            };
            match step {
                TcpSendStep::Write => after.has_written(new_written, packets, packet),
                TcpSendStep::Done(Ok(())) => after.has_written(
                    new_written,
                    packets.push(packet),
                    packet,
                ),
                TcpSendStep::Done(Err(e)) => e.kind == IoErrorKind::WouldBlock
                    ==> after.has_written(new_written, packets, packet),
            }
        }),
{
    lemma_packet_frames_push(packets, packet);
    let nothing = Seq::<u8>::empty();
    let frames = packet_frames(packets);
    let new_written = match event {
        TcpSendEvent::Written(Ok(size)) => written + before.unsent@.take(size as int),
        _ => written,
    };
    let left = match event {
        TcpSendEvent::Written(Ok(size)) => before.unsent@.skip(size as int),
        _ => before.unsent@,
    };
    assert(new_written + left =~= written + before.unsent@);
    assert(frames + nothing =~= frames);
    assert(packet_frames(packets.push(packet)) + nothing =~= frames + packet_frame(packet));
    if left.len() == 0 {
        assert(new_written + left =~= new_written);
    }
    if before.nothing_sent(packet) {
        assert(written =~= (written + before.unsent@).take(written.len() as int));
        assert(frames =~= (frames + packet_frame(packet)).take(frames.len() as int));
        assert(written + nothing =~= frames);
    }
}

/// A receiver reads back the packets which were sent, one after another.
pub proof fn law_packets_are_read_as_sent(packets: Seq<Seq<u8>>, rest: Seq<u8>)
    requires
        packets.len() > 0,
        packets[0].len() <= MAX_PACKET_SIZE,
    ensures
        ({
            let stream = packet_frames(packets) + rest;
            &&& endian::be16(stream[0], stream[1]) == packets[0].len()
            &&& first_packet(stream) == packets[0]
            &&& after_first_packet(stream) == packet_frames(packets.drop_first()) + rest
        }),
{
    let stream = packet_frames(packets) + rest;
    let frame = packet_frame(packets[0]);
    endian::law_be16_round_trip(packets[0].len() as int);
    assert(stream[0] == endian::be16_bytes(packets[0].len() as int)[0]);
    assert(stream[1] == endian::be16_bytes(packets[0].len() as int)[1]);
    assert(first_packet(stream) =~= packets[0]);
    assert(after_first_packet(stream) =~= packet_frames(packets.drop_first()) + rest);
}

/// Sending goes on until all bytes of the packet are written: the rest of the previous
/// packet first, and then the packet from its start. What the socket takes is removed
/// from the start of what is unsent, and nothing else is.
pub proof fn law_unsent_bytes_are_written_in_order<S>(
    before: TcpDataConnection<S>,
    packet: Seq<u8>,
    event: TcpSendEvent,
    after: TcpDataConnection<S>,
    step: TcpSendStep,
)
    requires
        before.accepts(packet, event),
        before.sends(packet, event, after, step),
        !(event matches TcpSendEvent::Written(Err(_))),
        !(event matches TcpSendEvent::Written(Ok(0))),
    ensures
        ({
            let left = match event {
                TcpSendEvent::Written(Ok(size)) => before.unsent@.skip(size as int),
                _ => before.unsent@,
            };
            &&& after.tcp_stream == before.tcp_stream
            &&& left.len() > 0 ==> {
                &&& step is Write
                &&& after.unsent@ == left
                &&& after.packet_started == before.packet_started
            }
            &&& left.len() == 0 && before.packet_started ==> {
                &&& step matches TcpSendStep::Done(result) && result is Ok
                &&& after.unsent@.len() == 0
                &&& !after.packet_started
            }
            &&& left.len() == 0 && !before.packet_started ==> {
                &&& step is Write
                &&& after.unsent@.len() == packet.len() + 2
                &&& after.unsent@.take(2) == endian::be16_bytes(packet.len() as int)
                &&& after.unsent@.skip(2) == packet
                &&& after.packet_started
            }
        }),
{
    let frame = packet_frame(packet);
    assert(frame.take(2) =~= endian::be16_bytes(packet.len() as int));
    assert(frame.skip(2) =~= packet);
}

/// A socket error is reported as it came, except that a packet which is sent in part is
/// kept when the socket has no more room. A socket which takes nothing is broken. A
/// packet of which nothing is sent is not kept.
pub proof fn law_socket_errors_are_reported<S>(
    before: TcpDataConnection<S>,
    packet: Seq<u8>,
    event: TcpSendEvent,
    after: TcpDataConnection<S>,
    step: TcpSendStep,
)
    requires
        before.accepts(packet, event),
        before.sends(packet, event, after, step),
    ensures
        event matches TcpSendEvent::Written(Err(e)) ==> {
            let part_sent = before.packet_started && before.unsent@.len() < packet.len() + 2;
            &&& after.tcp_stream == before.tcp_stream
            &&& !after.packet_started
            &&& step matches TcpSendStep::Done(result)
            &&& result is Ok <==> part_sent && e.kind is WouldBlock
            &&& result matches Err(reported) ==> reported == e
            &&& before.packet_started && !part_sent ==> after.unsent@.len() == 0
            &&& !before.packet_started || part_sent ==> after.unsent@ == before.unsent@
        },
        event matches TcpSendEvent::Written(Ok(0)) ==> {
            &&& after.tcp_stream == before.tcp_stream
            &&& !after.packet_started
            &&& after.unsent@ == before.unsent@
            &&& step matches TcpSendStep::Done(Err(e))
            &&& e.kind is Other
        },
{
    assert(packet_frame(packet).len() == packet.len() + 2);
    assert(before.unsent@.skip(0) =~= before.unsent@);
}

/// A packet can be started when no packet is being sent. What is written is not empty, and
/// the socket takes no more than that.
pub proof fn law_one_packet_is_sent_at_a_time<S>(
    connection: TcpDataConnection<S>,
    packet: Seq<u8>,
    event: TcpSendEvent,
)
    ensures
        connection.is_idle() <==> !connection.packet_started,
        event is Start ==> (connection.accepts(packet, event) <==> !connection.packet_started),
        event matches TcpSendEvent::Written(result) ==> (connection.accepts(packet, event) <==> {
            &&& connection.unsent@.len() > 0
            &&& connection.packet_started ==> connection.unsent@.len() <= packet.len() + 2
            &&& result matches Ok(size) ==> size <= connection.unsent@.len()
        }),
{
    assert(packet_frame(packet).len() == packet.len() + 2);
}

/// An end of the stream and errors which tell that the other end is gone mean a broken
/// connection. Missing data and unknown errors do not.
pub proof fn law_lost_connection_is_broken(error: IoErrorKind)
    ensures
        is_broken(error) <==> error is UnexpectedEof || error is BrokenPipe || error
            is ConnectionReset || error is ConnectionAborted,
{
}

} // verus!
