//! Messages of a JSON connection.
//!
//! A message is sent as its size, which is an `i32` in big endian, and its bytes.

use bytes::BytesMut;

use vstd::prelude::*;

use super::{
    endian,
    error::{IoError, IoErrorKind},
    ReadError, WriteError,
};

verus! {

/// Byte buffer, which is `bytes::BytesMut`.
#[verifier::external_type_specification]
#[verifier::external_body]
pub struct ExBytesMut(BytesMut);

/// Bytes which a buffer holds.
pub uninterp spec fn buffer_bytes(buffer: BytesMut) -> Seq<u8>;

/// `bytes::BytesMut::new` makes a buffer which holds nothing.
pub assume_specification[ BytesMut::new ]() -> (buffer: BytesMut)
    ensures
        buffer_bytes(buffer) == Seq::<u8>::empty(),
;

/// `bytes::BytesMut::len` is the count of bytes which the buffer holds.
pub assume_specification[ BytesMut::len ](buffer: &BytesMut) -> (len: usize)
    ensures
        len == buffer_bytes(*buffer).len(),
;

/// `bytes::BytesMut::clear` removes all bytes.
pub assume_specification[ BytesMut::clear ](buffer: &mut BytesMut)
    ensures
        buffer_bytes(*final(buffer)) == Seq::<u8>::empty(),
;

/// `bytes::BytesMut::extend_from_slice` adds bytes to the end. The size limit
/// keeps the new length from overflowing, on which the call would panic. Running
/// out of memory is not considered.
pub assume_specification[ BytesMut::extend_from_slice ](buffer: &mut BytesMut, extend: &[u8])
    requires
        buffer_bytes(*old(buffer)).len() + extend@.len() <= i32::MAX,
    ensures
        buffer_bytes(*final(buffer)) == buffer_bytes(*old(buffer)) + extend@,
;

/// The bytes which the buffer holds, from `bytes::BytesMut::as_ref`.
#[verifier::external_body]
fn buffer_slice(buffer: &BytesMut) -> (bytes: &[u8])
    ensures
        bytes@ == buffer_bytes(*buffer),
{
    buffer.as_ref()
}

/// What is sent for one message.
pub open spec fn message_frame(message: Seq<u8>) -> Seq<u8> {
    endian::be32_bytes(message.len() as int) + message
}

/// What is sent for messages which follow each other.
pub open spec fn message_frames(messages: Seq<Seq<u8>>) -> Seq<u8>
    decreases messages.len(),
{
    if messages.len() == 0 {
        Seq::empty()
    } else {
        message_frame(messages[0]) + message_frames(messages.drop_first())
    }
}

/// Pieces one after another.
pub open spec fn joined(pieces: Seq<Seq<u8>>) -> Seq<u8>
    decreases pieces.len(),
{
    if pieces.len() == 0 {
        Seq::empty()
    } else {
        joined(pieces.drop_last()) + pieces.last()
    }
}

/// Size bytes to be sent before the bytes of a message. `data` is the serialized
/// message (JSON data), and it is returned too.
pub fn message_size_bytes(data: String) -> (result: Result<([u8; 4], String), WriteError>)
    ensures
        match result {
            Ok((size_bytes, message)) => {
                &&& vstd::utf8::encode_utf8(data@).len() <= i32::MAX
                &&& message == data
                &&& size_bytes@ + vstd::utf8::encode_utf8(data@) == message_frame(vstd::utf8::encode_utf8(data@))
            },
            Err(e) => {
                &&& vstd::utf8::encode_utf8(data@).len() > i32::MAX
                &&& e == WriteError::MessageSize(data)
            },
        },
{
    let len: usize = data.as_str().as_bytes().len();
    if len > 0x7fff_ffff {
        return Err(WriteError::MessageSize(data));
    }
    Ok((endian::u32_to_be_bytes(len as u32), data))
}

/// What to do after bytes were read or were not.
#[derive(Debug, Clone, Copy, PartialEq, Eq, Structural)]
pub enum ReadStep {
    /// Read more bytes.
    Continue,
    /// All bytes of the message are read.
    MessageReady,
}

/// Reads one message.
pub struct MessageReader {
    buffer: BytesMut,
    message_len: u32,
}

impl MessageReader {
    /// Bytes of the message which are read so far.
    pub closed spec fn received(self) -> Seq<u8> {
        buffer_bytes(self.buffer)
    }

    /// How many bytes the message has.
    pub closed spec fn expected_len(self) -> int {
        self.message_len as int
    }

    /// No more bytes are read than the message has, and the size of the message
    /// is not negative as `i32`.
    pub open spec fn wf(self) -> bool {
        self.received().len() <= self.expected_len() <= i32::MAX
    }

    pub fn new() -> (reader: Self)
        ensures
            reader.wf(),
            reader.received() == Seq::<u8>::empty(),
            reader.expected_len() == 0,
    {
        Self { buffer: BytesMut::new(), message_len: 0 }
    }

    /// Start reading a message whose size was just read. Returns the count of
    /// bytes which may be read.
    pub fn start_message(&mut self, message_len: Result<i32, IoError>) -> (result: Result<
        u64,
        ReadError,
    >)
        ensures
            final(self).wf(),
            final(self).received() == Seq::<u8>::empty(),
            match message_len {
                Ok(len) if len >= 0 => {
                    &&& result == Ok::<u64, ReadError>(len as u64)
                    &&& final(self).expected_len() == len
                },
                Ok(len) => {
                    &&& result == Err::<u64, ReadError>(ReadError::MessageSize(len))
                    &&& final(self).expected_len() == 0
                },
                Err(e) => {
                    &&& result == Err::<u64, ReadError>(ReadError::Io(e))
                    &&& final(self).expected_len() == 0
                },
            },
    {
        self.buffer.clear();
        self.message_len = 0;
        match message_len {
            Ok(len) => {
                if len < 0 {
                    return Err(ReadError::MessageSize(len));
                }
                self.message_len = len as u32;
                Ok(len as u64)
            },
            Err(e) => Err(ReadError::Io(e)),
        }
    }

    /// Handle the result of reading bytes. No bytes means that there are no more
    /// bytes to read.
    pub fn handle_read(&mut self, bytes: Result<&[u8], IoError>) -> (result: Result<
        ReadStep,
        ReadError,
    >)
        requires
            old(self).wf(),
            bytes matches Ok(bytes) ==> old(self).received().len() + bytes@.len() <= old(
                self,
            ).expected_len(),
        ensures
            final(self).wf(),
            final(self).expected_len() == old(self).expected_len(),
            match bytes {
                Ok(bytes) if bytes@.len() > 0 => {
                    &&& result == Ok::<ReadStep, ReadError>(ReadStep::Continue)
                    &&& final(self).received() == old(self).received() + bytes@
                },
                Ok(_) => {
                    &&& final(self).received() == old(self).received()
                    &&& if old(self).received().len() == old(self).expected_len() {
                        result == Ok::<ReadStep, ReadError>(ReadStep::MessageReady)
                    } else {
                        result matches Err(ReadError::Io(e)) && e.kind
                            == IoErrorKind::UnexpectedEof
                    }
                },
                Err(e) => {
                    &&& result == Err::<ReadStep, ReadError>(ReadError::Io(e))
                    &&& final(self).received() == old(self).received()
                },
            },
    {
        match bytes {
            Ok(bytes) => {
                if bytes.len() == 0 {
                    if self.buffer.len() == self.message_len as usize {
                        Ok(ReadStep::MessageReady)
                    } else {
                        Err(ReadError::Io(IoError::from_kind(IoErrorKind::UnexpectedEof)))
                    }
                } else {
                    self.buffer.extend_from_slice(bytes);
                    Ok(ReadStep::Continue)
                }
            },
            Err(e) => Err(ReadError::Io(e)),
        }
    }

    /// Bytes of the message.
    pub fn message(&self) -> (message: &[u8])
        ensures
            message@ == self.received(),
    {
        buffer_slice(&self.buffer)
    }
}

/// A message is read as it was written, whatever pieces its bytes arrive in, and
/// the next message starts right after it.
///
/// The size which is read is the size of the message. When `pieces` are the bytes
/// which the size allows to read from the stream, they are together the message.
pub proof fn law_message_is_read_as_written(
    messages: Seq<Seq<u8>>,
    rest: Seq<u8>,
    pieces: Seq<Seq<u8>>,
)
    requires
        messages.len() > 0,
        messages[0].len() <= i32::MAX,
        ({
            let stream = message_frames(messages) + rest;
            joined(pieces) == stream.subrange(4, 4 + endian::be32_signed(stream))
        }),
    ensures
        ({
            let stream = message_frames(messages) + rest;
            &&& endian::be32_signed(stream) == messages[0].len()
            &&& joined(pieces) == messages[0]
            &&& stream.skip(4 + endian::be32_signed(stream)) == message_frames(
                messages.drop_first(),
            ) + rest
        }),
{
    let stream = message_frames(messages) + rest;
    let size_bytes = endian::be32_bytes(messages[0].len() as int);
    endian::law_be32_round_trip(messages[0].len() as int);
    assert(stream[0] == size_bytes[0]);
    assert(stream[1] == size_bytes[1]);
    assert(stream[2] == size_bytes[2]);
    assert(stream[3] == size_bytes[3]);
    assert(stream.subrange(4, 4 + messages[0].len() as int) =~= messages[0]);
    assert(stream.skip(4 + messages[0].len() as int) =~= message_frames(messages.drop_first()) + rest);
}

} // verus!
