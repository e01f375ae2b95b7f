//! JSON stream between a USB connection and a TCP socket.

use vstd::prelude::*;

use crate::utils::error::{IoError, IoErrorKind};

verus! {

/// What to do after data was written to the socket or was not.
#[derive(Debug)]
#[allow(inconsistent_fields)]
pub enum JsonWriteStep<'a> {
    /// All data is written.
    Done,
    /// Write this data.
    Write(&'a [u8]),
    /// Wait one millisecond and write the same data.
    WaitAndWrite(&'a [u8]),
}

/// What was read from the socket.
#[derive(Debug)]
#[allow(inconsistent_fields)]
pub enum JsonRead<'a> {
    Data(&'a [u8]),
    /// There is no data now.
    Nothing,
}

/// Error from the socket of the JSON stream.
#[derive(Debug)]
pub enum JsonSocketError {
    Disconnected,
    Io(IoError),
}

/// Handle the result of writing `data` to the socket. No more bytes are written
/// than there are.
pub fn handle_json_write<'a>(data: &'a [u8], result: Result<usize, IoError>) -> (step: Result<
    JsonWriteStep<'a>,
    JsonSocketError,
>)
    requires
        result matches Ok(count) ==> count <= data@.len(),
    ensures
        match result {
            Ok(count) if count == 0 => step == Err::<JsonWriteStep<'a>, _>(
                JsonSocketError::Disconnected,
            ),
            Ok(count) if count == data@.len() => step matches Ok(JsonWriteStep::Done),
            Ok(count) => step matches Ok(JsonWriteStep::Write(rest)) && rest@ == data@.skip(
                count as int,
            ),
            Err(e) if e.kind == IoErrorKind::WouldBlock => step matches Ok(
                JsonWriteStep::WaitAndWrite(rest),
            ) && rest@ == data@,
            Err(e) => step == Err::<JsonWriteStep<'a>, _>(JsonSocketError::Io(e)),
        },
{
    match result {
        Ok(0) => Err(JsonSocketError::Disconnected),
        Ok(count) => {
            let (_, non_written) = data.split_at(count);
            if non_written.len() == 0 {
                Ok(JsonWriteStep::Done)
            } else {
                Ok(JsonWriteStep::Write(non_written))
            }
        },
        Err(e) => {
            if e.kind == IoErrorKind::WouldBlock {
                Ok(JsonWriteStep::WaitAndWrite(data))
            } else {
                Err(JsonSocketError::Io(e))
            }
        },
    }
}

/// Handle the result of reading from the socket to `buffer`.
pub fn handle_json_read<'a>(buffer: &'a [u8], result: Result<usize, IoError>) -> (read: Result<
    JsonRead<'a>,
    JsonSocketError,
>)
    requires
        result matches Ok(size) ==> size <= buffer@.len(),
    ensures
        match result {
            Ok(size) if size == 0 => read == Err::<JsonRead<'a>, _>(JsonSocketError::Disconnected),
            Ok(size) => read matches Ok(JsonRead::Data(data)) && data@ == buffer@.take(size as int),
            Err(e) if e.kind == IoErrorKind::WouldBlock => read matches Ok(JsonRead::Nothing),
            Err(e) => read == Err::<JsonRead<'a>, _>(JsonSocketError::Io(e)),
        },
{
    match result {
        Ok(0) => Err(JsonSocketError::Disconnected),
        Ok(size) => {
            let (new_data, _) = buffer.split_at(size);
            Ok(JsonRead::Data(new_data))
        },
        Err(e) => {
            if e.kind == IoErrorKind::WouldBlock {
                Ok(JsonRead::Nothing)
            } else {
                Err(JsonSocketError::Io(e))
            }
        },
    }
}

} // verus!
