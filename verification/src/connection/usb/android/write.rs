//! Writing to a USB accessory.

use vstd::prelude::*;

use super::UsbError;
use crate::{
    connection::{
        data::usb::UsbDataConnectionReceiver,
        usb::{
            json::{self, JsonRead, JsonSocketError},
            protocol::UsbPacketInType,
        },
    },
    utils::error::{IoError, IoErrorKind},
};

verus! {

#[derive(Debug)]
#[allow(inconsistent_fields)]
pub enum WriterError {
    Usb(UsbError),
    JsonTcpDisconnected,
    JsonTcp(IoError),
}

/// Event to the writer thread.
pub enum WriterEvent {
    SendAudio(UsbDataConnectionReceiver),
}

/// Logic of the writer thread.
pub struct WriterLogic;

impl WriterLogic {
    /// Packet to write after the JSON stream was read to `buffer`. When there is
    /// no data, an empty packet is written.
    pub fn handle_json_read<'a>(buffer: &'a [u8], result: Result<usize, IoError>) -> (packet: Result<
        (UsbPacketInType, &'a [u8]),
        WriterError,
    >)
        requires
            result matches Ok(size) ==> size <= buffer@.len(),
        ensures
            match result {
                Ok(size) if size == 0 => packet == Err::<(UsbPacketInType, &'a [u8]), _>(
                    WriterError::JsonTcpDisconnected,
                ),
                Ok(size) => {
                    &&& packet matches Ok((packet_type, data))
                    &&& packet_type == UsbPacketInType::JsonStream
                    &&& data@ == buffer@.take(size as int)
                },
                Err(e) if e.kind == IoErrorKind::WouldBlock => {
                    &&& packet matches Ok((packet_type, data))
                    &&& packet_type == UsbPacketInType::Empty
                    &&& data@.len() == 0
                },
                Err(e) => packet == Err::<(UsbPacketInType, &'a [u8]), _>(WriterError::JsonTcp(e)),
            },
    {
        match json::handle_json_read(buffer, result) {
            Ok(JsonRead::Data(new_data)) => Ok((UsbPacketInType::JsonStream, new_data)),
            Ok(JsonRead::Nothing) => Ok((UsbPacketInType::Empty, &[])),
            Err(JsonSocketError::Disconnected) => Err(WriterError::JsonTcpDisconnected),
            Err(JsonSocketError::Io(e)) => Err(WriterError::JsonTcp(e)),
        }
    }
}

} // verus!
