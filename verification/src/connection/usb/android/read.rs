//! Reading from a USB accessory.

use vstd::prelude::*;

use super::UsbError;
use crate::{
    connection::{
        data::{usb::UsbDataConnectionSender, DataSenderInterface},
        usb::{
            json::{self, JsonSocketError, JsonWriteStep},
            protocol::{UsbPacket, UsbPacketOutType, USB_PACKET_MAX_DATA_SIZE},
        },
    },
    utils::error::{IoError, IoErrorKind},
};

verus! {

#[derive(Debug)]
#[allow(inconsistent_fields)]
pub enum ReaderError {
    Usb(UsbError),
    JsonTcpDisconnected,
    JsonTcp(IoError),
}

/// Event to the reader thread.
pub enum ReaderEvent {
    ReadAudio(UsbDataConnectionSender<UsbPacket>),
}

/// What to do with a packet.
#[derive(Debug, Clone, Copy, PartialEq, Eq, Structural)]
pub enum ReaderAction {
    Nothing,
    /// Write the data to the JSON stream.
    WriteJson,
    /// Call `ReaderLogic::send_audio`.
    SendAudio,
}

/// Logic of the reader thread.
pub struct ReaderLogic {
    pub audio_sender: Option<UsbDataConnectionSender<UsbPacket>>,
}

impl ReaderLogic {
    pub fn new() -> (logic: Self)
        ensures
            logic.audio_sender is None,
    {
        Self { audio_sender: None }
    }

    /// Handle an event. The new audio connection replaces the previous one.
    pub fn handle_reader_event(&mut self, event: ReaderEvent)
        ensures
            final(self).audio_sender == match event {
                ReaderEvent::ReadAudio(sender) => Some(sender),
            },
    {
        match event {
            ReaderEvent::ReadAudio(sender) => {
                self.audio_sender = Some(sender);
            },
        }
    }

    /// What to do with a packet.
    pub fn handle_packet(packet_type: UsbPacketOutType) -> (action: ReaderAction)
        ensures
            action == match packet_type {
                UsbPacketOutType::Empty => ReaderAction::Nothing,
                UsbPacketOutType::JsonStream => ReaderAction::WriteJson,
                UsbPacketOutType::AudioData => ReaderAction::SendAudio,
                UsbPacketOutType::NextIsWrite => ReaderAction::Nothing,
            },
    {
        match packet_type {
            UsbPacketOutType::Empty => ReaderAction::Nothing,
            UsbPacketOutType::JsonStream => ReaderAction::WriteJson,
            UsbPacketOutType::AudioData => ReaderAction::SendAudio,
            UsbPacketOutType::NextIsWrite => ReaderAction::Nothing,
        }
    }

    /// Handle the result of sending audio. After an error audio is not sent
    /// anymore.
    pub fn handle_audio_result(&mut self, result: Result<(), IoError>)
        ensures
            final(self).audio_sender == if result is Ok {
                old(self).audio_sender
            } else {
                None
            },
    {
        match result {
            Ok(()) => {},
            Err(_) => {
                self.audio_sender = None;
            },
        }
    }

    /// Send audio to the audio connection. Without one the audio is dropped. If the
    /// audio can not be sent, the connection is not used anymore.
    pub fn send_audio(&mut self, data: &[u8])
        requires
            data@.len() <= USB_PACKET_MAX_DATA_SIZE,
        ensures
            match (old(self).audio_sender, final(self).audio_sender) {
                (None, audio_sender) => audio_sender is None,
                (Some(sender), Some(same_sender)) => same_sender == sender && sender.sends(
                    data@,
                    true,
                ),
                (Some(sender), None) => sender.sends(data@, false),
            },
    {
        let result = match &mut self.audio_sender {
            Some(sender) => sender.send_packet(data),
            None => Ok(()),
        };
        self.handle_audio_result(result);
    }

    /// Audio connection which is in use after `event`, if there is one.
    pub open spec fn audio_sender_after(self, event: Option<ReaderEvent>) -> Option<
        UsbDataConnectionSender<UsbPacket>,
    > {
        match event {
            Some(ReaderEvent::ReadAudio(sender)) => Some(sender),
            None => self.audio_sender,
        }
    }

    /// Handle the event which was received, if there was one, and the packet which
    /// was read then. Returns the data to write to the JSON stream, if there is
    /// some.
    pub fn run<'a>(
        &mut self,
        event: Option<ReaderEvent>,
        packet: Result<(UsbPacketOutType, &'a [u8]), UsbError>,
    ) -> (result: Result<Option<&'a [u8]>, ReaderError>)
        requires
            packet matches Ok((_, data)) ==> data@.len() <= USB_PACKET_MAX_DATA_SIZE,
        ensures
            match packet {
                Ok((UsbPacketOutType::AudioData, data)) => match (
                    old(self).audio_sender_after(event),
                    final(self).audio_sender,
                ) {
                    (None, audio_sender) => audio_sender is None,
                    (Some(sender), Some(same_sender)) => same_sender == sender && sender.sends(
                        data@,
                        true,
                    ),
                    (Some(sender), None) => sender.sends(data@, false),
                },
                _ => final(self).audio_sender == old(self).audio_sender_after(event),
            },
            match packet {
                Ok((UsbPacketOutType::JsonStream, data)) => result matches Ok(Some(json))
                    && json@ == data@,
                Ok(_) => result == Ok::<Option<&'a [u8]>, ReaderError>(None),
                Err(e) => result == Err::<Option<&'a [u8]>, _>(ReaderError::Usb(e)),
            },
    {
        match event {
            Some(event) => {
                self.handle_reader_event(event);
            },
            None => {},
        }
        match packet {
            Ok((packet_type, data)) => match Self::handle_packet(packet_type) {
                ReaderAction::Nothing => Ok(None),
                ReaderAction::WriteJson => Ok(Some(data)),
                ReaderAction::SendAudio => {
                    self.send_audio(data);
                    Ok(None)
                },
            },
            Err(e) => Err(ReaderError::Usb(e)),
        }
    }

    /// Handle the result of writing `data` to the JSON stream.
    pub fn handle_json_write<'a>(data: &'a [u8], result: Result<usize, IoError>) -> (step: Result<
        JsonWriteStep<'a>,
        ReaderError,
    >)
        requires
            result matches Ok(count) ==> count <= data@.len(),
        ensures
            match result {
                Ok(count) if count == 0 => step == Err::<JsonWriteStep<'a>, _>(
                    ReaderError::JsonTcpDisconnected,
                ),
                Ok(count) if count == data@.len() => step matches Ok(JsonWriteStep::Done),
                Ok(count) => step matches Ok(JsonWriteStep::Write(rest)) && rest@ == data@.skip(
                    count as int,
                ),
                Err(e) if e.kind == IoErrorKind::WouldBlock => step matches Ok(
                    JsonWriteStep::WaitAndWrite(rest),
                ) && rest@ == data@,
                Err(e) => step == Err::<JsonWriteStep<'a>, _>(ReaderError::JsonTcp(e)),
            },
    {
        match json::handle_json_write(data, result) {
            Ok(step) => Ok(step),
            Err(JsonSocketError::Disconnected) => Err(ReaderError::JsonTcpDisconnected),
            Err(JsonSocketError::Io(e)) => Err(ReaderError::JsonTcp(e)),
        }
    }
}

/// The audio connection which was received last is in use.
pub proof fn law_new_audio_connection_replaces_the_previous(
    logic: ReaderLogic,
    event: Option<ReaderEvent>,
)
    ensures
        event is None ==> logic.audio_sender_after(event) == logic.audio_sender,
        event matches Some(ReaderEvent::ReadAudio(sender)) ==> logic.audio_sender_after(event)
            == Some(sender),
{
}

} // verus!
