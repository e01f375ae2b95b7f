//! Libusb code

pub mod accessory;
pub mod android;

use std::sync::mpsc::{Receiver, Sender};

use vstd::prelude::*;

use super::{
    json::{self, JsonRead, JsonSocketError, JsonWriteStep},
    protocol::{UsbPacket, UsbPacketInType, UsbPacketOutType, USB_PACKET_MAX_DATA_SIZE},
    UsbEvent,
};
use crate::{
    connection::data::{
        usb::{UsbDataConnectionSender, UsbMessage},
        EmptyReceiver,
    },
    utils::{channel, endian, error::IoError},
};

verus! {

/// Error from libusb, which is `rusb::Error`.
#[verifier::external_type_specification]
#[verifier::external_body]
pub struct ExRusbError(rusb::Error);

/// Vendors of known Android devices: Nokia 2.2 and OnePlus 5.
pub open spec fn is_known_android_vendor(vendor_id: u16) -> bool {
    vendor_id == 0x0e8d || vendor_id == 0x2a70
}

/// Timeout for USB transfers in milliseconds.
pub const USB_TIMEOUT_MILLIS: u64 = 500;

/// How often USB devices are polled in nanoseconds.
pub const POLL_INTERVAL_NANOS: u64 = 2_000_000_000;

#[derive(Debug)]
#[allow(inconsistent_fields)]
pub enum UsbError {
    ReadControlFailed(rusb::Error),
    WriteControlFailed(rusb::Error),
    AndroidStartAccessoryModeUnexpectedWriteResult(usize),
    DeviceIterationFailed(rusb::Error),
    DeviceDescriptorRequestFailed(rusb::Error),
    DeviceOpenFailed(rusb::Error),
    GetConfigurationFailed(rusb::Error),
    SetConfigurationFailed(rusb::Error),
    GetConfigDescriptorFailed(rusb::Error),
    UnsupportedEndpointMaxPacketSize(u16),
    ClaimInterfaceFailed(rusb::Error),
    ReadBulkFailed(rusb::Error),
    ReadBulkByteCount { expected: usize, was: usize },
    WriteBulkFailed(rusb::Error),
    WriteBulkByteCount { expected: usize, was: usize },
    UnknownInPacket(u8),
}

/// Event to `LibUsbLogic`.
#[derive(Debug)]
#[allow(inconsistent_fields)]
pub enum LibUsbEvent {
    RequestQuit,
    PollUsbDevices,
    JsonPollIfConnected,
    UsbEvent(UsbEvent),
    SendAudioData(UsbPacket),
}

/// Message to the USB thread.
#[derive(Debug)]
pub struct UsbPacketWrapper {
    pub packet: LibUsbEvent,
}

impl UsbPacketWrapper {
    /// Data of the audio packet, if there is one.
    pub open spec fn payload(self) -> Seq<u8> {
        match self.packet {
            LibUsbEvent::SendAudioData(packet) => packet.payload(),
            _ => Seq::empty(),
        }
    }

    pub fn event(self) -> (event: LibUsbEvent)
        ensures
            event == self.packet,
    {
        self.packet
    }

    /// Empty audio packet.
    pub fn new() -> (wrapper: UsbPacketWrapper)
        ensures
            wrapper.packet is SendAudioData,
            wrapper.payload() == Seq::<u8>::empty(),
            wrapper.packet->SendAudioData_0.bytes() == super::protocol::packet_bytes(
                super::protocol::USB_EMPTY_PACKET,
                Seq::empty(),
                super::protocol::USB_OUT_PACKET_SIZE as nat,
            ),
    {
        Self { packet: LibUsbEvent::SendAudioData(UsbPacket::new()) }
    }

    /// Set the data size of the audio packet, if there is one.
    pub fn set_size(&mut self, size: u16)
        requires
            old(self).packet is SendAudioData ==> size <= USB_PACKET_MAX_DATA_SIZE,
        ensures
            match old(self).packet {
                LibUsbEvent::SendAudioData(packet) => {
                    &&& final(self).packet matches LibUsbEvent::SendAudioData(new_packet)
                    &&& new_packet.payload() == packet.bytes().subrange(3, 3 + size)
                    &&& new_packet.bytes() == packet.bytes().update(
                        1,
                        endian::be16_bytes(size as int)[0],
                    ).update(2, endian::be16_bytes(size as int)[1])
                },
                _ => *final(self) == *old(self),
            },
    {
        match &mut self.packet {
            LibUsbEvent::SendAudioData(packet) => {
                packet.set_size(size);
            },
            _ => {},
        }
    }

    /// Data of the audio packet, if there is one.
    pub fn data(&self) -> (data: &[u8])
        ensures
            data@ == self.payload(),
    {
        match &self.packet {
            LibUsbEvent::SendAudioData(packet) => packet.data(),
            _ => &[],
        }
    }

    /// Data of the audio packet, if there is one.
    pub fn data_mut(&mut self) -> (data: &mut [u8])
        ensures
            match old(self).packet {
                LibUsbEvent::SendAudioData(packet) => {
                    &&& data@ == packet.payload()
                    &&& final(data)@.len() == data@.len() ==> {
                        &&& final(self).packet matches LibUsbEvent::SendAudioData(new_packet)
                        &&& new_packet.payload() == final(data)@
                        &&& new_packet.bytes() == packet.bytes().take(3) + final(data)@
                            + packet.bytes().skip(3 + data@.len() as int)
                    }
                },
                _ => data@.len() == 0 && *final(self) == *old(self),
            },
    {
        match &mut self.packet {
            LibUsbEvent::SendAudioData(packet) => packet.data_mut(),
            _ => &mut [],
        }
    }
}

impl UsbMessage for UsbPacketWrapper {
    open spec fn usb_packet(&self) -> Option<UsbPacket> {
        match self.packet {
            LibUsbEvent::SendAudioData(packet) => Some(packet),
            _ => None,
        }
    }

    fn from_usb_packet(packet: UsbPacket) -> (message: Self)
        ensures
            message.packet == LibUsbEvent::SendAudioData(packet),
    {
        Self { packet: LibUsbEvent::SendAudioData(packet) }
    }
}

impl From<LibUsbEvent> for UsbPacketWrapper {
    fn from(e: LibUsbEvent) -> Self {
        Self { packet: e }
    }
}

impl vstd::std_specs::convert::FromSpecImpl<LibUsbEvent> for UsbPacketWrapper {
    open spec fn obeys_from_spec() -> bool {
        true
    }

    open spec fn from_spec(e: LibUsbEvent) -> Self {
        UsbPacketWrapper { packet: e }
    }
}

/// Ends of the channel to the USB thread which the thread uses.
pub struct UsbDataChannelReceiver {
    pub sender: Sender<UsbPacketWrapper>,
    pub receiver: Receiver<UsbPacketWrapper>,
}

/// Makes data connections which send to the USB thread.
pub struct UsbDataChannelCreator {
    pub sender: Sender<UsbPacketWrapper>,
}

impl UsbDataChannelCreator {
    /// Ends of a new channel.
    pub fn new() -> (ends: (UsbDataChannelCreator, UsbDataChannelReceiver))
        ensures
            channel::are_ends(ends.0.sender, ends.1.receiver),
            ends.1.sender == ends.0.sender,
    {
        let (sender, receiver) = std::sync::mpsc::channel();
        let receiver = UsbDataChannelReceiver {
            sender: channel::clone_sender(&sender),
            receiver,
        };
        let sender = UsbDataChannelCreator { sender };
        (sender, receiver)
    }

    /// Data connection which sends to the USB thread. There is nothing to
    /// receive.
    pub fn build_sender(&self) -> (ends: (UsbDataConnectionSender<UsbPacketWrapper>, EmptyReceiver))
        ensures
            ends.0.sender == self.sender,
    {
        let usb_sender = UsbDataConnectionSender::new(channel::clone_sender(&self.sender));
        (usb_sender, EmptyReceiver)
    }
}

/// What `LibUsbLogic` asks for.
#[allow(inconsistent_fields)]
pub enum LibUsbAction {
    Nothing,
    Quit,
    /// Look for an accessory and call `LibUsbLogic::handle_search_result`.
    FindAccessory,
    /// Receive from the accessory and then update the connection. If there is an
    /// error, call `LibUsbLogic::handle_accessory_error`.
    PollJson,
    /// Send the packet to the accessory. If there is an error, call
    /// `LibUsbLogic::handle_accessory_error`.
    SendPacket(UsbPacket),
}

/// Logic of the USB thread.
pub struct LibUsbLogic {
    /// When the previous accessory was disconnected, in nanoseconds.
    pub poll_timer: u64,
    pub first_connect: bool,
    /// An accessory is connected.
    pub accessory_connected: bool,
}

impl LibUsbLogic {
    /// Is it time to look for an accessory.
    pub open spec fn polls(self, now: u64) -> bool {
        now - self.poll_timer >= POLL_INTERVAL_NANOS || self.first_connect
    }

    pub fn new(now: u64) -> (logic: Self)
        ensures
            logic == (Self { poll_timer: now, first_connect: true, accessory_connected: false }),
    {
        Self { poll_timer: now, first_connect: true, accessory_connected: false }
    }

    /// Handle one event at time `now`. Receiving audio over USB is not supported.
    pub fn update(&mut self, event: LibUsbEvent, now: u64) -> (action: LibUsbAction)
        requires
            old(self).accessory_connected ==> !(event matches LibUsbEvent::UsbEvent(
                UsbEvent::ReceiveAudioOverUsb(_),
            )),
        ensures
            final(self).poll_timer == old(self).poll_timer,
            final(self).accessory_connected == old(self).accessory_connected,
            final(self).first_connect == (old(self).first_connect && !(action is FindAccessory)),
            match (event, old(self).accessory_connected) {
                (LibUsbEvent::RequestQuit, _) => action == LibUsbAction::Quit,
                (LibUsbEvent::PollUsbDevices, false) => action == if old(self).polls(now) {
                    LibUsbAction::FindAccessory
                } else {
                    LibUsbAction::Nothing
                },
                (LibUsbEvent::JsonPollIfConnected, true) => action == LibUsbAction::PollJson,
                (LibUsbEvent::SendAudioData(packet), true) => {
                    &&& action matches LibUsbAction::SendPacket(typed_packet)
                    &&& typed_packet.payload() == packet.payload()
                    &&& typed_packet.bytes() == packet.bytes().update(
                        0,
                        UsbPacketOutType::AudioData.byte(),
                    )
                },
                _ => action == LibUsbAction::Nothing,
            },
    {
        match event {
            LibUsbEvent::RequestQuit => LibUsbAction::Quit,
            LibUsbEvent::PollUsbDevices => {
                if self.accessory_connected {
                    return LibUsbAction::Nothing;
                }
                let interval_passed = now >= self.poll_timer && now - self.poll_timer
                    >= POLL_INTERVAL_NANOS;
                if interval_passed || self.first_connect {
                    self.first_connect = false;
                    LibUsbAction::FindAccessory
                } else {
                    LibUsbAction::Nothing
                }
            },
            LibUsbEvent::JsonPollIfConnected => {
                if self.accessory_connected {
                    LibUsbAction::PollJson
                } else {
                    LibUsbAction::Nothing
                }
            },
            LibUsbEvent::UsbEvent(_) => LibUsbAction::Nothing,
            LibUsbEvent::SendAudioData(packet) => {
                if self.accessory_connected {
                    LibUsbAction::SendPacket(AccessoryConnection::send_audio_packet(packet))
                } else {
                    LibUsbAction::Nothing
                }
            },
        }
    }

    /// Handle the result of looking for an accessory.
    pub fn handle_search_result(&mut self, found: bool)
        requires
            !old(self).accessory_connected,
        ensures
            *final(self) == (Self { accessory_connected: found, ..*old(self) }),
    {
        self.accessory_connected = found;
    }

    /// Handle an error from the accessory at time `now`. It is not used anymore.
    pub fn handle_accessory_error(&mut self, now: u64)
        requires
            old(self).accessory_connected,
        ensures
            *final(self) == (Self { accessory_connected: false, poll_timer: now, ..*old(self) }),
    {
        self.accessory_connected = false;
        self.poll_timer = now;
    }

    /// Should a device from the vendor be asked to start in accessory mode.
    pub fn is_android_device(vendor_id: u16) -> (android: bool)
        ensures
            android == is_known_android_vendor(vendor_id),
    {
        vendor_id == 0x0e8d || vendor_id == 0x2a70
    }

    /// Handle the result of looking for a device in accessory mode and connecting
    /// to it. Returns true if a known Android device should be looked for.
    pub fn try_get_accessory_connection(
        find_accessory: Result<Option<Result<(), AccessoryConnectionError>>, UsbError>,
    ) -> (find_android_device: bool)
        ensures
            find_android_device == !(find_accessory matches Ok(Some(Ok(())))),
    {
        match find_accessory {
            Ok(Some(Ok(()))) => false,
            Ok(Some(Err(_))) => true,
            Ok(None) => true,
            Err(_) => true,
        }
    }
}

#[derive(Debug)]
#[allow(inconsistent_fields)]
pub enum AccessoryConnectionError {
    Usb(UsbError),
    Tcp(IoError),
    TcpDisconnected,
}

/// Error of the JSON stream as an error of the accessory connection.
pub open spec fn connection_error(e: JsonSocketError) -> AccessoryConnectionError {
    match e {
        JsonSocketError::Disconnected => AccessoryConnectionError::TcpDisconnected,
        JsonSocketError::Io(e) => AccessoryConnectionError::Tcp(e),
    }
}

fn to_connection_error(e: JsonSocketError) -> (error: AccessoryConnectionError)
    ensures
        error == connection_error(e),
{
    match e {
        JsonSocketError::Disconnected => AccessoryConnectionError::TcpDisconnected,
        JsonSocketError::Io(e) => AccessoryConnectionError::Tcp(e),
    }
}

/// Connection to an accessory and its JSON stream.
pub struct AccessoryConnection;

impl AccessoryConnection {
    /// Packet for sending audio.
    pub fn send_audio_packet(packet: UsbPacket) -> (typed_packet: UsbPacket)
        ensures
            typed_packet.payload() == packet.payload(),
            typed_packet.bytes() == packet.bytes().update(0, UsbPacketOutType::AudioData.byte()),
    {
        let mut packet = packet;
        packet.set_packet_type(UsbPacketOutType::AudioData.into());
        packet
    }

    /// Handle the result of reading the JSON stream to `buffer`. If there is a
    /// packet type and data, send them to the accessory.
    pub fn update_connection<'a>(buffer: &'a [u8], result: Result<usize, IoError>) -> (send: Result<
        Option<(UsbPacketOutType, &'a [u8])>,
        AccessoryConnectionError,
    >)
        requires
            result matches Ok(size) ==> size <= buffer@.len(),
        ensures
            match result {
                Ok(size) if size > 0 => {
                    &&& send matches Ok(Some((packet_type, data)))
                    &&& packet_type == UsbPacketOutType::JsonStream
                    &&& data@ == buffer@.take(size as int)
                },
                Ok(_) => send == Err::<Option<(UsbPacketOutType, &'a [u8])>, _>(
                    AccessoryConnectionError::TcpDisconnected,
                ),
                Err(e) => if e.kind == crate::utils::error::IoErrorKind::WouldBlock {
                    send matches Ok(None)
                } else {
                    send == Err::<Option<(UsbPacketOutType, &'a [u8])>, _>(
                        AccessoryConnectionError::Tcp(e),
                    )
                },
            },
    {
        match json::handle_json_read(buffer, result) {
            Ok(JsonRead::Data(new_data)) => Ok(Some((UsbPacketOutType::JsonStream, new_data))),
            Ok(JsonRead::Nothing) => Ok(None),
            Err(e) => Err(to_connection_error(e)),
        }
    }

    /// What to write to the JSON stream when a packet is received.
    pub fn receive_next<'a>(packet_type: UsbPacketInType, data: &'a [u8]) -> (step: JsonWriteStep<'a>)
        ensures
            match packet_type {
                UsbPacketInType::JsonStream if data@.len() > 0 => step matches JsonWriteStep::Write(
                    rest,
                ) && rest@ == data@,
                _ => step matches JsonWriteStep::Done,
            },
    {
        match packet_type {
            UsbPacketInType::Empty => JsonWriteStep::Done,
            UsbPacketInType::JsonStream => if data.len() == 0 {
                JsonWriteStep::Done
            } else {
                JsonWriteStep::Write(data)
            },
        }
    }

    /// Handle the result of writing `data` to the JSON stream.
    pub fn handle_write<'a>(data: &'a [u8], result: Result<usize, IoError>) -> (step: Result<
        JsonWriteStep<'a>,
        AccessoryConnectionError,
    >)
        requires
            result matches Ok(count) ==> count <= data@.len(),
        ensures
            match result {
                Ok(count) if count == 0 => step == Err::<JsonWriteStep<'a>, _>(
                    AccessoryConnectionError::TcpDisconnected,
                ),
                Ok(count) if count == data@.len() => step matches Ok(JsonWriteStep::Done),
                Ok(count) => step matches Ok(JsonWriteStep::Write(rest)) && rest@ == data@.skip(
                    count as int,
                ),
                Err(e) if e.kind == crate::utils::error::IoErrorKind::WouldBlock => step matches Ok(
                    JsonWriteStep::WaitAndWrite(rest),
                ) && rest@ == data@,
                Err(e) => step == Err::<JsonWriteStep<'a>, _>(AccessoryConnectionError::Tcp(e)),
            },
    {
        match json::handle_json_write(data, result) {
            Ok(step) => Ok(step),
            Err(e) => Err(to_connection_error(e)),
        }
    }
}

/// An accessory is looked for at once after the start, and later when two seconds have
/// passed since the previous one was lost.
pub proof fn law_accessory_is_looked_for(logic: LibUsbLogic, now: u64)
    ensures
        logic.first_connect ==> logic.polls(now),
        !logic.first_connect ==> (logic.polls(now) <==> logic.poll_timer + 2_000_000_000 <= now),
{
}

/// Errors of the JSON stream are reported as they came.
pub proof fn law_stream_errors_are_reported(error: JsonSocketError)
    ensures
        match (error, connection_error(error)) {
            (JsonSocketError::Disconnected, AccessoryConnectionError::TcpDisconnected) => true,
            (JsonSocketError::Io(e), AccessoryConnectionError::Tcp(reported)) => reported == e,
            _ => false,
        },
{
}

/// Only devices of two vendors are asked to start in accessory mode.
pub proof fn law_known_devices_are_asked(vendor_id: u16)
    ensures
        is_known_android_vendor(vendor_id) <==> vendor_id == 3725 || vendor_id == 10864,
{
}

/// An event reaches the USB thread as it is.
pub proof fn law_usb_thread_event_is_passed_on(event: LibUsbEvent)
    ensures
        <UsbPacketWrapper as vstd::std_specs::convert::FromSpec<LibUsbEvent>>::from_spec(event) == (UsbPacketWrapper {
            packet: event,
        }),
{
}

/// The data of a message to the USB thread is the data of its audio packet. Other messages
/// carry no packet and have no data.
pub proof fn law_audio_message_carries_its_packet(message: UsbPacketWrapper)
    ensures
        message.packet matches LibUsbEvent::SendAudioData(packet) ==> {
            &&& message.usb_packet() == Some(packet)
            &&& message.payload() == packet.payload()
        },
        !(message.packet is SendAudioData) ==> {
            &&& message.usb_packet() is None
            &&& message.payload().len() == 0
        },
{
}

} // verus!
