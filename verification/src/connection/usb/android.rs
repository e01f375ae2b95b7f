//! USB accessory mode on an Android device.

pub mod accessory;
pub mod read;
pub mod write;

use vstd::prelude::*;

use self::{
    read::{ReaderError, ReaderEvent},
    write::WriterError,
};
use super::{protocol::UsbPacket, UsbEvent};
use crate::utils::error::IoError;

verus! {

/// Error of a system call, which is `nix::errno::Errno`.
#[verifier::external_type_specification]
#[verifier::external_body]
pub struct ExErrno(nix::errno::Errno);

pub struct UsbDataChannelReceiver;

pub struct UsbDataChannelCreator;

impl UsbDataChannelCreator {
    pub fn new() -> (ends: (UsbDataChannelCreator, UsbDataChannelReceiver))
        ensures
            ends == (UsbDataChannelCreator, UsbDataChannelReceiver),
    {
        (UsbDataChannelCreator, UsbDataChannelReceiver)
    }
}

pub type UsbPacketWrapper = UsbPacket;

/// Event to `AndroidUsbManager`.
#[allow(inconsistent_fields)]
pub enum AndroidUsbEvent {
    RequestQuit,
    ReaderError(ReaderError),
    WriterError(WriterError),
    UsbEvent(UsbEvent),
}

#[derive(Debug)]
#[allow(inconsistent_fields)]
pub enum UsbError {
    Dup(nix::errno::Errno),
    Read(nix::errno::Errno),
    Write(nix::errno::Errno),
    UnexpectedReadSize(usize),
    UnexpectedPacketOutType(u8),
    UnexpectedWriteSize(usize),
}

#[derive(Debug)]
#[allow(inconsistent_fields)]
pub enum UsbManagerError {
    Tcp(IoError),
    Usb(UsbError),
}

/// What `AndroidUsbManager` asks for.
pub enum AndroidUsbAction {
    Nothing,
    Quit,
    /// Ask the USB manager to quit this. Then wait until reader and writer threads
    /// quit.
    StopThreads,
    /// Send the event to the reader thread.
    SendToReader(ReaderEvent),
}

/// Logic for one connected USB accessory.
pub struct AndroidUsbManager {
    /// Reader and writer are stopped, and only a quit request is waited for.
    pub waiting_quit: bool,
}

impl AndroidUsbManager {
    pub fn new() -> (manager: Self)
        ensures
            !manager.waiting_quit,
    {
        Self { waiting_quit: false }
    }

    /// Event which can be handled. The owner of this handles the events about the
    /// accessory itself.
    pub open spec fn accepts(self, event: AndroidUsbEvent) -> bool {
        event matches AndroidUsbEvent::UsbEvent(event) ==> self.waiting_quit
            || event is ReceiveAudioOverUsb || event is SendAudioOverUsb
    }

    /// Handle one event.
    pub fn run(&mut self, event: AndroidUsbEvent) -> (action: AndroidUsbAction)
        requires
            old(self).accepts(event),
        ensures
            match event {
                AndroidUsbEvent::RequestQuit => {
                    &&& action == AndroidUsbAction::Quit
                    &&& *final(self) == *old(self)
                },
                _ if old(self).waiting_quit => {
                    &&& action == AndroidUsbAction::Nothing
                    &&& *final(self) == *old(self)
                },
                AndroidUsbEvent::ReaderError(_) | AndroidUsbEvent::WriterError(_) => {
                    &&& action == AndroidUsbAction::StopThreads
                    &&& final(self).waiting_quit
                },
                AndroidUsbEvent::UsbEvent(UsbEvent::ReceiveAudioOverUsb(sender)) => {
                    &&& action == AndroidUsbAction::SendToReader(ReaderEvent::ReadAudio(sender))
                    &&& *final(self) == *old(self)
                },
                AndroidUsbEvent::UsbEvent(_) => {
                    &&& action == AndroidUsbAction::Nothing
                    &&& *final(self) == *old(self)
                },
            },
    {
        match event {
            AndroidUsbEvent::RequestQuit => AndroidUsbAction::Quit,
            AndroidUsbEvent::ReaderError(_) | AndroidUsbEvent::WriterError(_) => {
                if self.waiting_quit {
                    return AndroidUsbAction::Nothing;
                }
                self.waiting_quit = true;
                AndroidUsbAction::StopThreads
            },
            AndroidUsbEvent::UsbEvent(event) => {
                if self.waiting_quit {
                    return AndroidUsbAction::Nothing;
                }
                match event {
                    UsbEvent::ReceiveAudioOverUsb(sender) => AndroidUsbAction::SendToReader(
                        ReaderEvent::ReadAudio(sender),
                    ),
                    _ => AndroidUsbAction::Nothing,
                }
            },
        }
    }
}

/// While threads run, only events about audio can be handled besides errors and quit
/// requests. After they are stopped, any event can.
pub proof fn law_audio_events_are_accepted(manager: AndroidUsbManager, event: AndroidUsbEvent)
    ensures
        !manager.accepts(event) <==> !manager.waiting_quit && (event
            matches AndroidUsbEvent::UsbEvent(usb_event) && (usb_event
            is AndroidUsbAccessoryFileDescriptor || usb_event is AndroidQuitAndroidUsbManager)),
{
}

} // verus!
