//! USB connections.

pub mod android;
pub mod json;
pub mod libusb;
pub mod protocol;

pub use self::protocol::{
    UsbPacket, UsbPacketInType, UsbPacketOutType, USB_EMPTY_PACKET, USB_PACKET_MAX_DATA_SIZE,
};

use vstd::prelude::*;

use super::{
    data::usb::{UsbDataConnectionReceiver, UsbDataConnectionSender},
    tcp::ListenerError,
    CmInternalEvent,
};
use crate::{config::Platform, net::SocketAddress, utils::error::IoError};

verus! {

#[derive(Debug)]
#[allow(inconsistent_fields)]
pub enum UsbEvent {
    ReceiveAudioOverUsb(UsbDataConnectionSender<UsbPacket>),
    SendAudioOverUsb(UsbDataConnectionReceiver),
    /// File descriptor or -1 if there is no USB accessory connected.
    AndroidUsbAccessoryFileDescriptor(i32),
    AndroidQuitAndroidUsbManager,
}

/// File descriptor which means that there is no USB accessory connected.
pub const NO_ACCESSORY_FILE_DESCRIPTOR: i32 = -1;

/// What happened in `UsbManager`. `J` is the stream of a JSON connection.
#[allow(inconsistent_fields)]
pub enum UsbManagerEvent<J> {
    QuitRequest,
    UsbEvent(UsbEvent),
    PollTimer,
    JsonPollTimer,
    Accepted(Result<(J, SocketAddress), IoError>),
}

/// What `UsbManager` asks for. `J` and `D` are streams of connections.
#[allow(inconsistent_fields)]
pub enum UsbManagerAction<J, D> {
    Nothing,
    /// Send the event to the USB thread.
    SendToThread(UsbEvent),
    PollUsbDevices,
    JsonPollIfConnected,
    /// Start a USB thread for the file descriptor and call
    /// `UsbManager::handle_thread_started`. If `quit_previous` is true, wait until
    /// the previous thread quits before that.
    StartThread { file_descriptor: i32, quit_previous: bool },
    /// Wait until the USB thread quits.
    QuitThread,
    SendConnectionManagerEvent(CmInternalEvent<J, D>),
    /// Send the event. Then wait until the USB thread quits, if `quit_thread` is
    /// true, and wait for a quit request, if `wait_quit` is true. Then quit.
    Fail { error: CmInternalEvent<J, D>, quit_thread: bool, wait_quit: bool },
    /// Wait until the USB thread quits, if `quit_thread` is true, and quit.
    Quit { quit_thread: bool },
}

/// Logic for USB connections.
pub struct UsbManager {
    pub platform: Platform,
    /// There is a USB thread.
    pub thread_running: bool,
}

impl UsbManager {
    /// Handle the result of binding the socket for the JSON stream of USB
    /// connections. If there is an error, send it to the connection manager and
    /// wait for a quit request. On Linux start the USB thread otherwise.
    pub fn new<J, D>(platform: Platform, bind: Result<(), IoError>) -> (manager: Result<
        Self,
        CmInternalEvent<J, D>,
    >)
        ensures
            manager == match bind {
                Ok(()) => Ok::<Self, CmInternalEvent<J, D>>(
                    Self { platform, thread_running: platform == Platform::Linux },
                ),
                Err(e) => Err(
                    CmInternalEvent::<J, D>::UsbTcpListenerError(ListenerError::BindJsonSocket(e)),
                ),
            },
    {
        match bind {
            Ok(()) => Ok(
                Self {
                    platform,
                    thread_running: match platform {
                        Platform::Linux => true,
                        Platform::Android => false,
                    },
                },
            ),
            Err(e) => Err(CmInternalEvent::UsbTcpListenerError(ListenerError::BindJsonSocket(e))),
        }
    }

    /// On Linux there is always a USB thread.
    pub open spec fn wf(self) -> bool {
        self.platform == Platform::Linux ==> self.thread_running
    }

    /// What is asked for when `event` happens.
    pub open spec fn action<J, D>(self, event: UsbManagerEvent<J>) -> UsbManagerAction<J, D> {
        match event {
            UsbManagerEvent::QuitRequest => UsbManagerAction::Quit {
                quit_thread: self.thread_running,
            },
            UsbManagerEvent::UsbEvent(event) => match (self.platform, event) {
                (Platform::Linux, _) => UsbManagerAction::SendToThread(event),
                (Platform::Android, UsbEvent::AndroidUsbAccessoryFileDescriptor(fd)) => if fd
                    == NO_ACCESSORY_FILE_DESCRIPTOR {
                    UsbManagerAction::Nothing
                } else {
                    UsbManagerAction::StartThread {
                        file_descriptor: fd,
                        quit_previous: self.thread_running,
                    }
                },
                (Platform::Android, UsbEvent::AndroidQuitAndroidUsbManager) => {
                    if self.thread_running {
                        UsbManagerAction::QuitThread
                    } else {
                        UsbManagerAction::Nothing
                    }
                },
                (Platform::Android, _) => if self.thread_running {
                    UsbManagerAction::SendToThread(event)
                } else {
                    UsbManagerAction::Nothing
                },
            },
            UsbManagerEvent::PollTimer => match self.platform {
                Platform::Linux => UsbManagerAction::PollUsbDevices,
                Platform::Android => UsbManagerAction::Nothing,
            },
            UsbManagerEvent::JsonPollTimer => match self.platform {
                Platform::Linux => UsbManagerAction::JsonPollIfConnected,
                Platform::Android => UsbManagerAction::Nothing,
            },
            UsbManagerEvent::Accepted(
                Ok((stream, address)),
            ) => UsbManagerAction::SendConnectionManagerEvent(
                CmInternalEvent::NewJsonStream { stream, address, usb: true },
            ),
            UsbManagerEvent::Accepted(Err(e)) => UsbManagerAction::Fail {
                error: CmInternalEvent::ListenerError(ListenerError::AcceptJsonConnection(e)),
                quit_thread: self.thread_running,
                wait_quit: self.platform == Platform::Linux,
            },
        }
    }

    /// Handle what happened.
    pub fn handle_event<J, D>(&mut self, event: UsbManagerEvent<J>) -> (action: UsbManagerAction<
        J,
        D,
    >)
        requires
            old(self).wf(),
        ensures
            final(self).wf(),
            action == old(self).action::<J, D>(event),
            final(self).platform == old(self).platform,
            final(self).thread_running == if action is QuitThread || action is StartThread {
                false
            } else {
                old(self).thread_running
            },
    {
        match event {
            UsbManagerEvent::QuitRequest => UsbManagerAction::Quit {
                quit_thread: self.thread_running,
            },
            UsbManagerEvent::UsbEvent(event) => match self.platform {
                Platform::Linux => UsbManagerAction::SendToThread(event),
                Platform::Android => match event {
                    UsbEvent::AndroidUsbAccessoryFileDescriptor(fd) => {
                        if fd == NO_ACCESSORY_FILE_DESCRIPTOR {
                            return UsbManagerAction::Nothing;
                        }
                        let quit_previous = self.thread_running;
                        self.thread_running = false;
                        UsbManagerAction::StartThread { file_descriptor: fd, quit_previous }
                    },
                    UsbEvent::AndroidQuitAndroidUsbManager => {
                        if self.thread_running {
                            self.thread_running = false;
                            UsbManagerAction::QuitThread
                        } else {
                            UsbManagerAction::Nothing
                        }
                    },
                    event => {
                        if self.thread_running {
                            UsbManagerAction::SendToThread(event)
                        } else {
                            UsbManagerAction::Nothing
                        }
                    },
                },
            },
            UsbManagerEvent::PollTimer => match self.platform {
                Platform::Linux => UsbManagerAction::PollUsbDevices,
                Platform::Android => UsbManagerAction::Nothing,
            },
            UsbManagerEvent::JsonPollTimer => match self.platform {
                Platform::Linux => UsbManagerAction::JsonPollIfConnected,
                Platform::Android => UsbManagerAction::Nothing,
            },
            UsbManagerEvent::Accepted(Ok((stream, address))) => {
                UsbManagerAction::SendConnectionManagerEvent(
                    CmInternalEvent::NewJsonStream { stream, address, usb: true },
                )
            },
            UsbManagerEvent::Accepted(Err(error)) => {
                let e = ListenerError::AcceptJsonConnection(error);
                UsbManagerAction::Fail {
                    error: CmInternalEvent::ListenerError(e),
                    quit_thread: self.thread_running,
                    wait_quit: match self.platform {
                        Platform::Linux => true,
                        Platform::Android => false,
                    },
                }
            },
        }
    }

    /// Handle the result of starting a USB thread.
    pub fn handle_thread_started(&mut self, started: bool)
        requires
            old(self).platform == Platform::Android,
        ensures
            final(self).platform == old(self).platform,
            final(self).thread_running == started,
    {
        self.thread_running = started;
    }
}

/// The USB thread gets messages, and is asked to quit, only while it runs. On Linux it
/// gets every event. On Android a thread is started for each new accessory, and the
/// previous one quits before that.
pub proof fn law_thread_gets_events_while_it_runs<J, D>(
    manager: UsbManager,
    event: UsbManagerEvent<J>,
)
    requires
        manager.wf(),
    ensures
        ({
            let action = manager.action::<J, D>(event);
            &&& action is SendToThread || action is QuitThread ==> manager.thread_running
            &&& action matches UsbManagerAction::SendToThread(sent) ==> event
                == UsbManagerEvent::<J>::UsbEvent(sent)
            &&& action matches UsbManagerAction::Quit { quit_thread } ==> quit_thread
                == manager.thread_running
            &&& action matches UsbManagerAction::Fail { quit_thread, .. } ==> quit_thread
                == manager.thread_running
            &&& action matches UsbManagerAction::StartThread { file_descriptor, quit_previous }
                ==> {
                &&& event == UsbManagerEvent::<J>::UsbEvent(
                    UsbEvent::AndroidUsbAccessoryFileDescriptor(file_descriptor),
                )
                &&& file_descriptor != -1
                &&& manager.platform is Android
                &&& quit_previous == manager.thread_running
            }
            &&& event matches UsbManagerEvent::UsbEvent(usb_event) ==> match usb_event {
                UsbEvent::ReceiveAudioOverUsb(_) | UsbEvent::SendAudioOverUsb(_) => {
                    &&& action is SendToThread <==> manager.thread_running
                    &&& action is Nothing <==> !manager.thread_running
                },
                UsbEvent::AndroidUsbAccessoryFileDescriptor(file_descriptor) => {
                    &&& action is SendToThread <==> manager.platform is Linux
                    &&& action is StartThread <==> manager.platform is Android && file_descriptor
                        != -1
                    &&& action is Nothing <==> manager.platform is Android && file_descriptor == -1
                },
                UsbEvent::AndroidQuitAndroidUsbManager => {
                    &&& action is SendToThread <==> manager.platform is Linux
                    &&& action is QuitThread <==> manager.platform is Android
                        && manager.thread_running
                    &&& action is Nothing <==> !manager.thread_running
                },
            }
        }),
{
}

/// Devices are polled on Linux only. An accepted JSON connection goes to the connection
/// manager as a USB connection with its stream and address. An error of the listener is
/// reported as it came, and a quit request ends the manager.
pub proof fn law_usb_connections_are_passed_on<J, D>(manager: UsbManager, event: UsbManagerEvent<J>)
    requires
        manager.wf(),
    ensures
        ({
            let action = manager.action::<J, D>(event);
            match event {
                UsbManagerEvent::QuitRequest => action is Quit,
                UsbManagerEvent::UsbEvent(_) => !(action is Quit) && !(action is Fail)
                    && !(action is SendConnectionManagerEvent),
                UsbManagerEvent::PollTimer => {
                    &&& action is PollUsbDevices <==> manager.platform is Linux
                    &&& action is Nothing <==> manager.platform is Android
                },
                UsbManagerEvent::JsonPollTimer => {
                    &&& action is JsonPollIfConnected <==> manager.platform is Linux
                    &&& action is Nothing <==> manager.platform is Android
                },
                UsbManagerEvent::Accepted(Ok((accepted, from))) => {
                    &&& action matches UsbManagerAction::SendConnectionManagerEvent(
                        CmInternalEvent::NewJsonStream { stream, address, usb },
                    )
                    &&& stream == accepted
                    &&& address == from
                    &&& usb
                },
                UsbManagerEvent::Accepted(Err(e)) => {
                    &&& action matches UsbManagerAction::Fail {
                        error: CmInternalEvent::ListenerError(
                            ListenerError::AcceptJsonConnection(reported),
                        ),
                        wait_quit,
                        ..
                    }
                    &&& reported == e
                    &&& wait_quit == manager.platform is Linux
                },
            }
        }),
{
}

} // verus!
