//! User interface communication protocol and server code for it.

use vstd::prelude::*;

use crate::{
    config::JSON_PORT,
    connection::{tcp::ListenerError, ConnectionManagerEvent},
    device::DeviceManagerEvent,
    net::SocketAddress,
    utils::{decimal, error::IoError, ConnectionEvent, ConnectionId},
};

verus! {

/// UI message from server to UI.
#[derive(Debug)]
pub enum UiProtocolFromServerToUi {
    Message(String),
    DeviceConnectionEstablished,
    DeviceConnectionDisconnected,
    DeviceConnectionDisconnectedWithError,
    AndroidGetNativeSampleRate { message_from: String },
}

/// UI message from UI to server.
#[derive(Debug)]
pub enum UiProtocolFromUiToServer {
    NotificationTest,
    RunDeviceConnectionPing,
    DisconnectDevice,
    ConnectTo { ip_address: String },
    AndroidNativeSampleRate(AndroidAudioInfo),
}

#[derive(Debug)]
pub struct AndroidAudioInfo {
    pub native_sample_rate: i32,
    pub frames_per_burst: i32,
    pub message_to: String,
}

/// Event to `UiConnectionManager`.
#[derive(Debug)]
#[allow(inconsistent_fields)]
pub enum UiEvent {
    TcpSupportDisabledBecauseOfError(ListenerError),
    GetNativeSampleRate { who_sent_this: ConnectionId },
    AllDevicesAreNowDisconnected,
    ConnectionError { connection_id: ConnectionId },
    ConnectionEstablished { connection_id: ConnectionId },
}

/// Quit reason for a UI connection.
#[derive(Debug, Clone, Copy, PartialEq, Eq, Structural)]
pub enum QuitReason {
    QuitRequest,
    ConnectionError,
}

/// Is there a UI connection.
#[derive(Debug, Clone, Copy, PartialEq, Eq, Structural)]
pub enum UiConnectionState {
    /// Listening is not possible. Only a quit request is handled.
    Disabled,
    Listening,
    Connected,
}

/// What happened in `UiConnectionManager`. `C` is a UI connection.
#[allow(inconsistent_fields)]
pub enum UiManagerEvent<C> {
    QuitRequest,
    UiEvent(UiEvent),
    Accepted(Result<C, IoError>),
    Connection(ConnectionEvent<UiProtocolFromUiToServer>),
}

/// What `UiConnectionManager` asks for. `C` is a UI connection, and `J` and `D`
/// are streams of device connections.
#[allow(inconsistent_fields)]
pub enum UiManagerAction<C, J, D> {
    Nothing,
    /// Start a task for the UI connection.
    StartConnection(C),
    SendToUi(UiProtocolFromServerToUi),
    SendDeviceManagerEvent(DeviceManagerEvent<J>),
    SendConnectionManagerEvent(ConnectionManagerEvent<J, D>),
    /// Find the socket address that the text means. Then call
    /// `UiConnectionManager::handle_resolved_address`.
    ResolveAddress(String),
    /// Close the UI connection. Quit if the reason is a quit request, and
    /// otherwise listen for the next connection.
    CloseConnection(QuitReason),
    /// Quit when there is no connection.
    Quit,
}

/// Message for the UI which an event makes.
pub open spec fn is_ui_message(event: UiEvent, message: Option<UiProtocolFromServerToUi>) -> bool {
    match event {
        UiEvent::TcpSupportDisabledBecauseOfError(_) => message is None,
        UiEvent::GetNativeSampleRate { who_sent_this } => {
            &&& message matches Some(
                UiProtocolFromServerToUi::AndroidGetNativeSampleRate { message_from },
            )
            &&& message_from@ == decimal::decimal_text(who_sent_this as nat)
        },
        UiEvent::ConnectionError { .. } => message == Some(
            UiProtocolFromServerToUi::DeviceConnectionDisconnectedWithError,
        ),
        UiEvent::AllDevicesAreNowDisconnected => message == Some(
            UiProtocolFromServerToUi::DeviceConnectionDisconnected,
        ),
        UiEvent::ConnectionEstablished { .. } => message == Some(
            UiProtocolFromServerToUi::DeviceConnectionEstablished,
        ),
    }
}

/// Text of the JSON socket address of a device.
pub open spec fn json_address_text(ip_address: Seq<char>) -> Seq<char> {
    ip_address + ":"@ + decimal::decimal_text(JSON_PORT as nat)
}

/// What a message from the UI asks for.
pub open spec fn is_message_action<C, J, D>(
    message: UiProtocolFromUiToServer,
    action: UiManagerAction<C, J, D>,
) -> bool {
    match message {
        UiProtocolFromUiToServer::NotificationTest => action is Nothing,
        UiProtocolFromUiToServer::RunDeviceConnectionPing => action
            == UiManagerAction::<C, J, D>::SendDeviceManagerEvent(
            DeviceManagerEvent::RunDeviceConnectionPing,
        ),
        UiProtocolFromUiToServer::AndroidNativeSampleRate(audio_info) => match decimal::parsed(
            audio_info.message_to@,
        ) {
            Some(id) => action == UiManagerAction::<C, J, D>::SendDeviceManagerEvent(
                DeviceManagerEvent::UiNativeSampleRate(id, audio_info),
            ),
            None => action is Nothing,
        },
        UiProtocolFromUiToServer::ConnectTo { ip_address } => {
            &&& action matches UiManagerAction::ResolveAddress(text)
            &&& text@ == json_address_text(ip_address@)
        },
        UiProtocolFromUiToServer::DisconnectDevice => action
            == UiManagerAction::<C, J, D>::SendDeviceManagerEvent(
            DeviceManagerEvent::DisconnectAllDevices,
        ),
    }
}

/// Logic for handling new UI connections. There is at most one at a time.
pub struct UiConnectionManager {
    pub state: UiConnectionState,
}

impl UiConnectionManager {
    /// `listening` is false if listening is not possible.
    pub fn new(listening: bool) -> (manager: Self)
        ensures
            manager.state == if listening {
                UiConnectionState::Listening
            } else {
                UiConnectionState::Disabled
            },
    {
        Self {
            state: if listening {
                UiConnectionState::Listening
            } else {
                UiConnectionState::Disabled
            },
        }
    }

    /// Message for the UI which an event makes.
    pub fn ui_message(event: UiEvent) -> (message: Option<UiProtocolFromServerToUi>)
        ensures
            is_ui_message(event, message),
    {
        match event {
            UiEvent::TcpSupportDisabledBecauseOfError(_) => None,
            UiEvent::GetNativeSampleRate { who_sent_this } => Some(
                UiProtocolFromServerToUi::AndroidGetNativeSampleRate {
                    message_from: decimal::u64_to_string(who_sent_this),
                },
            ),
            UiEvent::ConnectionError { .. } => Some(
                UiProtocolFromServerToUi::DeviceConnectionDisconnectedWithError,
            ),
            UiEvent::AllDevicesAreNowDisconnected => Some(
                UiProtocolFromServerToUi::DeviceConnectionDisconnected,
            ),
            UiEvent::ConnectionEstablished { .. } => Some(
                UiProtocolFromServerToUi::DeviceConnectionEstablished,
            ),
        }
    }

    /// Handle a message from the UI.
    pub fn handle_message<C, J, D>(message: UiProtocolFromUiToServer) -> (action: UiManagerAction<
        C,
        J,
        D,
    >)
        ensures
            is_message_action(message, action),
    {
        match message {
            UiProtocolFromUiToServer::NotificationTest => UiManagerAction::Nothing,
            UiProtocolFromUiToServer::RunDeviceConnectionPing => {
                UiManagerAction::SendDeviceManagerEvent(DeviceManagerEvent::RunDeviceConnectionPing)
            },
            UiProtocolFromUiToServer::AndroidNativeSampleRate(audio_info) => {
                match decimal::parse_u64(audio_info.message_to.as_str()) {
                    Some(id) => UiManagerAction::SendDeviceManagerEvent(
                        DeviceManagerEvent::UiNativeSampleRate(id, audio_info),
                    ),
                    None => UiManagerAction::Nothing,
                }
            },
            UiProtocolFromUiToServer::ConnectTo { ip_address } => {
                let mut text: String = ip_address;
                text.append(":");
                text.append(decimal::u64_to_string(JSON_PORT as u64).as_str());
                UiManagerAction::ResolveAddress(text)
            },
            UiProtocolFromUiToServer::DisconnectDevice => {
                UiManagerAction::SendDeviceManagerEvent(DeviceManagerEvent::DisconnectAllDevices)
            },
        }
    }

    /// Handle the first socket address which was found. `None` is a failure.
    pub fn handle_resolved_address<C, J, D>(address: Option<SocketAddress>) -> (action:
        UiManagerAction<C, J, D>)
        ensures
            action == match address {
                Some(address) => UiManagerAction::<C, J, D>::SendConnectionManagerEvent(
                    ConnectionManagerEvent::ConnectTo { address },
                ),
                None => UiManagerAction::Nothing,
            },
    {
        match address {
            Some(address) => UiManagerAction::SendConnectionManagerEvent(
                ConnectionManagerEvent::ConnectTo { address },
            ),
            None => UiManagerAction::Nothing,
        }
    }

    /// Handle what happened. Connections are accepted only when there is none.
    pub fn handle_event<C, J, D>(&mut self, event: UiManagerEvent<C>) -> (action: UiManagerAction<
        C,
        J,
        D,
    >)
        requires
            event is Accepted ==> old(self).state == UiConnectionState::Listening,
            event is Connection ==> old(self).state == UiConnectionState::Connected,
        ensures
            match event {
                UiManagerEvent::QuitRequest => {
                    &&& final(self).state == UiConnectionState::Disabled
                    &&& action == if old(self).state == UiConnectionState::Connected {
                        UiManagerAction::<C, J, D>::CloseConnection(QuitReason::QuitRequest)
                    } else {
                        UiManagerAction::Quit
                    }
                },
                UiManagerEvent::UiEvent(event) => {
                    &&& final(self).state == old(self).state
                    &&& if old(self).state == UiConnectionState::Connected {
                        match action {
                            UiManagerAction::SendToUi(message) => is_ui_message(
                                event,
                                Some(message),
                            ),
                            UiManagerAction::Nothing => is_ui_message(event, None),
                            _ => false,
                        }
                    } else {
                        action is Nothing
                    }
                },
                UiManagerEvent::Accepted(Ok(connection)) => {
                    &&& final(self).state == UiConnectionState::Connected
                    &&& action == UiManagerAction::<C, J, D>::StartConnection(connection)
                },
                UiManagerEvent::Accepted(Err(_)) => {
                    &&& final(self).state == old(self).state
                    &&& action is Nothing
                },
                UiManagerEvent::Connection(ConnectionEvent::Message(_, message)) => {
                    &&& final(self).state == old(self).state
                    &&& is_message_action(message, action)
                },
                UiManagerEvent::Connection(_) => {
                    &&& final(self).state == UiConnectionState::Listening
                    &&& action == UiManagerAction::<C, J, D>::CloseConnection(
                        QuitReason::ConnectionError,
                    )
                },
            },
    {
        match event {
            UiManagerEvent::QuitRequest => {
                let connected = self.state == UiConnectionState::Connected;
                self.state = UiConnectionState::Disabled;
                if connected {
                    UiManagerAction::CloseConnection(QuitReason::QuitRequest)
                } else {
                    UiManagerAction::Quit
                }
            },
            UiManagerEvent::UiEvent(event) => {
                if self.state != UiConnectionState::Connected {
                    return UiManagerAction::Nothing;
                }
                match Self::ui_message(event) {
                    Some(message) => UiManagerAction::SendToUi(message),
                    None => UiManagerAction::Nothing,
                }
            },
            UiManagerEvent::Accepted(Ok(connection)) => {
                self.state = UiConnectionState::Connected;
                UiManagerAction::StartConnection(connection)
            },
            UiManagerEvent::Accepted(Err(_)) => UiManagerAction::Nothing,
            UiManagerEvent::Connection(event) => match event {
                ConnectionEvent::ReadError(_, _) | ConnectionEvent::WriteError(_, _) => {
                    self.state = UiConnectionState::Listening;
                    UiManagerAction::CloseConnection(QuitReason::ConnectionError)
                },
                ConnectionEvent::Message(_, message) => Self::handle_message(message),
            },
        }
    }
}

/// An answer which the UI addresses with the text from a request goes to the
/// connection which made the request.
pub proof fn law_answer_goes_to_the_requester<C, J, D>(
    who_sent_this: ConnectionId,
    message_from: String,
    answer: AndroidAudioInfo,
    action: UiManagerAction<C, J, D>,
)
    requires
        is_ui_message(
            UiEvent::GetNativeSampleRate { who_sent_this },
            Some(UiProtocolFromServerToUi::AndroidGetNativeSampleRate { message_from }),
        ),
        answer.message_to@ == message_from@,
        is_message_action(UiProtocolFromUiToServer::AndroidNativeSampleRate(answer), action),
    ensures
        action == UiManagerAction::<C, J, D>::SendDeviceManagerEvent(
            DeviceManagerEvent::UiNativeSampleRate(who_sent_this, answer),
        ),
{
    decimal::law_number_is_read_as_written(who_sent_this as nat);
}

/// The UI is told of every device which connects, disconnects or fails, whatever its ID
/// is, and asked for the native sample rate with a text which stands for the ID of the
/// connection that wants it. Listener errors are not told.
pub proof fn law_ui_is_told_of_devices(event: UiEvent, message: Option<UiProtocolFromServerToUi>)
    requires
        is_ui_message(event, message),
    ensures
        message is None <==> event is TcpSupportDisabledBecauseOfError,
        match event {
            UiEvent::TcpSupportDisabledBecauseOfError(_) => true,
            UiEvent::GetNativeSampleRate { who_sent_this } => {
                &&& message matches Some(
                    UiProtocolFromServerToUi::AndroidGetNativeSampleRate { message_from },
                )
                &&& decimal::parsed(message_from@) == Some(who_sent_this)
            },
            UiEvent::AllDevicesAreNowDisconnected => message matches Some(
                UiProtocolFromServerToUi::DeviceConnectionDisconnected,
            ),
            UiEvent::ConnectionError { .. } => message matches Some(
                UiProtocolFromServerToUi::DeviceConnectionDisconnectedWithError,
            ),
            UiEvent::ConnectionEstablished { .. } => message matches Some(
                UiProtocolFromServerToUi::DeviceConnectionEstablished,
            ),
        },
{
    match event {
        UiEvent::GetNativeSampleRate { who_sent_this } => {
            decimal::law_number_is_read_as_written(who_sent_this as nat);
        },
        _ => {},
    }
}

/// What the UI asks for reaches its target: pings and disconnecting go to all devices, an
/// address is completed with the JSON port, and audio info goes unchanged to the
/// connection which its text names, or nowhere if the text is no number.
pub proof fn law_ui_request_reaches_its_target<C, J, D>(
    message: UiProtocolFromUiToServer,
    action: UiManagerAction<C, J, D>,
)
    requires
        is_message_action(message, action),
    ensures
        match message {
            UiProtocolFromUiToServer::NotificationTest => action is Nothing,
            UiProtocolFromUiToServer::RunDeviceConnectionPing => action
                matches UiManagerAction::SendDeviceManagerEvent(
                DeviceManagerEvent::RunDeviceConnectionPing,
            ),
            UiProtocolFromUiToServer::DisconnectDevice => action
                matches UiManagerAction::SendDeviceManagerEvent(
                DeviceManagerEvent::DisconnectAllDevices,
            ),
            UiProtocolFromUiToServer::ConnectTo { ip_address } => {
                &&& action matches UiManagerAction::ResolveAddress(text)
                &&& text@ == ip_address@ + ":8080"@
            },
            UiProtocolFromUiToServer::AndroidNativeSampleRate(info) => {
                &&& action is Nothing <==> decimal::parsed(info.message_to@) is None
                &&& decimal::parsed(info.message_to@) matches Some(named) ==> {
                    &&& action matches UiManagerAction::SendDeviceManagerEvent(
                        DeviceManagerEvent::UiNativeSampleRate(id, told),
                    )
                    &&& id == named
                    &&& told == info
                }
            },
        },
{
    match message {
        UiProtocolFromUiToServer::ConnectTo { ip_address } => {
            reveal_strlit(":");
            reveal_strlit(":8080");
            reveal_with_fuel(decimal::decimal_text, 5);
            assert(":"@ + decimal::decimal_text(8080) =~= ":8080"@);
            assert(json_address_text(ip_address@) =~= ip_address@ + (":"@ + decimal::decimal_text(
                8080,
            )));
        },
        _ => {},
    }
}

/// Makes a message from a value.
pub trait CreateMessage<T>: Sized {
    type Message;

    /// Message which is made from `value`.
    spec fn message_for(self, value: T) -> Self::Message;

    fn create_message(self, value: &T) -> (message: Self::Message)
        ensures
            message == self.message_for(*value),
    ;
}

/// Value which is not known yet and messages which wait for it.
pub struct ValueRequest<T, R> {
    pub value: Option<T>,
    pub request: Vec<R>,
}

impl<T, R: CreateMessage<T>> ValueRequest<T, R> {
    /// Nothing waits for a value which is known.
    pub open spec fn wf(self) -> bool {
        self.value is Some ==> self.request@.len() == 0
    }

    pub fn new() -> (request: Self)
        ensures
            request.wf(),
            request.value is None,
            request.request@.len() == 0,
    {
        Self { value: None, request: Vec::new() }
    }

    /// Make a message now if the value is known, and otherwise when it is set.
    pub fn request(&mut self, create_message: R) -> (message: Option<R::Message>)
        requires
            old(self).wf(),
        ensures
            final(self).wf(),
            final(self).value == old(self).value,
            match old(self).value {
                Some(value) => {
                    &&& message == Some(create_message.message_for(value))
                    &&& final(self).request@ == old(self).request@
                },
                None => {
                    &&& message is None
                    &&& final(self).request@ == old(self).request@.push(create_message)
                },
            },
    {
        match &self.value {
            Some(value) => Some(create_message.create_message(value)),
            None => {
                self.request.push(create_message);
                None
            },
        }
    }

    /// Set the value. Returns the messages which waited for it, in the order in
    /// which they were requested.
    pub fn set_value(&mut self, value: T) -> (messages: Vec<R::Message>)
        ensures
            final(self).wf(),
            final(self).value == Some(value),
            final(self).request@.len() == 0,
            messages@ == old(self).request@.map_values(|r: R| r.message_for(value)),
    {
        let mut waiting: Vec<R> = Vec::new();
        std::mem::swap(&mut waiting, &mut self.request);
        let ghost requests = waiting@;
        let mut messages: Vec<R::Message> = Vec::new();
        while waiting.len() > 0
            invariant
                messages@.len() + waiting@.len() == requests.len(),
                waiting@ == requests.skip(messages@.len() as int),
                forall|i: int|
                    0 <= i < messages@.len() ==> #[trigger] messages@[i] == requests[i].message_for(
                        value,
                    ),
            decreases waiting@.len(),
        {
            let next: R = waiting.remove(0);
            messages.push(next.create_message(&value));
            assert(waiting@ =~= requests.skip(messages@.len() as int));
        }
        assert(messages@ =~= requests.map_values(|r: R| r.message_for(value)));
        self.value = Some(value);
        messages
    }

    pub fn current_value(&self) -> (value: &Option<T>)
        ensures
            *value == self.value,
    {
        &self.value
    }
}

} // verus!
