//! Connections to other devices.

pub mod data;
pub mod tcp;
pub mod usb;

use vstd::prelude::*;

use self::{data::tcp::TcpDataConnectionBuilder, tcp::ListenerError};
use crate::{
    audio::{AudioEvent, PlayAudioEventAndroid},
    config::DATA_PORT_TCP,
    device::DeviceManagerEvent,
    net::{IpAddress, SocketAddress},
    ui::UiEvent,
    utils::ConnectionId,
};

verus! {

/// Event to `ConnectionManager`. `J` is the stream of a JSON connection and `D`
/// is the stream of a data connection.
#[derive(Debug)]
#[allow(inconsistent_fields)]
pub enum ConnectionManagerEvent<J, D> {
    /// Starts TCP listener task. JSON and data connections will be listened.
    StartTcpListener,
    /// Stop TCP listener task.
    StopTcpListener,
    /// Connect to another Jonect instance which is listening new connections.
    ConnectTo { address: SocketAddress },
    /// Connect to another Jonect instance's data port.
    ConnectToData {
        id: ConnectionId,
        next_resource_request: NextResourceRequest,
        data_connection_type: DataConnectionType,
    },
    RemoveDataConnections { id: ConnectionId },
    SetNextResourceRequest {
        id: ConnectionId,
        next_resource_request: NextResourceRequest,
        data_connection_type: DataConnectionType,
    },
    Internal(CmInternalEventWrapper<J, D>),
}

impl<J, D> From<CmInternalEvent<J, D>> for ConnectionManagerEvent<J, D> {
    fn from(e: CmInternalEvent<J, D>) -> Self {
        Self::Internal(CmInternalEventWrapper(e))
    }
}

impl<J, D> vstd::std_specs::convert::FromSpecImpl<CmInternalEvent<J, D>> for ConnectionManagerEvent<J, D> {
    open spec fn obeys_from_spec() -> bool {
        true
    }

    open spec fn from_spec(e: CmInternalEvent<J, D>) -> Self {
        ConnectionManagerEvent::Internal(CmInternalEventWrapper(e))
    }
}

/// Event which only connection code makes.
#[derive(Debug)]
pub struct CmInternalEventWrapper<J, D>(pub CmInternalEvent<J, D>);

#[derive(Debug)]
#[allow(inconsistent_fields)]
pub enum CmInternalEvent<J, D> {
    ListenerError(ListenerError),
    /// Listening for the JSON stream of USB connections is not possible.
    UsbTcpListenerError(ListenerError),
    NewJsonStream { stream: J, address: SocketAddress, usb: bool },
    NewDataStream(D, SocketAddress),
}

#[derive(Debug, Clone, Copy, PartialEq, Eq, Structural)]
pub struct ResourceHandle {
    pub connection_id: ConnectionId,
}

/// Which connections use audio. A resource has at most one user at a time.
#[derive(Debug, Clone, Copy, PartialEq, Eq, Structural)]
pub struct ResourceManager {
    /// Connection which plays audio. `AudioEvent::StopPlayingAudio` ends it.
    pub play_audio: Option<ResourceHandle>,
    /// Connection which sends audio. `AudioEvent::StopRecording` ends it.
    pub send_audio: Option<ResourceHandle>,
}

/// Which audio events to send when a connection gives up its resources.
/// `StopAudioEvents::in_order` gives the events.
#[derive(Debug, Clone, Copy, PartialEq, Eq, Structural)]
pub struct StopAudioEvents {
    /// Send `AudioEvent::StopPlayingAudio`.
    pub stop_playing_audio: bool,
    /// Send `AudioEvent::StopRecording`.
    pub stop_recording: bool,
}

impl StopAudioEvents {
    /// The events in the order in which they are sent. Playing stops before
    /// recording.
    pub open spec fn events<S>(self) -> Seq<AudioEvent<S>> {
        let stop_playing_audio = if self.stop_playing_audio {
            seq![AudioEvent::StopPlayingAudio]
        } else {
            Seq::empty()
        };
        let stop_recording = if self.stop_recording {
            seq![AudioEvent::StopRecording]
        } else {
            Seq::empty()
        };
        stop_playing_audio + stop_recording
    }

    /// The events in the order in which they are sent.
    pub fn in_order<S>(self) -> (events: Vec<AudioEvent<S>>)
        ensures
            events@ == self.events::<S>(),
            events@.len() == if self.stop_playing_audio {
                1int
            } else {
                0
            } + if self.stop_recording {
                1int
            } else {
                0
            },
            self.stop_playing_audio ==> events@.first() == AudioEvent::<S>::StopPlayingAudio,
            self.stop_recording ==> events@.last() == AudioEvent::<S>::StopRecording,
    {
        let mut events: Vec<AudioEvent<S>> = Vec::new();
        if self.stop_playing_audio {
            events.push(AudioEvent::StopPlayingAudio);
        }
        if self.stop_recording {
            events.push(AudioEvent::StopRecording);
        }
        assert(events@ =~= self.events::<S>());
        events
    }
}

impl ResourceManager {
    /// Does connection `id` play audio.
    pub open spec fn plays(self, id: ConnectionId) -> bool {
        self.play_audio == Some(ResourceHandle { connection_id: id })
    }

    /// Does connection `id` send audio.
    pub open spec fn sends(self, id: ConnectionId) -> bool {
        self.send_audio == Some(ResourceHandle { connection_id: id })
    }

    /// Resources after connection `id` has given its resources up.
    pub open spec fn without(self, id: ConnectionId) -> ResourceManager {
        ResourceManager {
            play_audio: if self.plays(id) {
                None
            } else {
                self.play_audio
            },
            send_audio: if self.sends(id) {
                None
            } else {
                self.send_audio
            },
        }
    }

    pub fn new() -> (manager: Self)
        ensures
            manager.play_audio is None,
            manager.send_audio is None,
    {
        Self { play_audio: None, send_audio: None }
    }

    pub fn connect_play_audio(&mut self, id: ConnectionId) -> (result: Result<(), ()>)
        ensures
            result is Ok <==> old(self).play_audio is None,
            *final(self) == if result is Ok {
                ResourceManager {
                    play_audio: Some(ResourceHandle { connection_id: id }),
                    ..*old(self)
                }
            } else {
                *old(self)
            },
    {
        if self.play_audio.is_some() {
            return Err(());
        }
        self.play_audio = Some(ResourceHandle { connection_id: id });
        Ok(())
    }

    pub fn connect_send_audio(&mut self, id: ConnectionId) -> (result: Result<(), ()>)
        ensures
            result is Ok <==> old(self).send_audio is None,
            *final(self) == if result is Ok {
                ResourceManager {
                    send_audio: Some(ResourceHandle { connection_id: id }),
                    ..*old(self)
                }
            } else {
                *old(self)
            },
    {
        if self.send_audio.is_some() {
            return Err(());
        }
        self.send_audio = Some(ResourceHandle { connection_id: id });
        Ok(())
    }

    /// Give up the resources of connection `id`. Send the returned events in the
    /// order of `StopAudioEvents::in_order`.
    pub fn request_disconnect_resources_for(&mut self, id: ConnectionId) -> (events: StopAudioEvents)
        ensures
            *final(self) == old(self).without(id),
            events.stop_playing_audio == old(self).plays(id),
            events.stop_recording == old(self).sends(id),
            events.stop_playing_audio == (old(self).play_audio matches Some(handle)
                && handle.connection_id == id),
            events.stop_recording == (old(self).send_audio matches Some(handle)
                && handle.connection_id == id),
            final(self).play_audio == if events.stop_playing_audio {
                None
            } else {
                old(self).play_audio
            },
            final(self).send_audio == if events.stop_recording {
                None
            } else {
                old(self).send_audio
            },
    {
        let mut events = StopAudioEvents { stop_playing_audio: false, stop_recording: false };
        match self.play_audio {
            Some(handle) => {
                if handle.connection_id == id {
                    self.play_audio = None;
                    events.stop_playing_audio = true;
                }
            },
            None => {},
        }
        match self.send_audio {
            Some(handle) => {
                if handle.connection_id == id {
                    self.send_audio = None;
                    events.stop_recording = true;
                }
            },
            None => {},
        }
        events
    }
}

/// What the next data connection of a device is for.
#[derive(Debug, Clone, Copy, PartialEq, Eq, Structural)]
#[allow(inconsistent_fields)]
pub enum NextResourceRequest {
    PlayAudio {
        sample_rate: i32,
        android_info: Option<PlayAudioEventAndroid>,
        decode_opus: bool,
    },
    SendAudio { sample_rate: u32 },
}

#[derive(Debug, Clone, Copy, PartialEq, Eq, Structural)]
pub enum DataConnectionType {
    Tcp,
    Udp,
}

/// Data connections of one device. `D` is the stream of a data connection.
pub struct ConnectionResources<D> {
    pub id: ConnectionId,
    pub ip: IpAddress,
    pub pending_data_connection_tcp: Option<D>,
    pub next_resource_request: Option<(NextResourceRequest, DataConnectionType)>,
}

impl<D> ConnectionResources<D> {
    /// The request which a pending TCP connection would serve.
    pub open spec fn tcp_request(self) -> Option<NextResourceRequest> {
        match self.next_resource_request {
            Some((request, DataConnectionType::Tcp)) => Some(request),
            _ => None,
        }
    }

    /// Audio event which a pending TCP connection makes, if the resource is not
    /// in use.
    pub open spec fn audio_event(self, resource_manager: ResourceManager) -> Option<
        AudioEvent<TcpDataConnectionBuilder<D>>,
    > {
        match (self.tcp_request(), self.pending_data_connection_tcp) {
            (
                Some(NextResourceRequest::SendAudio { sample_rate }),
                Some(stream),
            ) if resource_manager.send_audio is None => Some(
                AudioEvent::StartRecording {
                    send_handle: TcpDataConnectionBuilder { tcp_stream: stream, nonblocking: true },
                    sample_rate,
                },
            ),
            (
                Some(NextResourceRequest::PlayAudio { sample_rate, android_info, decode_opus }),
                Some(stream),
            ) if resource_manager.play_audio is None => Some(
                AudioEvent::PlayAudio {
                    send_handle: TcpDataConnectionBuilder {
                        tcp_stream: stream,
                        nonblocking: false,
                    },
                    sample_rate,
                    android_info,
                    decode_opus,
                },
            ),
            _ => None,
        }
    }

    /// Resources in use after the pending TCP connection is handled.
    pub open spec fn resources_after(self, resource_manager: ResourceManager) -> ResourceManager {
        let handle = Some(ResourceHandle { connection_id: self.id });
        match self.audio_event(resource_manager) {
            Some(AudioEvent::StartRecording { .. }) => ResourceManager {
                send_audio: handle,
                ..resource_manager
            },
            Some(_) => ResourceManager { play_audio: handle, ..resource_manager },
            None => resource_manager,
        }
    }

    /// This after the pending TCP connection is handled. A connection which no
    /// request wants stays pending. One whose resource is in use is closed.
    pub open spec fn after_check(self) -> Self {
        if self.tcp_request() is Some {
            ConnectionResources { pending_data_connection_tcp: None, ..self }
        } else {
            self
        }
    }

    pub fn new(id: ConnectionId, ip: IpAddress) -> (resources: Self)
        ensures
            resources == (Self {
                id,
                ip,
                pending_data_connection_tcp: None,
                next_resource_request: None,
            }),
    {
        Self { id, ip, pending_data_connection_tcp: None, next_resource_request: None }
    }

    pub fn ip(&self) -> (ip: IpAddress)
        ensures
            ip == self.ip,
    {
        self.ip
    }

    pub fn set_pending_tcp_connection(&mut self, tcp_stream: D)
        ensures
            *final(self) == (Self { pending_data_connection_tcp: Some(tcp_stream), ..*old(self) }),
    {
        self.pending_data_connection_tcp = Some(tcp_stream);
    }

    /// Serve the request with the pending TCP connection, if there are both.
    pub fn check_next_resource_request(&mut self, resource_manager: &mut ResourceManager) -> (event:
        Option<AudioEvent<TcpDataConnectionBuilder<D>>>)
        requires
            old(self).tcp_request() is Some || old(self).pending_data_connection_tcp is Some,
        ensures
            event == old(self).audio_event(*old(resource_manager)),
            *final(self) == old(self).after_check(),
            *final(resource_manager) == old(self).resources_after(*old(resource_manager)),
    {
        match (self.next_resource_request, self.pending_data_connection_tcp.take()) {
            (
                Some((NextResourceRequest::SendAudio { sample_rate }, DataConnectionType::Tcp)),
                Some(stream),
            ) => {
                if resource_manager.connect_send_audio(self.id).is_ok() {
                    Some(
                        AudioEvent::StartRecording {
                            send_handle: TcpDataConnectionBuilder::build_mode_send(stream),
                            sample_rate,
                        },
                    )
                } else {
                    None
                }
            },
            (
                Some(
                    (
                        NextResourceRequest::PlayAudio { sample_rate, android_info, decode_opus },
                        DataConnectionType::Tcp,
                    ),
                ),
                Some(stream),
            ) => {
                if resource_manager.connect_play_audio(self.id).is_ok() {
                    Some(
                        AudioEvent::PlayAudio {
                            send_handle: TcpDataConnectionBuilder::build_mode_receive(stream),
                            sample_rate,
                            android_info,
                            decode_opus,
                        },
                    )
                } else {
                    None
                }
            },
            (_, Some(stream)) => {
                self.pending_data_connection_tcp = Some(stream);
                None
            },
            (_, None) => None,
        }
    }

    pub fn set_next_resource_request(
        &mut self,
        request: NextResourceRequest,
        data_connection: DataConnectionType,
    )
        ensures
            *final(self) == (Self {
                next_resource_request: Some((request, data_connection)),
                ..*old(self)
            }),
    {
        self.next_resource_request = Some((request, data_connection));
    }

    pub fn send_quit_request(self, resource_manager: &mut ResourceManager) -> (events:
        StopAudioEvents)
        ensures
            *final(resource_manager) == old(resource_manager).without(self.id),
            events.stop_playing_audio == old(resource_manager).plays(self.id),
            events.stop_recording == old(resource_manager).sends(self.id),
    {
        resource_manager.request_disconnect_resources_for(self.id)
    }
}

/// What `ConnectionManager` asks for.
#[allow(inconsistent_fields)]
pub enum ConnectionManagerAction<J, D> {
    Nothing,
    StartTcpListener,
    /// Wait until the TCP listener quits.
    StopTcpListener,
    SendUiEvent(UiEvent),
    SendDeviceManagerEvent(DeviceManagerEvent<J>),
    SendAudioEvent(AudioEvent<TcpDataConnectionBuilder<D>>),
    /// Send the events in the order of `StopAudioEvents::in_order`.
    StopAudio(StopAudioEvents),
    /// Connect to a JSON port. If there is no error, send
    /// `CmInternalEvent::NewJsonStream` with the stream and the address.
    ConnectJson(SocketAddress),
    /// Connect to a data port. If there is no error, send
    /// `CmInternalEvent::NewDataStream` with the stream and the address.
    ConnectData(SocketAddress),
}

/// Is there a connection `id`.
pub open spec fn has_connection<D>(connections: Seq<ConnectionResources<D>>, id: ConnectionId) -> bool {
    exists|i: int| 0 <= i < connections.len() && #[trigger] connections[i].id == id
}

/// Position of connection `id`.
pub open spec fn position_of<D>(connections: Seq<ConnectionResources<D>>, id: ConnectionId) -> int {
    choose|i: int| 0 <= i < connections.len() && #[trigger] connections[i].id == id
}

/// Position of the newest connection from `ip`.
pub open spec fn newest_from<D>(connections: Seq<ConnectionResources<D>>, ip: IpAddress) -> Option<
    int,
>
    decreases connections.len(),
{
    if connections.len() == 0 {
        None
    } else if connections.last().ip == ip {
        Some(connections.len() - 1)
    } else {
        newest_from(connections.drop_last(), ip)
    }
}

/// State of `ConnectionManager`.
#[verifier::ext_equal]
pub struct ConnectionManagerState<D> {
    pub next_id: ConnectionId,
    /// Connections from the oldest to the newest.
    pub connections: Seq<ConnectionResources<D>>,
    pub resources: ResourceManager,
    pub listening: bool,
}

impl<D> ConnectionManagerState<D> {
    /// Connection IDs grow, the next one is larger than any before it, and
    /// resources are used only by connections which exist.
    pub open spec fn wf(self) -> bool {
        &&& forall|i: int, j: int|
            0 <= i < j < self.connections.len() ==> #[trigger] self.connections[i].id
                < #[trigger] self.connections[j].id
        &&& forall|i: int|
            0 <= i < self.connections.len() ==> #[trigger] self.connections[i].id < self.next_id
        &&& self.resources.play_audio matches Some(handle) ==> has_connection(
            self.connections,
            handle.connection_id,
        )
        &&& self.resources.send_audio matches Some(handle) ==> has_connection(
            self.connections,
            handle.connection_id,
        )
    }

    /// State in which the next data connection of `id` is for `request`.
    pub open spec fn with_request(
        self,
        id: ConnectionId,
        request: NextResourceRequest,
        data_connection_type: DataConnectionType,
    ) -> Self {
        let i = position_of(self.connections, id);
        if has_connection(self.connections, id) {
            ConnectionManagerState {
                connections: self.connections.update(
                    i,
                    ConnectionResources {
                        next_resource_request: Some((request, data_connection_type)),
                        ..self.connections[i]
                    },
                ),
                ..self
            }
        } else {
            self
        }
    }

    /// Connection at `position` when it has a new data stream.
    pub open spec fn with_stream(self, position: int, stream: D) -> ConnectionResources<D> {
        ConnectionResources {
            pending_data_connection_tcp: Some(stream),
            ..self.connections[position]
        }
    }

    /// State after `event` is handled.
    pub open spec fn after<J>(self, event: ConnectionManagerEvent<J, D>) -> Self {
        match event {
            ConnectionManagerEvent::StartTcpListener => ConnectionManagerState {
                listening: true,
                ..self
            },
            ConnectionManagerEvent::StopTcpListener => ConnectionManagerState {
                listening: false,
                ..self
            },
            ConnectionManagerEvent::ConnectTo { .. } => self,
            ConnectionManagerEvent::ConnectToData {
                id,
                next_resource_request,
                data_connection_type,
            } => self.with_request(id, next_resource_request, data_connection_type),
            ConnectionManagerEvent::SetNextResourceRequest {
                id,
                next_resource_request,
                data_connection_type,
            } => self.with_request(id, next_resource_request, data_connection_type),
            ConnectionManagerEvent::RemoveDataConnections { id } => if has_connection(
                self.connections,
                id,
            ) {
                ConnectionManagerState {
                    connections: self.connections.remove(position_of(self.connections, id)),
                    resources: self.resources.without(id),
                    ..self
                }
            } else {
                self
            },
            ConnectionManagerEvent::Internal(
                CmInternalEventWrapper(CmInternalEvent::NewJsonStream { address, .. }),
            ) => if self.next_id == u64::MAX {
                self
            } else {
                ConnectionManagerState {
                    next_id: (self.next_id + 1) as u64,
                    connections: self.connections.push(
                        ConnectionResources {
                            id: self.next_id,
                            ip: address.ip_address(),
                            pending_data_connection_tcp: None,
                            next_resource_request: None,
                        },
                    ),
                    ..self
                }
            },
            ConnectionManagerEvent::Internal(
                CmInternalEventWrapper(CmInternalEvent::NewDataStream(stream, address)),
            ) => match newest_from(self.connections, address.ip_address()) {
                Some(i) => ConnectionManagerState {
                    connections: self.connections.update(
                        i,
                        self.with_stream(i, stream).after_check(),
                    ),
                    resources: self.with_stream(i, stream).resources_after(self.resources),
                    ..self
                },
                None => self,
            },
            ConnectionManagerEvent::Internal(_) => self,
        }
    }

    /// What is asked for when `event` is handled.
    pub open spec fn action<J>(self, event: ConnectionManagerEvent<J, D>) -> ConnectionManagerAction<
        J,
        D,
    > {
        match event {
            ConnectionManagerEvent::StartTcpListener => ConnectionManagerAction::StartTcpListener,
            ConnectionManagerEvent::StopTcpListener => if self.listening {
                ConnectionManagerAction::StopTcpListener
            } else {
                ConnectionManagerAction::Nothing
            },
            ConnectionManagerEvent::ConnectTo { address } => ConnectionManagerAction::ConnectJson(
                address,
            ),
            ConnectionManagerEvent::ConnectToData { id, .. } => if has_connection(
                self.connections,
                id,
            ) {
                ConnectionManagerAction::ConnectData(
                    SocketAddress::from_parts(
                        self.connections[position_of(self.connections, id)].ip,
                        DATA_PORT_TCP,
                    ),
                )
            } else {
                ConnectionManagerAction::Nothing
            },
            ConnectionManagerEvent::SetNextResourceRequest {
                ..
            } => ConnectionManagerAction::Nothing,
            ConnectionManagerEvent::RemoveDataConnections { id } => if has_connection(
                self.connections,
                id,
            ) {
                ConnectionManagerAction::StopAudio(
                    StopAudioEvents {
                        stop_playing_audio: self.resources.plays(id),
                        stop_recording: self.resources.sends(id),
                    },
                )
            } else {
                ConnectionManagerAction::Nothing
            },
            ConnectionManagerEvent::Internal(CmInternalEventWrapper(event)) => match event {
                CmInternalEvent::ListenerError(error) => ConnectionManagerAction::SendUiEvent(
                    UiEvent::TcpSupportDisabledBecauseOfError(error),
                ),
                CmInternalEvent::UsbTcpListenerError(
                    error,
                ) => ConnectionManagerAction::SendUiEvent(
                    UiEvent::TcpSupportDisabledBecauseOfError(error),
                ),
                CmInternalEvent::NewJsonStream { stream, address, .. } => if self.next_id
                    == u64::MAX {
                    ConnectionManagerAction::Nothing
                } else {
                    ConnectionManagerAction::SendDeviceManagerEvent(
                        DeviceManagerEvent::NewDeviceConnection(
                            JsonConnection {
                                tcp: stream,
                                address,
                                json_connection_id: self.next_id,
                            },
                        ),
                    )
                },
                CmInternalEvent::NewDataStream(stream, address) => match newest_from(
                    self.connections,
                    address.ip_address(),
                ) {
                    Some(i) => match self.with_stream(i, stream).audio_event(self.resources) {
                        Some(event) => ConnectionManagerAction::SendAudioEvent(event),
                        None => ConnectionManagerAction::Nothing,
                    },
                    None => ConnectionManagerAction::Nothing,
                },
            },
        }
    }
}

/// The newest connection from an address is from that address, and later ones
/// are not.
proof fn lemma_newest_from<D>(connections: Seq<ConnectionResources<D>>, ip: IpAddress, position: int)
    requires
        0 <= position < connections.len(),
        connections[position].ip == ip,
        forall|i: int| position < i < connections.len() ==> #[trigger] connections[i].ip != ip,
    ensures
        newest_from(connections, ip) == Some(position),
    decreases connections.len(),
{
    if position < connections.len() - 1 {
        assert(connections.last().ip != ip);
        lemma_newest_from(connections.drop_last(), ip, position);
    }
}

/// There is no newest connection where there is none.
proof fn lemma_newest_from_none<D>(connections: Seq<ConnectionResources<D>>, ip: IpAddress)
    requires
        forall|i: int| 0 <= i < connections.len() ==> #[trigger] connections[i].ip != ip,
    ensures
        newest_from(connections, ip) is None,
    decreases connections.len(),
{
    if connections.len() > 0 {
        assert(connections.last().ip != ip);
        lemma_newest_from_none(connections.drop_last(), ip);
    }
}

/// The newest connection from an address is from that address.
proof fn lemma_newest_from_some<D>(connections: Seq<ConnectionResources<D>>, ip: IpAddress)
    ensures
        newest_from(connections, ip) matches Some(i) ==> {
            &&& 0 <= i < connections.len()
            &&& connections[i].ip == ip
        },
    decreases connections.len(),
{
    if connections.len() > 0 && connections.last().ip != ip {
        lemma_newest_from_some(connections.drop_last(), ip);
    }
}

/// Every event keeps the state valid: connection IDs are never used twice, and
/// resources are used only by connections which exist.
pub proof fn law_events_keep_the_state_valid<J, D>(
    state: ConnectionManagerState<D>,
    event: ConnectionManagerEvent<J, D>,
)
    requires
        state.wf(),
    ensures
        state.after(event).wf(),
        state.after(event).next_id >= state.next_id,
{
    let after = state.after(event);
    match event {
        ConnectionManagerEvent::Internal(
            CmInternalEventWrapper(CmInternalEvent::NewDataStream(_, address)),
        ) => {
            lemma_newest_from_some(state.connections, address.ip_address());
            match newest_from(state.connections, address.ip_address()) {
                Some(i) => {
                    assert(after.connections[i].id == state.connections[i].id);
                    assert(has_connection(after.connections, state.connections[i].id));
                },
                None => {},
            }
        },
        _ => {},
    }
    if event is RemoveDataConnections {
        let id = event->RemoveDataConnections_id;
        if has_connection(state.connections, id) {
            let removed = position_of(state.connections, id);
            assert forall|user: ConnectionId|
                #[trigger] has_connection(state.connections, user) && user
                    != id implies has_connection(after.connections, user) by {
                let i = position_of(state.connections, user);
                if i < removed {
                    assert(after.connections[i].id == user);
                } else {
                    assert(after.connections[i - 1].id == user);
                }
            }
        }
    } else {
        assert(forall|i: int|
            0 <= i < state.connections.len() ==> #[trigger] after.connections[i].id
                == state.connections[i].id);
        assert forall|user: ConnectionId| #[trigger]
            has_connection(state.connections, user) implies has_connection(
            after.connections,
            user,
        ) by {
            let i = position_of(state.connections, user);
            assert(after.connections[i].id == user);
        }
    }
}

/// In a valid state connections have different IDs which grow from the oldest one to the
/// newest one, none of them has the next ID, and whoever uses a resource is connected.
pub proof fn law_ids_tell_connections_apart<D>(
    state: ConnectionManagerState<D>,
    first: int,
    second: int,
)
    requires
        state.wf(),
        0 <= first < state.connections.len(),
        0 <= second < state.connections.len(),
    ensures
        first < second <==> state.connections[first].id < state.connections[second].id,
        first == second <==> state.connections[first].id == state.connections[second].id,
        state.connections[first].id < state.next_id,
        state.resources.play_audio matches Some(handle) ==> exists|i: int|
            0 <= i < state.connections.len() && #[trigger] state.connections[i].id
                == handle.connection_id,
        state.resources.send_audio matches Some(handle) ==> exists|i: int|
            0 <= i < state.connections.len() && #[trigger] state.connections[i].id
                == handle.connection_id,
{
}

/// When a connection is removed, it is gone, the resources which it used are
/// free and their audio is stopped, and other connections keep theirs.
pub proof fn law_removed_connection_uses_nothing<J, D>(
    state: ConnectionManagerState<D>,
    id: ConnectionId,
)
    requires
        state.wf(),
    ensures
        ({
            let event = ConnectionManagerEvent::<J, D>::RemoveDataConnections { id };
            let after = state.after(event);
            &&& !has_connection(after.connections, id)
            &&& !after.resources.plays(id) && !after.resources.sends(id)
            &&& forall|other: ConnectionId|
                other != id ==> {
                    &&& after.resources.plays(other) == #[trigger] state.resources.plays(other)
                    &&& after.resources.sends(other) == state.resources.sends(other)
                }
            &&& state.resources.plays(id) || state.resources.sends(id) ==> state.action(event)
                == ConnectionManagerAction::<J, D>::StopAudio(
                StopAudioEvents {
                    stop_playing_audio: state.resources.plays(id),
                    stop_recording: state.resources.sends(id),
                },
            )
        }),
{
    if has_connection(state.connections, id) {
        let removed = position_of(state.connections, id);
        assert(state.connections[removed].id == id);
    }
}

/// A request and then a data connection from the device, or a data connection
/// while the request is set, start the audio which was requested, if the resource
/// is free, and the device uses the resource then.
pub proof fn law_requested_audio_starts<J, D>(
    state: ConnectionManagerState<D>,
    id: ConnectionId,
    request: NextResourceRequest,
    stream: D,
    address: SocketAddress,
)
    requires
        state.wf(),
        has_connection(state.connections, id),
        newest_from(state.connections, address.ip_address()) == Some(
            position_of(state.connections, id),
        ),
    ensures
        ({
            let set_request = ConnectionManagerEvent::<J, D>::SetNextResourceRequest {
                id,
                next_resource_request: request,
                data_connection_type: DataConnectionType::Tcp,
            };
            let new_stream = ConnectionManagerEvent::<J, D>::Internal(
                CmInternalEventWrapper(CmInternalEvent::NewDataStream(stream, address)),
            );
            let requested = state.after(set_request);
            let started = requested.after(new_stream);
            match request {
                NextResourceRequest::SendAudio { sample_rate } => state.resources.send_audio is None
                    ==> {
                    &&& requested.action(new_stream) == ConnectionManagerAction::<
                        J,
                        D,
                    >::SendAudioEvent(
                        AudioEvent::StartRecording {
                            send_handle: TcpDataConnectionBuilder {
                                tcp_stream: stream,
                                nonblocking: true,
                            },
                            sample_rate,
                        },
                    )
                    &&& started.resources.sends(id)
                },
                NextResourceRequest::PlayAudio { sample_rate, android_info, decode_opus } =>
                    state.resources.play_audio is None ==> {
                    &&& requested.action(new_stream) == ConnectionManagerAction::<
                        J,
                        D,
                    >::SendAudioEvent(
                        AudioEvent::PlayAudio {
                            send_handle: TcpDataConnectionBuilder {
                                tcp_stream: stream,
                                nonblocking: false,
                            },
                            sample_rate,
                            android_info,
                            decode_opus,
                        },
                    )
                    &&& started.resources.plays(id)
                },
            }
        }),
{
    let requested = state.with_request(id, request, DataConnectionType::Tcp);
    let i = position_of(state.connections, id);
    lemma_newest_from_same_addresses(
        state.connections,
        requested.connections,
        address.ip_address(),
    );
}

/// Connection `id` plays or sends audio if the resource is marked with its ID. When it
/// gives its resources up, those are free, and resources of others stay in use.
pub proof fn law_resources_are_marked_with_their_user(
    resources: ResourceManager,
    id: ConnectionId,
)
    ensures
        resources.plays(id) <==> (resources.play_audio matches Some(handle)
            && handle.connection_id == id),
        resources.sends(id) <==> (resources.send_audio matches Some(handle)
            && handle.connection_id == id),
        resources.without(id).play_audio is None <==> resources.play_audio is None
            || resources.plays(id),
        resources.without(id).send_audio is None <==> resources.send_audio is None
            || resources.sends(id),
        resources.without(id).play_audio is Some ==> resources.without(id).play_audio
            == resources.play_audio,
        resources.without(id).send_audio is Some ==> resources.without(id).send_audio
            == resources.send_audio,
{
}

/// Only removing the connection which uses a resource frees it. Whatever else happens,
/// the connection goes on using it.
pub proof fn law_only_removal_frees_a_resource<J, D>(
    state: ConnectionManagerState<D>,
    event: ConnectionManagerEvent<J, D>,
    id: ConnectionId,
)
    requires
        !(event matches ConnectionManagerEvent::RemoveDataConnections { id: removed }
            && removed == id),
    ensures
        state.resources.plays(id) ==> state.after(event).resources.plays(id),
        state.resources.sends(id) ==> state.after(event).resources.sends(id),
        state.resources.play_audio == Some(ResourceHandle { connection_id: id }) ==> state.after(
            event,
        ).resources.play_audio == state.resources.play_audio,
        state.resources.send_audio == Some(ResourceHandle { connection_id: id }) ==> state.after(
            event,
        ).resources.send_audio == state.resources.send_audio,
{
}

/// A resource gets a user if and only if its audio starts, and its audio starts only
/// if it was free.
pub proof fn law_resource_is_taken_when_audio_starts<J, D>(
    state: ConnectionManagerState<D>,
    event: ConnectionManagerEvent<J, D>,
)
    ensures
        ({
            let after = state.after(event);
            let action = state.action(event);
            &&& state.resources.play_audio is None && after.resources.play_audio is Some <==> (
            action matches ConnectionManagerAction::SendAudioEvent(event) && event is PlayAudio)
            &&& state.resources.send_audio is None && after.resources.send_audio is Some <==> (
            action matches ConnectionManagerAction::SendAudioEvent(event)
                && event is StartRecording)
            &&& action is SendAudioEvent ==> event is Internal
        }),
{
}

/// A TCP connection which a request waits for serves it, if the resource is free: audio
/// starts with that connection as it was requested, and the device uses the resource.
/// If the resource is in use, the connection is closed. Without such a request it waits.
pub proof fn law_waiting_request_is_served<D>(
    connection: ConnectionResources<D>,
    resources: ResourceManager,
)
    ensures
        ({
            let event = connection.audio_event(resources);
            let after = connection.after_check();
            let new_resources = connection.resources_after(resources);
            &&& after.id == connection.id
            &&& after.ip == connection.ip
            &&& after.next_resource_request == connection.next_resource_request
            &&& event is None ==> new_resources == resources
            &&& match (connection.next_resource_request, connection.pending_data_connection_tcp) {
                (_, None) => event is None && after.pending_data_connection_tcp is None,
                (Some((request, DataConnectionType::Tcp)), Some(stream)) => {
                    &&& after.pending_data_connection_tcp is None
                    &&& match request {
                        NextResourceRequest::SendAudio { sample_rate: requested } => {
                            &&& event is Some <==> resources.send_audio is None
                            &&& event matches Some(event) ==> {
                                &&& event matches AudioEvent::StartRecording {
                                    send_handle,
                                    sample_rate,
                                }
                                &&& send_handle.tcp_stream == stream
                                &&& send_handle.nonblocking
                                &&& sample_rate == requested
                                &&& new_resources.send_audio matches Some(handle)
                                &&& handle.connection_id == connection.id
                                &&& new_resources.play_audio == resources.play_audio
                            }
                        },
                        NextResourceRequest::PlayAudio {
                            sample_rate: requested,
                            android_info: requested_info,
                            decode_opus: requested_opus,
                        } => {
                            &&& event is Some <==> resources.play_audio is None
                            &&& event matches Some(event) ==> {
                                &&& event matches AudioEvent::PlayAudio {
                                    send_handle,
                                    sample_rate,
                                    android_info,
                                    decode_opus,
                                }
                                &&& send_handle.tcp_stream == stream
                                &&& !send_handle.nonblocking
                                &&& sample_rate == requested
                                &&& android_info == requested_info
                                &&& decode_opus == requested_opus
                                &&& new_resources.play_audio matches Some(handle)
                                &&& handle.connection_id == connection.id
                                &&& new_resources.send_audio == resources.send_audio
                            }
                        },
                    }
                },
                (_, Some(stream)) => event is None && after.pending_data_connection_tcp == Some(
                    stream,
                ),
            }
        }),
{
}

/// A new data connection belongs to the newest device connection from its address. Only
/// that one is handled, and if there is none, nothing happens.
pub proof fn law_data_connection_goes_to_the_newest_device<J, D>(
    state: ConnectionManagerState<D>,
    stream: D,
    address: SocketAddress,
    newest: int,
)
    requires
        0 <= newest < state.connections.len() ==> {
            &&& state.connections[newest].ip == address.ip_address()
            &&& forall|i: int|
                newest < i < state.connections.len() ==> (#[trigger] state.connections[i]).ip
                    != address.ip_address()
        },
        !(0 <= newest < state.connections.len()) ==> forall|i: int|
            0 <= i < state.connections.len() ==> (#[trigger] state.connections[i]).ip
                != address.ip_address(),
    ensures
        ({
            let event = ConnectionManagerEvent::<J, D>::Internal(
                CmInternalEventWrapper(CmInternalEvent::NewDataStream(stream, address)),
            );
            let after = state.after(event);
            &&& after.next_id == state.next_id
            &&& after.listening == state.listening
            &&& after.connections.len() == state.connections.len()
            &&& forall|i: int|
                0 <= i < state.connections.len() && i != newest ==> #[trigger] after.connections[i]
                    == state.connections[i]
            &&& if 0 <= newest < state.connections.len() {
                let connection = ConnectionResources {
                    pending_data_connection_tcp: Some(stream),
                    ..state.connections[newest]
                };
                &&& after.connections[newest] == connection.after_check()
                &&& after.resources == connection.resources_after(state.resources)
                &&& state.action(event) == match connection.audio_event(state.resources) {
                    Some(event) => ConnectionManagerAction::<J, D>::SendAudioEvent(event),
                    None => ConnectionManagerAction::<J, D>::Nothing,
                }
            } else {
                &&& after.resources == state.resources
                &&& state.action(event) == ConnectionManagerAction::<J, D>::Nothing
            }
        }),
{
    if 0 <= newest < state.connections.len() {
        lemma_newest_from(state.connections, address.ip_address(), newest);
    } else {
        lemma_newest_from_none(state.connections, address.ip_address());
    }
}

/// A new device connection gets an ID which no connection has had, is known by the
/// address it comes from, and is handed to the device manager with its stream. Other
/// connections stay as they are. When there are no IDs left, nothing happens.
pub proof fn law_new_device_gets_a_new_id<J, D>(
    state: ConnectionManagerState<D>,
    stream: J,
    address: SocketAddress,
    usb: bool,
)
    ensures
        ({
            let event = ConnectionManagerEvent::<J, D>::Internal(
                CmInternalEventWrapper(CmInternalEvent::NewJsonStream { stream, address, usb }),
            );
            let after = state.after(event);
            &&& after.resources == state.resources
            &&& after.listening == state.listening
            &&& if state.next_id == u64::MAX {
                &&& after.next_id == state.next_id
                &&& after.connections == state.connections
                &&& state.action(event) == ConnectionManagerAction::<J, D>::Nothing
            } else {
                &&& after.next_id == state.next_id + 1
                &&& after.connections.len() == state.connections.len() + 1
                &&& after.connections.drop_last() == state.connections
                &&& after.connections.last().id == state.next_id
                &&& after.connections.last().ip == address.ip_address()
                &&& after.connections.last().pending_data_connection_tcp is None
                &&& after.connections.last().next_resource_request is None
                &&& state.action(event) matches ConnectionManagerAction::SendDeviceManagerEvent(
                    DeviceManagerEvent::NewDeviceConnection(connection),
                )
                &&& connection.tcp == stream
                &&& connection.address == address
                &&& connection.json_connection_id == state.next_id
            }
        }),
{
    let event = ConnectionManagerEvent::<J, D>::Internal(
        CmInternalEventWrapper(CmInternalEvent::NewJsonStream { stream, address, usb }),
    );
    if state.next_id != u64::MAX {
        assert(state.after(event).connections.drop_last() =~= state.connections);
    }
}

/// A request is for the device which it names: the next data connection of that device
/// serves it, and nothing else changes. When the program makes the data connection
/// itself, it is made to the data port at the address of the device.
pub proof fn law_request_is_for_the_named_device<J, D>(
    state: ConnectionManagerState<D>,
    id: ConnectionId,
    request: NextResourceRequest,
    data_connection_type: DataConnectionType,
    position: int,
)
    requires
        state.wf(),
        0 <= position < state.connections.len() ==> state.connections[position].id == id,
        !(0 <= position < state.connections.len()) ==> forall|i: int|
            0 <= i < state.connections.len() ==> (#[trigger] state.connections[i]).id != id,
    ensures
        ({
            let set_request = ConnectionManagerEvent::<J, D>::SetNextResourceRequest {
                id,
                next_resource_request: request,
                data_connection_type,
            };
            let connect = ConnectionManagerEvent::<J, D>::ConnectToData {
                id,
                next_resource_request: request,
                data_connection_type,
            };
            let after = state.after(set_request);
            &&& state.after(connect) == after
            &&& state.action(set_request) == ConnectionManagerAction::<J, D>::Nothing
            &&& after.next_id == state.next_id
            &&& after.resources == state.resources
            &&& after.listening == state.listening
            &&& after.connections.len() == state.connections.len()
            &&& forall|i: int|
                0 <= i < state.connections.len() && i != position
                    ==> #[trigger] after.connections[i] == state.connections[i]
            &&& if 0 <= position < state.connections.len() {
                let before = state.connections[position];
                &&& after.connections[position].id == id
                &&& after.connections[position].ip == before.ip
                &&& after.connections[position].pending_data_connection_tcp
                    == before.pending_data_connection_tcp
                &&& after.connections[position].next_resource_request == Some(
                    (request, data_connection_type),
                )
                &&& state.action(connect) matches ConnectionManagerAction::ConnectData(address)
                &&& address.ip_address() == before.ip
                &&& address.port_number() == 8082
            } else {
                state.action(connect) == ConnectionManagerAction::<J, D>::Nothing
            }
        }),
{
    if 0 <= position < state.connections.len() {
        assert(has_connection(state.connections, id));
    }
}

/// Removing a connection takes just that connection away, and removing one which does
/// not exist changes nothing.
pub proof fn law_removal_takes_one_connection_away<J, D>(
    state: ConnectionManagerState<D>,
    id: ConnectionId,
    position: int,
)
    requires
        state.wf(),
        0 <= position < state.connections.len() ==> state.connections[position].id == id,
        !(0 <= position < state.connections.len()) ==> forall|i: int|
            0 <= i < state.connections.len() ==> (#[trigger] state.connections[i]).id != id,
    ensures
        ({
            let event = ConnectionManagerEvent::<J, D>::RemoveDataConnections { id };
            let after = state.after(event);
            &&& after.next_id == state.next_id
            &&& after.listening == state.listening
            &&& if 0 <= position < state.connections.len() {
                &&& after.connections == state.connections.take(position)
                    + state.connections.skip(position + 1)
                &&& state.action(event) matches ConnectionManagerAction::StopAudio(events)
                &&& events.stop_playing_audio <==> state.resources.plays(id)
                &&& events.stop_recording <==> state.resources.sends(id)
            } else {
                &&& after.connections == state.connections
                &&& after.resources == state.resources
                &&& state.action(event) == ConnectionManagerAction::<J, D>::Nothing
            }
        }),
{
    if 0 <= position < state.connections.len() {
        assert(has_connection(state.connections, id));
        assert(position_of(state.connections, id) == position);
        assert(state.connections.remove(position) =~= state.connections.take(position)
            + state.connections.skip(position + 1));
    }
}

/// Listening starts and stops when it is asked for, and at no other time. A listener is
/// stopped only if there is one. Connecting to a device and listener errors change
/// nothing here.
pub proof fn law_listening_follows_the_requests<J, D>(
    state: ConnectionManagerState<D>,
    event: ConnectionManagerEvent<J, D>,
)
    ensures
        event is StartTcpListener ==> {
            &&& state.after(event).listening
            &&& state.action(event) is StartTcpListener
        },
        event is StopTcpListener ==> {
            &&& !state.after(event).listening
            &&& state.action(event) is StopTcpListener <==> state.listening
            &&& state.action(event) is Nothing <==> !state.listening
        },
        !(event is StartTcpListener) && !(event is StopTcpListener) ==> state.after(event).listening
            == state.listening,
        event is StartTcpListener || event is StopTcpListener || event is ConnectTo || (event
            matches ConnectionManagerEvent::Internal(CmInternalEventWrapper(event)) && (event
            is ListenerError || event is UsbTcpListenerError)) ==> {
            &&& state.after(event).connections == state.connections
            &&& state.after(event).resources == state.resources
            &&& state.after(event).next_id == state.next_id
        },
        event matches ConnectionManagerEvent::ConnectTo { address } ==> (state.action(event)
            matches ConnectionManagerAction::ConnectJson(target) && target == address),
        event matches ConnectionManagerEvent::Internal(
            CmInternalEventWrapper(
                CmInternalEvent::ListenerError(error) | CmInternalEvent::UsbTcpListenerError(error),
            ),
        ) ==> (state.action(event) matches ConnectionManagerAction::SendUiEvent(
            UiEvent::TcpSupportDisabledBecauseOfError(told),
        ) && told == error),
{
}

/// An internal event reaches the connection manager as it is.
pub proof fn law_internal_event_is_passed_on<J, D>(event: CmInternalEvent<J, D>)
    ensures
        <ConnectionManagerEvent<J, D> as vstd::std_specs::convert::FromSpec<CmInternalEvent<J, D>>>::from_spec(event)
            == ConnectionManagerEvent::<J, D>::Internal(CmInternalEventWrapper(event)),
{
}

/// When a connection stops both playing and recording, playing stops first. What was not
/// in use is not stopped.
pub proof fn law_playing_stops_before_recording<S>(stop: StopAudioEvents)
    ensures
        stop.stop_playing_audio && stop.stop_recording ==> stop.events::<S>() == seq![
            AudioEvent::<S>::StopPlayingAudio,
            AudioEvent::<S>::StopRecording,
        ],
        stop.stop_playing_audio && !stop.stop_recording ==> stop.events::<S>() == seq![
            AudioEvent::<S>::StopPlayingAudio,
        ],
        !stop.stop_playing_audio && stop.stop_recording ==> stop.events::<S>() == seq![
            AudioEvent::<S>::StopRecording,
        ],
        !stop.stop_playing_audio && !stop.stop_recording ==> stop.events::<S>().len() == 0,
{
}

/// The newest connection depends only on the addresses.
proof fn lemma_newest_from_same_addresses<D>(
    first: Seq<ConnectionResources<D>>,
    second: Seq<ConnectionResources<D>>,
    ip: IpAddress,
)
    requires
        first.len() == second.len(),
        forall|i: int| 0 <= i < first.len() ==> (#[trigger] first[i]).ip == second[i].ip,
    ensures
        newest_from(first, ip) == newest_from(second, ip),
    decreases first.len(),
{
    if first.len() > 0 {
        assert(first.last().ip == second.last().ip);
        lemma_newest_from_same_addresses(first.drop_last(), second.drop_last(), ip);
    }
}

/// Connects devices and gives their data connections to those who use them.
pub struct ConnectionManager<D> {
    next_json_connection_id: ConnectionId,
    json_connections: Vec<ConnectionResources<D>>,
    resource_manager: ResourceManager,
    listening: bool,
}

impl<D> View for ConnectionManager<D> {
    type V = ConnectionManagerState<D>;

    closed spec fn view(&self) -> ConnectionManagerState<D> {
        ConnectionManagerState {
            next_id: self.next_json_connection_id,
            connections: self.json_connections@,
            resources: self.resource_manager,
            listening: self.listening,
        }
    }
}

impl<D> ConnectionManager<D> {
    pub fn new() -> (manager: Self)
        ensures
            manager@.wf(),
            manager@ == (ConnectionManagerState::<D> {
                next_id: 0,
                connections: Seq::empty(),
                resources: ResourceManager { play_audio: None, send_audio: None },
                listening: false,
            }),
    {
        Self {
            next_json_connection_id: 0,
            json_connections: Vec::new(),
            resource_manager: ResourceManager::new(),
            listening: false,
        }
    }

    /// Position of connection `id`.
    fn position(&self, id: ConnectionId) -> (position: Option<usize>)
        requires
            self@.wf(),
        ensures
            match position {
                Some(i) => {
                    &&& has_connection(self@.connections, id)
                    &&& i < self.json_connections@.len()
                    &&& i == position_of(self@.connections, id)
                },
                None => !has_connection(self@.connections, id),
            },
    {
        let mut i: usize = 0;
        while i < self.json_connections.len()
            invariant
                i <= self.json_connections.len(),
                self@.wf(),
                forall|j: int| 0 <= j < i ==> (#[trigger] self@.connections[j]).id != id,
            decreases self.json_connections.len() - i,
        {
            if self.json_connections[i].id == id {
                assert(self@.connections[i as int].id == id);
                return Some(i);
            }
            i += 1;
        }
        None
    }

    /// Position of the newest connection from `ip`.
    fn newest_position(&self, ip: IpAddress) -> (position: Option<usize>)
        ensures
            match position {
                Some(i) => {
                    &&& i < self.json_connections@.len()
                    &&& newest_from(self@.connections, ip) == Some(i as int)
                },
                None => newest_from(self@.connections, ip) is None,
            },
    {
        let mut i: usize = self.json_connections.len();
        while i > 0
            invariant
                i <= self.json_connections.len(),
                forall|j: int|
                    i <= j < self.json_connections@.len() ==> (#[trigger] self@.connections[j]).ip
                        != ip,
            decreases i,
        {
            i -= 1;
            if self.json_connections[i].ip() == ip {
                proof {
                    lemma_newest_from(self@.connections, ip, i as int);
                }
                return Some(i);
            }
        }
        proof {
            lemma_newest_from_none(self@.connections, ip);
        }
        None
    }

    /// Set what the next data connection of `id` is for. Returns the address of
    /// the device.
    fn set_next_resource_request(
        &mut self,
        id: ConnectionId,
        request: NextResourceRequest,
        data_connection_type: DataConnectionType,
    ) -> (ip: Option<IpAddress>)
        requires
            old(self)@.wf(),
        ensures
            final(self)@ == old(self)@.with_request(id, request, data_connection_type),
            ip == if has_connection(old(self)@.connections, id) {
                Some(old(self)@.connections[position_of(old(self)@.connections, id)].ip)
            } else {
                None
            },
    {
        match self.position(id) {
            Some(i) => {
                let connection = &mut self.json_connections[i];
                connection.set_next_resource_request(request, data_connection_type);
                let ip = connection.ip();
                Some(ip)
            },
            None => None,
        }
    }

    /// Handle `ConnectionManagerEvent`. Only TCP data connections can be made.
    pub fn handle_cm_event<J>(&mut self, event: ConnectionManagerEvent<J, D>) -> (action:
        ConnectionManagerAction<J, D>)
        requires
            old(self)@.wf(),
            event matches ConnectionManagerEvent::ConnectToData { data_connection_type, .. }
                ==> data_connection_type == DataConnectionType::Tcp,
        ensures
            final(self)@.wf(),
            final(self)@ == old(self)@.after(event),
            action == old(self)@.action(event),
            !(event is RemoveDataConnections) ==> {
                &&& old(self)@.resources.play_audio is Some ==> final(self)@.resources.play_audio
                    == old(self)@.resources.play_audio
                &&& old(self)@.resources.send_audio is Some ==> final(self)@.resources.send_audio
                    == old(self)@.resources.send_audio
            },
            event matches ConnectionManagerEvent::RemoveDataConnections { id } ==> {
                &&& final(self)@.resources.play_audio == if old(self)@.resources.play_audio == Some(
                    ResourceHandle { connection_id: id },
                ) {
                    None
                } else {
                    old(self)@.resources.play_audio
                }
                &&& final(self)@.resources.send_audio == if old(self)@.resources.send_audio == Some(
                    ResourceHandle { connection_id: id },
                ) {
                    None
                } else {
                    old(self)@.resources.send_audio
                }
            },
    {
        proof {
            law_events_keep_the_state_valid(self@, event);
        }
        match event {
            ConnectionManagerEvent::StartTcpListener => {
                self.listening = true;
                ConnectionManagerAction::StartTcpListener
            },
            ConnectionManagerEvent::StopTcpListener => {
                let listening = self.listening;
                self.listening = false;
                if listening {
                    ConnectionManagerAction::StopTcpListener
                } else {
                    ConnectionManagerAction::Nothing
                }
            },
            ConnectionManagerEvent::Internal(CmInternalEventWrapper(event)) => match event {
                CmInternalEvent::ListenerError(error)
                | CmInternalEvent::UsbTcpListenerError(error) => {
                    ConnectionManagerAction::SendUiEvent(
                        UiEvent::TcpSupportDisabledBecauseOfError(error),
                    )
                },
                CmInternalEvent::NewJsonStream { stream, address, .. } => {
                    let id: ConnectionId = self.next_json_connection_id;
                    self.next_json_connection_id =
                    match id.checked_add(1) {
                        Some(new_next_id) => new_next_id,
                        // There are no new connection ID numbers.
                        None => {
                            return ConnectionManagerAction::Nothing;
                        },
                    };

                    self.json_connections.push(ConnectionResources::new(id, address.ip()));

                    let connection = JsonConnection::new(stream, address, id);
                    ConnectionManagerAction::SendDeviceManagerEvent(
                        DeviceManagerEvent::NewDeviceConnection(connection),
                    )
                },
                CmInternalEvent::NewDataStream(stream, address) => {
                    match self.newest_position(address.ip()) {
                        Some(i) => {
                            let connection = &mut self.json_connections[i];
                            connection.set_pending_tcp_connection(stream);
                            match connection.check_next_resource_request(
                                &mut self.resource_manager,
                            ) {
                                Some(event) => ConnectionManagerAction::SendAudioEvent(event),
                                None => ConnectionManagerAction::Nothing,
                            }
                        },
                        None => ConnectionManagerAction::Nothing,
                    }
                },
            },
            ConnectionManagerEvent::ConnectTo { address } => ConnectionManagerAction::ConnectJson(
                address,
            ),
            ConnectionManagerEvent::ConnectToData {
                id,
                next_resource_request,
                data_connection_type,
            } => {
                match self.set_next_resource_request(
                    id,
                    next_resource_request,
                    data_connection_type,
                ) {
                    Some(ip) => ConnectionManagerAction::ConnectData(
                        SocketAddress::new(ip, DATA_PORT_TCP),
                    ),
                    None => ConnectionManagerAction::Nothing,
                }
            },
            ConnectionManagerEvent::RemoveDataConnections { id } => match self.position(id) {
                Some(i) => {
                    let connection = self.json_connections.remove(i);
                    let events = connection.send_quit_request(&mut self.resource_manager);
                    ConnectionManagerAction::StopAudio(events)
                },
                None => ConnectionManagerAction::Nothing,
            },
            ConnectionManagerEvent::SetNextResourceRequest {
                id,
                next_resource_request,
                data_connection_type,
            } => {
                self.set_next_resource_request(id, next_resource_request, data_connection_type);
                ConnectionManagerAction::Nothing
            },
        }
    }

    /// Handle a quit request. Returns true if the TCP listener should quit too.
    pub fn quit(self) -> (stop_listener: bool)
        ensures
            stop_listener == self@.listening,
    {
        self.listening
    }
}

/// JSON connection to a device.
#[derive(Debug)]
pub struct JsonConnection<J> {
    pub tcp: J,
    pub address: SocketAddress,
    pub json_connection_id: ConnectionId,
}

impl<J> JsonConnection<J> {
    pub fn new(tcp: J, address: SocketAddress, json_connection_id: ConnectionId) -> (connection: Self)
        ensures
            connection == (Self { tcp, address, json_connection_id }),
    {
        Self { address, json_connection_id, tcp }
    }

    pub fn id(&self) -> (id: u64)
        ensures
            id == self.json_connection_id,
    {
        self.json_connection_id
    }
}

} // verus!
