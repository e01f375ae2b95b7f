//! Connect devices (clients) to the server.

pub mod data;
pub mod protocol;
pub mod state;

use vstd::prelude::*;

use self::state::DeviceEvent;
use crate::{connection::JsonConnection, ui::AndroidAudioInfo, utils::ConnectionId};

verus! {

/// Device manager events. `J` is the stream of a device connection.
#[derive(Debug)]
pub enum DeviceManagerEvent<J> {
    RunDeviceConnectionPing,
    NewDeviceConnection(JsonConnection<J>),
    UiNativeSampleRate(ConnectionId, AndroidAudioInfo),
    DisconnectAllDevices,
}

/// `DeviceManager`'s internal event type.
#[derive(Debug)]
pub enum DeviceManagerInternalEvent<J> {
    PublicEvent(DeviceManagerEvent<J>),
    RemoveConnection(ConnectionId),
}

/// Wrapper for `DeviceManagerInternalEvent`.
#[derive(Debug)]
pub struct DmEvent<J> {
    pub value: DeviceManagerInternalEvent<J>,
}

impl<J> From<DeviceManagerEvent<J>> for DmEvent<J> {
    fn from(e: DeviceManagerEvent<J>) -> Self {
        Self { value: DeviceManagerInternalEvent::PublicEvent(e) }
    }
}

impl<J> vstd::std_specs::convert::FromSpecImpl<DeviceManagerEvent<J>> for DmEvent<J> {
    open spec fn obeys_from_spec() -> bool {
        true
    }

    open spec fn from_spec(e: DeviceManagerEvent<J>) -> Self {
        DmEvent { value: DeviceManagerInternalEvent::PublicEvent(e) }
    }
}

impl<J> From<DeviceManagerInternalEvent<J>> for DmEvent<J> {
    fn from(value: DeviceManagerInternalEvent<J>) -> Self {
        Self { value }
    }
}

impl<J> vstd::std_specs::convert::FromSpecImpl<DeviceManagerInternalEvent<J>> for DmEvent<J> {
    open spec fn obeys_from_spec() -> bool {
        true
    }

    open spec fn from_spec(value: DeviceManagerInternalEvent<J>) -> Self {
        DmEvent { value }
    }
}

/// What `DeviceManager` asks for.
#[allow(inconsistent_fields)]
pub enum DeviceManagerAction<J> {
    Nothing,
    /// Send the event to every device.
    SendToAll(DeviceEvent),
    /// Send the event to one device.
    SendTo(ConnectionId, DeviceEvent),
    /// Start a task for the device.
    StartDevice(JsonConnection<J>),
    /// Wait until the task of the device quits. Then ask the connection manager
    /// to remove the data connections of the device.
    QuitDevice(ConnectionId),
}

/// Logic for connecting devices (clients) to the server.
pub struct DeviceManager {
    /// Connected devices.
    pub connections: Vec<ConnectionId>,
    pub enable_ping: bool,
}

impl DeviceManager {
    /// No device is twice in the list.
    pub open spec fn wf(self) -> bool {
        self.connections@.no_duplicates()
    }

    /// Event which can be handled. A device which is removed is in the list.
    pub open spec fn accepts<J>(self, event: DmEvent<J>) -> bool {
        event.value matches DeviceManagerInternalEvent::RemoveConnection(id)
            ==> self.connections@.contains(id)
    }

    pub fn new(enable_ping: bool) -> (manager: Self)
        ensures
            manager.wf(),
            manager.connections@ == Seq::<ConnectionId>::empty(),
            manager.enable_ping == enable_ping,
    {
        Self { connections: Vec::new(), enable_ping }
    }

    /// Position of a device in the list.
    fn position(&self, id: ConnectionId) -> (position: Option<usize>)
        ensures
            match position {
                Some(position) => position < self.connections@.len()
                    && self.connections@[position as int] == id,
                None => !self.connections@.contains(id),
            },
    {
        let mut i: usize = 0;
        while i < self.connections.len()
            invariant
                i <= self.connections.len(),
                forall|j: int| 0 <= j < i ==> self.connections@[j] != id,
            decreases self.connections.len() - i,
        {
            if self.connections[i] == id {
                return Some(i);
            }
            i += 1;
        }
        None
    }

    /// Is the device connected.
    pub fn is_connected(&self, id: ConnectionId) -> (connected: bool)
        ensures
            connected == self.connections@.contains(id),
    {
        self.position(id).is_some()
    }

    /// Handle `DmEvent`.
    pub fn handle_dm_event<J>(&mut self, event: DmEvent<J>) -> (action: DeviceManagerAction<J>)
        requires
            old(self).wf(),
            old(self).accepts(event),
        ensures
            final(self).wf(),
            final(self).enable_ping == old(self).enable_ping,
            match event.value {
                DeviceManagerInternalEvent::PublicEvent(
                    DeviceManagerEvent::RunDeviceConnectionPing,
                ) => {
                    &&& action == DeviceManagerAction::<J>::SendToAll(DeviceEvent::SendPing)
                    &&& final(self).connections@ == old(self).connections@
                },
                DeviceManagerInternalEvent::PublicEvent(
                    DeviceManagerEvent::NewDeviceConnection(connection),
                ) => {
                    &&& action == DeviceManagerAction::StartDevice(connection)
                    &&& final(self).connections@ == if old(self).connections@.contains(
                        connection.json_connection_id,
                    ) {
                        old(self).connections@
                    } else {
                        old(self).connections@.push(connection.json_connection_id)
                    }
                },
                DeviceManagerInternalEvent::PublicEvent(
                    DeviceManagerEvent::UiNativeSampleRate(id, info),
                ) => {
                    &&& action == if old(self).connections@.contains(id) {
                        DeviceManagerAction::<J>::SendTo(id, DeviceEvent::UiNativeSampleRate(info))
                    } else {
                        DeviceManagerAction::Nothing
                    }
                    &&& final(self).connections@ == old(self).connections@
                },
                DeviceManagerInternalEvent::PublicEvent(
                    DeviceManagerEvent::DisconnectAllDevices,
                ) => {
                    &&& action == DeviceManagerAction::<J>::SendToAll(DeviceEvent::Disconnect)
                    &&& final(self).connections@ == old(self).connections@
                },
                DeviceManagerInternalEvent::RemoveConnection(id) => {
                    &&& action == DeviceManagerAction::<J>::QuitDevice(id)
                    &&& final(self).connections@ == old(self).connections@.remove_value(id)
                    &&& !final(self).connections@.contains(id)
                },
            },
    {
        match event.value {
            DeviceManagerInternalEvent::PublicEvent(event) => match event {
                DeviceManagerEvent::RunDeviceConnectionPing => DeviceManagerAction::SendToAll(
                    DeviceEvent::SendPing,
                ),
                DeviceManagerEvent::NewDeviceConnection(connection) => {
                    let id: ConnectionId = connection.id();
                    if self.position(id).is_none() {
                        self.connections.push(id);
                        assert(self.connections@.no_duplicates());
                    }
                    DeviceManagerAction::StartDevice(connection)
                },
                DeviceManagerEvent::UiNativeSampleRate(id, info) => {
                    if self.position(id).is_some() {
                        DeviceManagerAction::SendTo(id, DeviceEvent::UiNativeSampleRate(info))
                    } else {
                        DeviceManagerAction::Nothing
                    }
                },
                DeviceManagerEvent::DisconnectAllDevices => DeviceManagerAction::SendToAll(
                    DeviceEvent::Disconnect,
                ),
            },
            DeviceManagerInternalEvent::RemoveConnection(id) => {
                match self.position(id) {
                    Some(position) => {
                        let ghost before = self.connections@;
                        let removed: ConnectionId = self.connections.remove(position);
                        proof {
                            assert(before.index_of_first(id) == Some(position as int)) by {
                                before.index_of_first_ensures(id);
                            }
                            assert(self.connections@ =~= before.remove_value(id));
                            assert(self.connections@ =~= before.remove(position as int));
                        }
                    },
                    None => {
                        assert(false);
                    },
                }
                DeviceManagerAction::QuitDevice(id)
            },
        }
    }

    /// Handle ping timer tick.
    pub fn handle_ping_timer_tick<J>(&self) -> (action: DeviceManagerAction<J>)
        ensures
            action == if self.enable_ping {
                DeviceManagerAction::<J>::SendToAll(DeviceEvent::SendPing)
            } else {
                DeviceManagerAction::Nothing
            },
    {
        if self.enable_ping {
            DeviceManagerAction::SendToAll(DeviceEvent::SendPing)
        } else {
            DeviceManagerAction::Nothing
        }
    }
}

/// Events reach the device manager as they are.
pub proof fn law_device_event_is_passed_on<J>(
    event: DeviceManagerEvent<J>,
    internal_event: DeviceManagerInternalEvent<J>,
)
    ensures
        <DmEvent<J> as vstd::std_specs::convert::FromSpec<DeviceManagerEvent<J>>>::from_spec(event) == (DmEvent {
            value: DeviceManagerInternalEvent::PublicEvent(event),
        }),
        <DmEvent<J> as vstd::std_specs::convert::FromSpec<DeviceManagerInternalEvent<J>>>::from_spec(
            internal_event,
        ) == (DmEvent { value: internal_event }),
{
}

/// No device is in the list twice, and only a device which is in the list can be removed.
pub proof fn law_devices_are_listed_once<J>(
    manager: DeviceManager,
    event: DmEvent<J>,
    first: int,
    second: int,
)
    requires
        manager.wf(),
        0 <= first < manager.connections@.len(),
        0 <= second < manager.connections@.len(),
    ensures
        manager.connections@[first] == manager.connections@[second] <==> first == second,
        !manager.accepts(event) <==> (event.value
            matches DeviceManagerInternalEvent::RemoveConnection(id)
            && !manager.connections@.contains(id)),
{
}

} // verus!
