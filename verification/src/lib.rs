//! Jonect: audio streaming between devices over TCP, UDP and USB.
//!
//! The library holds the protocol formats, the buffers and the decisions of
//! every component. Sockets, USB devices, audio devices and timers stay with
//! the program around it, which performs the actions that the functions here
//! return and hands back what happened.

pub mod audio;
pub mod config;
pub mod connection;
pub mod device;
pub mod message_router;
pub mod net;
pub mod ui;
pub mod utils;

use vstd::prelude::*;

use crate::{
    config::LogicConfig,
    connection::ConnectionManagerEvent,
    net::SocketAddress,
    utils::error::IoError,
};

verus! {

/// Component whose task is running.
#[derive(Debug, Clone, Copy, PartialEq, Eq, Structural)]
pub enum Component {
    Router,
    AudioManager,
    DeviceManager,
    UiConnectionManager,
    ConnectionManager,
}

/// What to do next when the components are closed.
#[derive(Debug, Clone, Copy, PartialEq, Eq, Structural)]
pub enum ShutdownStep {
    /// Send a quit request to the component.
    RequestQuit(Component),
    /// Wait until the component is closed.
    Wait(Component),
    /// All components are closed.
    Ready,
}

/// Main logic which starts and closes the components.
pub struct AsyncLogic {
    pub enable_connection_listening: bool,
    pub connect_address: Option<SocketAddress>,
    /// Is CTRL+C listened.
    pub ctrl_c_listener_enabled: bool,
}

impl AsyncLogic {
    pub fn new(config: &LogicConfig) -> (logic: Self)
        ensures
            logic.enable_connection_listening == config.enable_connection_listening,
            logic.connect_address == config.connect_address,
            logic.ctrl_c_listener_enabled,
    {
        Self {
            enable_connection_listening: config.enable_connection_listening,
            connect_address: config.connect_address,
            ctrl_c_listener_enabled: true,
        }
    }

    /// Events to the connection manager when the components are started.
    pub fn start_events<J, D>(&self) -> (events: Vec<ConnectionManagerEvent<J, D>>)
        ensures
            events@ == if self.enable_connection_listening {
                seq![ConnectionManagerEvent::<J, D>::StartTcpListener]
            } else {
                Seq::empty()
            } + match self.connect_address {
                Some(address) => seq![ConnectionManagerEvent::<J, D>::ConnectTo { address }],
                None => Seq::empty(),
            },
    {
        let mut events: Vec<ConnectionManagerEvent<J, D>> = Vec::new();
        if self.enable_connection_listening {
            events.push(ConnectionManagerEvent::StartTcpListener);
        }
        if let Some(address) = self.connect_address {
            events.push(ConnectionManagerEvent::ConnectTo { address });
        }
        events
    }

    /// Handle the result of waiting for CTRL+C. Returns true if the components
    /// should be closed. If there is an error, CTRL+C is not waited for again.
    pub fn handle_ctrl_c(&mut self, result: Result<(), IoError>) -> (quit: bool)
        requires
            old(self).ctrl_c_listener_enabled,
        ensures
            quit == result is Ok,
            *final(self) == (Self { ctrl_c_listener_enabled: result is Ok, ..*old(self) }),
    {
        match result {
            Ok(()) => true,
            Err(_) => {
                self.ctrl_c_listener_enabled = false;
                false
            },
        }
    }

    /// Steps of closing the components.
    pub open spec fn shutdown_plan() -> Seq<ShutdownStep> {
        seq![
            ShutdownStep::RequestQuit(Component::DeviceManager),
            ShutdownStep::RequestQuit(Component::UiConnectionManager),
            ShutdownStep::RequestQuit(Component::AudioManager),
            ShutdownStep::RequestQuit(Component::ConnectionManager),
            ShutdownStep::Wait(Component::AudioManager),
            ShutdownStep::Wait(Component::DeviceManager),
            ShutdownStep::Wait(Component::UiConnectionManager),
            ShutdownStep::Wait(Component::ConnectionManager),
            ShutdownStep::RequestQuit(Component::Router),
            ShutdownStep::Wait(Component::Router),
        ]
    }

    /// Step number `step` of closing the components.
    pub fn shutdown_step(step: usize) -> (shutdown: ShutdownStep)
        ensures
            shutdown == if step < Self::shutdown_plan().len() {
                Self::shutdown_plan()[step as int]
            } else {
                ShutdownStep::Ready
            },
            shutdown == ShutdownStep::Ready <==> step >= 10,
    {
        match step {
            0 => ShutdownStep::RequestQuit(Component::DeviceManager),
            1 => ShutdownStep::RequestQuit(Component::UiConnectionManager),
            2 => ShutdownStep::RequestQuit(Component::AudioManager),
            3 => ShutdownStep::RequestQuit(Component::ConnectionManager),
            // Quit started. Wait all components to close.
            4 => ShutdownStep::Wait(Component::AudioManager),
            5 => ShutdownStep::Wait(Component::DeviceManager),
            6 => ShutdownStep::Wait(Component::UiConnectionManager),
            7 => ShutdownStep::Wait(Component::ConnectionManager),
            // And finally close router.
            8 => ShutdownStep::RequestQuit(Component::Router),
            9 => ShutdownStep::Wait(Component::Router),
            _ => ShutdownStep::Ready,
        }
    }
}

/// The router, which the other components send their messages through, is asked
/// to quit only after every other component is closed. Every component is asked
/// to quit before it is waited for.
pub proof fn law_router_quits_last(component: Component, request: int, wait: int)
    requires
        0 <= request < AsyncLogic::shutdown_plan().len(),
        0 <= wait < AsyncLogic::shutdown_plan().len(),
        AsyncLogic::shutdown_plan()[wait] == ShutdownStep::Wait(component),
    ensures
        component != Component::Router && AsyncLogic::shutdown_plan()[request]
            == ShutdownStep::RequestQuit(Component::Router) ==> wait < request,
        AsyncLogic::shutdown_plan()[request] == ShutdownStep::RequestQuit(component) ==> request
            < wait,
{
}

/// Every component is asked to quit once and waited for once, and then all is ready.
pub proof fn law_every_component_is_closed(component: Component)
    ensures
        AsyncLogic::shutdown_plan().len() == 10,
        exists|request: int|
            0 <= request < 10 && #[trigger] AsyncLogic::shutdown_plan()[request]
                == ShutdownStep::RequestQuit(component),
        exists|wait: int|
            0 <= wait < 10 && #[trigger] AsyncLogic::shutdown_plan()[wait] == ShutdownStep::Wait(
                component,
            ),
        forall|i: int, j: int|
            0 <= i < j < 10 ==> #[trigger] AsyncLogic::shutdown_plan()[i]
                != #[trigger] AsyncLogic::shutdown_plan()[j],
        !AsyncLogic::shutdown_plan().contains(ShutdownStep::Ready),
{
    let plan = AsyncLogic::shutdown_plan();
    assert(plan[0] == ShutdownStep::RequestQuit(Component::DeviceManager));
    assert(plan[1] == ShutdownStep::RequestQuit(Component::UiConnectionManager));
    assert(plan[2] == ShutdownStep::RequestQuit(Component::AudioManager));
    assert(plan[3] == ShutdownStep::RequestQuit(Component::ConnectionManager));
    assert(plan[4] == ShutdownStep::Wait(Component::AudioManager));
    assert(plan[5] == ShutdownStep::Wait(Component::DeviceManager));
    assert(plan[6] == ShutdownStep::Wait(Component::UiConnectionManager));
    assert(plan[7] == ShutdownStep::Wait(Component::ConnectionManager));
    assert(plan[8] == ShutdownStep::RequestQuit(Component::Router));
    assert(plan[9] == ShutdownStep::Wait(Component::Router));
}

} // verus!
