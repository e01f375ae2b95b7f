//! Message router for sending messages between components.

use vstd::prelude::*;

verus! {

/// Event to `Router`.
#[derive(Debug, Clone, Copy, PartialEq, Eq, Structural)]
pub enum RouterEvent {
    SendQuitRequest,
}

/// Message to be routed. The types are the events of `AudioManager`,
/// `DeviceManager`, `ConnectionManager` and `UiConnectionManager`.
#[derive(Debug)]
pub enum RouterMessage<A, D, C, U> {
    AudioServer(A),
    DeviceManager(D),
    ConnectionManager(C),
    Ui(U),
    Router(RouterEvent),
}

/// Channel which leads to a component, and the event to send there.
#[derive(Debug)]
pub enum RoutedMessage<A, D, C, U> {
    Audio(A),
    DeviceManager(D),
    ConnectionManager(C),
    Ui(U),
}

/// Router for sending messages to different components.
#[derive(Debug)]
pub struct Router;

impl Router {
    /// Where to send a message. An event to the router itself goes nowhere.
    pub fn run<A, D, C, U>(message: RouterMessage<A, D, C, U>) -> (routed: Option<
        RoutedMessage<A, D, C, U>,
    >)
        ensures
            routed == match message {
                RouterMessage::AudioServer(event) => Some(RoutedMessage::<A, D, C, U>::Audio(event)),
                RouterMessage::DeviceManager(event) => Some(RoutedMessage::DeviceManager(event)),
                RouterMessage::ConnectionManager(event) => Some(
                    RoutedMessage::ConnectionManager(event),
                ),
                RouterMessage::Ui(event) => Some(RoutedMessage::Ui(event)),
                RouterMessage::Router(_) => None,
            },
    {
        match message {
            RouterMessage::AudioServer(event) => Some(RoutedMessage::Audio(event)),
            RouterMessage::DeviceManager(event) => Some(RoutedMessage::DeviceManager(event)),
            RouterMessage::ConnectionManager(event) => Some(RoutedMessage::ConnectionManager(event)),
            RouterMessage::Ui(event) => Some(RoutedMessage::Ui(event)),
            RouterMessage::Router(RouterEvent::SendQuitRequest) => None,
        }
    }
}

} // verus!
