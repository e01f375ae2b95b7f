//! App configuration constants and settings.

use vstd::prelude::*;

use crate::net::SocketAddress;

verus! {

/// Size for event channel buffers.
pub const EVENT_CHANNEL_SIZE: usize = 32;

/// Socket address for device JSON connections.
pub const DEVICE_SOCKET_ADDRESS: &'static str = "0.0.0.0:8080";

/// Socket address for data connections.
pub const AUDIO_DATA_SOCKET_ADDRESS: &'static str = "0.0.0.0:8082";

pub const DATA_PORT_UDP_SEND_ADDRESS: &'static str = "0.0.0.0:8082";

pub const DATA_PORT_UDP_RECEIVE_ADDRESS: &'static str = "0.0.0.0:8083";

/// Socket address UI connection.
pub const UI_SOCKET_ADDRESS: &'static str = "127.0.0.1:8081";

/// Socket address which carries the JSON stream of a USB connection.
pub const USB_JSON_SOCKET_ADDRESS: &'static str = "127.0.0.1:8084";

pub const DATA_PORT_TCP: u16 = 8082;

pub const DATA_PORT_UDP_SEND: u16 = 8082;

pub const DATA_PORT_UDP_RECEIVE: u16 = 8083;

pub const JSON_PORT: u16 = 8080;

/// 240 is 120 16-bit samples per channel. That is minimum frame size for Opus at
/// 48 kHz. This value is just for sending raw PCM, but the same size is used for
/// simplicity.
pub const RAW_PCM_AUDIO_UDP_DATA_SIZE_IN_SAMPLES: usize = 240;

pub const RAW_PCM_AUDIO_UDP_DATA_SIZE_IN_BYTES: usize = 480;

/// Packet number and audio data.
pub const PCM_AUDIO_PACKET_SIZE_IN_BYTES: usize = 484;

/// Operating system which the program runs on.
#[derive(Debug, Clone, Copy, PartialEq, Eq, Structural)]
pub enum Platform {
    Linux,
    Android,
}

#[derive(Debug, Clone)]
pub struct LogicConfig {
    pub pa_source_name: Option<String>,
    pub encode_opus: bool,
    pub enable_connection_listening: bool,
    pub enable_ping: bool,
    pub connect_address: Option<SocketAddress>,
    pub enable_udp_audio_data_sending: bool,
}

} // verus!
