//! Audio code.

pub mod oboe;
pub mod pulseaudio;

use vstd::prelude::*;

use crate::{
    config::{LogicConfig, Platform},
    utils::error::IoErrorKind,
};

verus! {

/// Event to `AudioManager`. `S` is the handle of a data connection.
#[derive(Debug)]
#[allow(inconsistent_fields)]
pub enum AudioEvent<S> {
    Message(String),
    StopRecording,
    StartRecording { send_handle: S, sample_rate: u32 },
    PlayAudio {
        send_handle: S,
        sample_rate: i32,
        android_info: Option<PlayAudioEventAndroid>,
        decode_opus: bool,
    },
    StopPlayingAudio,
}

/// Android specific information for `AudioEvent::PlayAudio`.
#[derive(Debug, Clone, Copy, PartialEq, Eq, Structural)]
pub struct PlayAudioEventAndroid {
    pub frames_per_burst: i32,
}

/// What happens with audio events.
#[derive(Debug, Clone, Copy, PartialEq, Eq, Structural)]
pub enum AudioManagerMode {
    /// Monitor the data connection of the first event and ignore others.
    Monitor,
    /// Events go to PulseAudio.
    PulseAudio,
    /// Events go to Oboe. Underruns are checked once in a second.
    Oboe,
}

/// What `AudioManager` asks for.
pub enum AudioManagerAction<S> {
    /// Send the event to the audio thread.
    SendToAudioThread(AudioEvent<S>),
    /// Monitor the data connection until a quit request.
    MonitorDataConnection(S),
    /// Stop handling events.
    Stop,
}

/// Handle audio recording requests.
pub struct AudioManager {
    pub mode: AudioManagerMode,
}

impl AudioManager {
    pub fn new(platform: Platform, config: &LogicConfig) -> (manager: Self)
        ensures
            manager.mode == match platform {
                Platform::Android => AudioManagerMode::Oboe,
                Platform::Linux => if config.connect_address is Some {
                    AudioManagerMode::Monitor
                } else {
                    AudioManagerMode::PulseAudio
                },
            },
    {
        let mode = match platform {
            Platform::Android => AudioManagerMode::Oboe,
            Platform::Linux => if config.connect_address.is_some() {
                AudioManagerMode::Monitor
            } else {
                AudioManagerMode::PulseAudio
            },
        };
        Self { mode }
    }

    /// Handle one event.
    pub fn handle_event<S>(&self, event: AudioEvent<S>) -> (action: AudioManagerAction<S>)
        ensures
            action == match self.mode {
                AudioManagerMode::Monitor => match event {
                    AudioEvent::PlayAudio { send_handle, .. } =>
                        AudioManagerAction::MonitorDataConnection(send_handle),
                    _ => AudioManagerAction::Stop,
                },
                _ => AudioManagerAction::SendToAudioThread(event),
            },
    {
        match self.mode {
            AudioManagerMode::Monitor => match event {
                AudioEvent::PlayAudio { send_handle, .. } =>
                    AudioManagerAction::MonitorDataConnection(send_handle),
                _ => AudioManagerAction::Stop,
            },
            AudioManagerMode::PulseAudio
            | AudioManagerMode::Oboe => AudioManagerAction::SendToAudioThread(event),
        }
    }
}

/// What to do after a packet was received or was not.
#[derive(Debug, Clone, Copy, PartialEq, Eq, Structural)]
pub enum MonitorAction {
    /// Receive the next packet. `speed` is a count of audio bytes to report, and
    /// `first_packet` is true for the first packet.
    Receive { speed: Option<u64>, first_packet: bool },
    /// Wait for the next timer tick.
    WaitTimer,
    /// Connection is broken. Wait for a quit request.
    WaitQuit,
}

/// Measures how fast audio data arrives.
pub struct DataConnectionMonitor {
    pub bytes_per_second: u64,
    /// When counting started, in nanoseconds.
    pub data_count_time: Option<u64>,
    pub first_packet: bool,
}

/// One second in nanoseconds.
pub const MONITOR_REPORT_INTERVAL_NANOS: u64 = 1_000_000_000;

/// Every packet starts with a packet number which has this many bytes.
pub const PACKET_NUMBER_SIZE_IN_BYTES: usize = 4;

impl DataConnectionMonitor {
    pub fn new() -> (monitor: Self)
        ensures
            monitor.bytes_per_second == 0,
            monitor.data_count_time is None,
            monitor.first_packet,
    {
        Self { bytes_per_second: 0, data_count_time: None, first_packet: true }
    }

    /// Has a report interval passed at time `now`.
    pub open spec fn report_time(self, now: u64) -> bool {
        self.data_count_time matches Some(time) && now - time >= MONITOR_REPORT_INTERVAL_NANOS
    }

    /// Handle the result of receiving a packet at time `now`. Packets have at
    /// least a packet number.
    pub fn handle_data_connection(
        &mut self,
        result: Result<usize, IoErrorKind>,
        now: u64,
    ) -> (action: MonitorAction)
        requires
            result matches Ok(size) ==> size == 0 || {
                &&& size >= PACKET_NUMBER_SIZE_IN_BYTES
                &&& old(self).bytes_per_second + size - PACKET_NUMBER_SIZE_IN_BYTES <= u64::MAX
            },
        ensures
            match result {
                Ok(size) if size > 0 => {
                    let bytes = (old(self).bytes_per_second + size - PACKET_NUMBER_SIZE_IN_BYTES)
                        as u64;
                    &&& !final(self).first_packet
                    &&& if old(self).report_time(now) {
                        &&& action == MonitorAction::Receive {
                            speed: Some(bytes),
                            first_packet: old(self).first_packet,
                        }
                        &&& final(self).bytes_per_second == 0
                        &&& final(self).data_count_time == Some(now)
                    } else {
                        &&& action == MonitorAction::Receive {
                            speed: None,
                            first_packet: old(self).first_packet,
                        }
                        &&& final(self).bytes_per_second == bytes
                        &&& final(self).data_count_time == Some(
                            match old(self).data_count_time {
                                Some(time) => time,
                                None => now,
                            },
                        )
                    }
                },
                Err(IoErrorKind::WouldBlock) => {
                    &&& action == MonitorAction::WaitTimer
                    &&& *final(self) == *old(self)
                },
                _ => {
                    &&& action == MonitorAction::WaitQuit
                    &&& *final(self) == *old(self)
                },
            },
            action matches MonitorAction::Receive { speed, .. } ==> (match speed {
                Some(bytes) => bytes as int,
                None => final(self).bytes_per_second as int,
            }) + 4 == old(self).bytes_per_second + result->Ok_0,
    {
        match result {
            Ok(0) => MonitorAction::WaitQuit,
            Ok(size) => {
                self.bytes_per_second =
                self.bytes_per_second + (size - PACKET_NUMBER_SIZE_IN_BYTES) as u64;

                let mut speed: Option<u64> = None;
                match self.data_count_time {
                    Some(time) => {
                        if now >= time && now - time >= MONITOR_REPORT_INTERVAL_NANOS {
                            speed = Some(self.bytes_per_second);
                            self.bytes_per_second = 0;
                            self.data_count_time = Some(now);
                        }
                    },
                    None => {
                        self.data_count_time = Some(now);
                    },
                }

                let first_packet = self.first_packet;
                self.first_packet = false;
                MonitorAction::Receive { speed, first_packet }
            },
            Err(IoErrorKind::WouldBlock) => MonitorAction::WaitTimer,
            Err(_) => MonitorAction::WaitQuit,
        }
    }
}

/// The speed is reported when a second has passed since counting started, and not before
/// counting started.
pub proof fn law_speed_is_reported_once_in_a_second(monitor: DataConnectionMonitor, now: u64)
    ensures
        monitor.data_count_time is None ==> !monitor.report_time(now),
        monitor.data_count_time matches Some(time) ==> (monitor.report_time(now) <==> time
            + 1_000_000_000 <= now),
{
}

} // verus!
