//! Connected device's state.

use vstd::prelude::*;

use super::protocol::{
    AudioFormat, AudioStreamInfo, DeviceMessage, NativeSampleRate, UnsupportedFormat,
};
use crate::{
    audio::PlayAudioEventAndroid,
    config::{LogicConfig, Platform, DATA_PORT_TCP},
    connection::{DataConnectionType, NextResourceRequest},
    ui::{AndroidAudioInfo, CreateMessage, UiEvent, ValueRequest},
    utils::{ConnectionEvent, ConnectionId},
};

verus! {

/// Event to `DeviceStateTask`.
#[derive(Debug)]
pub enum DeviceEvent {
    SendPing,
    UiNativeSampleRate(AndroidAudioInfo),
    Disconnect,
}

/// Why `DeviceStateTask` quits.
#[derive(Debug, Clone, Copy, PartialEq, Eq, Structural)]
pub enum QuitMode {
    QuitRequest,
    Disconnect,
    ConnectionError,
}

/// Request for a connection to the data port of a device.
#[derive(Debug, Clone, Copy, PartialEq, Eq, Structural)]
pub struct DataConnectionRequest {
    pub id: ConnectionId,
    pub next_resource_request: NextResourceRequest,
    pub data_connection_type: DataConnectionType,
}

/// Message which needs the audio info.
#[derive(Debug)]
pub enum AudioInfoRequestMessages {
    Device(DeviceMessage),
    Connect(DataConnectionRequest),
}

impl AudioInfoRequestMessages {
    /// Where the message goes.
    pub open spec fn action(self) -> DeviceAction {
        match self {
            AudioInfoRequestMessages::Connect(request) => DeviceAction::ConnectToData(request),
            AudioInfoRequestMessages::Device(message) => DeviceAction::SendToDevice(message),
        }
    }

    pub fn handle(self) -> (action: DeviceAction)
        ensures
            action == self.action(),
    {
        match self {
            AudioInfoRequestMessages::Connect(request) => DeviceAction::ConnectToData(request),
            AudioInfoRequestMessages::Device(message) => DeviceAction::SendToDevice(message),
        }
    }
}

/// Makes a message when the audio info is known.
#[derive(Debug, Clone, Copy, PartialEq, Eq, Structural)]
pub enum AudioInfoRequest {
    /// Tell the native sample rate to the device.
    NativeSampleRate,
    Connect(DataConnectionRequest),
}

impl CreateMessage<AndroidAudioInfo> for AudioInfoRequest {
    type Message = AudioInfoRequestMessages;

    open spec fn message_for(self, value: AndroidAudioInfo) -> AudioInfoRequestMessages {
        match self {
            AudioInfoRequest::NativeSampleRate => AudioInfoRequestMessages::Device(
                DeviceMessage::NativeSampleRate(
                    NativeSampleRate { native_sample_rate: value.native_sample_rate },
                ),
            ),
            AudioInfoRequest::Connect(request) => AudioInfoRequestMessages::Connect(request),
        }
    }

    fn create_message(self, value: &AndroidAudioInfo) -> AudioInfoRequestMessages {
        match self {
            AudioInfoRequest::NativeSampleRate => {
                let m = NativeSampleRate::new(value.native_sample_rate);
                AudioInfoRequestMessages::Device(DeviceMessage::NativeSampleRate(m))
            },
            AudioInfoRequest::Connect(request) => AudioInfoRequestMessages::Connect(request),
        }
    }
}

/// What `DeviceStateTask` asks for.
#[derive(Debug)]
#[allow(inconsistent_fields)]
pub enum DeviceAction {
    /// Send the message to the device.
    SendToDevice(DeviceMessage),
    /// Ask the connection manager to handle the next data connection of the
    /// device in this way.
    SetNextResourceRequest(DataConnectionRequest),
    /// Ask the connection manager to connect to the data port of the device.
    ConnectToData(DataConnectionRequest),
    SendUiEvent(UiEvent),
    /// Response to a ping took this many milliseconds.
    LogPingTime(u64),
}

/// What to do when `DeviceStateTask` quits. The connection to the device is
/// closed first.
#[derive(Debug, Clone, Copy, PartialEq, Eq, Structural)]
pub struct QuitActions {
    /// Send `UiEvent::ConnectionError`.
    pub send_connection_error: bool,
    /// Ask the device manager to remove the device. Then wait for a quit request.
    pub remove_connection: bool,
}

/// Sample rates which audio streams can have.
pub open spec fn is_supported_rate(rate: int) -> bool {
    rate == 44100 || rate == 48000
}

pub const NANOS_IN_MILLISECOND: u64 = 1_000_000;

/// Native sample rate of a device which uses PulseAudio.
pub const PULSEAUDIO_NATIVE_SAMPLE_RATE: i32 = 48000;

/// Sample rate of audio which is Opus encoded.
pub const OPUS_ENCODER_SAMPLE_RATE: u32 = 48000;

/// Logic for handling one connected device.
pub struct DeviceStateTask {
    pub id: ConnectionId,
    pub platform: Platform,
    pub encode_opus: bool,
    /// When the last ping, which is not answered yet, was sent, in nanoseconds.
    pub ping_state: Option<u64>,
    pub audio_out: bool,
    pub recording_native_sample_rate: Option<i32>,
    pub android_audio_info: ValueRequest<AndroidAudioInfo, AudioInfoRequest>,
}

impl DeviceStateTask {
    pub open spec fn wf(self) -> bool {
        self.android_audio_info.wf()
    }

    /// Is the audio stream one that can be played.
    pub open spec fn is_playable(info: AudioStreamInfo) -> bool {
        &&& info.channels == 2
        &&& is_supported_rate(info.rate as int)
        &&& AudioFormat::from_json_value(info.format@) is Some
    }

    /// Message which can be handled. A device tells a supported native sample
    /// rate, or zero if it can not play audio. On Android the audio info is known
    /// before an audio stream is played.
    pub open spec fn accepts(self, message: DeviceMessage) -> bool {
        match message {
            DeviceMessage::NativeSampleRate(rate) => rate.native_sample_rate == 0
                || is_supported_rate(rate.native_sample_rate as int),
            DeviceMessage::PlayAudioStream(info) => self.platform == Platform::Android
                && Self::is_playable(info) ==> self.android_audio_info.value is Some,
            _ => true,
        }
    }

    /// Request for playing the audio stream.
    pub open spec fn play_request(self, info: AudioStreamInfo) -> DataConnectionRequest {
        DataConnectionRequest {
            id: self.id,
            next_resource_request: NextResourceRequest::PlayAudio {
                sample_rate: info.rate as i32,
                android_info: if self.platform == Platform::Android {
                    Some(
                        PlayAudioEventAndroid {
                            frames_per_burst: self.android_audio_info.value->0.frames_per_burst,
                        },
                    )
                } else {
                    None
                },
                decode_opus: AudioFormat::from_json_value(info.format@) == Some(AudioFormat::Opus),
            },
            data_connection_type: DataConnectionType::Tcp,
        }
    }

    /// Are these the actions for a device which tells its native sample rate.
    pub open spec fn is_record_actions(self, rate: i32, actions: Seq<DeviceAction>) -> bool {
        &&& actions.len() == 2
        &&& actions[0] == DeviceAction::SetNextResourceRequest(
            DataConnectionRequest {
                id: self.id,
                next_resource_request: NextResourceRequest::SendAudio { sample_rate: rate as u32 },
                data_connection_type: DataConnectionType::Tcp,
            },
        )
        &&& actions[1] matches DeviceAction::SendToDevice(DeviceMessage::PlayAudioStream(info)) && {
            &&& info.format@ == if self.encode_opus {
                AudioFormat::Opus.json_value()
            } else {
                AudioFormat::Pcm.json_value()
            }
            &&& info.channels == 2
            &&& info.rate == if self.encode_opus {
                OPUS_ENCODER_SAMPLE_RATE
            } else {
                rate as u32
            }
            &&& info.port == DATA_PORT_TCP
        }
    }

    /// Start handling a device. If there are actions, perform them.
    pub fn new(id: ConnectionId, platform: Platform, config: &LogicConfig) -> (task: (
        Self,
        Vec<DeviceAction>,
    ))
        ensures
            task.0.wf(),
            task.0.id == id,
            task.0.platform == platform,
            task.0.encode_opus == config.encode_opus,
            task.0.ping_state is None,
            !task.0.audio_out,
            task.0.recording_native_sample_rate is None,
            task.0.android_audio_info.value is None,
            task.0.android_audio_info.request@.len() == 0,
            task.1@ == if config.enable_connection_listening {
                seq![DeviceAction::SendToDevice(DeviceMessage::GetNativeSampleRate)]
            } else {
                Seq::empty()
            } + seq![
                DeviceAction::SendUiEvent(UiEvent::ConnectionEstablished { connection_id: id }),
            ],
    {
        let mut actions: Vec<DeviceAction> = Vec::new();
        if config.enable_connection_listening {
            actions.push(DeviceAction::SendToDevice(DeviceMessage::GetNativeSampleRate));
        }
        actions.push(
            DeviceAction::SendUiEvent(UiEvent::ConnectionEstablished { connection_id: id }),
        );
        let task = Self {
            id,
            platform,
            encode_opus: config.encode_opus,
            ping_state: None,
            audio_out: false,
            recording_native_sample_rate: None,
            android_audio_info: ValueRequest::new(),
        };
        (task, actions)
    }

    /// Handle `DeviceEvent` at time `now`.
    pub fn handle_device_event(&mut self, event: DeviceEvent, now: u64) -> (result: (
        Vec<DeviceAction>,
        Option<QuitMode>,
    ))
        requires
            old(self).wf(),
        ensures
            final(self).wf(),
            final(self).id == old(self).id,
            final(self).platform == old(self).platform,
            final(self).encode_opus == old(self).encode_opus,
            final(self).audio_out == old(self).audio_out,
            final(self).recording_native_sample_rate == old(self).recording_native_sample_rate,
            match event {
                DeviceEvent::SendPing => {
                    &&& result.1 is None
                    &&& final(self).android_audio_info == old(self).android_audio_info
                    &&& if old(self).ping_state is None {
                        &&& result.0@ == seq![DeviceAction::SendToDevice(DeviceMessage::Ping)]
                        &&& final(self).ping_state == Some(now)
                    } else {
                        &&& result.0@ == Seq::<DeviceAction>::empty()
                        &&& final(self).ping_state == old(self).ping_state
                    }
                },
                DeviceEvent::UiNativeSampleRate(info) => {
                    &&& result.1 is None
                    &&& result.0@ == old(self).android_audio_info.request@.map_values(
                        |r: AudioInfoRequest| r.message_for(info).action(),
                    )
                    &&& result.0@.len() == old(self).android_audio_info.request@.len()
                    &&& forall|i: int|
                        0 <= i < result.0@.len() ==> match old(self).android_audio_info.request@[i] {
                            AudioInfoRequest::NativeSampleRate => #[trigger] result.0@[i]
                                matches DeviceAction::SendToDevice(
                                DeviceMessage::NativeSampleRate(rate),
                            ) && rate.native_sample_rate == info.native_sample_rate,
                            AudioInfoRequest::Connect(request) => result.0@[i]
                                == DeviceAction::ConnectToData(request),
                        }
                    &&& final(self).android_audio_info.value == Some(info)
                    &&& final(self).android_audio_info.request@.len() == 0
                    &&& final(self).ping_state == old(self).ping_state
                },
                DeviceEvent::Disconnect => {
                    &&& result.1 == Some(QuitMode::Disconnect)
                    &&& result.0@ == Seq::<DeviceAction>::empty()
                    &&& final(self).ping_state == old(self).ping_state
                    &&& final(self).android_audio_info == old(self).android_audio_info
                },
            },
    {
        let mut actions: Vec<DeviceAction> = Vec::new();
        match event {
            DeviceEvent::SendPing => {
                if self.ping_state.is_none() {
                    actions.push(DeviceAction::SendToDevice(DeviceMessage::Ping));
                    self.ping_state = Some(now);
                }
            },
            DeviceEvent::UiNativeSampleRate(native_sample_rate) => {
                let ghost requests = self.android_audio_info.request@;
                let mut messages = self.android_audio_info.set_value(native_sample_rate);
                let ghost all_messages = messages@;
                while messages.len() > 0
                    invariant
                        messages@ == all_messages.skip(actions@.len() as int),
                        actions@.len() + messages@.len() == all_messages.len(),
                        forall|i: int|
                            0 <= i < actions@.len() ==> #[trigger] actions@[i]
                                == all_messages[i].action(),
                    decreases messages@.len(),
                {
                    let message = messages.remove(0);
                    actions.push(message.handle());
                    assert(messages@ =~= all_messages.skip(actions@.len() as int));
                }
                assert(actions@ =~= requests.map_values(
                    |r: AudioInfoRequest| r.message_for(native_sample_rate).action(),
                ));
            },
            DeviceEvent::Disconnect => {
                return (actions, Some(QuitMode::Disconnect));
            },
        }
        (actions, None)
    }

    /// Can `message` be handled.
    pub fn can_handle_client_message(&self, message: &DeviceMessage) -> (result: bool)
        ensures
            result == self.accepts(*message),
    {
        match message {
            DeviceMessage::NativeSampleRate(rate) => {
                let rate: i32 = rate.native_sample_rate;
                rate == 0 || rate == 44100 || rate == 48000
            },
            DeviceMessage::PlayAudioStream(info) => {
                self.platform != Platform::Android || info.channels != 2 || (info.rate != 44100
                    && info.rate != 48000) || info.try_parse_audio_format().is_err()
                    || self.android_audio_info.current_value().is_some()
            },
            _ => true,
        }
    }

    /// Handle received `DeviceMessage` at time `now`.
    pub fn handle_client_message(&mut self, message: DeviceMessage, now: u64) -> (actions: Vec<
        DeviceAction,
    >)
        requires
            old(self).wf(),
            old(self).accepts(message),
        ensures
            final(self).wf(),
            final(self).id == old(self).id,
            final(self).platform == old(self).platform,
            final(self).encode_opus == old(self).encode_opus,
            final(self).android_audio_info.value == old(self).android_audio_info.value,
            !(message is PingResponse) ==> final(self).ping_state == old(self).ping_state,
            !(message is NativeSampleRate) ==> {
                &&& final(self).audio_out == old(self).audio_out
                &&& final(self).recording_native_sample_rate == old(
                    self,
                ).recording_native_sample_rate
            },
            !(message is GetNativeSampleRate) ==> final(self).android_audio_info.request@ == old(
                self,
            ).android_audio_info.request@,
            message is PingResponse ==> (old(self).ping_state matches Some(time) ==> actions@.len() == 1
                && (actions@[0] matches DeviceAction::LogPingTime(millis) && {
                let elapsed = if now >= time {
                    now - time
                } else {
                    0
                };
                1_000_000 * millis <= elapsed < 1_000_000 * millis + 1_000_000
            })),
            message is GetNativeSampleRate && old(self).platform is Linux ==> actions@.len() == 1
                && (actions@[0] matches DeviceAction::SendToDevice(
                DeviceMessage::NativeSampleRate(rate),
            ) && rate.native_sample_rate == 48000),
            match message {
                DeviceMessage::NativeSampleRate(NativeSampleRate { native_sample_rate: rate }) => {
                    if rate == 0 {
                        // Audio playing is not supported.
                        &&& actions@ == Seq::<DeviceAction>::empty()
                        &&& final(self).audio_out == old(self).audio_out
                        &&& final(self).recording_native_sample_rate == old(
                            self,
                        ).recording_native_sample_rate
                    } else {
                        &&& old(self).is_record_actions(rate, actions@)
                        &&& actions@.len() == 2
                        &&& actions@[0] matches DeviceAction::SetNextResourceRequest(request) && {
                            &&& request.id == old(self).id
                            &&& request.data_connection_type == DataConnectionType::Tcp
                            &&& request.next_resource_request
                                matches NextResourceRequest::SendAudio { sample_rate }
                                && sample_rate == rate
                        }
                        &&& actions@[1] matches DeviceAction::SendToDevice(
                            DeviceMessage::PlayAudioStream(info),
                        ) && info.rate == if old(self).encode_opus {
                            48000
                        } else {
                            rate as int
                        }
                        &&& final(self).audio_out
                        &&& final(self).recording_native_sample_rate == Some(rate)
                    }
                },
                DeviceMessage::GetNativeSampleRate => {
                    let requests = old(self).android_audio_info.request@;
                    match (old(self).platform, old(self).android_audio_info.value) {
                        (Platform::Linux, _) => {
                            &&& actions@ == seq![
                                DeviceAction::SendToDevice(
                                    DeviceMessage::NativeSampleRate(
                                        NativeSampleRate {
                                            native_sample_rate: PULSEAUDIO_NATIVE_SAMPLE_RATE,
                                        },
                                    ),
                                ),
                            ]
                            &&& final(self).android_audio_info.request@ == requests
                        },
                        (Platform::Android, Some(info)) => {
                            &&& actions@ == seq![
                                DeviceAction::SendToDevice(
                                    DeviceMessage::NativeSampleRate(
                                        NativeSampleRate {
                                            native_sample_rate: info.native_sample_rate,
                                        },
                                    ),
                                ),
                            ]
                            &&& final(self).android_audio_info.request@ == requests
                        },
                        (Platform::Android, None) => {
                            &&& actions@ == seq![
                                DeviceAction::SendUiEvent(
                                    UiEvent::GetNativeSampleRate { who_sent_this: old(self).id },
                                ),
                            ]
                            &&& final(self).android_audio_info.request@ == requests.push(
                                AudioInfoRequest::NativeSampleRate,
                            )
                        },
                    }
                },
                DeviceMessage::Ping => actions@ == seq![
                    DeviceAction::SendToDevice(DeviceMessage::PingResponse),
                ],
                DeviceMessage::PingResponse => {
                    &&& final(self).ping_state is None
                    &&& actions@ == match old(self).ping_state {
                        Some(time) => seq![
                            DeviceAction::LogPingTime(
                                if now >= time {
                                    ((now - time) / NANOS_IN_MILLISECOND as int) as u64
                                } else {
                                    0
                                },
                            ),
                        ],
                        None => Seq::<DeviceAction>::empty(),
                    }
                },
                DeviceMessage::AudioStreamPlayError(_) => actions@ == Seq::<DeviceAction>::empty(),
                DeviceMessage::PlayAudioStream(info) => actions@ == if Self::is_playable(info) {
                    seq![DeviceAction::ConnectToData(old(self).play_request(info))]
                } else {
                    Seq::<DeviceAction>::empty()
                },
            },
    {
        let mut actions: Vec<DeviceAction> = Vec::new();
        match message {
            DeviceMessage::NativeSampleRate(NativeSampleRate { native_sample_rate }) => {
                if native_sample_rate == 0 {
                    // Audio playing is not supported.
                    return actions;
                }

                self.recording_native_sample_rate = Some(native_sample_rate);

                let mut sample_rate: u32 = native_sample_rate as u32;

                let format = if self.encode_opus {
                    sample_rate = OPUS_ENCODER_SAMPLE_RATE;
                    AudioFormat::Opus
                } else {
                    AudioFormat::Pcm
                };

                let info = AudioStreamInfo::new(format, 2, sample_rate, DATA_PORT_TCP);

                actions.push(
                    DeviceAction::SetNextResourceRequest(
                        DataConnectionRequest {
                            id: self.id,
                            next_resource_request: NextResourceRequest::SendAudio {
                                sample_rate: native_sample_rate as u32,
                            },
                            data_connection_type: DataConnectionType::Tcp,
                        },
                    ),
                );
                actions.push(DeviceAction::SendToDevice(DeviceMessage::PlayAudioStream(info)));

                self.audio_out = true;
            },
            DeviceMessage::GetNativeSampleRate => {
                match self.platform {
                    Platform::Android => {
                        match self.android_audio_info.request(AudioInfoRequest::NativeSampleRate) {
                            Some(message) => {
                                actions.push(message.handle());
                            },
                            None => {
                                actions.push(
                                    DeviceAction::SendUiEvent(
                                        UiEvent::GetNativeSampleRate { who_sent_this: self.id },
                                    ),
                                );
                            },
                        }
                    },
                    Platform::Linux => {
                        let m = NativeSampleRate::new(PULSEAUDIO_NATIVE_SAMPLE_RATE);
                        actions.push(
                            DeviceAction::SendToDevice(DeviceMessage::NativeSampleRate(m)),
                        );
                    },
                }
            },
            DeviceMessage::Ping => {
                actions.push(DeviceAction::SendToDevice(DeviceMessage::PingResponse));
            },
            DeviceMessage::PingResponse => {
                match self.ping_state.take() {
                    Some(time) => {
                        let elapsed: u64 = if now >= time {
                            now - time
                        } else {
                            0
                        };
                        actions.push(DeviceAction::LogPingTime(elapsed / NANOS_IN_MILLISECOND));
                    },
                    None => {},
                }
            },
            DeviceMessage::AudioStreamPlayError(_) => {},
            DeviceMessage::PlayAudioStream(info) => {
                if info.channels != 2 {
                    // Non stereo audio streams are not supported.
                    return actions;
                }
                if info.rate != 44100 && info.rate != 48000 {
                    return actions;
                }
                let decode_opus = match info.try_parse_audio_format() {
                    Ok(AudioFormat::Opus) => true,
                    Ok(AudioFormat::Pcm) => false,
                    Err(UnsupportedFormat) => {
                        return actions;
                    },
                };

                let android_info: Option<PlayAudioEventAndroid> = match self.platform {
                    Platform::Android => match self.android_audio_info.current_value() {
                        Some(value) => Some(
                            PlayAudioEventAndroid { frames_per_burst: value.frames_per_burst },
                        ),
                        None => {
                            assert(false);
                            None
                        },
                    },
                    Platform::Linux => None,
                };

                let request = DataConnectionRequest {
                    id: self.id,
                    next_resource_request: NextResourceRequest::PlayAudio {
                        sample_rate: info.rate as i32,
                        android_info,
                        decode_opus,
                    },
                    data_connection_type: DataConnectionType::Tcp,
                };

                match self.platform {
                    Platform::Android => {
                        match self.android_audio_info.request(AudioInfoRequest::Connect(request)) {
                            Some(message) => {
                                actions.push(message.handle());
                            },
                            None => {
                                assert(false);
                            },
                        }
                    },
                    Platform::Linux => {
                        actions.push(AudioInfoRequestMessages::Connect(request).handle());
                    },
                }
            },
        }
        actions
    }

    /// Handle an event from the connection to the device. If there is a message,
    /// handle it, and otherwise quit.
    pub fn handle_connection_event(event: ConnectionEvent<DeviceMessage>) -> (result: Result<
        DeviceMessage,
        QuitMode,
    >)
        ensures
            result == match event {
                ConnectionEvent::Message(_, message) => Ok::<DeviceMessage, QuitMode>(message),
                _ => Err(QuitMode::ConnectionError),
            },
    {
        match event {
            ConnectionEvent::ReadError(_, _) | ConnectionEvent::WriteError(_, _) => Err(
                QuitMode::ConnectionError,
            ),
            ConnectionEvent::Message(_, message) => Ok(message),
        }
    }

    /// What to do when the task quits.
    pub fn quit(quit_mode: QuitMode) -> (actions: QuitActions)
        ensures
            actions.send_connection_error == (quit_mode == QuitMode::ConnectionError),
            actions.remove_connection == (quit_mode != QuitMode::QuitRequest),
    {
        QuitActions {
            send_connection_error: match quit_mode {
                QuitMode::ConnectionError => true,
                _ => false,
            },
            remove_connection: match quit_mode {
                QuitMode::ConnectionError | QuitMode::Disconnect => true,
                QuitMode::QuitRequest => false,
            },
        }
    }
}

/// A device plays what another device offers: the answer to a native sample rate
/// is an audio stream which the receiver of the answer accepts, at the rate and
/// in the format that it was offered.
pub proof fn law_offered_stream_is_playable(
    server: DeviceStateTask,
    client: DeviceStateTask,
    rate: i32,
    actions: Seq<DeviceAction>,
)
    requires
        is_supported_rate(rate as int),
        server.is_record_actions(rate, actions),
    ensures
        actions[1] matches DeviceAction::SendToDevice(DeviceMessage::PlayAudioStream(info)) && {
            &&& DeviceStateTask::is_playable(info)
            &&& client.play_request(info).next_resource_request
                matches NextResourceRequest::PlayAudio { sample_rate, decode_opus, .. } && {
                &&& decode_opus == server.encode_opus
                &&& sample_rate == if server.encode_opus {
                    48000
                } else {
                    rate
                }
            }
        },
{
    super::protocol::law_format_is_read_as_written(AudioFormat::Opus);
    super::protocol::law_format_is_read_as_written(AudioFormat::Pcm);
}

/// Audio is recorded at the native sample rate which the device told, and sent to that
/// device over TCP. Without Opus the device is told to play at the rate at which the
/// audio is recorded. Opus encoded audio is played at 48 kHz.
pub proof fn law_recording_rate_is_the_told_rate(
    server: DeviceStateTask,
    rate: i32,
    actions: Seq<DeviceAction>,
)
    requires
        rate == 44100 || rate == 48000,
        server.is_record_actions(rate, actions),
    ensures
        actions.len() == 2,
        actions[0] matches DeviceAction::SetNextResourceRequest(request) && {
            &&& request.id == server.id
            &&& request.data_connection_type is Tcp
            &&& request.next_resource_request matches NextResourceRequest::SendAudio {
                sample_rate,
            }
            &&& sample_rate == rate
            &&& actions[1] matches DeviceAction::SendToDevice(DeviceMessage::PlayAudioStream(info))
            &&& !server.encode_opus ==> info.rate == sample_rate && info.format@ == "pcm-s16le"@
            &&& server.encode_opus ==> info.rate == 48000 && info.format@ == "opus"@
            &&& info.channels == 2
            &&& info.port == 8082
        },
{
}

/// A stream can be played if it has two channels, one of the two rates and one of the
/// two formats.
pub proof fn law_stereo_streams_are_playable(info: AudioStreamInfo)
    ensures
        DeviceStateTask::is_playable(info) <==> {
            &&& info.channels == 2
            &&& info.rate == 44100 || info.rate == 48000
            &&& info.format@ == "pcm-s16le"@ || info.format@ == "opus"@
        },
{
}

/// A stream is played as the other device tells: at its rate, decoding Opus if and only
/// if that is its format, over a TCP connection to that device. On Android the size of
/// the audio bursts is the one which the device has.
pub proof fn law_stream_is_played_as_told(client: DeviceStateTask, info: AudioStreamInfo)
    requires
        DeviceStateTask::is_playable(info),
        client.accepts(DeviceMessage::PlayAudioStream(info)),
    ensures
        client.play_request(info).id == client.id,
        client.play_request(info).data_connection_type is Tcp,
        client.play_request(info).next_resource_request matches NextResourceRequest::PlayAudio {
            sample_rate,
            android_info,
            decode_opus,
        } && {
            &&& sample_rate == info.rate
            &&& decode_opus <==> info.format@ == "opus"@
            &&& client.platform is Linux ==> android_info is None
            &&& client.platform is Android ==> {
                &&& client.android_audio_info.value matches Some(audio_info)
                &&& android_info matches Some(android_info)
                &&& android_info.frames_per_burst == audio_info.frames_per_burst
            }
        },
{
    super::protocol::law_format_is_read_as_written(AudioFormat::Opus);
    super::protocol::law_format_is_read_as_written(AudioFormat::Pcm);
}

/// A device tells no native sample rate, or one of the two supported ones. Any message
/// except a stream which would be played without the audio info can be handled
/// otherwise.
pub proof fn law_supported_rates_are_accepted(task: DeviceStateTask, message: DeviceMessage)
    ensures
        message matches DeviceMessage::NativeSampleRate(rate) ==> (task.accepts(message) <==> {
            ||| rate.native_sample_rate == 0
            ||| rate.native_sample_rate == 44100
            ||| rate.native_sample_rate == 48000
        }),
        message matches DeviceMessage::PlayAudioStream(info) ==> (!task.accepts(message) <==> {
            &&& task.platform is Android
            &&& task.android_audio_info.value is None
            &&& DeviceStateTask::is_playable(info)
        }),
        !(message is NativeSampleRate) && !(message is PlayAudioStream) ==> task.accepts(message),
{
}

/// When the audio info gets known, each request which waited for it is answered: the
/// native sample rate goes to the device, and a connection request to the connection
/// manager as it was.
pub proof fn law_waiting_requests_are_answered(request: AudioInfoRequest, info: AndroidAudioInfo)
    ensures
        match request {
            AudioInfoRequest::NativeSampleRate => request.message_for(info).action()
                matches DeviceAction::SendToDevice(DeviceMessage::NativeSampleRate(rate))
                && rate.native_sample_rate == info.native_sample_rate,
            AudioInfoRequest::Connect(connection) => request.message_for(info).action()
                matches DeviceAction::ConnectToData(new_connection) && new_connection == connection,
        },
{
}

/// A message goes to the device, and a connection request to the connection manager.
pub proof fn law_messages_go_where_they_belong(message: AudioInfoRequestMessages)
    ensures
        message matches AudioInfoRequestMessages::Device(device_message) ==> (message.action()
            matches DeviceAction::SendToDevice(sent) && sent == device_message),
        message matches AudioInfoRequestMessages::Connect(request) ==> (message.action()
            matches DeviceAction::ConnectToData(sent) && sent == request),
{
}

} // verus!
