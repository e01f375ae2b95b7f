use jonect::audio::PlayAudioEventAndroid;
use jonect::config::{LogicConfig, Platform};
use jonect::connection::{
    ConnectionManagerEvent, DataConnectionType, JsonConnection, NextResourceRequest,
};
use jonect::device::{
    data::{AcceptAction, DataConnection, DataConnectionEvent},
    protocol::{AudioFormat, AudioStreamInfo, DeviceMessage, NativeSampleRate, UnsupportedFormat},
    state::{
        DataConnectionRequest, DeviceAction, DeviceEvent, DeviceStateTask, QuitActions, QuitMode,
    },
    DeviceManager, DeviceManagerAction, DeviceManagerEvent, DeviceManagerInternalEvent, DmEvent,
};
use jonect::message_router::{RoutedMessage, Router, RouterEvent, RouterMessage};
use jonect::net::SocketAddress;
use jonect::ui::{
    AndroidAudioInfo, QuitReason, UiConnectionManager, UiConnectionState, UiEvent,
    UiManagerAction, UiManagerEvent, UiProtocolFromServerToUi, UiProtocolFromUiToServer,
};
use jonect::utils::{
    error::{IoError, IoErrorKind},
    ConnectionEvent, ReadError,
};
use jonect::{AsyncLogic, Component, ShutdownStep};

fn config() -> LogicConfig {
    LogicConfig {
        pa_source_name: None,
        encode_opus: false,
        enable_connection_listening: true,
        enable_ping: true,
        connect_address: None,
        enable_udp_audio_data_sending: false,
    }
}

fn error(kind: IoErrorKind) -> IoError {
    IoError::from_kind(kind)
}

fn task(platform: Platform, encode_opus: bool) -> DeviceStateTask {
    let mut config = config();
    config.encode_opus = encode_opus;
    DeviceStateTask::new(4, platform, &config).0
}

fn audio_info(message_to: &str) -> AndroidAudioInfo {
    AndroidAudioInfo {
        native_sample_rate: 44100,
        frames_per_burst: 96,
        message_to: message_to.to_string(),
    }
}

#[test]
fn device_start_actions() {
    let (_, actions) = DeviceStateTask::new(4, Platform::Linux, &config());
    assert!(matches!(
        actions[..],
        [
            DeviceAction::SendToDevice(DeviceMessage::GetNativeSampleRate),
            DeviceAction::SendUiEvent(UiEvent::ConnectionEstablished { connection_id: 4 }),
        ]
    ));
    let mut config = config();
    config.enable_connection_listening = false;
    let (_, actions) = DeviceStateTask::new(4, Platform::Linux, &config);
    assert_eq!(actions.len(), 1);
}

#[test]
fn ping_is_sent_once_before_its_response() {
    let mut task = task(Platform::Linux, false);
    let (actions, quit) = task.handle_device_event(DeviceEvent::SendPing, 1_000_000);
    assert!(matches!(actions[..], [DeviceAction::SendToDevice(DeviceMessage::Ping)]));
    assert_eq!(quit, None);
    let (actions, _) = task.handle_device_event(DeviceEvent::SendPing, 2_000_000);
    assert!(actions.is_empty());
    let actions = task.handle_client_message(DeviceMessage::PingResponse, 6_900_000);
    assert!(matches!(actions[..], [DeviceAction::LogPingTime(5)]));
    assert!(task.handle_client_message(DeviceMessage::PingResponse, 7_000_000).is_empty());
    let actions = task.handle_client_message(DeviceMessage::Ping, 0);
    assert!(matches!(actions[..], [DeviceAction::SendToDevice(DeviceMessage::PingResponse)]));
    let (actions, quit) = task.handle_device_event(DeviceEvent::Disconnect, 0);
    assert!(actions.is_empty());
    assert_eq!(quit, Some(QuitMode::Disconnect));
}

fn native_rate(rate: i32) -> DeviceMessage {
    DeviceMessage::NativeSampleRate(NativeSampleRate::new(rate))
}

#[test]
fn native_sample_rate_starts_recording() {
    for (encode_opus, format, rate) in [(false, "pcm-s16le", 44100), (true, "opus", 48000)] {
        let mut task = task(Platform::Linux, encode_opus);
        let actions = task.handle_client_message(native_rate(44100), 0);
        assert!(matches!(
            actions[0],
            DeviceAction::SetNextResourceRequest(DataConnectionRequest {
                id: 4,
                next_resource_request: NextResourceRequest::SendAudio { sample_rate: 44100 },
                data_connection_type: DataConnectionType::Tcp,
            })
        ));
        match &actions[1] {
            DeviceAction::SendToDevice(DeviceMessage::PlayAudioStream(info)) => {
                assert_eq!(info.format, format);
                assert_eq!(info.channels, 2);
                assert_eq!(info.rate, rate);
                assert_eq!(info.port, 8082);
            }
            _ => panic!(),
        }
        assert_eq!(task.recording_native_sample_rate, Some(44100));
        assert!(task.audio_out);
    }
    let mut silent = task(Platform::Linux, false);
    assert!(silent.handle_client_message(native_rate(0), 0).is_empty());
    assert!(!silent.audio_out);
    assert!(!silent.can_handle_client_message(&native_rate(22050)));
    assert!(silent.can_handle_client_message(&native_rate(48000)));
}

#[test]
fn native_sample_rate_is_answered() {
    let mut linux = task(Platform::Linux, false);
    let actions = linux.handle_client_message(DeviceMessage::GetNativeSampleRate, 0);
    assert!(matches!(
        actions[..],
        [DeviceAction::SendToDevice(DeviceMessage::NativeSampleRate(NativeSampleRate {
            native_sample_rate: 48000
        }))]
    ));

    let mut android = task(Platform::Android, false);
    for _ in 0..2 {
        let actions = android.handle_client_message(DeviceMessage::GetNativeSampleRate, 0);
        assert!(matches!(
            actions[..],
            [DeviceAction::SendUiEvent(UiEvent::GetNativeSampleRate { who_sent_this: 4 })]
        ));
    }
    let event = DeviceEvent::UiNativeSampleRate(audio_info("4"));
    let (actions, quit) = android.handle_device_event(event, 0);
    assert_eq!(quit, None);
    assert_eq!(actions.len(), 2);
    for action in &actions {
        assert!(matches!(
            action,
            DeviceAction::SendToDevice(DeviceMessage::NativeSampleRate(NativeSampleRate {
                native_sample_rate: 44100
            }))
        ));
    }
    let actions = android.handle_client_message(DeviceMessage::GetNativeSampleRate, 0);
    assert!(matches!(
        actions[..],
        [DeviceAction::SendToDevice(DeviceMessage::NativeSampleRate(_))]
    ));
}

#[test]
fn offered_stream_is_played() {
    let mut server = task(Platform::Linux, false);
    let mut actions = server.handle_client_message(native_rate(48000), 0);
    let message = match actions.pop() {
        Some(DeviceAction::SendToDevice(message)) => message,
        _ => panic!(),
    };
    let mut android = task(Platform::Android, false);
    assert!(!android.can_handle_client_message(&message));
    android.handle_device_event(DeviceEvent::UiNativeSampleRate(audio_info("4")), 0);
    assert!(android.can_handle_client_message(&message));
    let actions = android.handle_client_message(message, 0);
    assert!(matches!(
        actions[..],
        [DeviceAction::ConnectToData(DataConnectionRequest {
            id: 4,
            next_resource_request: NextResourceRequest::PlayAudio {
                sample_rate: 48000,
                android_info: Some(PlayAudioEventAndroid { frames_per_burst: 96 }),
                decode_opus: false,
            },
            data_connection_type: DataConnectionType::Tcp,
        })]
    ));
}

#[test]
fn unsupported_streams_are_not_played() {
    let mut task = task(Platform::Linux, false);
    let opus = AudioStreamInfo::new(AudioFormat::Opus, 2, 48000, 1);
    let actions = task.handle_client_message(DeviceMessage::PlayAudioStream(opus), 0);
    assert!(matches!(
        actions[..],
        [DeviceAction::ConnectToData(DataConnectionRequest {
            next_resource_request: NextResourceRequest::PlayAudio {
                decode_opus: true,
                android_info: None,
                ..
            },
            ..
        })]
    ));
    let mono = AudioStreamInfo::new(AudioFormat::Pcm, 1, 48000, 1);
    assert!(task.handle_client_message(DeviceMessage::PlayAudioStream(mono), 0).is_empty());
    let slow = AudioStreamInfo::new(AudioFormat::Pcm, 2, 8000, 1);
    assert!(task.handle_client_message(DeviceMessage::PlayAudioStream(slow), 0).is_empty());
    let mut other = AudioStreamInfo::new(AudioFormat::Pcm, 2, 48000, 1);
    other.format = "flac".to_string();
    assert_eq!(other.try_parse_audio_format(), Err(UnsupportedFormat));
    assert!(task.handle_client_message(DeviceMessage::PlayAudioStream(other), 0).is_empty());
    let error = DeviceMessage::AudioStreamPlayError("x".to_string());
    assert!(task.handle_client_message(error, 0).is_empty());
}

#[test]
fn audio_formats() {
    for format in [AudioFormat::Pcm, AudioFormat::Opus] {
        let info = AudioStreamInfo::new(format, 2, 48000, 1);
        assert_eq!(info.format, format.as_json_value());
        assert_eq!(info.try_parse_audio_format(), Ok(format));
    }
    assert_eq!(AudioFormat::Pcm.as_json_value(), "pcm-s16le");
    assert_eq!(AudioFormat::Opus.as_json_value(), "opus");
}

#[test]
fn device_quits() {
    assert_eq!(
        DeviceStateTask::quit(QuitMode::QuitRequest),
        QuitActions { send_connection_error: false, remove_connection: false }
    );
    assert_eq!(
        DeviceStateTask::quit(QuitMode::Disconnect),
        QuitActions { send_connection_error: false, remove_connection: true }
    );
    assert_eq!(
        DeviceStateTask::quit(QuitMode::ConnectionError),
        QuitActions { send_connection_error: true, remove_connection: true }
    );
    let error = ConnectionEvent::ReadError(4, ReadError::MessageSize(-1));
    assert!(matches!(
        DeviceStateTask::handle_connection_event(error),
        Err(QuitMode::ConnectionError)
    ));
    assert!(matches!(
        DeviceStateTask::handle_connection_event(ConnectionEvent::Message(
            4,
            DeviceMessage::Ping
        )),
        Ok(DeviceMessage::Ping)
    ));
}

fn json_connection(id: u64) -> JsonConnection<u8> {
    JsonConnection::new(1, SocketAddress::V4 { address: 1, port: 2 }, id)
}

#[test]
fn device_manager_events() {
    let mut manager = DeviceManager::new(true);
    let event = |event: DeviceManagerEvent<u8>| DmEvent::from(event);
    for id in [3, 5] {
        assert!(matches!(
            manager
                .handle_dm_event(event(DeviceManagerEvent::NewDeviceConnection(json_connection(id)))),
            DeviceManagerAction::StartDevice(_)
        ));
    }
    assert_eq!(manager.connections, vec![3, 5]);
    assert!(matches!(
        manager.handle_dm_event(event(DeviceManagerEvent::RunDeviceConnectionPing)),
        DeviceManagerAction::SendToAll(DeviceEvent::SendPing)
    ));
    assert!(matches!(
        manager.handle_dm_event(event(DeviceManagerEvent::DisconnectAllDevices)),
        DeviceManagerAction::SendToAll(DeviceEvent::Disconnect)
    ));
    assert!(matches!(
        manager.handle_dm_event(event(DeviceManagerEvent::UiNativeSampleRate(5, audio_info("5")))),
        DeviceManagerAction::SendTo(5, DeviceEvent::UiNativeSampleRate(_))
    ));
    assert!(matches!(
        manager.handle_dm_event(event(DeviceManagerEvent::UiNativeSampleRate(4, audio_info("4")))),
        DeviceManagerAction::Nothing
    ));
    assert!(manager.is_connected(3));
    let remove = DmEvent::from(DeviceManagerInternalEvent::<u8>::RemoveConnection(3));
    assert!(matches!(manager.handle_dm_event(remove), DeviceManagerAction::QuitDevice(3)));
    assert_eq!(manager.connections, vec![5]);
    assert!(!manager.is_connected(3));
    assert!(matches!(
        manager.handle_ping_timer_tick::<u8>(),
        DeviceManagerAction::SendToAll(DeviceEvent::SendPing)
    ));
    assert!(matches!(
        DeviceManager::new(false).handle_ping_timer_tick::<u8>(),
        DeviceManagerAction::Nothing
    ));
}

#[test]
fn data_connection_accepts_only_the_device() {
    let device = SocketAddress::V4 { address: 9, port: 1 };
    let mut connection = DataConnection::new(device);
    assert!(DataConnection::handle_bind::<u8>(Ok(())).is_none());
    assert!(matches!(
        DataConnection::handle_bind::<u8>(Err(error(IoErrorKind::Other))),
        Some(DataConnectionEvent::TcpListenerBindError(_))
    ));
    assert!(matches!(
        DataConnection::handle_port_number::<u8>(Ok(8082)),
        (DataConnectionEvent::PortNumber(8082), true)
    ));
    assert!(matches!(
        DataConnection::handle_port_number::<u8>(Err(error(IoErrorKind::Other))),
        (DataConnectionEvent::GetPortNumberError(_), false)
    ));
    assert!(matches!(
        connection.handle_accept::<u8>(Ok(SocketAddress::V4 { address: 9, port: 77 })),
        AcceptAction::MakeHandle
    ));
    assert!(matches!(
        connection.handle_accept::<u8>(Ok(SocketAddress::V4 { address: 8, port: 1 })),
        AcceptAction::Ignore
    ));
    assert!(matches!(
        connection.handle_accept::<u8>(Err(error(IoErrorKind::Other))),
        AcceptAction::SendEvent(DataConnectionEvent::AcceptError(_))
    ));
    assert!(matches!(
        connection.handle_connection::<u8>(Err(error(IoErrorKind::Other))),
        DataConnectionEvent::SendConnectionError(_)
    ));
    assert!(!connection.connected);
    assert!(matches!(
        connection.handle_connection::<u8>(Ok(5)),
        DataConnectionEvent::NewConnection(5)
    ));
    assert!(connection.connected);
}

type UiAction = UiManagerAction<u8, u8, u8>;

fn ui_message(message: UiProtocolFromUiToServer) -> UiManagerEvent<u8> {
    UiManagerEvent::Connection(ConnectionEvent::Message(0, message))
}

#[test]
fn ui_request_is_answered_to_the_requester() {
    let mut manager = UiConnectionManager::new(true);
    let event = || UiManagerEvent::UiEvent(UiEvent::GetNativeSampleRate {
        who_sent_this: u64::MAX,
    });
    let dropped: UiAction = manager.handle_event(event());
    assert!(matches!(dropped, UiManagerAction::Nothing));
    let accepted: UiAction = manager.handle_event(UiManagerEvent::Accepted(Ok(3)));
    assert!(matches!(accepted, UiManagerAction::StartConnection(3)));
    let sent: UiAction = manager.handle_event(event());
    let message_from = match sent {
        UiManagerAction::SendToUi(UiProtocolFromServerToUi::AndroidGetNativeSampleRate {
            message_from,
        }) => message_from,
        _ => panic!(),
    };
    assert_eq!(message_from, "18446744073709551615");
    let answer = UiProtocolFromUiToServer::AndroidNativeSampleRate(audio_info(&message_from));
    let action: UiAction = manager.handle_event(ui_message(answer));
    assert!(matches!(
        action,
        UiManagerAction::SendDeviceManagerEvent(DeviceManagerEvent::UiNativeSampleRate(
            u64::MAX,
            _
        ))
    ));
    let answer = UiProtocolFromUiToServer::AndroidNativeSampleRate(audio_info("-1"));
    let action: UiAction = manager.handle_event(ui_message(answer));
    assert!(matches!(action, UiManagerAction::Nothing));
}

#[test]
fn ui_messages() {
    let mut manager = UiConnectionManager::new(true);
    let _: UiAction = manager.handle_event(UiManagerEvent::Accepted(Ok(3)));
    for (event, name) in [
        (UiEvent::ConnectionError { connection_id: 1 }, "error"),
        (UiEvent::AllDevicesAreNowDisconnected, "disconnected"),
        (UiEvent::ConnectionEstablished { connection_id: 1 }, "established"),
    ] {
        let action: UiAction = manager.handle_event(UiManagerEvent::UiEvent(event));
        let sent = match action {
            UiManagerAction::SendToUi(
                UiProtocolFromServerToUi::DeviceConnectionDisconnectedWithError,
            ) => "error",
            UiManagerAction::SendToUi(UiProtocolFromServerToUi::DeviceConnectionDisconnected) => {
                "disconnected"
            }
            UiManagerAction::SendToUi(UiProtocolFromServerToUi::DeviceConnectionEstablished) => {
                "established"
            }
            _ => panic!(),
        };
        assert_eq!(sent, name);
    }
    let connect =
        UiProtocolFromUiToServer::ConnectTo { ip_address: "192.168.1.5".to_string() };
    let action: UiAction = manager.handle_event(ui_message(connect));
    match action {
        UiManagerAction::ResolveAddress(text) => assert_eq!(text, "192.168.1.5:8080"),
        _ => panic!(),
    }
    let address = SocketAddress::V4 { address: 1, port: 8080 };
    let action: UiAction = UiConnectionManager::handle_resolved_address(Some(address));
    assert!(matches!(
        action,
        UiManagerAction::SendConnectionManagerEvent(ConnectionManagerEvent::ConnectTo {
            address: SocketAddress::V4 { address: 1, port: 8080 }
        })
    ));
    let action: UiAction = UiConnectionManager::handle_resolved_address(None);
    assert!(matches!(action, UiManagerAction::Nothing));
    let action: UiAction =
        manager.handle_event(ui_message(UiProtocolFromUiToServer::DisconnectDevice));
    assert!(matches!(
        action,
        UiManagerAction::SendDeviceManagerEvent(DeviceManagerEvent::DisconnectAllDevices)
    ));
    let action: UiAction =
        manager.handle_event(ui_message(UiProtocolFromUiToServer::RunDeviceConnectionPing));
    assert!(matches!(
        action,
        UiManagerAction::SendDeviceManagerEvent(DeviceManagerEvent::RunDeviceConnectionPing)
    ));
    let action: UiAction =
        manager.handle_event(ui_message(UiProtocolFromUiToServer::NotificationTest));
    assert!(matches!(action, UiManagerAction::Nothing));
}

#[test]
fn ui_connection_closes() {
    let mut manager = UiConnectionManager::new(true);
    let action: UiAction =
        manager.handle_event(UiManagerEvent::Accepted(Err(error(IoErrorKind::Other))));
    assert!(matches!(action, UiManagerAction::Nothing));
    let _: UiAction = manager.handle_event(UiManagerEvent::Accepted(Ok(3)));
    let event = ConnectionEvent::ReadError(0, ReadError::Deserialize("x".to_string()));
    let action: UiAction = manager.handle_event(UiManagerEvent::Connection(event));
    assert!(matches!(action, UiManagerAction::CloseConnection(QuitReason::ConnectionError)));
    assert_eq!(manager.state, UiConnectionState::Listening);
    let _: UiAction = manager.handle_event(UiManagerEvent::Accepted(Ok(3)));
    let action: UiAction = manager.handle_event(UiManagerEvent::QuitRequest);
    assert!(matches!(action, UiManagerAction::CloseConnection(QuitReason::QuitRequest)));
    let mut manager = UiConnectionManager::new(false);
    assert_eq!(manager.state, UiConnectionState::Disabled);
    let action: UiAction = manager.handle_event(UiManagerEvent::QuitRequest);
    assert!(matches!(action, UiManagerAction::Quit));
}

#[test]
fn router_sends_messages_to_components() {
    type Message = RouterMessage<u8, u8, u8, u8>;
    assert!(matches!(Router::run(Message::AudioServer(1)), Some(RoutedMessage::Audio(1))));
    assert!(matches!(
        Router::run(Message::DeviceManager(2)),
        Some(RoutedMessage::DeviceManager(2))
    ));
    assert!(matches!(
        Router::run(Message::ConnectionManager(3)),
        Some(RoutedMessage::ConnectionManager(3))
    ));
    assert!(matches!(Router::run(Message::Ui(4)), Some(RoutedMessage::Ui(4))));
    assert!(Router::run(Message::Router(RouterEvent::SendQuitRequest)).is_none());
}

#[test]
fn main_logic_starts_and_closes() {
    let mut config = config();
    let address = SocketAddress::V4 { address: 1, port: 8080 };
    config.connect_address = Some(address);
    let mut logic = AsyncLogic::new(&config);
    let events = logic.start_events::<u8, u8>();
    assert!(matches!(
        events[..],
        [ConnectionManagerEvent::StartTcpListener, ConnectionManagerEvent::ConnectTo { .. }]
    ));
    assert!(logic.handle_ctrl_c(Ok(())));
    assert!(!logic.handle_ctrl_c(Err(error(IoErrorKind::Other))));
    assert!(!logic.ctrl_c_listener_enabled);
    let steps: Vec<ShutdownStep> = (0..11).map(AsyncLogic::shutdown_step).collect();
    assert_eq!(steps[0], ShutdownStep::RequestQuit(Component::DeviceManager));
    assert_eq!(steps[8], ShutdownStep::RequestQuit(Component::Router));
    assert_eq!(steps[9], ShutdownStep::Wait(Component::Router));
    assert_eq!(steps[10], ShutdownStep::Ready);
}
