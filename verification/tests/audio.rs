use jonect::audio::{
    pulseaudio::{
        stream::{
            PARecordingStreamEvent, PAStreamManager, PeekKind, ReadAction, RecordingStreamState,
            StateChangeAction, StreamError, StreamEventAction, StreamQuitAction,
        },
        AudioServer, AudioServerAction, AudioServerEvent,
    },
    AudioEvent, AudioManager, AudioManagerAction, AudioManagerMode, DataConnectionMonitor,
    MonitorAction,
};
use jonect::config::{LogicConfig, Platform};
use jonect::connection::data::{usb::UsbDataConnectionBuilder, DataSenderInterface, PacketBytes};
use jonect::net::SocketAddress;
use jonect::utils::error::{IoError, IoErrorKind};
use std::collections::VecDeque;

/// Connection which has room for some packets.
struct TestConnection {
    room: usize,
    error: Option<IoErrorKind>,
    packets: Vec<Vec<u8>>,
}

impl TestConnection {
    fn new() -> Self {
        Self { room: usize::MAX, error: None, packets: Vec::new() }
    }
}

impl DataSenderInterface for TestConnection {
    fn reliable_sender(&self) -> bool {
        true
    }

    fn is_reliable_connection(&self) -> bool {
        true
    }

    fn max_packet_size(&self) -> usize {
        self.packet_size_limit()
    }

    fn packet_size_limit(&self) -> usize {
        1000
    }

    fn send_outcome(&self, _: PacketBytes, _: &Self, _: Result<(), IoError>) -> bool {
        true
    }

    fn send_packet(&mut self, packet: &[u8]) -> Result<(), IoError> {
        if let Some(kind) = self.error {
            return Err(IoError::from_kind(kind));
        }
        if self.room == 0 {
            return Err(IoError::from_kind(IoErrorKind::WouldBlock));
        }
        self.room -= 1;
        self.packets.push(packet.to_vec());
        Ok(())
    }
}

fn config() -> LogicConfig {
    LogicConfig {
        pa_source_name: Some("source".to_string()),
        encode_opus: true,
        enable_connection_listening: true,
        enable_ping: false,
        connect_address: None,
        enable_udp_audio_data_sending: false,
    }
}

#[test]
fn audio_manager_modes() {
    let mut config = config();
    assert_eq!(AudioManager::new(Platform::Android, &config).mode, AudioManagerMode::Oboe);
    let manager = AudioManager::new(Platform::Linux, &config);
    assert_eq!(manager.mode, AudioManagerMode::PulseAudio);
    assert!(matches!(
        manager.handle_event(AudioEvent::<u8>::StopRecording),
        AudioManagerAction::SendToAudioThread(AudioEvent::StopRecording)
    ));
    config.connect_address = Some(SocketAddress::V4 { address: 1, port: 8080 });
    let manager = AudioManager::new(Platform::Linux, &config);
    assert_eq!(manager.mode, AudioManagerMode::Monitor);
    assert!(matches!(
        manager.handle_event(AudioEvent::PlayAudio {
            send_handle: 5u8,
            sample_rate: 48000,
            android_info: None,
            decode_opus: false,
        }),
        AudioManagerAction::MonitorDataConnection(5)
    ));
    assert!(matches!(
        manager.handle_event(AudioEvent::<u8>::StopRecording),
        AudioManagerAction::Stop
    ));
}

#[test]
fn monitor_reports_once_in_a_second() {
    let mut monitor = DataConnectionMonitor::new();
    assert_eq!(
        monitor.handle_data_connection(Ok(104), 5),
        MonitorAction::Receive { speed: None, first_packet: true }
    );
    assert_eq!(
        monitor.handle_data_connection(Ok(4), 999_999_999),
        MonitorAction::Receive { speed: None, first_packet: false }
    );
    assert_eq!(
        monitor.handle_data_connection(Ok(54), 1_000_000_005),
        MonitorAction::Receive { speed: Some(150), first_packet: false }
    );
    assert_eq!(monitor.bytes_per_second, 0);
    assert_eq!(
        monitor.handle_data_connection(Err(IoErrorKind::WouldBlock), 0),
        MonitorAction::WaitTimer
    );
    assert_eq!(monitor.handle_data_connection(Ok(0), 0), MonitorAction::WaitQuit);
    assert_eq!(
        monitor.handle_data_connection(Err(IoErrorKind::Other), 0),
        MonitorAction::WaitQuit
    );
}

#[test]
fn audio_server_events() {
    let server = AudioServer::new(&config());
    assert!(matches!(
        server.handle_event(AudioServerEvent::<u8, u8>::RequestQuit),
        AudioServerAction::RequestQuit
    ));
    assert!(matches!(
        server.handle_event(AudioServerEvent::<u8, u8>::PAEvent(3)),
        AudioServerAction::HandlePAEvent(3)
    ));
    assert!(matches!(
        server.handle_event(AudioServerEvent::<u8, u8>::PAQuitReady),
        AudioServerAction::QuitMainLoop
    ));
    assert!(matches!(
        server.handle_event(AudioServerEvent::<u8, u8>::AudioEvent(AudioEvent::StopRecording)),
        AudioServerAction::StopRecording
    ));
    assert!(matches!(
        server.handle_event(AudioServerEvent::<u8, u8>::AudioEvent(AudioEvent::StopPlayingAudio)),
        AudioServerAction::Nothing
    ));
    match server.handle_event(AudioServerEvent::<u8, u8>::AudioEvent(AudioEvent::StartRecording {
        send_handle: 9,
        sample_rate: 44100,
    })) {
        AudioServerAction::StartRecording {
            source_name,
            send_handle: 9,
            encode_opus: true,
            sample_rate: 44100,
        } => assert_eq!(source_name, Some("source".to_string())),
        _ => panic!(),
    }
}

#[test]
fn recording_settings() {
    let mut manager = PAStreamManager::new();
    let settings = manager.request_start_record_stream(false, 44100);
    assert!(!settings.create_encoder);
    assert_eq!(settings.channels, 2);
    assert_eq!(settings.rate, 44100);
    assert_eq!(settings.fragsize, 128);
    assert_eq!(settings.maxlength, u32::MAX);
    assert_eq!(manager.handle_recording_stream_read(PeekKind::Data), ReadAction::SendRawPcm);
    let settings = manager.request_start_record_stream(true, 44100);
    assert!(settings.create_encoder);
    assert_eq!(settings.rate, 48000);
    assert_eq!(manager.handle_recording_stream_read(PeekKind::Data), ReadAction::EncodeAndSend);
    // The encoder stays in use.
    manager.request_start_record_stream(false, 44100);
    assert_eq!(manager.handle_recording_stream_read(PeekKind::Data), ReadAction::EncodeAndSend);
    assert_eq!(manager.handle_recording_stream_read(PeekKind::Hole), ReadAction::Discard);
    assert_eq!(manager.handle_recording_stream_read(PeekKind::Empty), ReadAction::StopReading);
}

fn send_all(manager: &mut PAStreamManager, data: &[u8]) -> Vec<Vec<u8>> {
    let mut connection = TestConnection::new();
    assert!(manager.handle_raw_pcm_data(data, &mut connection).is_ok());
    connection.packets
}

#[test]
fn raw_pcm_packets_are_the_stream() {
    let stream: Vec<u8> = (0..2000).map(|i| (i % 251) as u8).collect();
    let mut manager = PAStreamManager::new();
    manager.request_start_record_stream(false, 48000);
    let mut packets = Vec::new();
    for piece in stream.chunks(122) {
        packets.extend(send_all(&mut manager, piece));
    }
    assert_eq!(packets.len(), 4);
    for (i, packet) in packets.iter().enumerate() {
        assert_eq!(packet.len(), 484);
        assert_eq!(packet[..4].to_vec(), (i as u32).to_be_bytes().to_vec());
        assert_eq!(packet[4..].to_vec(), stream[480 * i..480 * (i + 1)].to_vec());
    }
    assert_eq!(manager.raw_pcm_buffer, stream[1920..].to_vec());

    // All data at once makes the same packets.
    let mut manager = PAStreamManager::new();
    manager.request_start_record_stream(false, 48000);
    assert_eq!(send_all(&mut manager, &stream), packets);
    assert_eq!(manager.raw_pcm_buffer, stream[1920..].to_vec());
    assert!(manager.unsent.is_empty());
}

#[test]
fn packet_number_wraps_around() {
    let mut manager = PAStreamManager::new();
    manager.request_start_record_stream(false, 48000);
    manager.audio_packet_counter = u32::MAX;
    let packets = send_all(&mut manager, &[1; 960]);
    assert_eq!(packets[0][..4].to_vec(), vec![255, 255, 255, 255]);
    assert_eq!(packets[1][..4].to_vec(), vec![0, 0, 0, 0]);
}

#[test]
fn odd_data_is_an_error() {
    let mut manager = PAStreamManager::new();
    assert!(matches!(
        manager.next_raw_pcm_packet(&[1, 2, 3], 0),
        Err(StreamError::NotEnoughBytesForOneSample)
    ));
    assert!(matches!(
        manager.handle_data_with_encoding(&[1], 0),
        Err(StreamError::NotEnoughBytesForOneSample)
    ));
    let mut connection = TestConnection::new();
    assert!(matches!(
        manager.handle_raw_pcm_data(&[1; 481], &mut connection),
        Err(StreamError::NotEnoughBytesForOneSample)
    ));
    assert!(connection.packets.is_empty());
    assert!(manager.raw_pcm_buffer.is_empty());
    assert_eq!(manager.audio_packet_counter, 0);
}

#[test]
fn data_without_room_is_sent_later() {
    let stream: Vec<u8> = (0..480 * 5).map(|i| (i % 233) as u8).collect();
    let mut manager = PAStreamManager::new();
    manager.request_start_record_stream(false, 48000);
    let mut connection = TestConnection::new();

    connection.room = 1;
    assert!(manager.handle_raw_pcm_data(&stream[..480 * 3], &mut connection).is_ok());
    assert_eq!(connection.packets.len(), 1);
    assert_eq!(manager.unsent.len(), 2);
    assert_eq!(manager.audio_packet_drop_count, 2);
    assert!(manager.raw_pcm_buffer.is_empty());
    assert!(manager.can_send_unsent(484));
    assert!(!manager.can_send_unsent(483));

    // The oldest packet is sent first.
    connection.room = 1;
    assert!(manager.handle_raw_pcm_data(&stream[480 * 3..480 * 4], &mut connection).is_ok());
    assert_eq!(connection.packets.len(), 2);
    assert_eq!(manager.unsent.len(), 2);
    assert_eq!(manager.audio_packet_drop_count, 3);

    connection.room = 10;
    assert!(manager.handle_raw_pcm_data(&stream[480 * 4..], &mut connection).is_ok());
    assert!(manager.unsent.is_empty());
    assert_eq!(manager.audio_packet_drop_count, 3);
    assert_eq!(connection.packets.len(), 5);
    for (i, packet) in connection.packets.iter().enumerate() {
        assert_eq!(packet[..4].to_vec(), (i as u32).to_be_bytes().to_vec());
        assert_eq!(packet[4..].to_vec(), stream[480 * i..480 * (i + 1)].to_vec());
    }

    connection.room = 0;
    assert!(manager.handle_raw_pcm_data(&[0; 480], &mut connection).is_ok());
    assert_eq!(manager.unsent.len(), 1);
    manager.request_start_record_stream(false, 48000);
    assert!(manager.unsent.is_empty());
}

#[test]
fn connection_error_stops_reading() {
    let mut manager = PAStreamManager::new();
    manager.request_start_record_stream(false, 48000);
    let mut connection = TestConnection::new();
    connection.error = Some(IoErrorKind::ConnectionReset);
    let error = manager.handle_raw_pcm_data(&[3; 960], &mut connection);
    match &error {
        Err(StreamError::SocketError(e)) => assert_eq!(e.kind, IoErrorKind::ConnectionReset),
        _ => panic!(),
    }
    assert_eq!(manager.raw_pcm_buffer, vec![3; 480]);
    assert_eq!(manager.audio_packet_counter, 1);
    assert_eq!(manager.audio_packet_drop_count, 0);
    assert_eq!(manager.unsent.len(), 1);
    assert!(manager.handle_read_result(error));
    assert_eq!(manager.handle_recording_stream_read(PeekKind::Data), ReadAction::StopReading);
    // Nothing is sent from a buffer which is left full.
    assert!(matches!(manager.next_raw_pcm_packet(&[0; 960], 0), Ok(None)));
}

#[test]
fn send_results() {
    let mut unsent: VecDeque<Vec<u8>> = VecDeque::from([vec![9]]);
    let mut drop_count = 5;
    let sent = PAStreamManager::handle_send_result(vec![1], Ok(()), &mut drop_count, &mut unsent);
    assert!(matches!(sent, Ok(true)));
    assert_eq!(unsent.len(), 1);
    let full = Err(IoError::from_kind(IoErrorKind::WouldBlock));
    let sent = PAStreamManager::handle_send_result(vec![2], full, &mut drop_count, &mut unsent);
    assert!(matches!(sent, Ok(false)));
    assert_eq!(drop_count, 6);
    assert_eq!(unsent, vec![vec![2], vec![9]]);
    let broken = Err(IoError::from_kind(IoErrorKind::BrokenPipe));
    let sent = PAStreamManager::handle_send_result(vec![3], broken, &mut drop_count, &mut unsent);
    assert!(matches!(sent, Err(StreamError::SocketError(_))));
    assert_eq!(drop_count, 6);
    assert_eq!(unsent, vec![vec![3], vec![2], vec![9]]);

    let mut counter = 7;
    let mut connection = TestConnection::new();
    let result = PAStreamManager::handle_data(
        &[8],
        &mut connection,
        &mut drop_count,
        &mut counter,
        &mut unsent,
    );
    assert!(result.is_ok());
    assert_eq!(connection.packets, vec![vec![3], vec![2], vec![9], vec![0, 0, 0, 7, 8]]);
    assert_eq!(counter, 8);
    assert!(unsent.is_empty());
}

#[test]
fn raw_pcm_data_is_sent_as_packets() {
    let stream: Vec<u8> = (0..1300).map(|i| (i % 239) as u8).collect();
    let (mut sender, mut receiver) = UsbDataConnectionBuilder::build_sender();
    let mut manager = PAStreamManager::new();
    manager.request_start_record_stream(false, 48000);
    assert!(manager.handle_raw_pcm_data(&stream[..1000], &mut sender).is_ok());
    assert!(manager.handle_raw_pcm_data(&stream[1000..1100], &mut sender).is_ok());
    assert!(manager.handle_raw_pcm_data(&stream[1100..], &mut sender).is_ok());
    assert_eq!(manager.raw_pcm_buffer, stream[960..].to_vec());
    assert!(manager.handle_raw_pcm_data(&[5; 140], &mut sender).is_ok());
    assert!(manager.raw_pcm_buffer.is_empty());
    assert_eq!(manager.audio_packet_counter, 3);
    for i in 0..3u32 {
        let packet = receiver.try_recv().unwrap();
        assert_eq!(packet.data()[..4].to_vec(), i.to_be_bytes().to_vec());
        let start = 480 * i as usize;
        let mut expected = stream[start..(start + 480).min(1300)].to_vec();
        expected.resize(480, 5);
        assert_eq!(packet.data()[4..].to_vec(), expected);
    }
    assert!(receiver.try_recv().is_err());

    assert!(matches!(
        manager.handle_raw_pcm_data(&[1, 2, 3], &mut sender),
        Err(StreamError::NotEnoughBytesForOneSample)
    ));

    drop(receiver);
    assert!(manager.handle_raw_pcm_data(&[0; 478], &mut sender).is_ok());
    match manager.handle_raw_pcm_data(&[0; 2], &mut sender) {
        Err(StreamError::SocketError(e)) => assert_eq!(e.kind, IoErrorKind::BrokenPipe),
        _ => panic!(),
    }
    assert_eq!(manager.audio_packet_drop_count, 0);
}

#[test]
fn frames_for_the_encoder() {
    let mut manager = PAStreamManager::new();
    manager.request_start_record_stream(true, 44100);
    let mut data = Vec::new();
    for sample in -120..130i16 {
        data.extend_from_slice(&sample.to_le_bytes());
    }
    assert!(matches!(manager.handle_data_with_encoding(&data, 0), Ok(Some(480))));
    assert_eq!(manager.encoder_buffer, (-120..120).collect::<Vec<i16>>());
    let mut connection = TestConnection::new();
    assert!(manager.handle_encoded_data(Ok(&[7, 8, 9]), &mut connection).is_ok());
    assert_eq!(connection.packets, vec![vec![0, 0, 0, 0, 7, 8, 9]]);
    assert_eq!(manager.audio_packet_counter, 1);
    assert!(matches!(manager.handle_data_with_encoding(&data, 480), Ok(None)));
    assert_eq!(manager.encoder_buffer, (120..130).collect::<Vec<i16>>());
    assert!(matches!(
        manager.handle_encoded_data(Err("bad".to_string()), &mut connection),
        Err(StreamError::EncoderError(_))
    ));
    assert_eq!(manager.encoder_buffer.len(), 10);
}

#[test]
fn quit_is_answered_when_the_stream_terminates() {
    let mut manager = PAStreamManager::new();
    assert_eq!(manager.request_quit(), StreamQuitAction::QuitReady);
    let mut manager = PAStreamManager::new();
    assert!(!manager.stop_recording());
    manager.request_start_record_stream(false, 48000);
    assert!(manager.stop_recording());
    assert_eq!(manager.request_quit(), StreamQuitAction::Disconnect);
    assert_eq!(
        manager.handle_recording_stream_event(PARecordingStreamEvent::StateChange),
        StreamEventAction::CheckState
    );
    assert_eq!(
        manager.handle_recording_stream_state_change(RecordingStreamState::Failed),
        StateChangeAction::LogFailure
    );
    assert_eq!(
        manager.handle_recording_stream_state_change(RecordingStreamState::Ready),
        StateChangeAction::LogDeviceName
    );
    assert_eq!(
        manager.handle_recording_stream_state_change(RecordingStreamState::Other),
        StateChangeAction::Nothing
    );
    assert_eq!(
        manager.handle_recording_stream_state_change(RecordingStreamState::Terminated),
        StateChangeAction::DropStream { quit_ready: true, audio_packet_drop_count: 0 }
    );
    assert_eq!(
        manager.handle_recording_stream_event(PARecordingStreamEvent::Moved),
        StreamEventAction::Nothing
    );
}
