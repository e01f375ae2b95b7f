use jonect::audio::AudioEvent;
use jonect::connection::{
    data::{
        tcp::{
            recv_packet_result, recv_packet_size, send_packet_size, TcpDataConnection,
            TcpDataConnectionBuilder, TcpSendEvent, TcpSendStep,
        },
        udp::{UdpDataConnectionBuilder, UdpError, UdpManager, UdpSocketSource},
    },
    tcp::{ConnectionListener, ListenerError, ListenerSocket},
    CmInternalEvent, ConnectionManager, ConnectionManagerAction, ConnectionManagerEvent,
    ConnectionResources, DataConnectionType, NextResourceRequest, ResourceHandle, ResourceManager,
    StopAudioEvents,
};
use jonect::device::DeviceManagerEvent;
use jonect::net::{IpAddress, SocketAddress};
use jonect::ui::UiEvent;
use jonect::utils::error::{IoError, IoErrorKind};

type Event = ConnectionManagerEvent<u8, u8>;
type Action = ConnectionManagerAction<u8, u8>;

fn error(kind: IoErrorKind) -> IoError {
    IoError::from_kind(kind)
}

fn address(ip: u32) -> SocketAddress {
    SocketAddress::V4 { address: ip, port: 1000 }
}

fn new_json(ip: u32) -> Event {
    CmInternalEvent::NewJsonStream { stream: 1, address: address(ip), usb: false }.into()
}

fn new_data(stream: u8, ip: u32) -> Event {
    CmInternalEvent::NewDataStream(stream, address(ip)).into()
}

fn connect(manager: &mut ConnectionManager<u8>, ip: u32) -> u64 {
    match manager.handle_cm_event(new_json(ip)) {
        Action::SendDeviceManagerEvent(DeviceManagerEvent::NewDeviceConnection(connection)) => {
            assert_eq!(connection.address, address(ip));
            connection.id()
        }
        _ => panic!(),
    }
}

#[test]
fn connection_ids_are_not_reused() {
    let mut manager = ConnectionManager::new();
    assert_eq!(connect(&mut manager, 10), 0);
    assert_eq!(connect(&mut manager, 10), 1);
    let remove = Event::RemoveDataConnections { id: 1 };
    assert!(matches!(
        manager.handle_cm_event(remove),
        Action::StopAudio(StopAudioEvents { stop_playing_audio: false, stop_recording: false })
    ));
    assert_eq!(connect(&mut manager, 10), 2);
    let remove = Event::RemoveDataConnections { id: 1 };
    assert!(matches!(manager.handle_cm_event(remove), Action::Nothing));
}

#[test]
fn requested_recording_starts() {
    let mut manager = ConnectionManager::new();
    let id = connect(&mut manager, 10);
    connect(&mut manager, 11);
    let request = Event::SetNextResourceRequest {
        id,
        next_resource_request: NextResourceRequest::SendAudio { sample_rate: 44100 },
        data_connection_type: DataConnectionType::Tcp,
    };
    assert!(matches!(manager.handle_cm_event(request), Action::Nothing));
    assert!(matches!(manager.handle_cm_event(new_data(5, 99)), Action::Nothing));
    match manager.handle_cm_event(new_data(6, 10)) {
        Action::SendAudioEvent(AudioEvent::StartRecording { send_handle, sample_rate }) => {
            assert_eq!(send_handle.tcp_stream, 6);
            assert!(send_handle.nonblocking);
            assert_eq!(sample_rate, 44100);
        }
        _ => panic!(),
    }
    // Recording is already in use.
    assert!(matches!(manager.handle_cm_event(new_data(7, 10)), Action::Nothing));
    assert!(matches!(
        manager.handle_cm_event(Event::RemoveDataConnections { id }),
        Action::StopAudio(StopAudioEvents { stop_playing_audio: false, stop_recording: true })
    ));
}

#[test]
fn requested_playing_connects_and_starts() {
    let mut manager = ConnectionManager::new();
    let old_id = connect(&mut manager, 10);
    let id = connect(&mut manager, 10);
    assert_ne!(old_id, id);
    let request = |id| Event::ConnectToData {
        id,
        next_resource_request: NextResourceRequest::PlayAudio {
            sample_rate: 48000,
            android_info: None,
            decode_opus: true,
        },
        data_connection_type: DataConnectionType::Tcp,
    };
    assert!(matches!(manager.handle_cm_event(request(77)), Action::Nothing));
    match manager.handle_cm_event(request(id)) {
        Action::ConnectData(address) => {
            assert_eq!(address, SocketAddress::V4 { address: 10, port: 8082 });
        }
        _ => panic!(),
    }
    match manager.handle_cm_event(new_data(6, 10)) {
        Action::SendAudioEvent(AudioEvent::PlayAudio {
            send_handle,
            sample_rate: 48000,
            android_info: None,
            decode_opus: true,
        }) => {
            assert_eq!(send_handle.tcp_stream, 6);
            assert!(!send_handle.nonblocking);
        }
        _ => panic!(),
    }
    assert!(matches!(
        manager.handle_cm_event(Event::RemoveDataConnections { id: old_id }),
        Action::StopAudio(StopAudioEvents { stop_playing_audio: false, stop_recording: false })
    ));
    assert!(matches!(
        manager.handle_cm_event(Event::RemoveDataConnections { id }),
        Action::StopAudio(StopAudioEvents { stop_playing_audio: true, stop_recording: false })
    ));
}

#[test]
fn listener_is_started_and_stopped() {
    let mut manager: ConnectionManager<u8> = ConnectionManager::new();
    assert!(matches!(manager.handle_cm_event(Event::StopTcpListener), Action::Nothing));
    assert!(matches!(manager.handle_cm_event(Event::StartTcpListener), Action::StartTcpListener));
    assert!(matches!(manager.handle_cm_event(Event::StopTcpListener), Action::StopTcpListener));
    assert!(matches!(manager.handle_cm_event(Event::StartTcpListener), Action::StartTcpListener));
    assert!(manager.quit());
    assert!(!ConnectionManager::<u8>::new().quit());
}

#[test]
fn connection_manager_errors_and_addresses() {
    let mut manager = ConnectionManager::new();
    let e = CmInternalEvent::ListenerError(ListenerError::BindDataSocket(error(
        IoErrorKind::Other,
    )));
    assert!(matches!(
        manager.handle_cm_event(Event::from(e)),
        Action::SendUiEvent(UiEvent::TcpSupportDisabledBecauseOfError(
            ListenerError::BindDataSocket(_)
        ))
    ));
    let e = CmInternalEvent::UsbTcpListenerError(ListenerError::BindJsonSocket(error(
        IoErrorKind::Other,
    )));
    assert!(matches!(
        manager.handle_cm_event(Event::from(e)),
        Action::SendUiEvent(UiEvent::TcpSupportDisabledBecauseOfError(
            ListenerError::BindJsonSocket(_)
        ))
    ));
    match manager.handle_cm_event(Event::ConnectTo { address: address(5) }) {
        Action::ConnectJson(target) => assert_eq!(target, address(5)),
        _ => panic!(),
    }
}

#[test]
fn resources_have_one_user() {
    let mut resources = ResourceManager::new();
    assert_eq!(resources.connect_play_audio(1), Ok(()));
    assert_eq!(resources.connect_play_audio(2), Err(()));
    assert_eq!(resources.connect_send_audio(2), Ok(()));
    assert_eq!(resources.connect_send_audio(1), Err(()));
    let events = resources.request_disconnect_resources_for(1);
    assert_eq!(events, StopAudioEvents { stop_playing_audio: true, stop_recording: false });
    assert_eq!(resources.play_audio, None);
    assert_eq!(resources.send_audio, Some(ResourceHandle { connection_id: 2 }));
    assert_eq!(resources.connect_play_audio(2), Ok(()));
    let events = ConnectionResources::<u8>::new(2, IpAddress::V4(1)).send_quit_request(&mut resources);
    assert_eq!(events, StopAudioEvents { stop_playing_audio: true, stop_recording: true });
    let events = events.in_order::<u8>();
    assert_eq!(events.len(), 2);
    assert!(matches!(events[0], AudioEvent::StopPlayingAudio));
    assert!(matches!(events[1], AudioEvent::StopRecording));
    let events = resources.request_disconnect_resources_for(2);
    assert!(events.in_order::<u8>().is_empty());
}

#[test]
fn broken_tcp_connection_gives_an_empty_packet() {
    assert_eq!(recv_packet_result(7, Ok(())).unwrap(), 7);
    assert_eq!(recv_packet_result(7, Err(error(IoErrorKind::UnexpectedEof))).unwrap(), 0);
    assert_eq!(recv_packet_result(7, Err(error(IoErrorKind::BrokenPipe))).unwrap(), 0);
    assert_eq!(recv_packet_result(7, Err(error(IoErrorKind::ConnectionReset))).unwrap(), 0);
    assert_eq!(recv_packet_result(7, Err(error(IoErrorKind::ConnectionAborted))).unwrap(), 0);
    let timeout = recv_packet_result(7, Err(error(IoErrorKind::WouldBlock)));
    assert_eq!(timeout.unwrap_err().kind, IoErrorKind::WouldBlock);
    let other = recv_packet_result(7, Err(error(IoErrorKind::Other)));
    assert_eq!(other.unwrap_err().kind, IoErrorKind::Other);
}

#[test]
fn data_connection_without_request_is_pending() {
    let mut resources = ResourceManager::new();
    let mut connection = ConnectionResources::new(3, IpAddress::V6(1));
    assert_eq!(connection.ip(), IpAddress::V6(1));
    connection.set_pending_tcp_connection(8u8);
    assert!(connection.check_next_resource_request(&mut resources).is_none());
    assert_eq!(connection.pending_data_connection_tcp, Some(8));
    connection.set_next_resource_request(
        NextResourceRequest::SendAudio { sample_rate: 48000 },
        DataConnectionType::Udp,
    );
    assert!(connection.check_next_resource_request(&mut resources).is_none());
    assert_eq!(connection.pending_data_connection_tcp, Some(8));
    connection.set_next_resource_request(
        NextResourceRequest::SendAudio { sample_rate: 48000 },
        DataConnectionType::Tcp,
    );
    assert!(connection.check_next_resource_request(&mut resources).is_some());
    assert_eq!(connection.pending_data_connection_tcp, None);
    assert!(connection.check_next_resource_request(&mut resources).is_none());
}

#[test]
fn listener_stops_after_an_error() {
    let mut listener = ConnectionListener::new();
    assert!(listener.handle_bind::<u8, u8>(ListenerSocket::Json, Ok(())).is_none());
    assert!(matches!(
        listener.handle_json_connection::<u8, u8>(Ok((4, address(1)))),
        CmInternalEvent::NewJsonStream { stream: 4, usb: false, .. }
    ));
    assert!(matches!(
        listener.handle_data_connection::<u8, u8>(Ok((5, address(1)))),
        CmInternalEvent::NewDataStream(5, _)
    ));
    assert!(listener.listening);
    assert!(matches!(
        listener.handle_data_connection::<u8, u8>(Err(error(IoErrorKind::Other))),
        CmInternalEvent::ListenerError(ListenerError::AcceptDataConnection(_))
    ));
    assert!(!listener.listening);
    let mut listener = ConnectionListener::new();
    assert!(matches!(
        listener.handle_json_connection::<u8, u8>(Err(error(IoErrorKind::Other))),
        CmInternalEvent::ListenerError(ListenerError::AcceptJsonConnection(_))
    ));
    let mut listener = ConnectionListener::new();
    assert!(matches!(
        listener.handle_bind::<u8, u8>(ListenerSocket::Json, Err(error(IoErrorKind::Other))),
        Some(CmInternalEvent::ListenerError(ListenerError::BindJsonSocket(_)))
    ));
    assert!(matches!(
        listener.handle_bind::<u8, u8>(ListenerSocket::Data, Err(error(IoErrorKind::Other))),
        Some(CmInternalEvent::ListenerError(ListenerError::BindDataSocket(_)))
    ));
    assert!(!listener.listening);
}

/// Send a packet to a socket which has room for `room` bytes and takes at most ten
/// bytes at once.
fn send_tcp(
    connection: &mut TcpDataConnection<Vec<u8>>,
    packet: &[u8],
    mut room: usize,
) -> Result<(), IoError> {
    let mut event = TcpSendEvent::Start;
    loop {
        match connection.send_packet_step(packet, event) {
            TcpSendStep::Done(result) => return result,
            TcpSendStep::Write => {
                let size = room.min(10).min(connection.unsent.len());
                room -= size;
                let written = connection.unsent[..size].to_vec();
                connection.tcp_stream.extend(written);
                event = TcpSendEvent::Written(if size == 0 {
                    Err(error(IoErrorKind::WouldBlock))
                } else {
                    Ok(size)
                });
            }
        }
    }
}

#[test]
fn tcp_socket_gets_whole_packets() {
    let mut connection = TcpDataConnection::new(Vec::new());
    assert!(send_tcp(&mut connection, &[1; 25], 100).is_ok());
    assert!(connection.unsent.is_empty());
    // There is room for a part of the packet.
    assert!(send_tcp(&mut connection, &[2; 25], 12).is_ok());
    assert_eq!(connection.unsent, vec![2; 15]);
    // The rest of the previous packet does not fit.
    let full = send_tcp(&mut connection, &[3; 25], 5);
    assert_eq!(full.unwrap_err().kind, IoErrorKind::WouldBlock);
    assert_eq!(connection.unsent, vec![2; 10]);
    // There is room for the rest of the previous packet only.
    let full = send_tcp(&mut connection, &[3; 25], 10);
    assert_eq!(full.unwrap_err().kind, IoErrorKind::WouldBlock);
    assert!(connection.unsent.is_empty());
    assert!(send_tcp(&mut connection, &[3; 25], 100).is_ok());
    let mut expected = Vec::new();
    for i in 1..4u8 {
        expected.extend([0, 25]);
        expected.extend([i; 25]);
    }
    assert_eq!(connection.tcp_stream, expected);
}

#[test]
fn tcp_send_errors() {
    let mut connection = TcpDataConnection::new(());
    assert!(matches!(
        connection.send_packet_step(&[7], TcpSendEvent::Start),
        TcpSendStep::Write
    ));
    assert_eq!(connection.unsent, vec![0, 1, 7]);
    match connection.send_packet_step(&[7], TcpSendEvent::Written(Ok(0))) {
        TcpSendStep::Done(Err(e)) => assert_eq!(e.kind, IoErrorKind::Other),
        _ => panic!(),
    }
    let mut connection = TcpDataConnection::new(());
    connection.send_packet_step(&[7], TcpSendEvent::Start);
    connection.send_packet_step(&[7], TcpSendEvent::Written(Ok(1)));
    let reset = Err(error(IoErrorKind::ConnectionReset));
    match connection.send_packet_step(&[7], TcpSendEvent::Written(reset)) {
        TcpSendStep::Done(Err(e)) => assert_eq!(e.kind, IoErrorKind::ConnectionReset),
        _ => panic!(),
    }
    assert!(!connection.packet_started);
}

#[test]
fn tcp_packet_sizes() {
    assert_eq!(send_packet_size(&[0; 259]), [1, 3]);
    assert_eq!(recv_packet_size([1, 3], 65_507), 259);
    assert_eq!(recv_packet_size([1, 3], 100), 100);
    assert_eq!(send_packet_size(&vec![0; 65_507]), [255, 227]);
    let receive = TcpDataConnectionBuilder::build_mode_receive(1u8);
    assert!(!receive.nonblocking);
    let send = TcpDataConnectionBuilder::build_mode_send(2u8);
    assert!(send.nonblocking);
    assert!(send.is_reliable_connection());
    let connection = send.build();
    assert_eq!(connection.tcp_stream, 2);
    assert!(TcpDataConnection::new(3u8).is_reliable_connection());
}

#[test]
fn udp_sockets_are_kept() {
    let mut manager: UdpManager<u8> = UdpManager::new();
    match manager.take_receive_socket() {
        UdpSocketSource::BindTo(address) => {
            assert_eq!(address, SocketAddress::V4 { address: 0x7f00_0001, port: 8083 });
        }
        _ => panic!(),
    }
    let builder = manager.build_mode_receive(1, Ok(2)).unwrap();
    assert_eq!(builder.udp_socket, 2);
    assert!(!builder.nonblocking);
    assert!(!builder.is_reliable_connection());
    assert!(matches!(manager.take_receive_socket(), UdpSocketSource::Bound(1)));
    let failed = manager.build_mode_receive(1, Err(UdpError::Clone(error(IoErrorKind::Other))));
    assert!(matches!(failed, Err(UdpError::Clone(_))));
    assert!(matches!(manager.take_receive_socket(), UdpSocketSource::BindTo(_)));

    match manager.take_send_socket() {
        UdpSocketSource::BindTo(address) => {
            assert_eq!(address, SocketAddress::V4 { address: 0x7f00_0001, port: 8082 });
        }
        _ => panic!(),
    }
    assert_eq!(manager.build_mode_send(3, Ok(4)).unwrap().build().udp_socket, 4);
    assert!(matches!(manager.take_send_socket(), UdpSocketSource::Bound(3)));
    let failed = manager.build_mode_send(3, Err(UdpError::Connect(error(IoErrorKind::Other))));
    assert!(matches!(failed, Err(UdpError::Connect(_))));
    let ip = IpAddress::V6(7);
    assert_eq!(
        UdpManager::<u8>::receive_peer_address(ip),
        SocketAddress::V6 { address_v6: 7, port: 8082, flow_info: 0, scope_id: 0 }
    );
    assert_eq!(UdpManager::<u8>::send_peer_address(IpAddress::V4(7)), SocketAddress::V4 {
        address: 7,
        port: 8083,
    });
    let builder = UdpDataConnectionBuilder::build_mode_send(5u8);
    assert!(!builder.build().is_reliable_connection());
}

#[test]
fn socket_address_parts() {
    let v6 = SocketAddress::V6 { address_v6: 9, port: 1, flow_info: 2, scope_id: 3 };
    assert_eq!(v6.ip(), IpAddress::V6(9));
    assert_eq!(SocketAddress::new(IpAddress::V4(8), 7), SocketAddress::V4 { address: 8, port: 7 });
    assert_eq!(SocketAddress::new(IpAddress::V4(8), 7).ip(), IpAddress::V4(8));
}
