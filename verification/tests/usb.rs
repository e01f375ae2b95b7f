use jonect::config::Platform;
use jonect::connection::data::{
    usb::{
        deliver_packet, recv_result, send_result, UsbDataConnectionBuilder, UsbDataConnectionSender,
    },
    DataReceiverBuilderInterface, DataReceiverInterface, DataSenderBuilderInterface,
    DataSenderInterface, EmptyReceiver,
};
use jonect::connection::tcp::ListenerError;
use jonect::connection::usb::{
    android::{
        self,
        accessory::{AccessoryReader, AccessoryWriter},
        read::{ReaderAction, ReaderError, ReaderEvent, ReaderLogic},
        write::{WriterError, WriterLogic},
        AndroidUsbAction, AndroidUsbEvent, AndroidUsbManager,
    },
    json::JsonWriteStep,
    libusb::{
        self,
        accessory::{
            AccessoryOpening, AndroidUsbAccessory, EndpointInfo, InterfaceDescriptorInfo,
            InterfaceInfo, OpeningAction, OpeningEvent, TransferDirection,
        },
        android::{AndroidUsbDevice, AoaStringId, ControlRequest, StartStep},
        AccessoryConnection, AccessoryConnectionError, LibUsbAction, LibUsbEvent, LibUsbLogic,
        UsbDataChannelCreator, UsbPacketWrapper,
    },
    protocol::{
        check_packet_size, read_packet_data, write_packet_bytes, UsbPacket, UsbPacketInType,
        UsbPacketOutType, USB_PACKET_MAX_DATA_SIZE,
    },
    UsbEvent, UsbManager, UsbManagerAction, UsbManagerEvent,
};
use jonect::connection::CmInternalEvent;
use jonect::net::SocketAddress;
use jonect::utils::{
    channel::ReceiveError,
    error::{IoError, IoErrorKind},
};
use std::time::Duration;

fn error(kind: IoErrorKind) -> IoError {
    IoError::from_kind(kind)
}

#[test]
fn packet_type_bytes() {
    assert_eq!(u8::from(UsbPacketOutType::Empty), 1);
    assert_eq!(u8::from(UsbPacketOutType::JsonStream), 2);
    assert_eq!(u8::from(UsbPacketOutType::AudioData), 3);
    assert_eq!(u8::from(UsbPacketOutType::NextIsWrite), 4);
    assert_eq!(u8::from(UsbPacketInType::Empty), 1);
    assert_eq!(u8::from(UsbPacketInType::JsonStream), 2);
    assert_eq!(UsbPacketOutType::from_byte(4), Some(UsbPacketOutType::NextIsWrite));
    assert_eq!(UsbPacketOutType::from_byte(0), None);
    assert_eq!(UsbPacketInType::from_byte(3), None);
}

#[test]
fn usb_packet_layout() {
    let mut packet = UsbPacket::new();
    assert_eq!(packet.raw()[..4].to_vec(), vec![1, 0, 0, 0]);
    assert!(packet.data().is_empty());
    packet.set_size(259);
    assert_eq!(packet.data().len(), 259);
    packet.data_mut()[258] = 77;
    packet.set_packet_type(3);
    let raw = packet.raw();
    assert_eq!(raw[..3].to_vec(), vec![3, 1, 3]);
    assert_eq!(raw[3 + 258], 77);
    assert_eq!(read_packet_data(&raw).to_vec(), packet.data().to_vec());
    assert_eq!(USB_PACKET_MAX_DATA_SIZE, 509);
}

#[test]
fn packet_is_read_as_written() {
    let data: Vec<u8> = (0..61).collect();
    let mut buffer = [9u8; 64];
    write_packet_bytes(2, &data, &mut buffer);
    assert_eq!(buffer[..3].to_vec(), vec![2, 0, 61]);
    assert!(check_packet_size(&buffer));
    assert_eq!(read_packet_data(&buffer).to_vec(), data);
    write_packet_bytes(1, &[5], &mut buffer);
    assert_eq!(buffer[..5].to_vec(), vec![1, 0, 1, 5, 0]);
    // Data which does not fit is left out, and the size tells it.
    write_packet_bytes(2, &[1; 100], &mut buffer);
    assert_eq!(buffer[63], 1);
    assert!(!check_packet_size(&buffer));
    assert!(!check_packet_size(&[1, 0]));
}

#[test]
fn usb_data_connection_carries_packets() {
    let (mut sender, mut receiver) = UsbDataConnectionBuilder::build_sender();
    assert!(DataSenderInterface::is_reliable_connection(&sender));
    assert!(DataSenderBuilderInterface::is_reliable_connection(&sender));
    assert!(DataReceiverInterface::is_reliable_connection(&receiver));
    assert!(matches!(receiver.try_recv(), Err(ReceiveError::Empty)));
    assert!(sender.send_packet(&[1, 2, 3]).is_ok());
    assert!(sender.send_packet(&[4; 509]).is_ok());
    assert_eq!(receiver.try_recv().unwrap().data().to_vec(), vec![1, 2, 3]);
    assert_eq!(receiver.recv().unwrap().data().to_vec(), vec![4; 509]);
    drop(sender);
    assert!(matches!(receiver.try_recv(), Err(ReceiveError::Disconnected)));
    assert!(matches!(receiver.recv(), Err(ReceiveError::Disconnected)));
}

#[test]
fn usb_data_connection_receives_to_buffer() {
    let (mut sender, mut receiver) = UsbDataConnectionBuilder::build_receiver();
    assert!(DataReceiverBuilderInterface::set_timeout(
        &mut receiver,
        Some(Duration::from_millis(1))
    )
    .is_ok());
    let mut receiver = receiver.build();
    let mut buffer = [9u8; 4];
    let timeout = receiver.recv_packet(&mut buffer);
    assert_eq!(timeout.unwrap_err().kind, IoErrorKind::WouldBlock);
    assert!(sender.send_packet(&[1, 2]).is_ok());
    assert_eq!(receiver.recv_packet(&mut buffer).unwrap(), 2);
    assert_eq!(buffer, [1, 2, 9, 9]);
    assert!(sender.send_packet(&[5; 6]).is_ok());
    // The size is the size of the whole packet.
    assert_eq!(receiver.recv_packet(&mut buffer).unwrap(), 6);
    assert_eq!(buffer, [5; 4]);
    drop(sender);
    assert_eq!(receiver.recv_packet(&mut buffer).unwrap(), 0);
    assert!(DataReceiverInterface::set_timeout(&mut receiver, None).is_ok());
    assert_eq!(receiver.recv_packet(&mut buffer).unwrap(), 0);
    assert_eq!(buffer, [5; 4]);
    assert_eq!(deliver_packet(Err(ReceiveError::Disconnected), &mut buffer).unwrap(), 0);
    let delivered = deliver_packet(Err(ReceiveError::Empty), &mut buffer);
    assert_eq!(delivered.unwrap_err().kind, IoErrorKind::WouldBlock);
}

#[test]
fn usb_data_connection_keeps_order_after_sender_is_gone() {
    let (sender, mut receiver) = UsbDataConnectionBuilder::build_sender();
    let mut sender = sender.build();
    for i in 0..5u8 {
        assert!(sender.send_packet(&vec![i; 100 * i as usize]).is_ok());
    }
    drop(sender);
    for i in 0..5u8 {
        assert_eq!(receiver.recv().unwrap().data().to_vec(), vec![i; 100 * i as usize]);
    }
    assert!(matches!(receiver.recv(), Err(ReceiveError::Disconnected)));
    assert!(matches!(receiver.recv(), Err(ReceiveError::Disconnected)));
}

#[test]
fn sending_without_receiver_is_an_error() {
    let (sender, receiver) = UsbDataConnectionBuilder::build_sender();
    let mut sender = sender.build();
    drop(receiver);
    assert_eq!(sender.send_packet(&[1]).unwrap_err().kind, IoErrorKind::BrokenPipe);
}

#[test]
fn empty_receiver_has_nothing() {
    let mut receiver = EmptyReceiver;
    assert!(!DataReceiverBuilderInterface::is_reliable_connection(&receiver));
    assert!(DataReceiverBuilderInterface::set_timeout(&mut receiver, None).is_ok());
    let mut receiver = receiver.build();
    assert!(!DataReceiverInterface::is_reliable_connection(&receiver));
    let mut buffer = [1u8; 2];
    assert_eq!(receiver.recv_packet(&mut buffer).unwrap(), 0);
    assert_eq!(buffer, [1, 1]);
}

#[test]
fn all_senders_send_to_the_usb_thread() {
    let (creator, channel) = UsbDataChannelCreator::new();
    let (mut first, _) = creator.build_sender();
    let (mut second, _) = creator.build_sender();
    assert!(first.send_packet(&[1]).is_ok());
    assert!(second.send_packet(&[2, 2]).is_ok());
    assert!(channel.sender.send(UsbPacketWrapper::new()).is_ok());
    assert!(creator.sender.send(UsbPacketWrapper::new()).is_ok());
    assert_eq!(channel.receiver.recv().unwrap().data().to_vec(), vec![1]);
    assert_eq!(channel.receiver.recv().unwrap().data().to_vec(), vec![2, 2]);
    assert!(channel.receiver.recv().unwrap().data().is_empty());
    assert!(channel.receiver.recv().unwrap().data().is_empty());
    assert!(channel.receiver.try_recv().is_err());
}

#[test]
fn audio_crosses_usb() {
    let (creator, channel) = UsbDataChannelCreator::new();
    let (mut sender, _) = creator.build_sender();
    assert!(sender.send_packet(&[10, 20, 30]).is_ok());
    let event = channel.receiver.recv().unwrap().event();
    let mut logic = LibUsbLogic::new(0);
    logic.handle_search_result(true);
    let packet = match logic.update(event, 0) {
        LibUsbAction::SendPacket(packet) => packet,
        _ => panic!(),
    };
    let mut reader = AccessoryReader::new(3);
    reader.buffer = packet.raw();
    assert!(reader.can_read_packet());
    let (packet_type, data) = reader.read_packet(Ok(512)).unwrap();
    assert_eq!(packet_type, UsbPacketOutType::AudioData);
    assert_eq!(data.to_vec(), vec![10, 20, 30]);
    assert_eq!(ReaderLogic::handle_packet(packet_type), ReaderAction::SendAudio);

    let mut reader_logic = ReaderLogic::new();
    reader_logic.send_audio(data);
    let (audio_sender, mut audio_receiver) = UsbDataConnectionBuilder::build_receiver();
    reader_logic.handle_reader_event(ReaderEvent::ReadAudio(audio_sender));
    reader_logic.send_audio(data);
    assert_eq!(audio_receiver.try_recv().unwrap().data().to_vec(), vec![10, 20, 30]);
    drop(audio_receiver);
    reader_logic.send_audio(data);
    assert!(reader_logic.audio_sender.is_none());
    // Another end of the same channel.
    assert!(channel.sender.send(LibUsbEvent::RequestQuit.into()).is_ok());
    assert!(matches!(channel.receiver.recv().unwrap().event(), LibUsbEvent::RequestQuit));
}

#[test]
fn channel_results() {
    assert!(send_result(true).is_ok());
    assert_eq!(send_result(false).unwrap_err().kind, IoErrorKind::BrokenPipe);
    let packet = recv_result(Some(UsbPacket::with_data(&[1, 2]))).unwrap();
    assert_eq!(packet.data().to_vec(), vec![1, 2]);
    assert!(matches!(recv_result(None), Err(ReceiveError::Disconnected)));
}

fn usb_packet(
    packet_type: UsbPacketOutType,
    data: &[u8],
) -> Result<(UsbPacketOutType, &[u8]), android::UsbError> {
    Ok((packet_type, data))
}

#[test]
fn reader_handles_packets() {
    let mut logic = ReaderLogic::new();
    assert!(matches!(logic.run(None, usb_packet(UsbPacketOutType::Empty, &[])), Ok(None)));
    assert!(matches!(logic.run(None, usb_packet(UsbPacketOutType::NextIsWrite, &[1])), Ok(None)));
    match logic.run(None, usb_packet(UsbPacketOutType::JsonStream, &[1, 2])) {
        Ok(Some(data)) => assert_eq!(data.to_vec(), vec![1, 2]),
        _ => panic!(),
    }
    // Audio without a connection is dropped.
    assert!(matches!(logic.run(None, usb_packet(UsbPacketOutType::AudioData, &[3])), Ok(None)));
    let (audio_sender, mut audio_receiver) = UsbDataConnectionBuilder::build_receiver();
    let event = Some(ReaderEvent::ReadAudio(audio_sender));
    assert!(matches!(logic.run(event, usb_packet(UsbPacketOutType::AudioData, &[4, 5])), Ok(None)));
    assert_eq!(audio_receiver.try_recv().unwrap().data().to_vec(), vec![4, 5]);
    assert!(audio_receiver.try_recv().is_err());
    drop(audio_receiver);
    assert!(matches!(
        logic.run(None, Err(android::UsbError::UnexpectedReadSize(3))),
        Err(ReaderError::Usb(android::UsbError::UnexpectedReadSize(3)))
    ));
    assert!(logic.audio_sender.is_some());
    assert!(matches!(logic.run(None, usb_packet(UsbPacketOutType::AudioData, &[6])), Ok(None)));
    assert!(logic.audio_sender.is_none());
}

#[test]
fn packet_wrapper_holds_audio() {
    let mut wrapper = UsbPacketWrapper::new();
    assert!(wrapper.data().is_empty());
    wrapper.set_size(2);
    wrapper.data_mut()[1] = 8;
    assert_eq!(wrapper.data().to_vec(), vec![0, 8]);
    let mut wrapper = UsbPacketWrapper::from(LibUsbEvent::PollUsbDevices);
    wrapper.set_size(2);
    wrapper.set_size(600);
    assert!(wrapper.data().is_empty());
    assert!(wrapper.data_mut().is_empty());
}

#[test]
fn libusb_polls_devices() {
    let mut logic = LibUsbLogic::new(100);
    assert!(matches!(
        logic.update(LibUsbEvent::JsonPollIfConnected, 100),
        LibUsbAction::Nothing
    ));
    assert!(matches!(
        logic.update(LibUsbEvent::PollUsbDevices, 100),
        LibUsbAction::FindAccessory
    ));
    logic.handle_search_result(false);
    assert!(matches!(
        logic.update(LibUsbEvent::PollUsbDevices, 2_000_000_099),
        LibUsbAction::Nothing
    ));
    assert!(matches!(
        logic.update(LibUsbEvent::PollUsbDevices, 2_000_000_100),
        LibUsbAction::FindAccessory
    ));
    logic.handle_search_result(true);
    assert!(matches!(
        logic.update(LibUsbEvent::PollUsbDevices, 2_000_000_100),
        LibUsbAction::Nothing
    ));
    assert!(matches!(
        logic.update(LibUsbEvent::JsonPollIfConnected, 2_000_000_100),
        LibUsbAction::PollJson
    ));
    assert!(matches!(
        logic.update(
            LibUsbEvent::UsbEvent(UsbEvent::AndroidQuitAndroidUsbManager),
            2_000_000_100
        ),
        LibUsbAction::Nothing
    ));
    logic.handle_accessory_error(5_000_000_000);
    assert!(matches!(
        logic.update(LibUsbEvent::PollUsbDevices, 6_000_000_000),
        LibUsbAction::Nothing
    ));
    assert!(matches!(
        logic.update(LibUsbEvent::SendAudioData(UsbPacket::new()), 6_000_000_000),
        LibUsbAction::Nothing
    ));
    assert!(matches!(
        logic.update(LibUsbEvent::RequestQuit, 6_000_000_000),
        LibUsbAction::Quit
    ));
}

#[test]
fn search_goes_on_to_android_devices() {
    assert!(LibUsbLogic::is_android_device(0x0e8d));
    assert!(LibUsbLogic::is_android_device(0x2a70));
    assert!(!LibUsbLogic::is_android_device(0x18d1));
    assert!(!LibUsbLogic::try_get_accessory_connection(Ok(Some(Ok(())))));
    assert!(LibUsbLogic::try_get_accessory_connection(Ok(None)));
    assert!(LibUsbLogic::try_get_accessory_connection(Ok(Some(Err(
        AccessoryConnectionError::TcpDisconnected
    )))));
    assert!(LibUsbLogic::try_get_accessory_connection(Err(
        libusb::UsbError::DeviceOpenFailed(rusb::Error::Access)
    )));
}

#[test]
fn json_stream_of_accessory_connection() {
    let buffer = [1u8, 2, 3];
    match AccessoryConnection::update_connection(&buffer, Ok(2)).unwrap() {
        Some((UsbPacketOutType::JsonStream, data)) => assert_eq!(data.to_vec(), vec![1, 2]),
        _ => panic!(),
    }
    assert!(matches!(
        AccessoryConnection::update_connection(&buffer, Ok(0)),
        Err(AccessoryConnectionError::TcpDisconnected)
    ));
    assert!(matches!(
        AccessoryConnection::update_connection(&buffer, Err(error(IoErrorKind::WouldBlock))),
        Ok(None)
    ));
    assert!(matches!(
        AccessoryConnection::update_connection(&buffer, Err(error(IoErrorKind::Other))),
        Err(AccessoryConnectionError::Tcp(_))
    ));
    assert!(matches!(
        AccessoryConnection::receive_next(UsbPacketInType::Empty, &buffer),
        JsonWriteStep::Done
    ));
    assert!(matches!(
        AccessoryConnection::receive_next(UsbPacketInType::JsonStream, &[]),
        JsonWriteStep::Done
    ));
    assert!(matches!(
        AccessoryConnection::receive_next(UsbPacketInType::JsonStream, &buffer),
        JsonWriteStep::Write(_)
    ));
    match AccessoryConnection::handle_write(&buffer, Ok(1)).unwrap() {
        JsonWriteStep::Write(rest) => assert_eq!(rest.to_vec(), vec![2, 3]),
        _ => panic!(),
    }
    match AccessoryConnection::handle_write(&buffer, Err(error(IoErrorKind::WouldBlock))).unwrap()
    {
        JsonWriteStep::WaitAndWrite(rest) => assert_eq!(rest.to_vec(), vec![1, 2, 3]),
        _ => panic!(),
    }
    assert!(matches!(AccessoryConnection::handle_write(&buffer, Ok(3)), Ok(JsonWriteStep::Done)));
    assert!(matches!(
        AccessoryConnection::handle_write(&buffer, Ok(0)),
        Err(AccessoryConnectionError::TcpDisconnected)
    ));
    assert!(matches!(
        AccessoryConnection::handle_write(&buffer, Err(error(IoErrorKind::BrokenPipe))),
        Err(AccessoryConnectionError::Tcp(_))
    ));
}

fn endpoint(address: u8, max_packet_size: u16, direction: TransferDirection) -> EndpointInfo {
    EndpointInfo { address, max_packet_size, direction }
}

fn interface(number: u8, num_endpoints: u8, endpoints: Vec<EndpointInfo>) -> InterfaceInfo {
    InterfaceInfo {
        number,
        descriptors: vec![InterfaceDescriptorInfo { num_endpoints, endpoints }],
    }
}

#[test]
fn accessory_endpoints() {
    let both = vec![
        endpoint(0x81, 512, TransferDirection::In),
        endpoint(0x02, 512, TransferDirection::Out),
    ];
    let interfaces = vec![
        interface(1, 2, vec![endpoint(9, 64, TransferDirection::In)]),
        interface(0, 3, vec![endpoint(8, 64, TransferDirection::In)]),
        interface(0, 2, both),
        interface(0, 2, vec![endpoint(7, 64, TransferDirection::In)]),
    ];
    let accessory = AndroidUsbAccessory::new(&interfaces).unwrap().unwrap();
    assert_eq!(accessory.endpoint_in, 0x81);
    assert_eq!(accessory.endpoint_out, 0x02);
    let one_direction = vec![interface(0, 2, vec![endpoint(1, 512, TransferDirection::Out)])];
    assert!(AndroidUsbAccessory::new(&one_direction).unwrap().is_none());
    assert!(AndroidUsbAccessory::new(&vec![]).unwrap().is_none());
    let wrong_size = vec![interface(0, 2, vec![endpoint(1, 64, TransferDirection::Out)])];
    assert!(matches!(
        AndroidUsbAccessory::new(&wrong_size),
        Err(libusb::UsbError::UnsupportedEndpointMaxPacketSize(64))
    ));
}

#[test]
fn accessory_devices() {
    assert!(AndroidUsbAccessory::is_accessory_device(0x18d1, 0x2d00));
    assert!(AndroidUsbAccessory::is_accessory_device(0x18d1, 0x2d01));
    assert!(!AndroidUsbAccessory::is_accessory_device(0x18d1, 0x2d02));
    assert!(!AndroidUsbAccessory::is_accessory_device(0x0e8d, 0x2d00));
}

#[test]
fn accessory_is_opened_in_steps() {
    let both = vec![interface(
        0,
        2,
        vec![
            endpoint(0x81, 512, TransferDirection::In),
            endpoint(0x02, 512, TransferDirection::Out),
        ],
    )];
    let nothing = vec![];
    let mut opening = AccessoryOpening::new();
    assert!(matches!(
        opening.handle_event(OpeningEvent::Descriptor(Ok((0x18d1, 0x2d02)))),
        Ok(OpeningAction::NotFound)
    ));
    assert!(matches!(
        opening.handle_event(OpeningEvent::Descriptor(Ok((0x18d1, 0x2d00)))),
        Ok(OpeningAction::OpenDevice)
    ));
    assert!(matches!(
        opening.handle_event(OpeningEvent::Opened(Ok(()))),
        Ok(OpeningAction::GetInterfaces)
    ));
    assert!(matches!(
        opening.handle_event(OpeningEvent::Descriptor(Ok((0x18d1, 0x2d01)))),
        Ok(OpeningAction::OpenDevice)
    ));
    assert!(matches!(
        opening.handle_event(OpeningEvent::Opened(Ok(()))),
        Ok(OpeningAction::GetConfiguration)
    ));
    assert!(matches!(
        opening.handle_event(OpeningEvent::Configuration(Ok(1))),
        Ok(OpeningAction::GetInterfaces)
    ));
    assert!(matches!(
        opening.handle_event(OpeningEvent::Configuration(Ok(0))),
        Ok(OpeningAction::SetConfiguration(1))
    ));
    assert!(matches!(
        opening.handle_event(OpeningEvent::ConfigurationSet(Ok(()))),
        Ok(OpeningAction::GetInterfaces)
    ));
    assert!(matches!(
        opening.handle_event(OpeningEvent::Interfaces(Ok(&nothing))),
        Ok(OpeningAction::NotFound)
    ));
    assert!(matches!(
        opening.handle_event(OpeningEvent::Interfaces(Ok(&both))),
        Ok(OpeningAction::ClaimInterface(0))
    ));
    assert!(matches!(
        opening.handle_event(OpeningEvent::InterfaceClaimed(Err(rusb::Error::Busy))),
        Err(libusb::UsbError::ClaimInterfaceFailed(rusb::Error::Busy))
    ));
    match opening.handle_event(OpeningEvent::InterfaceClaimed(Ok(()))) {
        Ok(OpeningAction::Done(accessory)) => {
            assert_eq!((accessory.endpoint_in, accessory.endpoint_out), (0x81, 0x02));
        }
        _ => panic!(),
    }
    let e = rusb::Error::Io;
    assert!(matches!(
        opening.handle_event(OpeningEvent::Descriptor(Err(e))),
        Err(libusb::UsbError::DeviceDescriptorRequestFailed(_))
    ));
    assert!(matches!(
        opening.handle_event(OpeningEvent::Opened(Err(e))),
        Err(libusb::UsbError::DeviceOpenFailed(_))
    ));
    assert!(matches!(
        opening.handle_event(OpeningEvent::Configuration(Err(e))),
        Err(libusb::UsbError::GetConfigurationFailed(_))
    ));
    assert!(matches!(
        opening.handle_event(OpeningEvent::ConfigurationSet(Err(e))),
        Err(libusb::UsbError::SetConfigurationFailed(_))
    ));
    assert!(matches!(
        opening.handle_event(OpeningEvent::Interfaces(Err(e))),
        Err(libusb::UsbError::GetConfigDescriptorFailed(_))
    ));
}

fn accessory() -> AndroidUsbAccessory {
    let both = vec![
        endpoint(0x81, 512, TransferDirection::In),
        endpoint(0x02, 512, TransferDirection::Out),
    ];
    AndroidUsbAccessory::new(&vec![interface(0, 2, both)]).unwrap().unwrap()
}

#[test]
fn json_crosses_usb_in_both_directions() {
    let mut accessory = accessory();
    let mut reader = AccessoryReader::new(1);
    let data: Vec<u8> = (0..509).map(|i| (i % 256) as u8).collect();
    accessory.send_packet(UsbPacketOutType::JsonStream, &data);
    reader.buffer = accessory.buffer;
    let (packet_type, read) = reader.read_packet(Ok(512)).unwrap();
    assert_eq!(packet_type, UsbPacketOutType::JsonStream);
    assert_eq!(read.to_vec(), data);

    let mut writer = AccessoryWriter::new(2);
    writer.write_packet(UsbPacketInType::JsonStream, &data[..61]);
    accessory.receive_buffer = writer.buffer;
    assert!(accessory.can_handle_received());
    let (packet_type, read) = accessory.receive_packet(Ok(64)).unwrap().unwrap();
    assert_eq!(packet_type, UsbPacketInType::JsonStream);
    assert_eq!(read.to_vec(), data[..61].to_vec());
}

#[test]
fn accessory_transfer_results() {
    let mut accessory = accessory();
    assert!(matches!(AndroidUsbAccessory::handle_write_result(Ok(512)), Ok(true)));
    assert!(matches!(AndroidUsbAccessory::handle_write_result(Ok(100)), Ok(false)));
    assert!(matches!(
        AndroidUsbAccessory::handle_write_result(Err(rusb::Error::Timeout)),
        Err(libusb::UsbError::WriteBulkFailed(rusb::Error::Timeout))
    ));
    assert!(matches!(accessory.receive_packet(Ok(10)), Ok(None)));
    assert!(matches!(
        accessory.receive_packet(Err(rusb::Error::NoDevice)),
        Err(libusb::UsbError::ReadBulkFailed(rusb::Error::NoDevice))
    ));
    accessory.receive_buffer[0] = 5;
    assert!(accessory.can_handle_received());
    assert!(matches!(
        accessory.receive_packet(Ok(64)),
        Err(libusb::UsbError::UnknownInPacket(5))
    ));
    accessory.receive_buffer[0] = 2;
    accessory.receive_buffer[2] = 62;
    assert!(!accessory.can_handle_received());
}

#[test]
fn android_accessory_transfer_results() {
    let mut reader = AccessoryReader::new(1);
    assert_eq!(reader.buffer, [0; 512]);
    assert!(matches!(
        reader.read_packet(Ok(511)),
        Err(android::UsbError::UnexpectedReadSize(511))
    ));
    assert!(matches!(
        reader.read_packet(Ok(512)),
        Err(android::UsbError::UnexpectedPacketOutType(0))
    ));
    assert!(matches!(
        reader.read_packet(Err(nix::errno::Errno::ENODEV)),
        Err(android::UsbError::Read(nix::errno::Errno::ENODEV))
    ));
    reader.buffer[0] = 1;
    reader.buffer[1] = 2;
    assert!(!reader.can_read_packet());
    assert!(AccessoryWriter::handle_write_result(Ok(64)).is_ok());
    assert!(matches!(
        AccessoryWriter::handle_write_result(Ok(63)),
        Err(android::UsbError::UnexpectedWriteSize(63))
    ));
    assert!(matches!(
        AccessoryWriter::handle_write_result(Err(nix::errno::Errno::EIO)),
        Err(android::UsbError::Write(nix::errno::Errno::EIO))
    ));
}

#[test]
fn aoa_requests() {
    let get = AndroidUsbDevice::protocol_request();
    assert_eq!(get, ControlRequest { request_type: 0xc0, request: 51, value: 0, index: 0 });
    let start = AndroidUsbDevice::start_request();
    assert_eq!(start, ControlRequest { request_type: 0x40, request: 53, value: 0, index: 0 });
    let mut sent = Vec::new();
    let mut step = 0;
    loop {
        match AndroidUsbDevice::start_device_in_aoa_mode(step) {
            StartStep::SendString(id, text) => {
                let (request, data) = AndroidUsbDevice::send_aoa_id_string(id, text);
                assert_eq!(request.request_type, 0x40);
                assert_eq!(request.request, 52);
                assert_eq!(request.index, step);
                sent.push(data);
            }
            StartStep::Start => break,
        }
        step += 1;
    }
    assert_eq!(sent.len(), 6);
    assert_eq!(sent[0], b"Jonect Developers\0".to_vec());
    assert_eq!(sent[1], b"Jonect\0".to_vec());
    assert_eq!(sent[2], b"Jonect speaker app\0".to_vec());
    assert_eq!(sent[3], b"0.1\0".to_vec());
    assert_eq!(sent[4], b"https://github.com/jutuon/jonect\0".to_vec());
    assert_eq!(sent[5], b"1234\0".to_vec());
    let (request, data) = AndroidUsbDevice::send_aoa_id_string(AoaStringId::Uri, "ä");
    assert_eq!(request.index, 4);
    assert_eq!(data, vec![0xc3, 0xa4, 0]);
}

#[test]
fn aoa_answers() {
    assert!(AndroidUsbDevice::new(Ok(2), [1, 0]).unwrap().is_some());
    assert!(AndroidUsbDevice::new(Ok(2), [2, 0]).unwrap().is_some());
    assert!(AndroidUsbDevice::new(Ok(2), [0, 0]).unwrap().is_none());
    assert!(AndroidUsbDevice::new(Ok(2), [0, 1]).unwrap().is_none());
    assert!(AndroidUsbDevice::new(Ok(1), [1, 0]).unwrap().is_none());
    assert!(matches!(
        AndroidUsbDevice::new(Err(rusb::Error::Pipe), [1, 0]),
        Err(libusb::UsbError::ReadControlFailed(rusb::Error::Pipe))
    ));
    assert!(AndroidUsbDevice::handle_string_result(&[1, 0], Ok(2)).is_ok());
    assert!(matches!(
        AndroidUsbDevice::handle_string_result(&[1, 0], Ok(1)),
        Err(libusb::UsbError::AndroidStartAccessoryModeUnexpectedWriteResult(1))
    ));
    assert!(matches!(
        AndroidUsbDevice::handle_string_result(&[1, 0], Err(rusb::Error::Pipe)),
        Err(libusb::UsbError::WriteControlFailed(rusb::Error::Pipe))
    ));
}

#[test]
fn android_reader_and_writer() {
    assert_eq!(ReaderLogic::handle_packet(UsbPacketOutType::Empty), ReaderAction::Nothing);
    assert_eq!(ReaderLogic::handle_packet(UsbPacketOutType::NextIsWrite), ReaderAction::Nothing);
    assert_eq!(ReaderLogic::handle_packet(UsbPacketOutType::JsonStream), ReaderAction::WriteJson);
    assert!(matches!(
        ReaderLogic::handle_json_write(&[1], Ok(0)),
        Err(ReaderError::JsonTcpDisconnected)
    ));
    assert!(matches!(
        ReaderLogic::handle_json_write(&[1], Err(error(IoErrorKind::Other))),
        Err(ReaderError::JsonTcp(_))
    ));
    assert!(matches!(ReaderLogic::handle_json_write(&[1, 2], Ok(2)), Ok(JsonWriteStep::Done)));
    let (packet_type, data) = WriterLogic::handle_json_read(&[1, 2, 3], Ok(2)).unwrap();
    assert_eq!(packet_type, UsbPacketInType::JsonStream);
    assert_eq!(data.to_vec(), vec![1, 2]);
    let would_block = Err(error(IoErrorKind::WouldBlock));
    let (packet_type, data) = WriterLogic::handle_json_read(&[1], would_block).unwrap();
    assert_eq!(packet_type, UsbPacketInType::Empty);
    assert!(data.is_empty());
    assert!(matches!(
        WriterLogic::handle_json_read(&[1], Ok(0)),
        Err(WriterError::JsonTcpDisconnected)
    ));
    assert!(matches!(
        WriterLogic::handle_json_read(&[1], Err(error(IoErrorKind::Other))),
        Err(WriterError::JsonTcp(_))
    ));
}

#[test]
fn android_usb_manager_waits_quit_after_error() {
    let mut manager = AndroidUsbManager::new();
    let (sender, _receiver) = UsbDataConnectionBuilder::build_receiver();
    assert!(matches!(
        manager.run(AndroidUsbEvent::UsbEvent(UsbEvent::ReceiveAudioOverUsb(sender))),
        AndroidUsbAction::SendToReader(ReaderEvent::ReadAudio(_))
    ));
    assert!(matches!(
        manager.run(AndroidUsbEvent::ReaderError(ReaderError::JsonTcpDisconnected)),
        AndroidUsbAction::StopThreads
    ));
    assert!(matches!(
        manager.run(AndroidUsbEvent::WriterError(WriterError::JsonTcpDisconnected)),
        AndroidUsbAction::Nothing
    ));
    assert!(matches!(manager.run(AndroidUsbEvent::RequestQuit), AndroidUsbAction::Quit));
}

const ADDRESS: SocketAddress = SocketAddress::V4 { address: 0x7f00_0001, port: 9 };

#[test]
fn usb_manager_on_linux() {
    let mut manager = UsbManager::new::<u8, u8>(Platform::Linux, Ok(())).unwrap();
    assert!(matches!(
        manager.handle_event::<u8, u8>(UsbManagerEvent::PollTimer),
        UsbManagerAction::PollUsbDevices
    ));
    assert!(matches!(
        manager.handle_event::<u8, u8>(UsbManagerEvent::JsonPollTimer),
        UsbManagerAction::JsonPollIfConnected
    ));
    assert!(matches!(
        manager.handle_event::<u8, u8>(UsbManagerEvent::UsbEvent(
            UsbEvent::AndroidUsbAccessoryFileDescriptor(3)
        )),
        UsbManagerAction::SendToThread(_)
    ));
    assert!(matches!(
        manager.handle_event::<u8, u8>(UsbManagerEvent::Accepted(Ok((4, ADDRESS)))),
        UsbManagerAction::SendConnectionManagerEvent(CmInternalEvent::NewJsonStream {
            stream: 4,
            usb: true,
            ..
        })
    ));
    assert!(matches!(
        manager
            .handle_event::<u8, u8>(UsbManagerEvent::Accepted(Err(error(IoErrorKind::Other)))),
        UsbManagerAction::Fail {
            error: CmInternalEvent::ListenerError(ListenerError::AcceptJsonConnection(_)),
            quit_thread: true,
            wait_quit: true,
        }
    ));
    assert!(matches!(
        manager.handle_event::<u8, u8>(UsbManagerEvent::QuitRequest),
        UsbManagerAction::Quit { quit_thread: true }
    ));
    assert!(matches!(
        UsbManager::new::<u8, u8>(Platform::Linux, Err(error(IoErrorKind::Other))),
        Err(CmInternalEvent::UsbTcpListenerError(ListenerError::BindJsonSocket(_)))
    ));
}

#[test]
fn usb_manager_on_android() {
    let mut manager = UsbManager::new::<u8, u8>(Platform::Android, Ok(())).unwrap();
    let fd = |fd| UsbManagerEvent::UsbEvent(UsbEvent::AndroidUsbAccessoryFileDescriptor(fd));
    assert!(matches!(manager.handle_event::<u8, u8>(fd(-1)), UsbManagerAction::Nothing));
    assert!(matches!(
        manager.handle_event::<u8, u8>(fd(3)),
        UsbManagerAction::StartThread { file_descriptor: 3, quit_previous: false }
    ));
    manager.handle_thread_started(true);
    assert!(matches!(
        manager.handle_event::<u8, u8>(fd(4)),
        UsbManagerAction::StartThread { file_descriptor: 4, quit_previous: true }
    ));
    manager.handle_thread_started(true);
    let quit = UsbManagerEvent::UsbEvent(UsbEvent::AndroidQuitAndroidUsbManager);
    assert!(matches!(manager.handle_event::<u8, u8>(quit), UsbManagerAction::QuitThread));
    let quit = UsbManagerEvent::UsbEvent(UsbEvent::AndroidQuitAndroidUsbManager);
    assert!(matches!(manager.handle_event::<u8, u8>(quit), UsbManagerAction::Nothing));
    let (sender, _receiver) = UsbDataConnectionBuilder::build_receiver();
    let audio = UsbManagerEvent::UsbEvent(UsbEvent::ReceiveAudioOverUsb(sender));
    assert!(matches!(manager.handle_event::<u8, u8>(audio), UsbManagerAction::Nothing));
    assert!(matches!(
        manager.handle_event::<u8, u8>(UsbManagerEvent::PollTimer),
        UsbManagerAction::Nothing
    ));
    assert!(matches!(
        manager
            .handle_event::<u8, u8>(UsbManagerEvent::Accepted(Err(error(IoErrorKind::Other)))),
        UsbManagerAction::Fail { quit_thread: false, wait_quit: false, .. }
    ));
}

#[test]
fn sender_of_own_channel() {
    let (sender, receiver) = std::sync::mpsc::channel::<UsbPacket>();
    let mut connection = UsbDataConnectionSender::new(sender);
    assert!(connection.send_packet(&[6]).is_ok());
    assert_eq!(receiver.recv().unwrap().raw()[..4].to_vec(), vec![1, 0, 1, 6]);
}
