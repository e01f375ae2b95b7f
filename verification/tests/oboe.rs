use jonect::audio::{
    oboe::{
        callback_mode::{
            AudioBuffer, BufferAndReceiver, CallbackState, CallbackStep, DataRequest,
            OboeCppCallbackMode, PcmReceiver, Received,
        },
        cpp_bridge::{check_underruns, UnderrunReport, STATUS_ERROR, STATUS_OK},
        normal_mode::OboeCppNormalMode,
        AudioPacketManager, CallbackModeEvent, DataReaderAction, DataReaderEvent, DataReaderLogic,
        NormalModeState, OboeAction, OboeEvent, OboeInfo, OboeLogic, OboeMode, PacketStatus,
        ReceiveAction, TrySendAction, TrySendOutcome,
    },
    AudioEvent, PlayAudioEventAndroid,
};
use jonect::utils::error::{IoError, IoErrorKind};

#[test]
fn test_no_packet_loss_1() {
    assert_eq!(AudioPacketManager::new().check_packet(0), PacketStatus::Normal);
}

#[test]
fn test_packet_loss_1() {
    assert_eq!(AudioPacketManager::new().check_packet(1), PacketStatus::PacketLoss(1));
}

#[test]
fn test_packet_loss_2() {
    assert_eq!(AudioPacketManager::new().check_packet(2), PacketStatus::PacketLoss(2));
}

#[test]
fn test_discard_1() {
    assert_eq!(AudioPacketManager::new().check_packet(1), PacketStatus::PacketLoss(1));
}

#[test]
fn packets_in_order_are_normal_over_the_wrap_bit() {
    let mut manager = AudioPacketManager::new();
    for count in 0..0x1_0000u32 {
        assert_eq!(manager.check_packet(count), PacketStatus::Normal);
    }
    // The wrap bit is in the middle of the 32-bit number.
    assert_eq!(manager.check_packet(0x1_0000), PacketStatus::PacketLoss(0x1_0000));
}

#[test]
fn repeated_packet_is_discarded() {
    let mut manager = AudioPacketManager::start_from(10);
    assert_eq!(manager.check_packet(10), PacketStatus::Normal);
    assert_eq!(manager.check_packet(10), PacketStatus::Discard);
    assert_eq!(manager.check_packet(3), PacketStatus::Discard);
    assert_eq!(manager.check_packet(13), PacketStatus::PacketLoss(2));
}

#[test]
fn packet_of_other_round() {
    let mut manager = AudioPacketManager::start_from(0x7ff0);
    // Larger number of the other round is an old packet.
    assert_eq!(manager.check_packet(0x8000 + 0x7ff5), PacketStatus::Discard);
    assert_eq!(
        manager.check_packet(0x8000 + 2),
        PacketStatus::PacketLoss(0xffff_7fff - 0x7ff0 + 2)
    );
    assert_eq!(manager.check_packet(0x8000 + 3), PacketStatus::Normal);
    let passed = AudioPacketManager::start_from(0xffff_8000);
    assert!(!passed.can_check_packet(0x8000));
    assert!(passed.can_check_packet(0));
}

fn packet(number: u32, samples: &[i16]) -> Vec<u8> {
    let mut bytes = number.to_be_bytes().to_vec();
    for sample in samples {
        bytes.extend_from_slice(&sample.to_le_bytes());
    }
    bytes
}

#[test]
fn reader_cuts_packets_to_blocks() {
    let mut logic = DataReaderLogic::new(2);
    assert_eq!(logic.initial_buffer_block_count, 2);
    let samples: Vec<i16> = (-20..20).collect();
    assert!(logic.can_add_packet(&packet(0, &samples), true));
    assert!(logic.add_packet(&packet(0, &samples), true));
    let first = logic.next_block().unwrap();
    let second = logic.next_block().unwrap();
    assert_eq!(first.to_vec(), samples[..16].to_vec());
    assert_eq!(second.to_vec(), samples[16..32].to_vec());
    assert!(logic.next_block().is_none());
    assert!(logic.add_packet(&packet(1, &samples), true));
    let third = logic.next_block().unwrap();
    assert_eq!(third[..8].to_vec(), samples[32..].to_vec());
    assert_eq!(third[8..].to_vec(), samples[..8].to_vec());
}

#[test]
fn reader_checks_numbers_only_without_reliable_connection() {
    let mut logic = DataReaderLogic::new(2);
    assert!(logic.add_packet(&packet(2, &[1, 2]), false));
    assert_eq!(logic.packet_loss_counter, 2);
    assert!(!logic.add_packet(&packet(1, &[3, 4]), false));
    assert!(logic.add_packet(&packet(1, &[5, 6]), true));
    assert_eq!(logic.audio_data_buffer, vec![1, 2, 5, 6]);
    assert!(!logic.can_add_packet(&[0, 0, 0], true));
    assert!(!logic.can_add_packet(&[0, 0, 0, 9, 1], true));
    // Samples of a discarded packet do not matter.
    assert!(logic.can_add_packet(&[0, 0, 0, 0, 1], false));
}

#[test]
fn reader_reports_buffering_once() {
    let mut logic = DataReaderLogic::new(2);
    assert_eq!(logic.handle_try_send(TrySendOutcome::Sent), TrySendAction::NextBlock);
    assert_eq!(logic.handle_try_send(TrySendOutcome::Sent), TrySendAction::BufferingDone);
    assert_eq!(logic.handle_try_send(TrySendOutcome::Sent), TrySendAction::NextBlock);
}

#[test]
fn reader_gives_up_a_full_queue() {
    let mut logic = DataReaderLogic::new(2);
    for _ in 0..499 {
        assert_eq!(logic.handle_try_send(TrySendOutcome::Full), TrySendAction::Retry);
    }
    assert_eq!(logic.handle_try_send(TrySendOutcome::Full), TrySendAction::SendingError);
}

#[test]
fn reader_receive_results() {
    assert!(matches!(DataReaderLogic::handle_receive(Ok(0), false), ReceiveAction::ReadingError));
    assert!(matches!(
        DataReaderLogic::handle_receive(Ok(484), true),
        ReceiveAction::HandlePacket(484)
    ));
    assert!(matches!(
        DataReaderLogic::handle_receive(Err(IoErrorKind::WouldBlock), false),
        ReceiveAction::Retry
    ));
    assert!(matches!(
        DataReaderLogic::handle_receive(Err(IoErrorKind::WouldBlock), true),
        ReceiveAction::Return
    ));
    assert!(matches!(
        DataReaderLogic::handle_receive(Err(IoErrorKind::Other), false),
        ReceiveAction::ReadingError
    ));
    assert!(DataReaderLogic::keep_reading_packets(Ok(1)));
    assert!(!DataReaderLogic::keep_reading_packets(Ok(0)));
    assert!(!DataReaderLogic::keep_reading_packets(Err(IoErrorKind::WouldBlock)));
}

fn play_event(decode_opus: bool, info: Option<PlayAudioEventAndroid>) -> OboeEvent<u8> {
    OboeEvent::AudioEvent(AudioEvent::PlayAudio {
        send_handle: 7,
        sample_rate: 44100,
        android_info: info,
        decode_opus,
    })
}

#[test]
fn oboe_plays_one_stream_at_a_time() {
    let info = Some(PlayAudioEventAndroid { frames_per_burst: 96 });
    let mut logic = OboeLogic::new();
    assert!(!OboeLogic::can_handle_event(&play_event(true, info)));
    assert!(!OboeLogic::can_handle_event(&play_event(false, None)));
    assert!(OboeLogic::can_handle_event(&play_event(false, info)));
    let oboe_info = match logic.handle_event(play_event(false, info)) {
        OboeAction::OpenStream { send_handle: 7, oboe_info, timeout_millis: 10 } => oboe_info,
        _ => panic!(),
    };
    assert_eq!(oboe_info, OboeInfo { sample_rate: 44100, frames_per_burst: 96 });
    assert!(!logic.handle_timeout_set(oboe_info, Err(IoError::from_kind(IoErrorKind::Other))));
    assert!(logic.oboe_mode.is_none());
    assert!(logic.handle_timeout_set(oboe_info, Ok(())));
    assert!(matches!(logic.oboe_mode, Some(OboeMode::Callback { .. })));
    assert!(matches!(logic.handle_event(play_event(false, info)), OboeAction::Nothing));
    assert!(matches!(
        logic.handle_event(OboeEvent::<u8>::CallbackEvent(CallbackModeEvent::BufferingDone)),
        OboeAction::RequestStart
    ));
    assert!(matches!(
        logic.handle_event(OboeEvent::<u8>::UnderrunCheckTimer),
        OboeAction::CheckUnderruns
    ));
    assert!(matches!(
        logic.handle_event(OboeEvent::<u8>::AudioEvent(AudioEvent::StopPlayingAudio)),
        OboeAction::CloseStream
    ));
    assert!(matches!(
        logic.handle_event(OboeEvent::<u8>::UnderrunCheckTimer),
        OboeAction::Nothing
    ));
    assert!(matches!(
        logic.handle_event(OboeEvent::<u8>::RequestQuit),
        OboeAction::Quit { close_stream: false }
    ));
}

#[test]
fn oboe_stops_after_reader_errors() {
    for event in [
        CallbackModeEvent::DataReaderReadingError,
        CallbackModeEvent::DataReaderSendingError,
    ] {
        let mut logic = OboeLogic::new();
        let info = OboeInfo { sample_rate: 48000, frames_per_burst: 2 };
        assert!(logic.handle_timeout_set(info, Ok(())));
        assert!(matches!(
            logic.handle_event(OboeEvent::<u8>::CallbackEvent(event)),
            OboeAction::CloseStream
        ));
        assert!(logic.oboe_mode.is_none());
    }
}

#[test]
fn oboe_buffer_sizes() {
    let info = OboeInfo { sample_rate: 48000, frames_per_burst: 96 };
    assert_eq!(info.buffer_capacity_in_frames(), 768);
    let state = NormalModeState::new(info, false);
    assert_eq!(state.initial_buffer_block_count, 96);
    assert_eq!(state.initial_buffer_frame_count, 768);
    assert!(state.buffering_counter.is_none());
}

#[test]
fn underruns_are_reported_when_they_grow() {
    let mut previous = Some(0);
    assert_eq!(check_underruns(&mut previous, 0), UnderrunReport::Nothing);
    assert_eq!(check_underruns(&mut previous, 3), UnderrunReport::NewUnderruns(3));
    assert_eq!(check_underruns(&mut previous, 3), UnderrunReport::Nothing);
    assert_eq!(check_underruns(&mut previous, STATUS_ERROR), UnderrunReport::CheckFailed);
    assert_eq!(previous, None);
    assert_eq!(check_underruns(&mut previous, STATUS_ERROR), UnderrunReport::Nothing);
    assert_eq!(check_underruns(&mut previous, 9), UnderrunReport::Nothing);
    assert_eq!(STATUS_OK, 0);

    let mut mode = OboeCppCallbackMode::new();
    assert!(!mode.error_occurred());
    assert_eq!(mode.check_underruns(1, 2), (UnderrunReport::NewUnderruns(1), Some(2)));
    assert_eq!(mode.check_underruns(1, 2), (UnderrunReport::Nothing, None));
    mode.handle_callback_status(STATUS_OK);
    assert!(!mode.error_occurred());
    mode.handle_callback_status(STATUS_ERROR);
    assert!(mode.error_occurred());
    mode.handle_callback_status(STATUS_OK);
    assert!(mode.error_occurred());
}

#[test]
fn normal_mode_writes_until_nothing_remains() {
    assert_eq!(OboeCppNormalMode::frame_count(&[0; 9]), 4);
    assert_eq!(OboeCppNormalMode::write_data(4, 3), Ok(1));
    assert_eq!(OboeCppNormalMode::write_data(1, 1), Ok(0));
    assert_eq!(OboeCppNormalMode::write_data(4, 0), Err(()));
    assert_eq!(OboeCppNormalMode::write_data(4, STATUS_ERROR), Err(()));
    let mut mode = OboeCppNormalMode::new();
    assert_eq!(mode.check_underruns(2), UnderrunReport::NewUnderruns(2));
}

#[test]
fn audio_buffer_plays_after_two_packets() {
    let mut buffer = AudioBuffer::new();
    assert!(buffer.new_data_required());
    assert_eq!(buffer.get_audio_data(), [0; 240]);
    buffer.add_new_audio_packet(&packet(0, &[1; 240]));
    assert!(!buffer.playing_started());
    assert!(buffer.new_data_required());
    assert_eq!(buffer.get_audio_data(), [0; 240]);
    buffer.add_new_audio_packet(&packet(1, &[2; 240]));
    assert!(buffer.audio_buffer_full());
    assert!(buffer.playing_started());
    assert!(!buffer.new_data_required());
    assert_eq!(buffer.get_audio_data(), [1; 240]);
    assert_eq!(buffer.get_audio_data(), [2; 240]);
    assert!(buffer.new_data_required());
    // A short packet changes only the first samples.
    buffer.add_new_audio_packet(&packet(2, &[3, 4]));
    let samples = buffer.get_audio_data();
    assert_eq!(samples[..3].to_vec(), vec![3, 4, 2]);
}

#[test]
fn callback_writes_blocks() {
    let mut state: CallbackState<(), ()> = CallbackState::new(PcmReceiver::AudioDataBlock(()));
    let mut target = [9i16; 20];
    // The first block is silence.
    assert_eq!(state.get_new_data(), DataRequest::Nothing);
    assert_eq!(state.write_samples(&mut target, 0), 16);
    assert_eq!(target[15], 0);
    assert_eq!(target[16], 9);
    assert!(state.all_current_data_written());
    assert_eq!(state.get_new_data(), DataRequest::AudioDataBlock);
    let block = [0i16, 1, 2, 3, 4, 5, 6, 7, 8, 9, 10, 11, 12, 13, 14, 15];
    assert_eq!(state.handle_block(Some(block)), Ok(()));
    assert_eq!(state.write_samples(&mut target, 16), 20);
    assert_eq!(target[16..].to_vec(), vec![0, 1, 2, 3]);
    let mut rest = [0i16; 12];
    assert_eq!(state.get_new_data(), DataRequest::Nothing);
    assert_eq!(state.write_samples(&mut rest, 0), 12);
    assert_eq!(rest.to_vec(), (4..16).collect::<Vec<i16>>());
    assert_eq!(state.get_new_data(), DataRequest::AudioDataBlock);
    assert_eq!(state.handle_block(None), Err(()));
}

fn fill_conversion_buffer(state: &mut CallbackState<(), ()>, bytes: &[u8]) {
    match &mut state.pcm_data_receiver {
        BufferAndReceiver::DirectReceiver { conversion_buffer, .. } => {
            conversion_buffer[..bytes.len()].copy_from_slice(bytes);
        }
        _ => panic!(),
    }
}

fn receive(state: &mut CallbackState<(), ()>, bytes: &[u8]) -> Result<bool, ()> {
    fill_conversion_buffer(state, bytes);
    state.handle_packet(Ok(bytes.len()))
}

#[test]
fn callback_steps_with_blocks() {
    let mut state: CallbackState<(), ()> = CallbackState::new(PcmReceiver::AudioDataBlock(()));
    let mut target = [9i16; 40];
    assert!(state.can_handle(&Received::Nothing));
    assert!(!state.can_handle(&Received::Packet(Ok(0))));
    assert_eq!(
        state.write_step(&mut target, 0, Received::Nothing),
        CallbackStep::WriteMore(16)
    );
    assert_eq!(
        state.write_step(&mut target, 16, Received::Nothing),
        CallbackStep::Receive(DataRequest::AudioDataBlock)
    );
    assert_eq!(
        state.write_step(&mut target, 16, Received::AudioDataBlock(Some([5; 16]))),
        CallbackStep::WriteMore(32)
    );
    assert_eq!(
        state.write_step(&mut target, 32, Received::Nothing),
        CallbackStep::Receive(DataRequest::AudioDataBlock)
    );
    let done = state.write_step(&mut target, 32, Received::AudioDataBlock(Some([6; 16])));
    assert_eq!(done, CallbackStep::Done);
    assert_eq!(done.status(), Some(STATUS_OK));
    assert_eq!(target[..16].to_vec(), vec![0; 16]);
    assert_eq!(target[16..32].to_vec(), vec![5; 16]);
    assert_eq!(target[32..].to_vec(), vec![6; 8]);
    // The next call goes on from the same block.
    let more = state.write_step(&mut target, 0, Received::Nothing);
    assert_eq!(more, CallbackStep::WriteMore(8));
    assert_eq!(more.status(), None);
    assert_eq!(target[..8].to_vec(), vec![6; 8]);
    let failed = state.write_step(&mut target, 8, Received::AudioDataBlock(None));
    assert_eq!(failed, CallbackStep::Failed);
    assert_eq!(failed.status(), Some(STATUS_ERROR));
}

#[test]
fn callback_steps_with_packets() {
    let mut state: CallbackState<(), ()> = CallbackState::new(PcmReceiver::DirectReceiver(()));
    let mut target = [9i16; 240];
    assert!(state.can_handle(&Received::Packet(Ok(484))));
    assert!(!state.can_handle(&Received::Packet(Ok(485))));
    assert!(!state.can_handle(&Received::Packet(Ok(3))));
    assert!(!state.can_handle(&Received::AudioDataBlock(None)));
    assert_eq!(state.write_step(&mut target, 0, Received::Nothing), CallbackStep::Done);
    assert_eq!(target, [0; 240]);
    for i in 0..2 {
        assert_eq!(
            state.write_step(&mut target, 0, Received::Nothing),
            CallbackStep::Receive(DataRequest::Packet)
        );
        let bytes = packet(i, &[i as i16 + 1; 240]);
        fill_conversion_buffer(&mut state, &bytes);
        let step = state.write_step(&mut target, 0, Received::Packet(Ok(bytes.len())));
        if i == 0 {
            assert_eq!(step, CallbackStep::Done);
            assert_eq!(target, [0; 240]);
        } else {
            assert_eq!(step, CallbackStep::SetBlockingMode);
            assert_eq!(state.samples_written, 240);
        }
    }
    assert_eq!(
        state.write_step(&mut target, 0, Received::BlockingMode(Ok(()))),
        CallbackStep::Done
    );
    assert_eq!(target, [1; 240]);
    assert_eq!(state.write_step(&mut target, 0, Received::Nothing), CallbackStep::Done);
    assert_eq!(target, [2; 240]);
    assert_eq!(
        state.write_step(&mut target, 0, Received::BlockingMode(Err(()))),
        CallbackStep::Failed
    );
    assert_eq!(
        state.write_step(&mut target, 0, Received::Packet(Err(IoErrorKind::WouldBlock))),
        CallbackStep::Failed
    );
}

#[test]
fn callback_reads_packets_directly() {
    let mut state: CallbackState<(), ()> = CallbackState::new(PcmReceiver::DirectReceiver(()));
    let mut target = [9i16; 240];
    assert_eq!(state.get_new_data(), DataRequest::Nothing);
    assert_eq!(state.write_samples(&mut target, 0), 240);
    assert_eq!(target, [0; 240]);
    assert_eq!(state.get_new_data(), DataRequest::Packet);
    // Nothing is received before playing starts.
    assert_eq!(state.handle_packet(Err(IoErrorKind::WouldBlock)), Ok(false));
    assert_eq!(state.write_samples(&mut target, 0), 240);
    assert_eq!(state.get_new_data(), DataRequest::Packet);
    assert_eq!(receive(&mut state, &packet(0, &[1; 240])), Ok(false));
    assert_eq!(state.write_samples(&mut target, 0), 240);
    assert_eq!(target, [0; 240]);
    assert_eq!(state.get_new_data(), DataRequest::Packet);
    assert_eq!(receive(&mut state, &packet(1, &[2; 240])), Ok(true));
    // Nothing more is written before the connection is in blocking mode.
    assert_eq!(state.samples_written, 240);
    assert_eq!(state.handle_blocking_mode(Err(())), Err(()));
    assert_eq!(state.samples_written, 240);
    assert_eq!(state.handle_blocking_mode(Ok(())), Ok(()));
    assert_eq!(state.samples_written, 0);
    assert_eq!(state.write_samples(&mut target, 0), 240);
    assert_eq!(target, [1; 240]);
    assert_eq!(state.get_new_data(), DataRequest::Nothing);
    assert_eq!(state.write_samples(&mut target, 0), 240);
    assert_eq!(target, [2; 240]);
    assert_eq!(state.get_new_data(), DataRequest::Packet);
    assert_eq!(state.handle_packet(Err(IoErrorKind::WouldBlock)), Err(()));
    assert_eq!(state.handle_packet(Err(IoErrorKind::Other)), Err(()));
    assert_eq!(state.handle_packet(Ok(0)), Err(()));
}

fn received(packet: &[u8]) -> DataReaderEvent<'_> {
    DataReaderEvent::Received { result: Ok(packet), quit_requested: false }
}

fn offered(outcome: TrySendOutcome, quit_requested: bool) -> DataReaderEvent<'static> {
    DataReaderEvent::Offered { outcome, quit_requested }
}

#[test]
fn reader_offers_the_stream_in_blocks() {
    let mut logic = DataReaderLogic::new(2);
    let samples: Vec<i16> = (0..40).collect();
    let block = |start: usize| -> [i16; 16] { samples[start..start + 16].try_into().unwrap() };
    let next = logic.data_reading_logic(received(&packet(0, &samples[..10])), true);
    assert_eq!(next, (false, DataReaderAction::Receive));
    let next = logic.data_reading_logic(received(&packet(1, &samples[10..])), true);
    assert_eq!(next, (false, DataReaderAction::Offer(block(0))));
    let next = logic.data_reading_logic(offered(TrySendOutcome::Full, false), true);
    assert_eq!(next, (false, DataReaderAction::SleepAndOffer(block(0))));
    let next = logic.data_reading_logic(offered(TrySendOutcome::Sent, false), true);
    assert_eq!(next, (false, DataReaderAction::Offer(block(16))));
    // The second block fills the initial buffer.
    let next = logic.data_reading_logic(offered(TrySendOutcome::Sent, false), true);
    assert_eq!(next, (true, DataReaderAction::Receive));
    assert_eq!(logic.audio_data_buffer, samples[32..].to_vec());
    assert!(logic.offered_block.is_none());
}

#[test]
fn reader_stops() {
    let mut logic = DataReaderLogic::new(2);
    let timeout = |quit_requested: bool| -> DataReaderEvent<'static> {
        DataReaderEvent::Received { result: Err(IoErrorKind::WouldBlock), quit_requested }
    };
    let next = logic.data_reading_logic(timeout(false), false);
    assert_eq!(next, (false, DataReaderAction::Receive));
    let next = logic.data_reading_logic(timeout(true), false);
    assert_eq!(next, (false, DataReaderAction::Return));
    let next = logic.data_reading_logic(received(&[]), false);
    assert_eq!(next, (false, DataReaderAction::ReadingError));
    let next = logic.data_reading_logic(received(&packet(1, &[7; 16])), false);
    assert_eq!(next, (false, DataReaderAction::Offer([7; 16])));
    for _ in 0..499 {
        let next = logic.data_reading_logic(offered(TrySendOutcome::Full, true), false);
        assert_eq!(next, (false, DataReaderAction::SleepAndOffer([7; 16])));
    }
    let next = logic.data_reading_logic(offered(TrySendOutcome::Full, false), false);
    assert_eq!(next, (false, DataReaderAction::SendingError));

    let mut logic = DataReaderLogic::new(2);
    let next = logic.data_reading_logic(received(&packet(1, &[7; 32])), false);
    assert_eq!(next, (false, DataReaderAction::Offer([7; 16])));
    let next = logic.data_reading_logic(offered(TrySendOutcome::Sent, true), false);
    assert_eq!(next, (false, DataReaderAction::Return));
    // An old packet is not used.
    let next = logic.data_reading_logic(received(&packet(0, &[1; 16])), false);
    assert_eq!(next, (false, DataReaderAction::Receive));
    assert_eq!(logic.packet_loss_counter, 1);
}
