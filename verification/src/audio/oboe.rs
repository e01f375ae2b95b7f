//! Playing received audio through Oboe.

pub mod callback_mode;
pub mod cpp_bridge;
pub mod normal_mode;

use std::collections::VecDeque;

use vstd::prelude::*;

use super::{pulseaudio::stream, AudioEvent};
use crate::utils::{
    endian,
    error::{IoError, IoErrorKind},
};

verus! {

pub const OBOE_BUFFER_BURST_COUNT: i32 = 8;

pub const SAMPLE_BYTE_COUNT: usize = 2;

pub const AUDIO_CHANNEL_COUNT: usize = 2;

/// Frame is two samples currently.
pub const AUDIO_BLOCK_FRAME_COUNT: usize = 8;

pub const AUDIO_BLOCK_SAMPLE_COUNT: usize = AUDIO_BLOCK_FRAME_COUNT * AUDIO_CHANNEL_COUNT;

pub const AUDIO_BLOCK_SIZE_IN_BYTES: usize = AUDIO_BLOCK_FRAME_COUNT * AUDIO_CHANNEL_COUNT
    * SAMPLE_BYTE_COUNT;

pub type AudioDataBlock = [i16; AUDIO_BLOCK_SAMPLE_COUNT];

/// How many times in a row a block may find the audio queue full before the
/// audio stream counts as broken.
pub const MAX_TRY_SEND_COUNT: u32 = 500;

#[derive(Debug, Clone, Copy, PartialEq, Eq, Structural)]
pub struct OboeInfo {
    pub sample_rate: i32,
    pub frames_per_burst: i32,
}

impl OboeInfo {
    /// Size of the Oboe buffer in frames.
    pub fn buffer_capacity_in_frames(&self) -> (frames: i32)
        requires
            i32::MIN <= OBOE_BUFFER_BURST_COUNT * self.frames_per_burst <= i32::MAX,
        ensures
            frames == OBOE_BUFFER_BURST_COUNT * self.frames_per_burst,
            frames == 8 * self.frames_per_burst,
    {
        OBOE_BUFFER_BURST_COUNT * self.frames_per_burst
    }
}

/// Event to `OboeLogic`.
pub enum OboeEvent<S> {
    AudioEvent(AudioEvent<S>),
    RequestQuit,
    CallbackEvent(CallbackModeEvent),
    UnderrunCheckTimer,
}

#[derive(Debug, Clone, Copy, PartialEq, Eq, Structural)]
pub enum CallbackModeEvent {
    BufferingDone,
    DataReaderReadingError,
    DataReaderSendingError,
}

/// State of playing by writing to the stream.
pub struct NormalModeState {
    pub oboe_info: OboeInfo,
    pub decode_opus: bool,
    pub buffering_counter: Option<usize>,
    pub initial_buffer_block_count: usize,
    pub initial_buffer_frame_count: usize,
}

impl NormalModeState {
    pub fn new(oboe_info: OboeInfo, decode_opus: bool) -> (state: Self)
        requires
            0 <= OBOE_BUFFER_BURST_COUNT * oboe_info.frames_per_burst <= i32::MAX,
        ensures
            state.oboe_info == oboe_info,
            state.decode_opus == decode_opus,
            state.buffering_counter is None,
            state.initial_buffer_block_count == oboe_info.frames_per_burst,
            state.initial_buffer_frame_count == OBOE_BUFFER_BURST_COUNT
                * oboe_info.frames_per_burst,
    {
        let initial_buffer_block_count: usize = (oboe_info.buffer_capacity_in_frames() / (
        AUDIO_BLOCK_FRAME_COUNT as i32)) as usize;
        let initial_buffer_frame_count: usize = initial_buffer_block_count
            * AUDIO_BLOCK_FRAME_COUNT;
        Self {
            oboe_info,
            decode_opus,
            buffering_counter: None,
            initial_buffer_block_count,
            initial_buffer_frame_count,
        }
    }
}

/// How audio is played at the moment.
pub enum OboeMode {
    Callback { oboe_info: OboeInfo },
    Normal { state: NormalModeState },
}

/// What `OboeLogic` asks for.
pub enum OboeAction<S> {
    Nothing,
    /// Set the read timeout of the data connection to `timeout_millis`, then
    /// call `OboeLogic::handle_timeout_set`.
    OpenStream { send_handle: S, oboe_info: OboeInfo, timeout_millis: u64 },
    /// Close the data reader and then Oboe.
    CloseStream,
    /// Start playing.
    RequestStart,
    CheckUnderruns,
    /// Close the data reader and Oboe, if `close_stream` is true, and stop.
    Quit { close_stream: bool },
}

/// Read timeout of the data connection in milliseconds.
pub const DATA_READ_TIMEOUT_MILLIS: u64 = 10;

/// Sample rate of audio which is Opus encoded.
pub const OPUS_SAMPLE_RATE: i32 = 48000;

/// Logic for playing one audio stream at a time.
pub struct OboeLogic {
    pub oboe_mode: Option<OboeMode>,
}

impl OboeLogic {
    pub fn new() -> (logic: Self)
        ensures
            logic.oboe_mode is None,
    {
        Self { oboe_mode: None }
    }

    /// Event which can be handled. Opus decoding is not supported, and playing
    /// needs the Android specific information.
    pub open spec fn accepts<S>(event: OboeEvent<S>) -> bool {
        event matches OboeEvent::AudioEvent(
            AudioEvent::PlayAudio { android_info, decode_opus, .. },
        ) ==> !decode_opus && android_info is Some
    }

    /// Can `event` be handled.
    pub fn can_handle_event<S>(event: &OboeEvent<S>) -> (result: bool)
        ensures
            result == Self::accepts(*event),
    {
        match event {
            OboeEvent::AudioEvent(
                AudioEvent::PlayAudio { android_info, decode_opus, .. },
            ) => !*decode_opus && android_info.is_some(),
            _ => true,
        }
    }

    /// Handle one event.
    pub fn handle_event<S>(&mut self, event: OboeEvent<S>) -> (action: OboeAction<S>)
        requires
            Self::accepts(event),
        ensures
            match event {
                OboeEvent::RequestQuit => {
                    &&& action == OboeAction::<S>::Quit { close_stream: old(self).oboe_mode is Some }
                    &&& final(self).oboe_mode is None
                },
                OboeEvent::AudioEvent(
                    AudioEvent::PlayAudio { send_handle, sample_rate, android_info, .. },
                ) => {
                    &&& final(self).oboe_mode == old(self).oboe_mode
                    &&& action == if old(self).oboe_mode is Some {
                        // Only one audio stream can play at a time.
                        OboeAction::Nothing
                    } else {
                        OboeAction::OpenStream {
                            send_handle,
                            oboe_info: OboeInfo {
                                sample_rate,
                                frames_per_burst: android_info->0.frames_per_burst,
                            },
                            timeout_millis: DATA_READ_TIMEOUT_MILLIS,
                        }
                    }
                },
                OboeEvent::AudioEvent(AudioEvent::StopPlayingAudio) | OboeEvent::CallbackEvent(
                    CallbackModeEvent::DataReaderSendingError
                    | CallbackModeEvent::DataReaderReadingError,
                ) => {
                    &&& final(self).oboe_mode is None
                    &&& action == if old(self).oboe_mode is Some {
                        OboeAction::<S>::CloseStream
                    } else {
                        OboeAction::Nothing
                    }
                },
                OboeEvent::AudioEvent(_) => {
                    &&& final(self).oboe_mode == old(self).oboe_mode
                    &&& action == OboeAction::<S>::Nothing
                },
                OboeEvent::CallbackEvent(CallbackModeEvent::BufferingDone) => {
                    &&& final(self).oboe_mode == old(self).oboe_mode
                    &&& action == if old(self).oboe_mode is Some {
                        OboeAction::<S>::RequestStart
                    } else {
                        OboeAction::Nothing
                    }
                },
                OboeEvent::UnderrunCheckTimer => {
                    &&& final(self).oboe_mode == old(self).oboe_mode
                    &&& action == if old(self).oboe_mode is Some {
                        OboeAction::<S>::CheckUnderruns
                    } else {
                        OboeAction::Nothing
                    }
                },
            },
    {
        match event {
            OboeEvent::RequestQuit => {
                let close_stream = self.quit_data_reader_and_oboe();
                OboeAction::Quit { close_stream }
            },
            OboeEvent::AudioEvent(audio_event) => self.handle_audio_event(audio_event),
            OboeEvent::CallbackEvent(event) => match event {
                CallbackModeEvent::DataReaderSendingError
                | CallbackModeEvent::DataReaderReadingError => {
                    if self.quit_data_reader_and_oboe() {
                        OboeAction::CloseStream
                    } else {
                        OboeAction::Nothing
                    }
                },
                CallbackModeEvent::BufferingDone => if self.oboe_mode.is_some() {
                    OboeAction::RequestStart
                } else {
                    OboeAction::Nothing
                },
            },
            OboeEvent::UnderrunCheckTimer => if self.oboe_mode.is_some() {
                OboeAction::CheckUnderruns
            } else {
                OboeAction::Nothing
            },
        }
    }

    /// Forget the playing stream. Returns true if there was one to close.
    pub fn quit_data_reader_and_oboe(&mut self) -> (close_stream: bool)
        ensures
            close_stream == old(self).oboe_mode is Some,
            final(self).oboe_mode is None,
    {
        self.oboe_mode.take().is_some()
    }

    /// Handle an audio event.
    pub fn handle_audio_event<S>(&mut self, audio_event: AudioEvent<S>) -> (action: OboeAction<S>)
        requires
            Self::accepts(OboeEvent::AudioEvent(audio_event)),
        ensures
            match audio_event {
                AudioEvent::PlayAudio { send_handle, sample_rate, android_info, .. } => {
                    &&& final(self).oboe_mode == old(self).oboe_mode
                    &&& action == if old(self).oboe_mode is Some {
                        OboeAction::Nothing
                    } else {
                        OboeAction::OpenStream {
                            send_handle,
                            oboe_info: OboeInfo {
                                sample_rate,
                                frames_per_burst: android_info->0.frames_per_burst,
                            },
                            timeout_millis: DATA_READ_TIMEOUT_MILLIS,
                        }
                    }
                },
                AudioEvent::StopPlayingAudio => {
                    &&& final(self).oboe_mode is None
                    &&& action == if old(self).oboe_mode is Some {
                        OboeAction::<S>::CloseStream
                    } else {
                        OboeAction::Nothing
                    }
                },
                _ => {
                    &&& final(self).oboe_mode == old(self).oboe_mode
                    &&& action == OboeAction::<S>::Nothing
                },
            },
    {
        match audio_event {
            AudioEvent::PlayAudio { send_handle, sample_rate, android_info, decode_opus } => {
                let frames_per_burst: i32 = match android_info {
                    Some(info) => info.frames_per_burst,
                    None => {
                        assert(false);
                        0
                    },
                };
                if self.oboe_mode.is_some() {
                    return OboeAction::Nothing;
                }
                OboeAction::OpenStream {
                    send_handle,
                    oboe_info: OboeInfo {
                        sample_rate: if decode_opus {
                            OPUS_SAMPLE_RATE
                        } else {
                            sample_rate
                        },
                        frames_per_burst,
                    },
                    timeout_millis: DATA_READ_TIMEOUT_MILLIS,
                }
            },
            AudioEvent::StopPlayingAudio => {
                if self.quit_data_reader_and_oboe() {
                    OboeAction::CloseStream
                } else {
                    OboeAction::Nothing
                }
            },
            AudioEvent::StartRecording { .. }
            | AudioEvent::StopRecording
            | AudioEvent::Message(_) => OboeAction::Nothing,
        }
    }

    /// Handle the result of setting the read timeout. Returns true if the data
    /// reader and Oboe in callback mode should be started.
    pub fn handle_timeout_set(&mut self, oboe_info: OboeInfo, result: Result<(), IoError>) -> (start:
        bool)
        requires
            old(self).oboe_mode is None,
        ensures
            start == result is Ok,
            final(self).oboe_mode == if start {
                Some(OboeMode::Callback { oboe_info })
            } else {
                None
            },
    {
        match result {
            Ok(()) => {
                self.oboe_mode = Some(OboeMode::Callback { oboe_info });
                true
            },
            Err(_) => false,
        }
    }
}

/// What a received packet number means for the stream.
#[derive(Debug, Clone, Copy, PartialEq, Eq, Structural)]
pub enum PacketStatus {
    Normal,
    /// So many packets are missing before this one.
    PacketLoss(u32),
    Discard,
}

/// The bit of a packet number that tells one round of the counter from the
/// next.
pub const WRAP_BYTE_MASK: u32 = 0b1000_0000_0000_0000;

/// The largest packet number without the wrap bit.
pub const MAX_COUNT: u32 = 0xffff_7fff;

/// Is the wrap bit set in a packet number.
pub open spec fn wrap_bit(count: u32) -> bool {
    count as int / 0x8000 % 2 == 1
}

/// A packet number without its wrap bit.
pub open spec fn without_wrap_bit(count: u32) -> u32 {
    if wrap_bit(count) {
        (count - 0x8000) as u32
    } else {
        count
    }
}

/// Checks the order of received audio packets.
#[derive(Debug, Clone, Copy, PartialEq, Eq, Structural)]
pub struct AudioPacketManager {
    pub expected_next_packet_count: u32,
    pub expected_next_counter_wrap_byte: bool,
}

impl AudioPacketManager {
    /// Packet number for which a status is defined. Once the expected number
    /// has passed `MAX_COUNT`, the distance to a packet of the other round is
    /// not.
    pub open spec fn accepts(self, count: u32) -> bool {
        self.expected_next_counter_wrap_byte == wrap_bit(count) || self.expected_next_packet_count
            <= MAX_COUNT
    }

    /// The status of packet `count`.
    pub open spec fn status(self, count: u32) -> PacketStatus {
        let value = without_wrap_bit(count);
        let expected = self.expected_next_packet_count;
        if self.expected_next_counter_wrap_byte == wrap_bit(count) {
            if value == expected {
                PacketStatus::Normal
            } else if value < expected {
                PacketStatus::Discard
            } else {
                PacketStatus::PacketLoss((value - expected) as u32)
            }
        } else if value < expected {
            PacketStatus::PacketLoss((MAX_COUNT - expected + value) as u32)
        } else {
            PacketStatus::Discard
        }
    }

    /// What is expected after packet `count`.
    pub open spec fn after(self, count: u32) -> AudioPacketManager {
        let next = (without_wrap_bit(count) + 1) as u32;
        if self.status(count) is Discard {
            self
        } else if self.expected_next_counter_wrap_byte == wrap_bit(count) && next
            == WRAP_BYTE_MASK {
            AudioPacketManager {
                expected_next_packet_count: 0,
                expected_next_counter_wrap_byte: !wrap_bit(count),
            }
        } else {
            AudioPacketManager {
                expected_next_packet_count: next,
                expected_next_counter_wrap_byte: wrap_bit(count),
            }
        }
    }

    /// The manager which waits for packet `count`, for the first two rounds of
    /// the counter.
    pub open spec fn waiting_for(count: int) -> AudioPacketManager {
        AudioPacketManager {
            expected_next_packet_count: (count % 0x8000) as u32,
            expected_next_counter_wrap_byte: count / 0x8000 % 2 == 1,
        }
    }

    pub fn new() -> (manager: Self)
        ensures
            manager == Self::waiting_for(0),
            manager.expected_next_packet_count == 0,
            !manager.expected_next_counter_wrap_byte,
    {
        Self { expected_next_packet_count: 0, expected_next_counter_wrap_byte: false }
    }

    pub fn start_from(count: u32) -> (manager: Self)
        ensures
            manager.expected_next_packet_count == count,
            !manager.expected_next_counter_wrap_byte,
    {
        Self { expected_next_packet_count: count, expected_next_counter_wrap_byte: false }
    }

    /// Does packet number `count` have a status.
    pub fn can_check_packet(&self, count: u32) -> (result: bool)
        ensures
            result == self.accepts(count),
    {
        let wrap = count & WRAP_BYTE_MASK != 0;
        assert((count & 0x8000u32 != 0) == (count / 0x8000u32 % 2u32 == 1u32)) by (bit_vector);
        self.expected_next_counter_wrap_byte == wrap || self.expected_next_packet_count <= MAX_COUNT
    }

    /// Check packet number `count` and move the expected packet number past it,
    /// if the packet is not discarded.
    pub fn check_packet(&mut self, count: u32) -> (status: PacketStatus)
        requires
            old(self).accepts(count),
        ensures
            status == old(self).status(count),
            *final(self) == old(self).after(count),
    {
        let wrap = count & WRAP_BYTE_MASK != 0;
        let value: u32 = count & MAX_COUNT;
        proof {
            assert((count & 0x8000u32 != 0) == (count / 0x8000u32 % 2u32 == 1u32)) by (bit_vector);
            assert(count & 0x8000u32 == 0 ==> count & 0xffff_7fffu32 == count) by (bit_vector);
            assert(count & 0x8000u32 != 0 ==> count & 0xffff_7fffu32 == count - 0x8000u32)
                by (bit_vector);
            assert(count & 0xffff_7fffu32 <= 0xffff_7fffu32) by (bit_vector);
        }

        if self.expected_next_counter_wrap_byte == wrap {
            if value < self.expected_next_packet_count {
                return PacketStatus::Discard;
            }
            let packet_loss: u32 = value - self.expected_next_packet_count;
            let next: u32 = value + 1;

            if next == WRAP_BYTE_MASK {
                self.expected_next_packet_count = 0;
                self.expected_next_counter_wrap_byte = !wrap;
            } else {
                self.expected_next_packet_count = next;
            }

            if packet_loss == 0 {
                PacketStatus::Normal
            } else {
                PacketStatus::PacketLoss(packet_loss)
            }
        } else if value < self.expected_next_packet_count {
            let packet_loss: u32 = MAX_COUNT - self.expected_next_packet_count + value;

            self.expected_next_packet_count = value + 1;
            self.expected_next_counter_wrap_byte = wrap;

            PacketStatus::PacketLoss(packet_loss)
        } else {
            // Just assume that this is old packet.
            PacketStatus::Discard
        }
    }
}

/// Packets that arrive in order have no loss, for as long as the counter stays
/// within its first two rounds.
pub proof fn law_packets_in_order_are_normal(count: u32)
    requires
        count < 0x1_0000,
    ensures
        AudioPacketManager::waiting_for(count as int).accepts(count),
        AudioPacketManager::waiting_for(count as int).status(count) == PacketStatus::Normal,
        AudioPacketManager::waiting_for(count as int).after(count)
            == AudioPacketManager::waiting_for(count + 1),
{
    let round = count as int / 0x8000;
    assert(count == 0x8000 * round + count as int % 0x8000);
    assert(round == 0 || round == 1);
    if count % 0x8000 == 0x7fff {
        assert((count + 1) / 0x8000 == round + 1);
    } else {
        assert((count + 1) / 0x8000 == round);
    }
}

/// Within one round of the counter, a packet that comes after `lost` missing
/// ones reports just that number.
pub proof fn law_missing_packets_are_counted(count: u32, lost: u32)
    requires
        count < 0x1_0000,
        lost > 0,
        count as int / 0x8000 == (count + lost) / 0x8000,
    ensures
        AudioPacketManager::waiting_for(count as int).status((count + lost) as u32)
            == PacketStatus::PacketLoss(lost),
        AudioPacketManager::waiting_for(count as int).after((count + lost) as u32)
            == AudioPacketManager::waiting_for(count + lost + 1),
{
    law_packets_in_order_are_normal((count + lost) as u32);
}

/// A packet that was not discarded is discarded when it arrives once more, and
/// a discarded packet changes nothing.
pub proof fn law_repeated_packet_is_discarded(manager: AudioPacketManager, count: u32)
    requires
        manager.accepts(count),
    ensures
        manager.status(count) is Discard ==> manager.after(count) == manager,
        manager.after(count).accepts(count),
        manager.after(count).status(count) == PacketStatus::Discard,
        manager.after(count).after(count) == manager.after(count),
{
}

/// One bit of a packet number tells the round of the counter, and the other bits are
/// the number within the round.
pub proof fn law_number_is_a_round_and_a_value(count: u32)
    ensures
        wrap_bit(count) <==> count & 0x8000 != 0,
        without_wrap_bit(count) == count & 0xffff_7fff,
{
    assert((count & 0x8000u32 != 0) == (count / 0x8000u32 % 2u32 == 1u32)) by (bit_vector);
    assert(count & 0x8000u32 == 0 ==> count & 0xffff_7fffu32 == count) by (bit_vector);
    assert(count & 0x8000u32 != 0 ==> count & 0xffff_7fffu32 == count - 0x8000u32) by (bit_vector);
}

/// Within one round of the counter every packet before the expected one is
/// discarded, however old it is, and the expected packet stays the same.
pub proof fn law_old_packets_are_discarded(waiting: int, count: u32)
    requires
        count < waiting < 0x1_0000,
        count as int / 0x8000 == waiting / 0x8000,
    ensures
        AudioPacketManager::waiting_for(waiting).accepts(count),
        AudioPacketManager::waiting_for(waiting).status(count) == PacketStatus::Discard,
        AudioPacketManager::waiting_for(waiting).after(count) == AudioPacketManager::waiting_for(
            waiting,
        ),
{
    let round = waiting / 0x8000;
    assert(count == 0x8000 * round + count as int % 0x8000);
    assert(waiting == 0x8000 * round + waiting % 0x8000);
}

/// Of the packets of the expected round, those before the expected one are
/// discarded, the expected one is normal, and any later one tells how many are
/// missing before it. Packets of the other round are new until their numbers reach
/// the expected one, and old from there on.
pub proof fn law_status_follows_the_order(manager: AudioPacketManager, count: u32)
    requires
        manager.accepts(count),
    ensures
        ({
            let value = count & 0xffff_7fff;
            let expected = manager.expected_next_packet_count;
            let same_round = manager.expected_next_counter_wrap_byte == (count & 0x8000 != 0);
            &&& same_round && value < expected ==> manager.status(count) == PacketStatus::Discard
            &&& same_round && value == expected ==> manager.status(count) == PacketStatus::Normal
            &&& same_round && value > expected ==> (manager.status(count)
                matches PacketStatus::PacketLoss(lost) && expected + lost == value)
            &&& !same_round && value < expected ==> (manager.status(count)
                matches PacketStatus::PacketLoss(lost) && expected + lost == 0xffff_7fff + value)
            &&& !same_round && value >= expected ==> manager.status(count)
                == PacketStatus::Discard
        }),
{
    law_number_is_a_round_and_a_value(count);
    assert(count & 0xffff_7fffu32 <= 0xffff_7fffu32) by (bit_vector);
}

/// The expected number never goes back within a round: a packet either changes
/// nothing or moves the expected number just past itself. The round changes after
/// the last number of the round, or when a packet of the other round is used.
pub proof fn law_expected_number_never_goes_back(manager: AudioPacketManager, count: u32)
    requires
        manager.accepts(count),
    ensures
        ({
            let value = count & 0xffff_7fff;
            let wrap = count & 0x8000 != 0;
            let after = manager.after(count);
            let same_round = manager.expected_next_counter_wrap_byte == wrap;
            &&& after.expected_next_counter_wrap_byte == manager.expected_next_counter_wrap_byte
                ==> after.expected_next_packet_count >= manager.expected_next_packet_count
            &&& manager.status(count) is Discard ==> after == manager
            &&& manager.status(count) !is Discard && same_round && value == 0x7fff ==> {
                &&& after.expected_next_packet_count == 0
                &&& after.expected_next_counter_wrap_byte == !wrap
            }
            &&& manager.status(count) !is Discard && !(same_round && value == 0x7fff) ==> {
                &&& after.expected_next_packet_count == value + 1
                &&& after.expected_next_counter_wrap_byte == wrap
            }
        }),
{
    law_number_is_a_round_and_a_value(count);
    law_status_follows_the_order(manager, count);
    assert(count & 0xffff_7fffu32 <= 0xffff_7fffu32) by (bit_vector);
}

/// Numbers of used packets grow within a round: of two packets which are used one after
/// the other in the same round, the later one has the larger number.
pub proof fn law_used_numbers_grow(manager: AudioPacketManager, first: u32, second: u32)
    requires
        manager.accepts(first),
        manager.status(first) !is Discard,
        manager.after(first).accepts(second),
        manager.after(first).status(second) !is Discard,
        first & 0x8000 == second & 0x8000,
    ensures
        first < second,
{
    law_number_is_a_round_and_a_value(first);
    law_number_is_a_round_and_a_value(second);
    assert(first & 0xffff_7fffu32 < second & 0xffff_7fffu32 && first & 0x8000u32 == second
        & 0x8000u32 ==> first < second) by (bit_vector);
}

/// After a packet which is used, the packet with the next number is the expected
/// one, as long as the round does not change.
pub proof fn law_next_number_is_expected(manager: AudioPacketManager, count: u32)
    requires
        manager.accepts(count),
        manager.status(count) !is Discard,
        count % 0x8000 != 0x7fff,
    ensures
        manager.after(count).accepts((count + 1) as u32),
        manager.after(count).status((count + 1) as u32) == PacketStatus::Normal,
{
    assert(count as int / 0x8000 == (count + 1) / 0x8000);
}

/// What the data connection handed to the reader.
pub enum ReceiveAction {
    /// The packet buffer holds a packet of this size.
    HandlePacket(usize),
    /// Receive once more.
    Retry,
    /// Stop reading.
    Return,
    /// Send `CallbackModeEvent::DataReaderReadingError` and wait for the quit
    /// request.
    ReadingError,
}

/// What happened to a block which was offered to the audio queue.
#[derive(Debug, Clone, Copy, PartialEq, Eq, Structural)]
pub enum TrySendOutcome {
    Sent,
    Full,
}

/// What to do after a block was offered to the audio queue.
#[derive(Debug, Clone, Copy, PartialEq, Eq, Structural)]
pub enum TrySendAction {
    /// Take the next block.
    NextBlock,
    /// Send `CallbackModeEvent::BufferingDone` and take the next block.
    BufferingDone,
    /// Sleep for a millisecond and offer the block again.
    Retry,
    /// Send `CallbackModeEvent::DataReaderSendingError`, read packets and wait
    /// for the quit request.
    SendingError,
}

/// What happened in the data reader.
pub enum DataReaderEvent<'a> {
    /// A packet or an error was received. A broken connection gives an empty
    /// packet.
    Received { result: Result<&'a [u8], IoErrorKind>, quit_requested: bool },
    /// The block was offered to the audio queue.
    Offered { outcome: TrySendOutcome, quit_requested: bool },
}

/// What the data reader asks for.
#[derive(Debug, Clone, Copy, PartialEq, Eq)]
pub enum DataReaderAction {
    /// Receive a packet.
    Receive,
    /// Offer the block to the audio queue.
    Offer(AudioDataBlock),
    /// Sleep for a millisecond and offer the block to the audio queue.
    SleepAndOffer(AudioDataBlock),
    /// Stop reading.
    Return,
    /// Send `CallbackModeEvent::DataReaderReadingError` and wait for the quit
    /// request.
    ReadingError,
    /// Send `CallbackModeEvent::DataReaderSendingError`, read packets and wait
    /// for the quit request.
    SendingError,
}

/// Logic of the thread which reads audio packets and cuts them into blocks for
/// the audio callback.
pub struct DataReaderLogic {
    pub audio_packet_manager: AudioPacketManager,
    pub audio_data_buffer: VecDeque<i16>,
    pub packet_loss_counter: u64,
    pub try_send_counter: u32,
    pub initial_buffer_block_count: i32,
    /// Count of blocks in the audio queue before playing starts.
    pub buffering_counter: Option<i32>,
    /// Block which is offered to the audio queue.
    pub offered_block: Option<AudioDataBlock>,
}

/// The packet number at the start of an audio packet.
pub open spec fn packet_number(packet: Seq<u8>) -> u32 {
    endian::be32(packet) as u32
}

/// The audio bytes of an audio packet.
pub open spec fn packet_audio(packet: Seq<u8>) -> Seq<u8> {
    packet.subrange(4, packet.len() as int)
}

impl DataReaderLogic {
    /// Is `packet` one which the stream does not use. Packets of a reliable
    /// connection are all used.
    pub open spec fn discards(self, packet: Seq<u8>, reliable: bool) -> bool {
        !reliable && self.audio_packet_manager.status(packet_number(packet)) is Discard
    }

    /// The packets that were lost before `packet`.
    pub open spec fn lost_before(self, packet: Seq<u8>, reliable: bool) -> int {
        match self.audio_packet_manager.status(packet_number(packet)) {
            PacketStatus::PacketLoss(loss) if !reliable => loss as int,
            _ => 0,
        }
    }

    /// Packet that `add_packet` takes: it has a packet number which can be
    /// checked, and whole samples if they are used.
    pub open spec fn accepts(self, packet: Seq<u8>, reliable: bool) -> bool {
        &&& packet.len() >= 4
        &&& !reliable ==> self.audio_packet_manager.accepts(packet_number(packet))
        &&& self.packet_loss_counter + self.lost_before(packet, reliable) <= u64::MAX
        &&& !self.discards(packet, reliable) ==> packet.len() % 2 == 0
    }

    /// The buffering counter and the action after one more block is in the
    /// audio queue.
    pub open spec fn after_sent_block(self) -> (Option<i32>, TrySendAction) {
        match self.buffering_counter {
            None => (None, TrySendAction::NextBlock),
            Some(counter) => if counter + 1 == self.initial_buffer_block_count {
                (None, TrySendAction::BufferingDone)
            } else {
                (Some((counter + 1) as i32), TrySendAction::NextBlock)
            },
        }
    }

    pub fn new(frames_per_burst: i32) -> (logic: Self)
        requires
            i32::MIN <= OBOE_BUFFER_BURST_COUNT * frames_per_burst <= i32::MAX,
        ensures
            logic.audio_packet_manager == AudioPacketManager::waiting_for(0),
            logic.audio_data_buffer@ == Seq::<i16>::empty(),
            logic.packet_loss_counter == 0,
            logic.try_send_counter == 0,
            logic.initial_buffer_block_count == frames_per_burst,
            logic.buffering_counter == Some(0i32),
            logic.offered_block is None,
    {
        let frame_count: i32 = OBOE_BUFFER_BURST_COUNT * frames_per_burst;
        Self {
            audio_packet_manager: AudioPacketManager::new(),
            audio_data_buffer: VecDeque::with_capacity(AUDIO_BLOCK_SIZE_IN_BYTES * 8),
            packet_loss_counter: 0,
            try_send_counter: 0,
            initial_buffer_block_count: frame_count / (AUDIO_BLOCK_FRAME_COUNT as i32),
            buffering_counter: Some(0),
            offered_block: None,
        }
    }

    /// Decide what to do with the result of receiving a packet. Zero size means
    /// that the connection is broken.
    pub fn handle_receive(
        result: Result<usize, IoErrorKind>,
        quit_requested: bool,
    ) -> (action: ReceiveAction)
        ensures
            action == match result {
                Ok(size) => if size == 0 {
                    ReceiveAction::ReadingError
                } else {
                    ReceiveAction::HandlePacket(size)
                },
                Err(kind) => if kind != IoErrorKind::WouldBlock {
                    ReceiveAction::ReadingError
                } else if quit_requested {
                    ReceiveAction::Return
                } else {
                    ReceiveAction::Retry
                },
            },
    {
        match result {
            Ok(size) => if size == 0 {
                ReceiveAction::ReadingError
            } else {
                ReceiveAction::HandlePacket(size)
            },
            Err(kind) => if kind != IoErrorKind::WouldBlock {
                ReceiveAction::ReadingError
            } else if quit_requested {
                ReceiveAction::Return
            } else {
                ReceiveAction::Retry
            },
        }
    }

    /// Should packets be read on after the audio stream broke.
    pub fn keep_reading_packets(result: Result<usize, IoErrorKind>) -> (keep_reading: bool)
        ensures
            keep_reading == (result matches Ok(size) && size != 0),
    {
        match result {
            Ok(size) => size != 0,
            Err(_) => false,
        }
    }

    /// Can `add_packet` take `packet`.
    pub fn can_add_packet(&self, packet: &[u8], reliable: bool) -> (result: bool)
        ensures
            result == self.accepts(packet@, reliable),
    {
        if packet.len() < 4 {
            return false;
        }
        let count: u32 = endian::u32_from_be_bytes(packet);
        let even = packet.len() % 2 == 0;
        if reliable {
            return even;
        }
        if !self.audio_packet_manager.can_check_packet(count) {
            return false;
        }
        let mut manager = self.audio_packet_manager;
        match manager.check_packet(count) {
            PacketStatus::Normal => even,
            PacketStatus::Discard => true,
            PacketStatus::PacketLoss(packet_loss) => even && self.packet_loss_counter <= u64::MAX
                - packet_loss as u64,
        }
    }

    /// Check the packet number, if the connection is not reliable, and append
    /// the samples of `packet` to the buffered ones. Returns false if the
    /// packet was discarded.
    pub fn add_packet(&mut self, packet: &[u8], reliable: bool) -> (used: bool)
        requires
            old(self).accepts(packet@, reliable),
        ensures
            used == !old(self).discards(packet@, reliable),
            final(self).audio_data_buffer@ == if used {
                old(self).audio_data_buffer@ + endian::le_samples(packet_audio(packet@))
            } else {
                old(self).audio_data_buffer@
            },
            final(self).audio_packet_manager == if reliable {
                old(self).audio_packet_manager
            } else {
                old(self).audio_packet_manager.after(packet_number(packet@))
            },
            final(self).packet_loss_counter == old(self).packet_loss_counter + old(self).lost_before(packet@, reliable),
            final(self).try_send_counter == old(self).try_send_counter,
            final(self).initial_buffer_block_count == old(self).initial_buffer_block_count,
            final(self).buffering_counter == old(self).buffering_counter,
            final(self).offered_block == old(self).offered_block,
    {
        let (packet_counter_bytes, audio_data) = packet.split_at(4);
        let packet_counter: u32 = endian::u32_from_be_bytes(packet_counter_bytes);
        assert(endian::be32(packet_counter_bytes@) == endian::be32(packet@));

        if !reliable {
            match self.audio_packet_manager.check_packet(packet_counter) {
                PacketStatus::Normal => (),
                PacketStatus::Discard => {
                    return false;
                },
                PacketStatus::PacketLoss(packet_loss) => {
                    self.packet_loss_counter = self.packet_loss_counter + packet_loss as u64;
                },
            }
        }
        let ghost before = self.audio_data_buffer@;
        let ghost samples = endian::le_samples(audio_data@);
        let sample_count: usize = audio_data.len() / 2;
        let mut i: usize = 0;
        while i < sample_count
            invariant
                i <= sample_count,
                sample_count == audio_data.len() / 2,
                samples == endian::le_samples(audio_data@),
                self.audio_data_buffer@ == before + samples.subrange(0, i as int),
                self.audio_packet_manager == (if reliable {
                    old(self).audio_packet_manager
                } else {
                    old(self).audio_packet_manager.after(packet_number(packet@))
                }),
                self.packet_loss_counter == old(self).packet_loss_counter + old(self).lost_before(
                    packet@,
                    reliable,
                ),
                self.try_send_counter == old(self).try_send_counter,
                self.initial_buffer_block_count == old(self).initial_buffer_block_count,
                self.buffering_counter == old(self).buffering_counter,
                self.offered_block == old(self).offered_block,
            decreases sample_count - i,
        {
            self.audio_data_buffer.push_back(
                endian::i16_from_le_bytes(audio_data[2 * i], audio_data[2 * i + 1]),
            );
            i = i + 1;
            assert(samples.subrange(0, i as int) =~= samples.subrange(0, i - 1).push(
                samples[i - 1],
            ));
        }
        assert(samples.subrange(0, sample_count as int) =~= samples);
        assert(audio_data@ =~= packet_audio(packet@));
        true
    }

    /// Take the next block of samples, if there are enough.
    pub fn next_block(&mut self) -> (block: Option<AudioDataBlock>)
        ensures
            block is Some <==> old(self).audio_data_buffer@.len() >= AUDIO_BLOCK_SAMPLE_COUNT,
            block matches Some(samples) ==> old(self).audio_data_buffer@ == samples@ + final(self).audio_data_buffer@,
            block is None ==> final(self).audio_data_buffer@ == old(self).audio_data_buffer@,
            final(self).audio_packet_manager == old(self).audio_packet_manager,
            final(self).packet_loss_counter == old(self).packet_loss_counter,
            final(self).try_send_counter == old(self).try_send_counter,
            final(self).initial_buffer_block_count == old(self).initial_buffer_block_count,
            final(self).buffering_counter == old(self).buffering_counter,
            final(self).offered_block == old(self).offered_block,
    {
        if self.audio_data_buffer.len() < AUDIO_BLOCK_SAMPLE_COUNT {
            return None;
        }
        let mut block: AudioDataBlock = [0; 16];
        let mut i: usize = 0;
        let ghost before = self.audio_data_buffer@;
        while i < AUDIO_BLOCK_SAMPLE_COUNT
            invariant
                i <= AUDIO_BLOCK_SAMPLE_COUNT,
                before == old(self).audio_data_buffer@,
                before.len() >= AUDIO_BLOCK_SAMPLE_COUNT,
                self.audio_data_buffer@ == before.subrange(i as int, before.len() as int),
                forall|j: int| 0 <= j < i ==> block@[j] == before[j],
                self.audio_packet_manager == old(self).audio_packet_manager,
                self.packet_loss_counter == old(self).packet_loss_counter,
                self.try_send_counter == old(self).try_send_counter,
                self.initial_buffer_block_count == old(self).initial_buffer_block_count,
                self.buffering_counter == old(self).buffering_counter,
                self.offered_block == old(self).offered_block,
            decreases AUDIO_BLOCK_SAMPLE_COUNT - i,
        {
            match self.audio_data_buffer.pop_front() {
                Some(sample) => {
                    block[i] = sample;
                },
                None => {
                    assert(false);
                },
            }
            i = i + 1;
        }
        assert(before =~= block@ + self.audio_data_buffer@);
        Some(block)
    }

    /// Decide what to do after a block was offered to the audio queue.
    pub fn handle_try_send(&mut self, outcome: TrySendOutcome) -> (action: TrySendAction)
        requires
            old(self).try_send_counter < MAX_TRY_SEND_COUNT,
            old(self).buffering_counter matches Some(counter) ==> counter < i32::MAX,
        ensures
            match outcome {
                TrySendOutcome::Full => {
                    &&& final(self).try_send_counter == old(self).try_send_counter + 1
                    &&& final(self).buffering_counter == old(self).buffering_counter
                    &&& action == if final(self).try_send_counter == MAX_TRY_SEND_COUNT {
                        TrySendAction::SendingError
                    } else {
                        TrySendAction::Retry
                    }
                },
                TrySendOutcome::Sent => {
                    &&& final(self).try_send_counter == 0
                    &&& (final(self).buffering_counter, action) == old(self).after_sent_block()
                },
            },
            final(self).audio_packet_manager == old(self).audio_packet_manager,
            final(self).audio_data_buffer@ == old(self).audio_data_buffer@,
            final(self).packet_loss_counter == old(self).packet_loss_counter,
            final(self).initial_buffer_block_count == old(self).initial_buffer_block_count,
            final(self).offered_block == old(self).offered_block,
            action is SendingError <==> outcome is Full && old(self).try_send_counter == 499,
            action is Retry <==> outcome is Full && old(self).try_send_counter < 499,
    {
        match outcome {
            TrySendOutcome::Full => {
                self.try_send_counter = self.try_send_counter + 1;
                if self.try_send_counter == MAX_TRY_SEND_COUNT {
                    TrySendAction::SendingError
                } else {
                    TrySendAction::Retry
                }
            },
            TrySendOutcome::Sent => {
                self.try_send_counter = 0;
                match self.buffering_counter {
                    None => TrySendAction::NextBlock,
                    Some(counter) => {
                        let counter: i32 = counter + 1;
                        if counter == self.initial_buffer_block_count {
                            self.buffering_counter = None;
                            TrySendAction::BufferingDone
                        } else {
                            self.buffering_counter = Some(counter);
                            TrySendAction::NextBlock
                        }
                    },
                }
            },
        }
    }
}

impl DataReaderLogic {
    /// Samples of used packets which are not in the audio queue yet.
    pub open spec fn pending(self) -> Seq<i16> {
        match self.offered_block {
            Some(block) => block@ + self.audio_data_buffer@,
            None => self.audio_data_buffer@,
        }
    }

    /// Event which can be handled. A packet is received when no block is offered,
    /// and it is one that `add_packet` takes.
    pub open spec fn accepts_event(self, event: DataReaderEvent, reliable: bool) -> bool {
        match event {
            DataReaderEvent::Received { result, .. } => {
                &&& self.offered_block is None
                &&& result matches Ok(packet) ==> packet@.len() == 0 || self.accepts(
                    packet@,
                    reliable,
                )
            },
            DataReaderEvent::Offered { .. } => {
                &&& self.offered_block is Some
                &&& self.try_send_counter < MAX_TRY_SEND_COUNT
                &&& self.buffering_counter matches Some(counter) ==> counter < i32::MAX
            },
        }
    }

    /// Is `action` the one that goes on with `samples`, and is this the state
    /// then: a block of them is offered, if there are enough, and otherwise they
    /// wait for the next packet.
    pub open spec fn goes_on_with(self, samples: Seq<i16>, action: DataReaderAction) -> bool {
        if samples.len() >= AUDIO_BLOCK_SAMPLE_COUNT {
            &&& action matches DataReaderAction::Offer(block)
            &&& block@ == samples.take(AUDIO_BLOCK_SAMPLE_COUNT as int)
            &&& self.offered_block == Some(block)
            &&& self.audio_data_buffer@ == samples.skip(AUDIO_BLOCK_SAMPLE_COUNT as int)
        } else {
            &&& action is Receive
            &&& self.offered_block is None
            &&& self.audio_data_buffer@ == samples
        }
    }

    /// Offer the next block, if there are enough samples.
    fn offer_next_block(&mut self) -> (action: DataReaderAction)
        ensures
            final(self).goes_on_with(old(self).audio_data_buffer@, action),
            final(self).pending() == old(self).audio_data_buffer@,
            final(self).audio_packet_manager == old(self).audio_packet_manager,
            final(self).packet_loss_counter == old(self).packet_loss_counter,
            final(self).try_send_counter == old(self).try_send_counter,
            final(self).initial_buffer_block_count == old(self).initial_buffer_block_count,
            final(self).buffering_counter == old(self).buffering_counter,
    {
        let ghost samples = self.audio_data_buffer@;
        match self.next_block() {
            Some(block) => {
                self.offered_block = Some(block);
                assert(block@ =~= samples.take(AUDIO_BLOCK_SAMPLE_COUNT as int));
                assert(self.audio_data_buffer@ =~= samples.skip(AUDIO_BLOCK_SAMPLE_COUNT as int));
                DataReaderAction::Offer(block)
            },
            None => {
                self.offered_block = None;
                DataReaderAction::Receive
            },
        }
    }

    /// Handle what happened. The first value is true if
    /// `CallbackModeEvent::BufferingDone` should be sent before the action.
    ///
    /// The blocks which the audio queue takes are the samples of the used packets
    /// in order: a packet adds its samples to the end of the pending ones, a block
    /// which is taken is removed from their start, and nothing else changes them.
    pub fn data_reading_logic(&mut self, event: DataReaderEvent, reliable: bool) -> (result: (
        bool,
        DataReaderAction,
    ))
        requires
            old(self).accepts_event(event, reliable),
        ensures
            final(self).initial_buffer_block_count == old(self).initial_buffer_block_count,
            match event {
                DataReaderEvent::Received { result: Err(kind), quit_requested } => {
                    &&& result == (
                        false,
                        if kind != IoErrorKind::WouldBlock {
                            DataReaderAction::ReadingError
                        } else if quit_requested {
                            DataReaderAction::Return
                        } else {
                            DataReaderAction::Receive
                        },
                    )
                    &&& *final(self) == *old(self)
                },
                DataReaderEvent::Received { result: Ok(packet), .. } => {
                    &&& !result.0
                    &&& final(self).try_send_counter == old(self).try_send_counter
                    &&& final(self).buffering_counter == old(self).buffering_counter
                    &&& if packet@.len() == 0 {
                        &&& result.1 == DataReaderAction::ReadingError
                        &&& *final(self) == *old(self)
                    } else {
                        &&& final(self).audio_packet_manager == if reliable {
                            old(self).audio_packet_manager
                        } else {
                            old(self).audio_packet_manager.after(packet_number(packet@))
                        }
                        &&& final(self).packet_loss_counter == old(self).packet_loss_counter
                            + old(self).lost_before(packet@, reliable)
                        &&& if old(self).discards(packet@, reliable) {
                            &&& result.1 == DataReaderAction::Receive
                            &&& final(self).offered_block is None
                            &&& final(self).pending() == old(self).pending()
                        } else {
                            let samples = endian::le_samples(packet_audio(packet@));
                            &&& final(self).goes_on_with(
                                old(self).audio_data_buffer@ + samples,
                                result.1,
                            )
                            &&& final(self).pending() == old(self).pending() + samples
                        }
                    }
                },
                DataReaderEvent::Offered { outcome: TrySendOutcome::Full, .. } => {
                    &&& final(self).try_send_counter == old(self).try_send_counter + 1
                    &&& result == (
                        false,
                        if final(self).try_send_counter == MAX_TRY_SEND_COUNT {
                            DataReaderAction::SendingError
                        } else {
                            DataReaderAction::SleepAndOffer(old(self).offered_block->0)
                        },
                    )
                    &&& final(self).offered_block == old(self).offered_block
                    &&& final(self).pending() == old(self).pending()
                    &&& final(self).buffering_counter == old(self).buffering_counter
                    &&& final(self).audio_packet_manager == old(self).audio_packet_manager
                    &&& final(self).packet_loss_counter == old(self).packet_loss_counter
                },
                DataReaderEvent::Offered { outcome: TrySendOutcome::Sent, quit_requested } => {
                    &&& final(self).try_send_counter == 0
                    &&& final(self).buffering_counter == old(self).after_sent_block().0
                    &&& result.0 == (old(self).after_sent_block().1
                        == TrySendAction::BufferingDone)
                    &&& old(self).pending() == old(self).offered_block->0@ + final(self).pending()
                    &&& if quit_requested {
                        &&& result.1 == DataReaderAction::Return
                        &&& final(self).offered_block is None
                    } else {
                        final(self).goes_on_with(old(self).audio_data_buffer@, result.1)
                    }
                    &&& final(self).audio_packet_manager == old(self).audio_packet_manager
                    &&& final(self).packet_loss_counter == old(self).packet_loss_counter
                },
            },
    {
        match event {
            DataReaderEvent::Received { result, quit_requested } => {
                let size: Result<usize, IoErrorKind> = match result {
                    Ok(packet) => Ok(packet.len()),
                    Err(kind) => Err(kind),
                };
                let action = match (Self::handle_receive(size, quit_requested), result) {
                    (ReceiveAction::HandlePacket(_), Ok(packet)) => {
                        if self.add_packet(packet, reliable) {
                            self.offer_next_block()
                        } else {
                            DataReaderAction::Receive
                        }
                    },
                    (ReceiveAction::Return, _) => DataReaderAction::Return,
                    (ReceiveAction::Retry, _) => DataReaderAction::Receive,
                    (_, _) => DataReaderAction::ReadingError,
                };
                (false, action)
            },
            DataReaderEvent::Offered { outcome, quit_requested } => {
                let block: AudioDataBlock = match self.offered_block {
                    Some(block) => block,
                    None => {
                        assert(false);
                        [0;AUDIO_BLOCK_SAMPLE_COUNT]
                    },
                };
                match self.handle_try_send(outcome) {
                    TrySendAction::Retry => (false, DataReaderAction::SleepAndOffer(block)),
                    TrySendAction::SendingError => (false, DataReaderAction::SendingError),
                    action => {
                        let buffering_done = action == TrySendAction::BufferingDone;
                        self.offered_block = None;
                        if quit_requested {
                            return (buffering_done, DataReaderAction::Return);
                        }
                        (buffering_done, self.offer_next_block())
                    },
                }
            },
        }
    }
}

/// When the `sent`th block is in the audio queue, buffering is done if that is
/// the block that fills the initial buffer. It is not reported at any other
/// block.
pub proof fn law_buffering_is_done_once(logic: DataReaderLogic, sent: int)
    requires
        0 <= sent < i32::MAX,
        logic.initial_buffer_block_count > 0,
        logic.buffering_counter == if sent < logic.initial_buffer_block_count {
            Some(sent as i32)
        } else {
            None
        },
    ensures
        logic.after_sent_block().1 == TrySendAction::BufferingDone <==> sent + 1
            == logic.initial_buffer_block_count,
        logic.after_sent_block().0 == if sent + 1 < logic.initial_buffer_block_count {
            Some((sent + 1) as i32)
        } else {
            None
        },
{
}

/// Playing starts when the count of blocks in the audio queue reaches the size of
/// the initial buffer, and it starts only once.
pub proof fn law_blocks_are_counted_until_playing_starts(logic: DataReaderLogic)
    requires
        logic.buffering_counter matches Some(counter) ==> counter < i32::MAX,
    ensures
        logic.buffering_counter is None ==> {
            &&& logic.after_sent_block().0 is None
            &&& logic.after_sent_block().1 == TrySendAction::NextBlock
        },
        logic.buffering_counter matches Some(counter) ==> {
            &&& logic.after_sent_block().1 == TrySendAction::BufferingDone <==> counter + 1
                == logic.initial_buffer_block_count
            &&& logic.after_sent_block().1 == TrySendAction::BufferingDone
                <==> logic.after_sent_block().0 is None
            &&& logic.after_sent_block().1 == TrySendAction::NextBlock
                <==> logic.after_sent_block().0 is Some
            &&& logic.after_sent_block().0 matches Some(next) ==> next == counter + 1
        },
{
}

/// Packets of a reliable connection are all used, and none of them counts as lost,
/// whatever their numbers are.
pub proof fn law_reliable_packets_are_all_used(logic: DataReaderLogic, packet: Seq<u8>)
    ensures
        !logic.discards(packet, true),
        logic.lost_before(packet, true) == 0,
{
}

/// Audio of an unreliable connection is not played late or twice: while packet
/// `waiting` is expected, an earlier packet of the same round is not used, the
/// expected one is, and a later one is used and tells how many packets are lost.
pub proof fn law_late_audio_is_not_played(
    logic: DataReaderLogic,
    waiting: int,
    number: u32,
    data: Seq<u8>,
)
    requires
        0 <= waiting < 0x1_0000,
        number < 0x1_0000,
        number as int / 0x8000 == waiting / 0x8000,
        logic.audio_packet_manager == AudioPacketManager::waiting_for(waiting),
    ensures
        ({
            let packet = stream::audio_packet(number as int, data);
            &&& logic.discards(packet, false) <==> number < waiting
            &&& logic.lost_before(packet, false) == if number > waiting {
                number - waiting
            } else {
                0
            }
        }),
{
    stream::law_packet_is_read_as_written(number as int, data);
    if number < waiting {
        law_old_packets_are_discarded(waiting, number);
    } else if number == waiting {
        law_packets_in_order_are_normal(number);
    } else {
        law_missing_packets_are_counted(waiting as u32, (number - waiting) as u32);
    }
}

/// Packets of an unreliable connection are checked by their numbers: a packet is used
/// unless its number is an old one, and the packets which are missing before it are
/// counted.
pub proof fn law_unreliable_packets_are_checked(
    logic: DataReaderLogic,
    number: u32,
    data: Seq<u8>,
)
    ensures
        ({
            let packet = stream::audio_packet(number as int, data);
            let status = logic.audio_packet_manager.status(number);
            &&& logic.discards(packet, false) <==> status is Discard
            &&& logic.lost_before(packet, false) == match status {
                PacketStatus::PacketLoss(lost) => lost as int,
                _ => 0,
            }
        }),
{
    stream::law_packet_is_read_as_written(number as int, data);
}

/// A packet of a reliable connection is taken if it has a number and whole samples. On an
/// unreliable connection also its number must be one that can be checked, and the count of
/// lost packets must have room, while a packet which is not used may have any size.
pub proof fn law_whole_packets_are_taken(logic: DataReaderLogic, number: u32, data: Seq<u8>)
    ensures
        ({
            let packet = stream::audio_packet(number as int, data);
            let status = logic.audio_packet_manager.status(number);
            &&& logic.accepts(packet, true) <==> data.len() % 2 == 0
            &&& logic.accepts(packet, false) <==> {
                &&& logic.audio_packet_manager.accepts(number)
                &&& status is Discard || data.len() % 2 == 0
                &&& status matches PacketStatus::PacketLoss(lost) ==> logic.packet_loss_counter
                    + lost <= u64::MAX
            }
        }),
        forall|packet: Seq<u8>, reliable: bool|
            packet.len() < 4 ==> !(#[trigger] logic.accepts(packet, reliable)),
{
    let packet = stream::audio_packet(number as int, data);
    stream::law_packet_is_read_as_written(number as int, data);
    endian::law_be32_round_trip(number as int);
    assert(packet.len() == data.len() + 4);
}

/// A packet number can be checked unless it is of the other round and the expected number
/// is past the largest number of a round.
pub proof fn law_numbers_can_be_checked(manager: AudioPacketManager, count: u32)
    ensures
        !manager.accepts(count) <==> {
            &&& manager.expected_next_counter_wrap_byte != (count & 0x8000 != 0)
            &&& manager.expected_next_packet_count > 0xffff_7fff
        },
{
    law_number_is_a_round_and_a_value(count);
}

/// Audio which is Opus encoded, or which comes without the Android specific information,
/// can not be played. All other events can be handled.
pub proof fn law_raw_audio_can_be_played<S>(event: OboeEvent<S>)
    ensures
        event matches OboeEvent::AudioEvent(
            AudioEvent::PlayAudio { android_info, decode_opus, .. },
        ) ==> (OboeLogic::accepts(event) <==> !decode_opus && android_info is Some),
        !(event matches OboeEvent::AudioEvent(AudioEvent::PlayAudio { .. }))
            ==> OboeLogic::accepts(event),
{
}

/// The data reader waits for a packet or for the audio queue, and not for both.
pub proof fn law_reader_waits_for_one_thing(
    logic: DataReaderLogic,
    event: DataReaderEvent,
    reliable: bool,
)
    ensures
        logic.accepts_event(event, reliable) ==> (event is Received <==> logic.offered_block is None),
        event matches DataReaderEvent::Received { result, .. } && result is Err ==> (
        logic.accepts_event(event, reliable) <==> logic.offered_block is None),
        event matches DataReaderEvent::Received { result: Ok(packet), .. } ==> (
        logic.accepts_event(event, reliable) <==> logic.offered_block is None && (packet@.len() == 0
            || logic.accepts(packet@, reliable))),
        event is Offered && logic.offered_block is Some && logic.try_send_counter < 500
            && logic.buffering_counter is None ==> logic.accepts_event(event, reliable),
{
}

/// Going on with samples keeps all of them pending in order. A block is offered if
/// and only if there are 16 samples for it, and it holds the first ones of them.
pub proof fn law_going_on_keeps_the_samples(
    logic: DataReaderLogic,
    samples: Seq<i16>,
    action: DataReaderAction,
)
    requires
        logic.goes_on_with(samples, action),
    ensures
        logic.pending() == samples,
        samples.len() >= 16 ==> (action matches DataReaderAction::Offer(block) && {
            &&& logic.offered_block == Some(block)
            &&& block@ + logic.audio_data_buffer@ == samples
        }),
        samples.len() < 16 ==> {
            &&& action is Receive
            &&& logic.offered_block is None
            &&& logic.audio_data_buffer@ == samples
        },
{
    assert(logic.pending() =~= samples);
}

/// Pending samples are those of the offered block, if there is one, and then the
/// buffered ones.
pub proof fn law_offered_block_comes_first(logic: DataReaderLogic)
    ensures
        logic.offered_block is None ==> logic.pending() == logic.audio_data_buffer@,
        logic.offered_block matches Some(block) ==> {
            &&& logic.pending().take(16) == block@
            &&& logic.pending().skip(16) == logic.audio_data_buffer@
        },
{
    match logic.offered_block {
        Some(block) => {
            assert(logic.pending().take(16) =~= block@);
            assert(logic.pending().skip(16) =~= logic.audio_data_buffer@);
        },
        None => {},
    }
}

/// Blocks taken from a stream of samples until less than a block is left are
/// the stream in order: nothing is lost, repeated or moved.
pub proof fn law_blocks_are_the_stream_in_order(
    samples: Seq<i16>,
    blocks: Seq<Seq<i16>>,
    rest: Seq<i16>,
)
    requires
        forall|i: int| 0 <= i < blocks.len() ==> (#[trigger] blocks[i]).len()
            == AUDIO_BLOCK_SAMPLE_COUNT,
        samples == blocks.flatten() + rest,
        rest.len() < AUDIO_BLOCK_SAMPLE_COUNT,
    ensures
        blocks.len() == samples.len() / AUDIO_BLOCK_SAMPLE_COUNT as nat,
        forall|i: int, j: int|
            0 <= i < blocks.len() && 0 <= j < AUDIO_BLOCK_SAMPLE_COUNT ==> (#[trigger] blocks[i][j])
                == samples[AUDIO_BLOCK_SAMPLE_COUNT * i + j],
    decreases blocks.len(),
{
    if blocks.len() == 0 {
        assert(blocks.flatten() =~= Seq::<i16>::empty());
        assert(samples =~= rest);
    } else {
        let first = blocks[0];
        let others = blocks.drop_first();
        let after_first = samples.subrange(AUDIO_BLOCK_SAMPLE_COUNT as int, samples.len() as int);
        assert(blocks.flatten() == first + others.flatten());
        assert(after_first =~= others.flatten() + rest);
        assert forall|i: int| 0 <= i < others.len() implies (#[trigger] others[i]).len()
            == AUDIO_BLOCK_SAMPLE_COUNT by {
            assert(others[i] == blocks[i + 1]);
        }
        law_blocks_are_the_stream_in_order(after_first, others, rest);
        assert forall|i: int, j: int|
            0 <= i < blocks.len() && 0 <= j < AUDIO_BLOCK_SAMPLE_COUNT implies (
        #[trigger] blocks[i][j]) == samples[AUDIO_BLOCK_SAMPLE_COUNT * i + j] by {
            if i > 0 {
                assert(others[i - 1][j] == blocks[i][j]);
                assert(after_first[AUDIO_BLOCK_SAMPLE_COUNT * (i - 1) + j]
                    == samples[AUDIO_BLOCK_SAMPLE_COUNT * i + j]);
            }
        }
    }
}

} // verus!
