//! PulseAudio audio stream code.

use std::collections::VecDeque;

use vstd::prelude::*;

use crate::{
    audio::oboe,
    config::{
        PCM_AUDIO_PACKET_SIZE_IN_BYTES, RAW_PCM_AUDIO_UDP_DATA_SIZE_IN_BYTES,
        RAW_PCM_AUDIO_UDP_DATA_SIZE_IN_SAMPLES,
    },
    connection::data::{DataSenderInterface, MAX_PACKET_SIZE},
    utils::{
        endian,
        error::{IoError, IoErrorKind},
    },
};

verus! {

/// PulseAudio recording stream events.
#[derive(Debug, Clone, Copy, PartialEq, Eq, Structural)]
pub enum PARecordingStreamEvent {
    StateChange,
    Read(usize),
    Moved,
}

/// PulseAudio playback stream events.
#[derive(Debug, Clone, Copy, PartialEq, Eq, Structural)]
pub enum PAPlaybackStreamEvent {
    DataOverflow,
    DataUnderflow,
    StateChange,
}

/// Recording stream processing errors.
#[derive(Debug)]
pub enum StreamError {
    /// Sending data to the data stream failed.
    SocketError(IoError),
    /// Make sure that PulseAudio returned enough bytes for one sample when
    /// encoding Opus.
    NotEnoughBytesForOneSample,
    /// Opus encoder error.
    EncoderError(String),
}

/// State of a recording stream, as far as it matters here.
#[derive(Debug, Clone, Copy, PartialEq, Eq, Structural)]
pub enum RecordingStreamState {
    Failed,
    Terminated,
    Ready,
    Other,
}

/// What to do when the state of the recording stream changes.
#[derive(Debug, Clone, Copy, PartialEq, Eq, Structural)]
pub enum StateChangeAction {
    Nothing,
    LogFailure,
    /// Drop the stream and its data connection. If `quit_ready` is true, send
    /// the event that the stream manager is ready to quit.
    DropStream { quit_ready: bool, audio_packet_drop_count: u64 },
    LogDeviceName,
}

/// What to do when a recording stream event is received.
#[derive(Debug, Clone, Copy, PartialEq, Eq, Structural)]
pub enum StreamEventAction {
    Nothing,
    /// Call `PAStreamManager::handle_recording_stream_state_change`.
    CheckState,
    /// Read fragments from the stream.
    ReadData,
    LogDeviceName,
}

/// What the stream has to read.
#[derive(Debug, Clone, Copy, PartialEq, Eq, Structural)]
pub enum PeekKind {
    Empty,
    Hole,
    Data,
}

/// What to do with what the stream has to read.
#[derive(Debug, Clone, Copy, PartialEq, Eq, Structural)]
pub enum ReadAction {
    StopReading,
    Discard,
    /// Call `PAStreamManager::handle_raw_pcm_data`.
    SendRawPcm,
    /// Call `PAStreamManager::handle_data_with_encoding` until all data is
    /// handled.
    EncodeAndSend,
}

/// What to do when a quit is requested.
#[derive(Debug, Clone, Copy, PartialEq, Eq, Structural)]
pub enum StreamQuitAction {
    /// Disconnect the recording stream.
    Disconnect,
    /// Send the event that the stream manager is ready to quit.
    QuitReady,
}

/// Settings for a new recording stream.
#[derive(Debug, Clone, Copy, PartialEq, Eq, Structural)]
pub struct RecordStreamSettings {
    pub create_encoder: bool,
    /// 16-bit little endian samples.
    pub channels: u8,
    pub rate: u32,
    pub maxlength: u32,
    pub tlength: u32,
    pub prebuf: u32,
    pub minreq: u32,
    pub fragsize: u32,
}

/// Number and audio data as a packet.
pub open spec fn audio_packet(packet_number: int, data: Seq<u8>) -> Seq<u8> {
    endian::be32_bytes(packet_number) + data
}

/// The number after `packet_number`.
pub open spec fn next_packet_number(packet_number: int) -> int {
    (packet_number + 1) % 0x1_0000_0000
}

/// Contents of packets.
pub open spec fn packet_contents(packets: Seq<Vec<u8>>) -> Seq<Seq<u8>> {
    packets.map_values(|packet: Vec<u8>| packet@)
}

/// Do all packets fit in `size` bytes.
pub open spec fn packets_fit(packets: Seq<Seq<u8>>, size: usize) -> bool {
    forall|i: int| 0 <= i < packets.len() ==> #[trigger] packets[i].len() <= size
}

/// Can sending `packets`, the first one first, succeed for all of them and lead
/// from connection `before` to `after`.
pub open spec fn sends_all<S: DataSenderInterface>(
    before: S,
    packets: Seq<Seq<u8>>,
    after: S,
) -> bool
    decreases packets.len(),
{
    if packets.len() == 0 {
        before == after
    } else {
        exists|middle: S|
            sends_all(before, packets.drop_last(), middle) && #[trigger] middle.send_outcome(
                packets.last(),
                &after,
                Ok(()),
            )
    }
}

/// Data connection and what waits for it.
pub struct SendState<S> {
    pub connection: S,
    /// Packets which are not yet sent, the oldest one first.
    pub unsent: Seq<Seq<u8>>,
    /// How many times the connection has not had room for a packet.
    pub drop_count: int,
}

/// Can sending `pending`, the oldest packet first, lead to `after`. Either all
/// packets are sent, or sending stops with an error and the rest of the packets
/// stay unsent.
pub open spec fn sends_pending<S: DataSenderInterface>(
    before: SendState<S>,
    pending: Seq<Seq<u8>>,
    after: SendState<S>,
    result: Result<(), IoError>,
) -> bool {
    exists|sent: int, connection: S|
        sends_until(before, pending, sent, connection, after, result)
}

/// As `sends_pending`, when `sent` packets are sent and lead to `connection`.
pub open spec fn sends_until<S: DataSenderInterface>(
    before: SendState<S>,
    pending: Seq<Seq<u8>>,
    sent: int,
    connection: S,
    after: SendState<S>,
    result: Result<(), IoError>,
) -> bool {
    &&& 0 <= sent <= pending.len()
    &&& sends_all(before.connection, pending.take(sent), connection)
    &&& after.unsent == pending.skip(sent)
    &&& match result {
        Ok(()) => {
            &&& sent == pending.len()
            &&& after.connection == connection
            &&& after.drop_count == before.drop_count
        },
        Err(e) => {
            &&& sent < pending.len()
            &&& connection.send_outcome(pending[sent], &after.connection, Err(e))
            &&& after.drop_count == before.drop_count + if e.kind == IoErrorKind::WouldBlock {
                1int
            } else {
                0int
            }
        },
    }
}

/// What the result of sending means for the stream. Packets which do not fit in
/// the buffer of the connection can wait.
pub open spec fn stream_result(result: Result<(), IoError>) -> Result<(), StreamError> {
    match result {
        Err(e) if e.kind != IoErrorKind::WouldBlock => Err(StreamError::SocketError(e)),
        _ => Ok(()),
    }
}

/// Can handling `packet` lead to `after`. The packet is sent after those which are
/// not yet sent.
pub open spec fn sends_packet<S: DataSenderInterface>(
    before: SendState<S>,
    packet: Seq<u8>,
    after: SendState<S>,
    result: Result<(), StreamError>,
) -> bool {
    exists|outcome: Result<(), IoError>|
        #[trigger] sends_pending(before, before.unsent.push(packet), after, outcome) && result
            == stream_result(outcome)
}

/// Can handling `packets` one after another without an error lead to `after`.
pub open spec fn sends_packets<S: DataSenderInterface>(
    before: SendState<S>,
    packets: Seq<Seq<u8>>,
    after: SendState<S>,
) -> bool
    decreases packets.len(),
{
    if packets.len() == 0 {
        before == after
    } else {
        exists|middle: SendState<S>|
            sends_packets(before, packets.drop_last(), middle) && #[trigger] sends_packet(
                middle,
                packets.last(),
                after,
                Ok(()),
            )
    }
}

/// Logic for audio data streams.
pub struct PAStreamManager {
    /// There is a recording stream.
    pub record: bool,
    /// If false do not read PCM data from PulseAudio.
    pub enable_recording: bool,
    /// If true the event that the stream manager is ready to quit is sent when
    /// recording stream closes.
    pub quit_requested: bool,
    /// PCM data which does not fill a packet yet.
    pub raw_pcm_buffer: Vec<u8>,
    /// There is an encoder.
    pub encoder: bool,
    /// Encoder input buffer.
    pub encoder_buffer: Vec<i16>,
    /// How many times the connection has not had room for a packet.
    pub audio_packet_drop_count: u64,
    pub audio_packet_counter: u32,
    /// Packets which are not yet sent, the oldest one first.
    pub unsent: VecDeque<Vec<u8>>,
}

impl PAStreamManager {
    /// Create new `PAStreamManager`.
    pub fn new() -> (manager: Self)
        ensures
            !manager.record,
            manager.enable_recording,
            !manager.quit_requested,
            manager.raw_pcm_buffer@.len() == 0,
            !manager.encoder,
            manager.encoder_buffer@.len() == 0,
            manager.audio_packet_drop_count == 0,
            manager.audio_packet_counter == 0,
            manager.unsent@.len() == 0,
    {
        Self {
            record: false,
            enable_recording: true,
            quit_requested: false,
            raw_pcm_buffer: Vec::new(),
            encoder: false,
            encoder_buffer: Vec::new(),
            audio_packet_drop_count: 0,
            audio_packet_counter: 0,
            unsent: VecDeque::new(),
        }
    }

    /// Start recording. An encoder which an earlier recording used stays in use.
    pub fn request_start_record_stream(&mut self, encode_opus: bool, sample_rate: u32) -> (settings:
        RecordStreamSettings)
        ensures
            settings == (RecordStreamSettings {
                create_encoder: encode_opus,
                channels: 2,
                rate: if encode_opus {
                    48000
                } else {
                    sample_rate
                },
                maxlength: u32::MAX,
                tlength: u32::MAX,
                prebuf: u32::MAX,
                minreq: u32::MAX,
                fragsize: 128,
            }),
            final(self).record,
            final(self).enable_recording,
            final(self).quit_requested == old(self).quit_requested,
            final(self).raw_pcm_buffer@.len() == 0,
            final(self).encoder == (encode_opus || old(self).encoder),
            final(self).encoder_buffer@ == if encode_opus {
                Seq::<i16>::empty()
            } else {
                old(self).encoder_buffer@
            },
            final(self).audio_packet_drop_count == 0,
            final(self).audio_packet_counter == 0,
            final(self).unsent@.len() == 0,
    {
        let rate: u32 = if encode_opus {
            self.encoder = true;
            self.encoder_buffer.clear();
            48000
        } else {
            sample_rate
        };

        self.record = true;
        self.enable_recording = true;
        self.audio_packet_drop_count = 0;
        self.audio_packet_counter = 0;
        self.unsent.clear();
        self.raw_pcm_buffer.clear();

        RecordStreamSettings {
            create_encoder: encode_opus,
            channels: 2,
            rate,
            maxlength: u32::MAX,
            tlength: u32::MAX,
            prebuf: u32::MAX,
            minreq: u32::MAX,
            // channels * sample byte count * sample count
            // At 44100 Hz one millisecond is about 44,1 samples.
            fragsize: 2 * 2 * 32,
        }
    }

    /// State after the recording stream has state `state`.
    pub open spec fn after_state_change(self, state: RecordingStreamState) -> Self {
        Self { record: state != RecordingStreamState::Terminated, ..self }
    }

    /// What to do when the recording stream has state `state`.
    pub open spec fn state_change_action(self, state: RecordingStreamState) -> StateChangeAction {
        match state {
            RecordingStreamState::Failed => StateChangeAction::LogFailure,
            RecordingStreamState::Terminated => StateChangeAction::DropStream {
                quit_ready: self.quit_requested,
                audio_packet_drop_count: self.audio_packet_drop_count,
            },
            RecordingStreamState::Ready => StateChangeAction::LogDeviceName,
            RecordingStreamState::Other => StateChangeAction::Nothing,
        }
    }

    /// Handle `PARecordingStreamEvent::StateChange`.
    pub fn handle_recording_stream_state_change(&mut self, state: RecordingStreamState) -> (action:
        StateChangeAction)
        requires
            old(self).record,
        ensures
            *final(self) == old(self).after_state_change(state),
            action == old(self).state_change_action(state),
    {
        match state {
            RecordingStreamState::Failed => StateChangeAction::LogFailure,
            RecordingStreamState::Terminated => {
                self.record = false;
                StateChangeAction::DropStream {
                    quit_ready: self.quit_requested,
                    audio_packet_drop_count: self.audio_packet_drop_count,
                }
            },
            RecordingStreamState::Ready => StateChangeAction::LogDeviceName,
            RecordingStreamState::Other => StateChangeAction::Nothing,
        }
    }

    /// Connection `connection` and what waits for it.
    pub open spec fn send_state<S>(self, connection: S) -> SendState<S> {
        SendState {
            connection,
            unsent: packet_contents(self.unsent@),
            drop_count: self.audio_packet_drop_count as int,
        }
    }

    /// Do the packets which are not yet sent fit in `size` bytes.
    pub open spec fn unsent_fits(self, size: usize) -> bool {
        packets_fit(packet_contents(self.unsent@), size)
    }

    /// Do the packets which are not yet sent fit in `size` bytes.
    pub fn can_send_unsent(&self, size: usize) -> (fits: bool)
        ensures
            fits == self.unsent_fits(size),
    {
        let mut i: usize = 0;
        while i < self.unsent.len()
            invariant
                i <= self.unsent@.len(),
                forall|j: int|
                    0 <= j < i ==> #[trigger] packet_contents(self.unsent@)[j].len() <= size,
            decreases self.unsent@.len() - i,
        {
            assert(packet_contents(self.unsent@)[i as int] == self.unsent@[i as int]@);
            if self.unsent[i].len() > size {
                return false;
            }
            i += 1;
        }
        true
    }

    /// Packet with the next number and `data`.
    fn make_packet(data: &[u8], audio_packet_counter: &mut u32) -> (packet: Vec<u8>)
        requires
            data@.len() <= MAX_PACKET_SIZE,
        ensures
            packet@ == audio_packet(*old(audio_packet_counter) as int, data@),
            *final(audio_packet_counter) == next_packet_number(*old(audio_packet_counter) as int),
    {
        let packet_number: u32 = *audio_packet_counter;
        *audio_packet_counter = packet_number.wrapping_add(1);

        let number_bytes: [u8; 4] = endian::u32_to_be_bytes(packet_number);
        let mut packet: Vec<u8> = Vec::new();
        packet.extend_from_slice(number_bytes.as_slice());
        packet.extend_from_slice(data);
        assert(packet@ =~= audio_packet(packet_number as int, data@));
        packet
    }

    /// Handle the result of sending `packet`, which was the oldest packet. A packet
    /// which was not sent stays the oldest one. Returns true if the next packet can
    /// be sent.
    pub fn handle_send_result(
        packet: Vec<u8>,
        result: Result<(), IoError>,
        audio_packet_drop_count: &mut u64,
        unsent: &mut VecDeque<Vec<u8>>,
    ) -> (send_next: Result<bool, StreamError>)
        requires
            *old(audio_packet_drop_count) < u64::MAX,
        ensures
            match result {
                Ok(()) => {
                    &&& send_next == Ok::<bool, StreamError>(true)
                    &&& final(unsent)@ == old(unsent)@
                    &&& *final(audio_packet_drop_count) == *old(audio_packet_drop_count)
                },
                Err(e) if e.kind == IoErrorKind::WouldBlock => {
                    &&& send_next == Ok::<bool, StreamError>(false)
                    &&& final(unsent)@ == seq![packet] + old(unsent)@
                    &&& *final(audio_packet_drop_count) == *old(audio_packet_drop_count) + 1
                },
                Err(e) => {
                    &&& send_next == Err::<bool, StreamError>(StreamError::SocketError(e))
                    &&& final(unsent)@ == seq![packet] + old(unsent)@
                    &&& *final(audio_packet_drop_count) == *old(audio_packet_drop_count)
                },
            },
    {
        match result {
            Ok(()) => Ok(true),
            Err(e) => {
                unsent.push_front(packet);
                if e.kind == IoErrorKind::WouldBlock {
                    *audio_packet_drop_count = *audio_packet_drop_count + 1;
                    Ok(false)
                } else {
                    Err(StreamError::SocketError(e))
                }
            },
        }
    }

    /// Send `data` to the connection. Data which can not be sent using single
    /// `send_packet` call will be buffered. It is sent before the next data.
    #[verifier::spinoff_prover]
    #[verifier::rlimit(30)]
    pub fn handle_data<S: DataSenderInterface>(
        data: &[u8],
        send_handle: &mut S,
        audio_packet_drop_count: &mut u64,
        audio_packet_counter: &mut u32,
        unsent: &mut VecDeque<Vec<u8>>,
    ) -> (result: Result<(), StreamError>)
        requires
            data@.len() <= MAX_PACKET_SIZE,
            data@.len() + 4 <= old(send_handle).max_packet_size(),
            packets_fit(packet_contents(old(unsent)@), old(send_handle).max_packet_size()),
            *old(audio_packet_drop_count) < u64::MAX,
        ensures
            sends_packet(
                SendState {
                    connection: *old(send_handle),
                    unsent: packet_contents(old(unsent)@),
                    drop_count: *old(audio_packet_drop_count) as int,
                },
                audio_packet(*old(audio_packet_counter) as int, data@),
                SendState {
                    connection: *final(send_handle),
                    unsent: packet_contents(final(unsent)@),
                    drop_count: *final(audio_packet_drop_count) as int,
                },
                result,
            ),
            result matches Err(e) ==> e matches StreamError::SocketError(e) && e.kind
                != IoErrorKind::WouldBlock,
            *final(audio_packet_counter) == next_packet_number(*old(audio_packet_counter) as int),
            final(send_handle).max_packet_size() == old(send_handle).max_packet_size(),
            packets_fit(packet_contents(final(unsent)@), old(send_handle).max_packet_size()),
            *old(audio_packet_drop_count) <= *final(audio_packet_drop_count) <= *old(
                audio_packet_drop_count,
            ) + 1,
    {
        let ghost before = SendState {
            connection: *send_handle,
            unsent: packet_contents(unsent@),
            drop_count: *audio_packet_drop_count as int,
        };
        let ghost size = send_handle.max_packet_size();
        let ghost number = *audio_packet_counter as int;
        let packet: Vec<u8> = Self::make_packet(data, audio_packet_counter);
        unsent.push_back(packet);
        let ghost pending = before.unsent.push(audio_packet(number, data@));
        assert(packet_contents(unsent@) =~= pending);
        let ghost mut sent: int = 0;
        assert(pending.take(0) =~= Seq::<Seq<u8>>::empty());
        assert(pending.skip(0) =~= pending);
        loop
            invariant
                0 <= sent <= pending.len(),
                sent + unsent@.len() == pending.len(),
                packet_contents(unsent@) == pending.skip(sent),
                sends_all(before.connection, pending.take(sent), *send_handle),
                send_handle.max_packet_size() == size,
                packets_fit(pending, size),
                *audio_packet_drop_count == before.drop_count,
                before.drop_count < u64::MAX,
                size == old(send_handle).max_packet_size(),
                before == (SendState {
                    connection: *old(send_handle),
                    unsent: packet_contents(old(unsent)@),
                    drop_count: *old(audio_packet_drop_count) as int,
                }),
                pending == before.unsent.push(
                    audio_packet(*old(audio_packet_counter) as int, data@),
                ),
                *audio_packet_counter == next_packet_number(*old(audio_packet_counter) as int),
            decreases pending.len() - sent,
        {
            let ghost connection = *send_handle;
            let ghost waiting = unsent@;
            match unsent.pop_front() {
                Some(packet) => {
                    assert(packet@ == packet_contents(waiting)[0]);
                    assert(packet@ == pending[sent]);
                    assert(seq![packet] + unsent@ =~= waiting);
                    let outcome = send_handle.send_packet(packet.as_slice());
                    match Self::handle_send_result(
                        packet,
                        outcome,
                        audio_packet_drop_count,
                        unsent,
                    ) {
                        Ok(true) => {
                            proof {
                                let more = pending.take(sent + 1);
                                assert(more.drop_last() =~= pending.take(sent));
                                assert(more.last() == pending[sent]);
                                assert(outcome is Ok);
                                assert(outcome->Ok_0 == ());
                                assert(outcome == Ok::<(), IoError>(()));
                                assert(connection.send_outcome(more.last(), &*send_handle, Ok(())));
                                assert(sends_all(before.connection, more, *send_handle));
                                assert(packet_contents(unsent@) =~= packet_contents(
                                    waiting,
                                ).drop_first());
                                assert(pending.skip(sent).drop_first() =~= pending.skip(sent + 1));
                                sent = sent + 1;
                            }
                        },
                        Ok(false) => {
                            proof {
                                let after = SendState {
                                    connection: *send_handle,
                                    unsent: packet_contents(unsent@),
                                    drop_count: *audio_packet_drop_count as int,
                                };
                                assert(sends_until(
                                    before,
                                    pending,
                                    sent,
                                    connection,
                                    after,
                                    outcome,
                                ));
                                assert(sends_pending(before, pending, after, outcome));
                            }
                            return Ok(());
                        },
                        Err(e) => {
                            proof {
                                let after = SendState {
                                    connection: *send_handle,
                                    unsent: packet_contents(unsent@),
                                    drop_count: *audio_packet_drop_count as int,
                                };
                                assert(sends_until(
                                    before,
                                    pending,
                                    sent,
                                    connection,
                                    after,
                                    outcome,
                                ));
                                assert(sends_pending(before, pending, after, outcome));
                            }
                            return Err(e);
                        },
                    }
                },
                None => {
                    proof {
                        let after = SendState {
                            connection: *send_handle,
                            unsent: packet_contents(unsent@),
                            drop_count: *audio_packet_drop_count as int,
                        };
                        assert(sends_until(before, pending, sent, connection, after, Ok(())));
                        assert(sends_pending(before, pending, after, Ok(())));
                    }
                    return Ok(());
                },
            }
        }
    }

    /// How many bytes of `data`, starting from `position`, the PCM buffer takes.
    /// A buffer which an unsent packet has left full takes everything.
    pub open spec fn taken_bytes(self, data: Seq<u8>, position: int) -> int {
        let missing = RAW_PCM_AUDIO_UDP_DATA_SIZE_IN_BYTES - self.raw_pcm_buffer@.len();
        if 0 < missing <= data.len() - position {
            missing
        } else {
            data.len() - position
        }
    }

    /// Does `data`, starting from `position`, fill a packet.
    pub open spec fn fills_packet(self, data: Seq<u8>, position: int) -> bool {
        0 < RAW_PCM_AUDIO_UDP_DATA_SIZE_IN_BYTES - self.raw_pcm_buffer@.len() <= data.len()
            - position
    }

    /// Buffer PCM data, starting from `position`. If there is enough data for a
    /// packet, returns the position after it. In that case send the buffered data,
    /// empty the buffer and go on from that position.
    pub fn next_raw_pcm_packet(&mut self, data: &[u8], position: usize) -> (result: Result<
        Option<usize>,
        StreamError,
    >)
        requires
            position <= data@.len(),
        ensures
            data@.len() % 2 != 0 ==> {
                &&& result == Err::<Option<usize>, _>(StreamError::NotEnoughBytesForOneSample)
                &&& *final(self) == *old(self)
            },
            data@.len() % 2 == 0 ==> {
                let taken = old(self).taken_bytes(data@, position as int);
                &&& final(self).raw_pcm_buffer@ == old(self).raw_pcm_buffer@ + data@.subrange(
                    position as int,
                    position + taken,
                )
                &&& result == Ok::<Option<usize>, StreamError>(
                    if old(self).fills_packet(data@, position as int) {
                        Some((position + taken) as usize)
                    } else {
                        None
                    },
                )
            },
            *final(self) == (Self { raw_pcm_buffer: final(self).raw_pcm_buffer, ..*old(self) }),
            data@.len() % 2 == 0 && old(self).raw_pcm_buffer@.len() < 480 ==> match result {
                Ok(Some(next)) => {
                    &&& position < next <= data@.len()
                    &&& final(self).raw_pcm_buffer@.len() == 480
                    &&& final(self).raw_pcm_buffer@ == old(self).raw_pcm_buffer@ + data@.subrange(
                        position as int,
                        next as int,
                    )
                },
                Ok(None) => {
                    &&& final(self).raw_pcm_buffer@.len() < 480
                    &&& final(self).raw_pcm_buffer@ == old(self).raw_pcm_buffer@ + data@.skip(
                        position as int,
                    )
                },
                Err(_) => false,
            },
            data@.len() % 2 == 0 && old(self).raw_pcm_buffer@.len() >= 480 ==> {
                &&& result == Ok::<Option<usize>, StreamError>(None)
                &&& final(self).raw_pcm_buffer@ == old(self).raw_pcm_buffer@ + data@.skip(
                    position as int,
                )
            },
    {
        if data.len() % 2 != 0 {
            return Err(StreamError::NotEnoughBytesForOneSample);
        }
        let ghost start = self.raw_pcm_buffer@;
        let mut i: usize = position;
        while i < data.len()
            invariant
                position <= i <= data.len(),
                data@.len() % 2 == 0,
                start == old(self).raw_pcm_buffer@,
                self.raw_pcm_buffer@ == start + data@.subrange(position as int, i as int),
                *self == (Self { raw_pcm_buffer: self.raw_pcm_buffer, ..*old(self) }),
                start.len() < RAW_PCM_AUDIO_UDP_DATA_SIZE_IN_BYTES ==> start.len() + (i - position)
                    < RAW_PCM_AUDIO_UDP_DATA_SIZE_IN_BYTES,
            decreases data.len() - i,
        {
            self.raw_pcm_buffer.push(data[i]);
            i += 1;
            assert(self.raw_pcm_buffer@ =~= start + data@.subrange(position as int, i as int));

            if self.raw_pcm_buffer.len() == RAW_PCM_AUDIO_UDP_DATA_SIZE_IN_BYTES {
                return Ok(Some(i));
            }
        }
        assert(data@.subrange(position as int, i as int) =~= data@.skip(position as int));
        Ok(None)
    }

    /// Send PCM data forward, as packets of equal size. Data which does not fill
    /// a packet is buffered. If there is a connection error, data of the packet
    /// which was handled last stays in the buffer.
    #[verifier::spinoff_prover]
    #[verifier::rlimit(30)]
    pub fn handle_raw_pcm_data<S: DataSenderInterface>(
        &mut self,
        data: &[u8],
        send_handle: &mut S,
    ) -> (result: Result<(), StreamError>)
        requires
            old(self).raw_pcm_buffer@.len() < RAW_PCM_AUDIO_UDP_DATA_SIZE_IN_BYTES,
            old(self).audio_packet_drop_count + data@.len() < u64::MAX,
            old(send_handle).max_packet_size() >= PCM_AUDIO_PACKET_SIZE_IN_BYTES,
            old(self).unsent_fits(old(send_handle).max_packet_size()),
        ensures
            data@.len() % 2 != 0 ==> {
                &&& result == Err::<(), _>(StreamError::NotEnoughBytesForOneSample)
                &&& *final(self) == *old(self)
                &&& *final(send_handle) == *old(send_handle)
            },
            data@.len() % 2 == 0 ==> {
                let buffered = old(self).raw_pcm_buffer@ + data@;
                let packets = audio_packets(old(self).audio_packet_counter as int, buffered);
                let before = old(self).send_state(*old(send_handle));
                let after = final(self).send_state(*final(send_handle));
                match result {
                    Ok(()) => {
                        &&& sends_packets(before, packets, after)
                        &&& final(self).raw_pcm_buffer@ == unsent_data(buffered)
                        &&& final(self).audio_packet_counter == (old(self).audio_packet_counter
                            + packets.len()) % 0x1_0000_0000
                    },
                    Err(e) => exists|index: int, middle: SendState<S>|
                        {
                            &&& 0 <= index < packets.len()
                            &&& sends_packets(before, packets.take(index), middle)
                            &&& #[trigger] sends_packet(middle, packets[index], after, Err(e))
                            &&& e matches StreamError::SocketError(e)
                            &&& e.kind != IoErrorKind::WouldBlock
                            &&& final(self).raw_pcm_buffer@ == packet_data(buffered, index)
                            &&& final(self).audio_packet_counter == (old(self).audio_packet_counter
                                + index + 1) % 0x1_0000_0000
                        },
                }
            },
            data@.len() % 2 == 0 && result is Ok ==> {
                let buffered = old(self).raw_pcm_buffer@ + data@;
                &&& final(self).raw_pcm_buffer@ == buffered.skip(
                    480 * (buffered.len() as int / 480),
                )
                &&& final(self).audio_packet_counter == (old(self).audio_packet_counter
                    + buffered.len() as int / 480) % 0x1_0000_0000
            },
            ({
                let packets = audio_packets(
                    old(self).audio_packet_counter as int,
                    old(self).raw_pcm_buffer@ + data@,
                );
                result is Ok && packets.len() > 0 && final(self).audio_packet_drop_count == old(
                    self,
                ).audio_packet_drop_count ==> {
                    &&& sends_all(
                        *old(send_handle),
                        packet_contents(old(self).unsent@) + packets,
                        *final(send_handle),
                    )
                    &&& final(self).unsent@.len() == 0
                }
            }),
            final(send_handle).max_packet_size() == old(send_handle).max_packet_size(),
            final(self).unsent_fits(old(send_handle).max_packet_size()),
            old(self).audio_packet_drop_count <= final(self).audio_packet_drop_count <= old(
                self,
            ).audio_packet_drop_count + packet_count(old(self).raw_pcm_buffer@ + data@),
            *final(self) == (Self {
                raw_pcm_buffer: final(self).raw_pcm_buffer,
                unsent: final(self).unsent,
                audio_packet_counter: final(self).audio_packet_counter,
                audio_packet_drop_count: final(self).audio_packet_drop_count,
                ..*old(self)
            }),
    {
        if data.len() % 2 != 0 {
            return Err(StreamError::NotEnoughBytesForOneSample);
        }
        let ghost start = self.raw_pcm_buffer@;
        let ghost counter = self.audio_packet_counter as int;
        let ghost buffered = start + data@;
        let ghost packets = audio_packets(counter, buffered);
        let ghost before = self.send_state(*send_handle);
        let ghost limit = send_handle.max_packet_size();
        let ghost mut count: int = 0;
        let mut position: usize = 0;
        assert(start + data@.take(0) =~= start);
        assert(unsent_data(start) =~= start);
        assert(packets.take(0) =~= Seq::<Seq<u8>>::empty());
        loop
            invariant
                position <= data.len(),
                data@.len() % 2 == 0,
                start == old(self).raw_pcm_buffer@,
                counter == old(self).audio_packet_counter,
                buffered == start + data@,
                packets == audio_packets(counter, buffered),
                before == old(self).send_state(*old(send_handle)),
                limit == old(send_handle).max_packet_size(),
                limit >= PCM_AUDIO_PACKET_SIZE_IN_BYTES,
                old(self).audio_packet_drop_count + data@.len() < u64::MAX,
                send_handle.max_packet_size() == limit,
                self.unsent_fits(limit),
                self.has_made(counter, start + data@.take(position as int)),
                count == packet_count(start + data@.take(position as int)),
                0 <= count <= packets.len(),
                count <= position,
                sends_packets(before, packets.take(count), self.send_state(*send_handle)),
                old(self).audio_packet_drop_count <= self.audio_packet_drop_count <= old(
                    self,
                ).audio_packet_drop_count + count,
                *self == (Self {
                    raw_pcm_buffer: self.raw_pcm_buffer,
                    unsent: self.unsent,
                    audio_packet_counter: self.audio_packet_counter,
                    audio_packet_drop_count: self.audio_packet_drop_count,
                    ..*old(self)
                }),
            decreases data.len() - position,
        {
            let ghost middle = self.send_state(*send_handle);
            proof {
                lemma_next_packet(*self, counter, start, data@, position as int);
            }
            match self.next_raw_pcm_packet(data, position) {
                Ok(Some(next)) => {
                    match Self::handle_data(
                        self.raw_pcm_buffer.as_slice(),
                        send_handle,
                        &mut self.audio_packet_drop_count,
                        &mut self.audio_packet_counter,
                        &mut self.unsent,
                    ) {
                        Ok(()) => {},
                        Err(e) => {
                            assert(sends_packet(
                                middle,
                                packets[count],
                                self.send_state(*send_handle),
                                Err(e),
                            ));
                            return Err(e);
                        },
                    }
                    self.raw_pcm_buffer.clear();
                    proof {
                        lemma_one_more_packet(
                            before,
                            packets,
                            count,
                            middle,
                            self.send_state(*send_handle),
                        );
                        count = count + 1;
                    }
                    position = next;
                },
                Ok(None) => {
                    proof {
                        assert(packets.take(count) =~= packets);
                        if packets.len() > 0 && self.audio_packet_drop_count == old(
                            self,
                        ).audio_packet_drop_count {
                            law_packets_are_sent_in_order(
                                before,
                                packets,
                                self.send_state(*send_handle),
                            );
                            assert(self.unsent@.len() == packet_contents(self.unsent@).len());
                        }
                    }
                    return Ok(());
                },
                Err(e) => {
                    assert(false);
                    return Err(e);
                },
            }
        }
    }

    /// How many bytes of `data`, starting from `position`, the encoder buffer
    /// takes.
    pub open spec fn encoder_taken_bytes(self, data: Seq<u8>, position: int) -> int {
        if self.fills_frame(data, position) {
            2 * (RAW_PCM_AUDIO_UDP_DATA_SIZE_IN_SAMPLES - self.encoder_buffer@.len())
        } else {
            data.len() - position
        }
    }

    /// Does `data`, starting from `position`, fill a frame.
    pub open spec fn fills_frame(self, data: Seq<u8>, position: int) -> bool {
        0 < 2 * (RAW_PCM_AUDIO_UDP_DATA_SIZE_IN_SAMPLES - self.encoder_buffer@.len())
            <= data.len() - position
    }

    /// Buffer PCM data for the encoder, starting from `position`. If a frame
    /// gets full, returns the position after it. In that case encode
    /// `encoder_buffer`, call `handle_encoded_data` and go on from that position.
    pub fn handle_data_with_encoding(&mut self, data: &[u8], position: usize) -> (result: Result<
        Option<usize>,
        StreamError,
    >)
        requires
            position <= data@.len(),
            position % 2 == 0,
        ensures
            data@.len() % 2 != 0 ==> {
                &&& result == Err::<Option<usize>, _>(StreamError::NotEnoughBytesForOneSample)
                &&& *final(self) == *old(self)
            },
            data@.len() % 2 == 0 ==> {
                let taken = old(self).encoder_taken_bytes(data@, position as int);
                &&& final(self).encoder_buffer@ == old(self).encoder_buffer@ + endian::le_samples(
                    data@.subrange(position as int, position + taken),
                )
                &&& result == Ok::<Option<usize>, StreamError>(
                    if old(self).fills_frame(data@, position as int) {
                        Some((position + taken) as usize)
                    } else {
                        None
                    },
                )
            },
            *final(self) == (Self { encoder_buffer: final(self).encoder_buffer, ..*old(self) }),
            data@.len() % 2 == 0 && old(self).encoder_buffer@.len() < 240 ==> match result {
                Ok(Some(next)) => {
                    &&& position < next <= data@.len()
                    &&& next % 2 == 0
                    &&& final(self).encoder_buffer@.len() == 240
                    &&& final(self).encoder_buffer@ == old(self).encoder_buffer@
                        + endian::le_samples(data@.subrange(position as int, next as int))
                },
                Ok(None) => {
                    &&& final(self).encoder_buffer@.len() < 240
                    &&& final(self).encoder_buffer@ == old(self).encoder_buffer@
                        + endian::le_samples(data@.skip(position as int))
                },
                Err(_) => false,
            },
            data@.len() % 2 == 0 && old(self).encoder_buffer@.len() >= 240 ==> {
                &&& result == Ok::<Option<usize>, StreamError>(None)
                &&& final(self).encoder_buffer@ == old(self).encoder_buffer@ + endian::le_samples(
                    data@.skip(position as int),
                )
            },
    {
        if data.len() % 2 != 0 {
            return Err(StreamError::NotEnoughBytesForOneSample);
        }
        let ghost start = self.encoder_buffer@;
        let mut i: usize = position;
        while i < data.len()
            invariant
                position <= i <= data.len(),
                position % 2 == 0,
                i % 2 == 0,
                data@.len() % 2 == 0,
                start == old(self).encoder_buffer@,
                self.encoder_buffer@ == start + endian::le_samples(
                    data@.subrange(position as int, i as int),
                ),
                *self == (Self { encoder_buffer: self.encoder_buffer, ..*old(self) }),
                start.len() < RAW_PCM_AUDIO_UDP_DATA_SIZE_IN_SAMPLES ==> 2 * start.len() + (i
                    - position) < 2 * RAW_PCM_AUDIO_UDP_DATA_SIZE_IN_SAMPLES,
            decreases data.len() - i,
        {
            let sample: i16 = endian::i16_from_le_bytes(data[i], data[i + 1]);
            self.encoder_buffer.push(sample);
            i += 2;
            assert(self.encoder_buffer@ =~= start + endian::le_samples(
                data@.subrange(position as int, i as int),
            ));

            if self.encoder_buffer.len() == RAW_PCM_AUDIO_UDP_DATA_SIZE_IN_SAMPLES {
                // 240 is 120 samples per channel. That is minimum frame size
                // for Opus at 48 kHz.
                return Ok(Some(i));
            }
        }
        assert(data@.subrange(position as int, i as int) =~= data@.skip(position as int));
        Ok(None)
    }

    /// Handle the result of encoding a frame. Encoded audio is sent forward.
    pub fn handle_encoded_data<S: DataSenderInterface>(
        &mut self,
        encoded: Result<&[u8], String>,
        send_handle: &mut S,
    ) -> (result: Result<(), StreamError>)
        requires
            encoded matches Ok(data) ==> data@.len() <= MAX_PACKET_SIZE && data@.len() + 4 <= old(
                send_handle,
            ).max_packet_size(),
            old(self).unsent_fits(old(send_handle).max_packet_size()),
            old(self).audio_packet_drop_count < u64::MAX,
        ensures
            match encoded {
                Err(e) => {
                    &&& result == Err::<(), StreamError>(StreamError::EncoderError(e))
                    &&& *final(self) == *old(self)
                    &&& *final(send_handle) == *old(send_handle)
                },
                Ok(data) => {
                    &&& sends_packet(
                        old(self).send_state(*old(send_handle)),
                        audio_packet(old(self).audio_packet_counter as int, data@),
                        final(self).send_state(*final(send_handle)),
                        result,
                    )
                    &&& result matches Err(e) ==> e matches StreamError::SocketError(e) && e.kind
                        != IoErrorKind::WouldBlock
                    &&& final(self).encoder_buffer@.len() == 0
                    &&& final(self).audio_packet_counter == next_packet_number(
                        old(self).audio_packet_counter as int,
                    )
                    &&& *final(self) == (Self {
                        encoder_buffer: final(self).encoder_buffer,
                        unsent: final(self).unsent,
                        audio_packet_counter: final(self).audio_packet_counter,
                        audio_packet_drop_count: final(self).audio_packet_drop_count,
                        ..*old(self)
                    })
                },
            },
            final(send_handle).max_packet_size() == old(send_handle).max_packet_size(),
            final(self).unsent_fits(old(send_handle).max_packet_size()),
    {
        match encoded {
            Ok(data) => {
                self.encoder_buffer.clear();
                Self::handle_data(
                    data,
                    send_handle,
                    &mut self.audio_packet_drop_count,
                    &mut self.audio_packet_counter,
                    &mut self.unsent,
                )
            },
            Err(e) => Err(StreamError::EncoderError(e)),
        }
    }

    /// Handle `PARecordingStreamEvent::Read`: what to do with the next fragment.
    pub fn handle_recording_stream_read(&self, peek: PeekKind) -> (action: ReadAction)
        requires
            self.record,
        ensures
            action == if !self.enable_recording {
                ReadAction::StopReading
            } else {
                match peek {
                    PeekKind::Empty => ReadAction::StopReading,
                    PeekKind::Hole => ReadAction::Discard,
                    PeekKind::Data => if self.encoder {
                        ReadAction::EncodeAndSend
                    } else {
                        ReadAction::SendRawPcm
                    },
                }
            },
    {
        if !self.enable_recording {
            return ReadAction::StopReading;
        }
        match peek {
            PeekKind::Empty => ReadAction::StopReading,
            PeekKind::Hole => ReadAction::Discard,
            PeekKind::Data => if self.encoder {
                ReadAction::EncodeAndSend
            } else {
                ReadAction::SendRawPcm
            },
        }
    }

    /// Handle the result of one fragment. The fragment should be discarded in any
    /// case. Returns true if the recording stream should be disconnected.
    pub fn handle_read_result(&mut self, result: Result<(), StreamError>) -> (disconnect: bool)
        requires
            old(self).record,
        ensures
            disconnect == result is Err,
            *final(self) == (Self {
                enable_recording: old(self).enable_recording && result is Ok,
                ..*old(self)
            }),
    {
        match result {
            Ok(()) => false,
            Err(_) => {
                self.enable_recording = false;
                self.stop_recording()
            },
        }
    }

    /// Handle `PARecordingStreamEvent`.
    pub fn handle_recording_stream_event(&self, event: PARecordingStreamEvent) -> (action:
        StreamEventAction)
        requires
            event !is Moved ==> self.record,
        ensures
            action == match event {
                PARecordingStreamEvent::StateChange => StreamEventAction::CheckState,
                PARecordingStreamEvent::Read(_) => StreamEventAction::ReadData,
                PARecordingStreamEvent::Moved => if self.record {
                    StreamEventAction::LogDeviceName
                } else {
                    StreamEventAction::Nothing
                },
            },
    {
        match event {
            PARecordingStreamEvent::StateChange => StreamEventAction::CheckState,
            PARecordingStreamEvent::Read(_) => StreamEventAction::ReadData,
            PARecordingStreamEvent::Moved => if self.record {
                StreamEventAction::LogDeviceName
            } else {
                StreamEventAction::Nothing
            },
        }
    }

    /// Returns true if there is a recording stream to disconnect.
    pub fn stop_recording(&self) -> (disconnect: bool)
        ensures
            disconnect == self.record,
    {
        self.record
    }

    /// State after a quit request.
    pub open spec fn after_quit_request(self) -> Self {
        Self { quit_requested: true, ..self }
    }

    /// What to do when a quit is requested.
    pub open spec fn quit_action(self) -> StreamQuitAction {
        if self.record {
            StreamQuitAction::Disconnect
        } else {
            StreamQuitAction::QuitReady
        }
    }

    /// Request quit. The event that the stream manager is ready to quit will be
    /// sent when `PAStreamManager` can be dropped.
    pub fn request_quit(&mut self) -> (action: StreamQuitAction)
        ensures
            *final(self) == old(self).after_quit_request(),
            action == old(self).quit_action(),
    {
        self.quit_requested = true;

        if self.record {
            StreamQuitAction::Disconnect
        } else {
            StreamQuitAction::QuitReady
        }
    }
}

/// How many whole packets `stream` fills.
pub open spec fn packet_count(stream: Seq<u8>) -> int {
    stream.len() as int / (RAW_PCM_AUDIO_UDP_DATA_SIZE_IN_BYTES as int)
}

/// Audio data of packet `index` of `stream`.
pub open spec fn packet_data(stream: Seq<u8>, index: int) -> Seq<u8> {
    stream.subrange(
        RAW_PCM_AUDIO_UDP_DATA_SIZE_IN_BYTES * index,
        RAW_PCM_AUDIO_UDP_DATA_SIZE_IN_BYTES * index + RAW_PCM_AUDIO_UDP_DATA_SIZE_IN_BYTES,
    )
}

/// Packets which are made of `stream` when the first one gets number `counter`.
pub open spec fn audio_packets(counter: int, stream: Seq<u8>) -> Seq<Seq<u8>> {
    Seq::new(
        packet_count(stream) as nat,
        |i: int| audio_packet((counter + i) % 0x1_0000_0000, packet_data(stream, i)),
    )
}

/// End of `stream` which does not fill a packet.
pub open spec fn unsent_data(stream: Seq<u8>) -> Seq<u8> {
    stream.skip(RAW_PCM_AUDIO_UDP_DATA_SIZE_IN_BYTES * packet_count(stream))
}

impl PAStreamManager {
    /// The manager has recorded `stream` since the packet counter was `counter` and
    /// made a packet of each full piece of it.
    pub open spec fn has_made(self, counter: int, stream: Seq<u8>) -> bool {
        &&& self.raw_pcm_buffer@ == unsent_data(stream)
        &&& self.audio_packet_counter == (counter + packet_count(stream)) % 0x1_0000_0000
    }

    /// The manager has recorded `stream` since recording started and made a
    /// packet of each full piece of it.
    pub open spec fn has_sent(self, stream: Seq<u8>) -> bool {
        self.has_made(0, stream)
    }
}

/// What a manager which has buffered the end of `stream` makes of bytes from
/// `data`.
#[verifier::spinoff_prover]
proof fn lemma_taken_bytes(
    manager: PAStreamManager,
    stream: Seq<u8>,
    data: Seq<u8>,
    position: int,
)
    requires
        manager.raw_pcm_buffer@ == unsent_data(stream),
        0 <= position <= data.len(),
    ensures
        ({
            let taken = manager.taken_bytes(data, position);
            let new_stream = stream + data.subrange(position, position + taken);
            let buffered = manager.raw_pcm_buffer@ + data.subrange(position, position + taken);
            &&& 0 <= taken <= data.len() - position
            &&& if manager.fills_packet(data, position) {
                &&& 0 < taken
                &&& buffered == packet_data(new_stream, packet_count(stream))
                &&& buffered.len() == RAW_PCM_AUDIO_UDP_DATA_SIZE_IN_BYTES
                &&& packet_count(new_stream) == packet_count(stream) + 1
                &&& unsent_data(new_stream) == Seq::<u8>::empty()
            } else {
                &&& position + taken == data.len()
                &&& packet_count(new_stream) == packet_count(stream)
                &&& unsent_data(new_stream) == buffered
            }
        }),
{
    let size = RAW_PCM_AUDIO_UDP_DATA_SIZE_IN_BYTES as int;
    let count = packet_count(stream);
    let taken = manager.taken_bytes(data, position);
    let new_stream = stream + data.subrange(position, position + taken);
    let buffered = manager.raw_pcm_buffer@ + data.subrange(position, position + taken);
    assert(stream.len() == size * count + unsent_data(stream).len());
    assert(buffered =~= new_stream.skip(size * count));
    if manager.fills_packet(data, position) {
        assert(new_stream.len() == size * count + size);
        assert(packet_count(new_stream) == count + 1);
        assert(buffered =~= packet_data(new_stream, count));
        assert(unsent_data(new_stream) =~= Seq::<u8>::empty());
    } else {
        assert(packet_count(new_stream) == count);
    }
}

/// What a manager which has made packets of `start` and the beginning of `data`
/// makes of the rest of `data`.
#[verifier::spinoff_prover]
proof fn lemma_next_packet(
    manager: PAStreamManager,
    counter: int,
    start: Seq<u8>,
    data: Seq<u8>,
    position: int,
)
    requires
        0 <= counter < 0x1_0000_0000,
        0 <= position <= data.len(),
        manager.has_made(counter, start + data.take(position)),
    ensures
        ({
            let index = packet_count(start + data.take(position));
            let taken = manager.taken_bytes(data, position);
            let raw_data = manager.raw_pcm_buffer@ + data.subrange(position, position + taken);
            let next = start + data.take(position + taken);
            let packets = audio_packets(counter, start + data);
            &&& 0 <= taken <= data.len() - position
            &&& if manager.fills_packet(data, position) {
                &&& 0 < taken
                &&& 0 <= index < packets.len()
                &&& packets[index] == audio_packet(manager.audio_packet_counter as int, raw_data)
                &&& raw_data == packet_data(start + data, index)
                &&& raw_data.len() == RAW_PCM_AUDIO_UDP_DATA_SIZE_IN_BYTES
                &&& packet_count(next) == index + 1
                &&& unsent_data(next) == Seq::<u8>::empty()
                &&& next_packet_number(manager.audio_packet_counter as int) == (counter + index
                    + 1) % 0x1_0000_0000
            } else {
                &&& index == packets.len()
                &&& raw_data == unsent_data(start + data)
            }
        }),
{
    let handled = start + data.take(position);
    let taken = manager.taken_bytes(data, position);
    lemma_taken_bytes(manager, handled, data, position);
    assert(handled + data.subrange(position, position + taken) =~= start + data.take(
        position + taken,
    ));
    if manager.fills_packet(data, position) {
        assert(packet_data(start + data.take(position + taken), packet_count(handled))
            =~= packet_data(start + data, packet_count(handled)));
    } else {
        assert(start + data.take(position + taken) =~= start + data);
    }
}

/// Recorded PCM data is cut to packets of equal size without losing or repeating
/// a byte, whatever sizes the data arrives in, and the packets are numbered in
/// order from zero, wrapping around after the largest 32-bit number.
///
/// A manager which has sent `stream` takes bytes from `data`. If they fill a
/// packet, that packet holds the next number and the next piece of the stream.
/// When the buffer is emptied after sending it, or at once if no packet was
/// filled, the manager has sent the stream with the taken bytes at its end.
#[verifier::spinoff_prover]
pub proof fn law_raw_pcm_packets_are_the_stream_in_order(
    manager: PAStreamManager,
    stream: Seq<u8>,
    data: Seq<u8>,
    position: int,
)
    requires
        manager.has_sent(stream),
        0 <= position <= data.len(),
    ensures
        ({
            let taken = manager.taken_bytes(data, position);
            let new_stream = stream + data.subrange(position, position + taken);
            let buffered = manager.raw_pcm_buffer@ + data.subrange(position, position + taken);
            if manager.fills_packet(data, position) {
                &&& audio_packet(manager.audio_packet_counter as int, buffered) == audio_packet(
                    packet_count(stream) % 0x1_0000_0000,
                    packet_data(new_stream, packet_count(stream)),
                )
                &&& packet_count(new_stream) == packet_count(stream) + 1
                &&& unsent_data(new_stream) == Seq::<u8>::empty()
                &&& next_packet_number(manager.audio_packet_counter as int) == packet_count(
                    new_stream,
                ) % 0x1_0000_0000
            } else {
                &&& position + taken == data.len()
                &&& packet_count(new_stream) == packet_count(stream)
                &&& unsent_data(new_stream) == buffered
            }
        }),
{
    lemma_taken_bytes(manager, stream, data, position);
}

/// Packets which are handled include one more packet.
proof fn lemma_one_more_packet<S: DataSenderInterface>(
    before: SendState<S>,
    packets: Seq<Seq<u8>>,
    count: int,
    middle: SendState<S>,
    after: SendState<S>,
)
    requires
        0 <= count < packets.len(),
        sends_packets(before, packets.take(count), middle),
        sends_packet(middle, packets[count], after, Ok(())),
    ensures
        sends_packets(before, packets.take(count + 1), after),
{
    let handled = packets.take(count + 1);
    assert(handled.drop_last() =~= packets.take(count));
    assert(sends_packet(middle, handled.last(), after, Ok(())));
}

/// Sending goes on from where it stopped.
proof fn lemma_sends_all_concatenates<S: DataSenderInterface>(
    before: S,
    first: Seq<Seq<u8>>,
    middle: S,
    second: Seq<Seq<u8>>,
    after: S,
)
    requires
        sends_all(before, first, middle),
        sends_all(middle, second, after),
    ensures
        sends_all(before, first + second, after),
    decreases second.len(),
{
    if second.len() == 0 {
        assert(first + second =~= first);
    } else {
        let previous = choose|previous: S|
            sends_all(middle, second.drop_last(), previous) && #[trigger] previous.send_outcome(
                second.last(),
                &after,
                Ok(()),
            );
        lemma_sends_all_concatenates(before, first, middle, second.drop_last(), previous);
        let packets = first + second;
        assert(packets.drop_last() =~= first + second.drop_last());
        assert(previous.send_outcome(packets.last(), &after, Ok(())));
    }
}

/// If the connection has room all the time, packets are sent to it in the order in
/// which they were made, and after those which were waiting before.
pub proof fn law_packets_are_sent_in_order<S: DataSenderInterface>(
    before: SendState<S>,
    packets: Seq<Seq<u8>>,
    after: SendState<S>,
)
    requires
        sends_packets(before, packets, after),
        packets.len() > 0,
        after.drop_count == before.drop_count,
    ensures
        sends_all(before.connection, before.unsent + packets, after.connection),
        after.unsent == Seq::<Seq<u8>>::empty(),
    decreases packets.len(),
{
    let middle = choose|middle: SendState<S>|
        sends_packets(before, packets.drop_last(), middle) && #[trigger] sends_packet(
            middle,
            packets.last(),
            after,
            Ok(()),
        );
    lemma_drop_count_grows(before, packets.drop_last(), middle);
    let pending = middle.unsent.push(packets.last());
    let outcome = choose|outcome: Result<(), IoError>|
        #[trigger] sends_pending(middle, pending, after, outcome) && Ok::<(), StreamError>(())
            == stream_result(outcome);
    let (sent, connection) = choose|sent: int, connection: S|
        sends_until(middle, pending, sent, connection, after, outcome);
    assert(outcome is Ok);
    assert(pending.take(sent) =~= pending);
    assert(after.unsent =~= Seq::<Seq<u8>>::empty());
    if packets.len() == 1 {
        assert(before.unsent + packets =~= pending);
    } else {
        law_packets_are_sent_in_order(before, packets.drop_last(), middle);
        lemma_sends_all_concatenates(
            before.connection,
            before.unsent + packets.drop_last(),
            middle.connection,
            pending,
            after.connection,
        );
        assert(before.unsent + packets.drop_last() + pending =~= before.unsent + packets);
    }
}

/// Handling packets does not make the count of missing room smaller.
proof fn lemma_drop_count_grows<S: DataSenderInterface>(
    before: SendState<S>,
    packets: Seq<Seq<u8>>,
    after: SendState<S>,
)
    requires
        sends_packets(before, packets, after),
    ensures
        before.drop_count <= after.drop_count,
    decreases packets.len(),
{
    if packets.len() > 0 {
        let middle = choose|middle: SendState<S>|
            sends_packets(before, packets.drop_last(), middle) && #[trigger] sends_packet(
                middle,
                packets.last(),
                after,
                Ok(()),
            );
        lemma_drop_count_grows(before, packets.drop_last(), middle);
    }
}

/// Can `attempts` calls of `send_packet` lead from connection `before` to `after`,
/// when the packets which are sent are `packets` in this order, each of them once,
/// and the connection has no room in the other calls.
pub open spec fn delivers<S: DataSenderInterface>(
    before: S,
    packets: Seq<Seq<u8>>,
    after: S,
    attempts: nat,
) -> bool
    decreases attempts,
{
    if attempts == 0 {
        packets.len() == 0 && before == after
    } else {
        exists|middle: S, packet: Seq<u8>, result: Result<(), IoError>|
            #[trigger] middle.send_outcome(packet, &after, result) && match result {
                Ok(()) => {
                    &&& packets.len() > 0
                    &&& packet == packets.last()
                    &&& delivers(before, packets.drop_last(), middle, (attempts - 1) as nat)
                },
                Err(e) => {
                    &&& e.kind == IoErrorKind::WouldBlock
                    &&& delivers(before, packets, middle, (attempts - 1) as nat)
                },
            }
    }
}

/// Delivering goes on with packets which are all sent.
proof fn lemma_delivers_more<S: DataSenderInterface>(
    before: S,
    first: Seq<Seq<u8>>,
    middle: S,
    attempts: nat,
    second: Seq<Seq<u8>>,
    after: S,
)
    requires
        delivers(before, first, middle, attempts),
        sends_all(middle, second, after),
    ensures
        delivers(before, first + second, after, attempts + second.len()),
    decreases second.len(),
{
    if second.len() == 0 {
        assert(first + second =~= first);
    } else {
        let previous = choose|previous: S|
            sends_all(middle, second.drop_last(), previous) && #[trigger] previous.send_outcome(
                second.last(),
                &after,
                Ok(()),
            );
        lemma_delivers_more(before, first, middle, attempts, second.drop_last(), previous);
        let packets = first + second;
        assert(packets.drop_last() =~= first + second.drop_last());
        assert(packets.last() == second.last());
        assert(previous.send_outcome(second.last(), &after, Ok(())));
        assert((attempts + second.len() - 1) as nat == attempts + second.drop_last().len());
    }
}

/// Data which the connection has no room for is not lost. Of the packets which were
/// waiting and those which were made since then, the oldest ones are sent in order,
/// each of them once, and the rest of them wait. Each call which found no room is
/// counted once.
pub proof fn law_no_packet_is_lost<S: DataSenderInterface>(
    before: SendState<S>,
    packets: Seq<Seq<u8>>,
    after: SendState<S>,
) -> (counts: (int, nat))
    requires
        sends_packets(before, packets, after),
    ensures
        ({
            let (sent, attempts) = counts;
            let all = before.unsent + packets;
            &&& 0 <= sent <= all.len()
            &&& delivers(before.connection, all.take(sent), after.connection, attempts)
            &&& after.unsent == all.skip(sent)
            &&& after.drop_count - before.drop_count == attempts - sent
        }),
    decreases packets.len(),
{
    let all = before.unsent + packets;
    if packets.len() == 0 {
        assert(all.take(0) =~= Seq::<Seq<u8>>::empty());
        assert(all.skip(0) =~= before.unsent);
        (0, 0)
    } else {
        let middle = choose|middle: SendState<S>|
            sends_packets(before, packets.drop_last(), middle) && #[trigger] sends_packet(
                middle,
                packets.last(),
                after,
                Ok(()),
            );
        let (earlier, attempts) = law_no_packet_is_lost(before, packets.drop_last(), middle);
        let pending = middle.unsent.push(packets.last());
        let outcome = choose|outcome: Result<(), IoError>|
            #[trigger] sends_pending(middle, pending, after, outcome) && Ok::<(), StreamError>(())
                == stream_result(outcome);
        let (sent, connection) = choose|sent: int, connection: S|
            sends_until(middle, pending, sent, connection, after, outcome);
        let earlier_all = before.unsent + packets.drop_last();
        assert(pending =~= all.skip(earlier));
        assert(after.unsent =~= all.skip(earlier + sent));
        lemma_delivers_more(
            before.connection,
            earlier_all.take(earlier),
            middle.connection,
            attempts,
            pending.take(sent),
            connection,
        );
        assert(earlier_all.take(earlier) + pending.take(sent) =~= all.take(earlier + sent));
        let new_attempts = attempts + pending.take(sent).len();
        match outcome {
            Ok(()) => (earlier + sent, new_attempts),
            Err(e) => {
                assert(connection.send_outcome(pending[sent], &after.connection, outcome));
                assert((new_attempts + 1 - 1) as nat == new_attempts);
                (earlier + sent, new_attempts + 1)
            },
        }
    }
}

/// It does not matter in how many pieces the data arrives: the same packets are
/// made of it.
#[verifier::spinoff_prover]
pub proof fn law_pieces_of_data_make_the_same_packets(
    counter: int,
    buffered: Seq<u8>,
    first: Seq<u8>,
    second: Seq<u8>,
)
    requires
        0 <= counter < 0x1_0000_0000,
    ensures
        ({
            let packets = audio_packets(counter, buffered + first);
            let next_counter = (counter + packets.len()) % 0x1_0000_0000;
            let left = unsent_data(buffered + first);
            &&& audio_packets(counter, buffered + (first + second)) == packets + audio_packets(
                next_counter,
                left + second,
            )
            &&& unsent_data(buffered + (first + second)) == unsent_data(left + second)
        }),
{
    let size = RAW_PCM_AUDIO_UDP_DATA_SIZE_IN_BYTES as int;
    let stream = buffered + (first + second);
    let packets = audio_packets(counter, buffered + first);
    let count = packet_count(buffered + first);
    let next_counter = (counter + packets.len()) % 0x1_0000_0000;
    let left = unsent_data(buffered + first);
    assert((left + second).len() == stream.len() - size * count);
    assert(packet_count(stream) == count + packet_count(left + second));
    assert forall|i: int| 0 <= i < packet_count(stream) implies #[trigger] audio_packets(
        counter,
        stream,
    )[i] == (packets + audio_packets(next_counter, left + second))[i] by {
        if i < count {
            assert(packet_data(stream, i) =~= packet_data(buffered + first, i));
        } else {
            assert(packet_data(stream, i) =~= packet_data(left + second, i - count));
            assert((next_counter + (i - count)) % 0x1_0000_0000 == (counter + i) % 0x1_0000_0000);
        }
    }
    assert(audio_packets(counter, stream) =~= packets + audio_packets(
        next_counter,
        left + second,
    ));
    assert(unsent_data(stream) =~= unsent_data(left + second));
}

/// A receiver reads the number and the audio data of a packet as they were
/// written.
pub proof fn law_packet_is_read_as_written(packet_number: int, data: Seq<u8>)
    requires
        0 <= packet_number < 0x1_0000_0000,
    ensures
        oboe::packet_number(audio_packet(packet_number, data)) == packet_number,
        oboe::packet_audio(audio_packet(packet_number, data)) == data,
{
    let packet = audio_packet(packet_number, data);
    endian::law_be32_round_trip(packet_number);
    assert(packet[0] == endian::be32_bytes(packet_number)[0]);
    assert(packet[1] == endian::be32_bytes(packet_number)[1]);
    assert(packet[2] == endian::be32_bytes(packet_number)[2]);
    assert(packet[3] == endian::be32_bytes(packet_number)[3]);
    assert(oboe::packet_audio(packet) =~= data);
}

/// Samples which a receiver gets from the first `count` packets of a recorded
/// stream.
pub open spec fn received_samples(stream: Seq<u8>, count: int) -> Seq<i16>
    decreases count,
{
    if count <= 0 {
        Seq::empty()
    } else {
        let packet = audio_packet((count - 1) % 0x1_0000_0000, packet_data(stream, count - 1));
        received_samples(stream, count - 1) + endian::le_samples(oboe::packet_audio(packet))
    }
}

/// A receiver which gets the packets of a recorded stream in order gets the
/// samples of the stream up to the end of the last packet.
#[verifier::spinoff_prover]
pub proof fn law_received_samples_are_the_recorded_ones(stream: Seq<u8>, count: int)
    requires
        0 <= count <= packet_count(stream),
    ensures
        received_samples(stream, count) == endian::le_samples(
            stream.take(RAW_PCM_AUDIO_UDP_DATA_SIZE_IN_BYTES * count),
        ),
    decreases count,
{
    let size = RAW_PCM_AUDIO_UDP_DATA_SIZE_IN_BYTES;
    if count == 0 {
        assert(endian::le_samples(stream.take(0)) =~= Seq::<i16>::empty());
    } else {
        let index = count - 1;
        let data = packet_data(stream, index);
        let packet = audio_packet(index % 0x1_0000_0000, data);
        let earlier = stream.take(size * index);
        law_received_samples_are_the_recorded_ones(stream, index);
        assert(oboe::packet_audio(packet) == data) by {
            law_packet_is_read_as_written(index % 0x1_0000_0000, data);
        }
        assert(endian::le_samples(earlier + data) == endian::le_samples(earlier)
            + endian::le_samples(data)) by {
            endian::law_samples_concatenate(earlier, data);
        }
        assert(earlier + data =~= stream.take(size * count));
        assert(received_samples(stream, count) == received_samples(stream, index)
            + endian::le_samples(oboe::packet_audio(packet)));
    }
}

/// After a quit request the manager reports that it is ready to quit: at once if
/// there is no recording stream, and otherwise when the stream terminates. No
/// other state change of the stream takes the request back.
pub proof fn law_quit_request_is_answered(manager: PAStreamManager, state: RecordingStreamState)
    ensures
        !manager.record ==> manager.quit_action() == StreamQuitAction::QuitReady,
        manager.record ==> {
            let waiting = manager.after_quit_request();
            let action = waiting.state_change_action(state);
            if state == RecordingStreamState::Terminated {
                action matches StateChangeAction::DropStream { quit_ready, .. } && quit_ready
            } else {
                waiting.after_state_change(state) == waiting
            }
        },
        manager.record ==> manager.quit_action() == StreamQuitAction::Disconnect,
        manager.after_quit_request().quit_requested,
        manager.after_quit_request() == (PAStreamManager { quit_requested: true, ..manager }),
{
}

/// Audio is encoded in frames of 240 samples, whatever sizes the data arrives in:
/// the frames are the pieces of the recorded samples in order, and no sample is lost
/// or repeated.
///
/// A manager which has got `samples`, and whose full frames are encoded, takes bytes
/// from `data`. If they fill a frame, that frame is the next piece of the samples,
/// and nothing of them comes after it, so that nothing waits when it is encoded.
/// Otherwise all data is taken and the samples after the last full frame wait.
#[verifier::spinoff_prover]
pub proof fn law_encoder_frames_are_the_stream_in_order(
    manager: PAStreamManager,
    samples: Seq<i16>,
    data: Seq<u8>,
    position: int,
)
    requires
        0 <= position <= data.len(),
        position % 2 == 0,
        data.len() % 2 == 0,
        manager.encoder_buffer@ == samples.skip(240 * (samples.len() as int / 240)),
    ensures
        ({
            let frames = samples.len() as int / 240;
            let taken = manager.encoder_taken_bytes(data, position);
            let new = endian::le_samples(data.subrange(position, position + taken));
            &&& 0 <= taken <= data.len() - position
            &&& taken % 2 == 0
            &&& manager.fills_frame(data, position) <==> manager.encoder_buffer@.len() + (
            data.len() - position) / 2 >= 240
            &&& if manager.fills_frame(data, position) {
                &&& (manager.encoder_buffer@ + new).len() == 240
                &&& manager.encoder_buffer@ + new == (samples + new).subrange(
                    240 * frames,
                    240 * frames + 240,
                )
                &&& (samples + new).len() == 240 * frames + 240
                &&& Seq::<i16>::empty() == (samples + new).skip(
                    240 * ((samples + new).len() as int / 240),
                )
            } else {
                &&& (manager.encoder_buffer@ + new).len() < 240
                &&& position + taken == data.len()
                &&& manager.encoder_buffer@ + new == (samples + new).skip(
                    240 * ((samples + new).len() as int / 240),
                )
            }
        }),
{
    let frames = samples.len() as int / 240;
    let taken = manager.encoder_taken_bytes(data, position);
    let new = endian::le_samples(data.subrange(position, position + taken));
    let buffered = manager.encoder_buffer@ + new;
    assert(samples.len() == 240 * frames + manager.encoder_buffer@.len());
    assert(new.len() == taken / 2);
    assert(buffered =~= (samples + new).skip(240 * frames));
    if manager.fills_frame(data, position) {
        assert(buffered =~= (samples + new).subrange(240 * frames, 240 * frames + 240));
        assert((samples + new).len() as int / 240 == frames + 1);
        assert(Seq::<i16>::empty() =~= (samples + new).skip(240 * (frames + 1)));
    } else {
        assert((samples + new).len() as int / 240 == frames);
    }
}

/// PCM data is sent in packets of 480 bytes, whatever sizes the data arrives in.
///
/// A manager which has got `stream`, and whose full packets are sent, takes bytes
/// from `data`. If they fill a packet, its data is the next piece of the stream, and
/// nothing of the stream comes after it. Otherwise all data is taken and the bytes
/// after the last full packet wait.
#[verifier::spinoff_prover]
pub proof fn law_packets_have_equal_size(
    manager: PAStreamManager,
    stream: Seq<u8>,
    data: Seq<u8>,
    position: int,
)
    requires
        0 <= position <= data.len(),
        manager.raw_pcm_buffer@ == stream.skip(480 * (stream.len() as int / 480)),
    ensures
        ({
            let packets = stream.len() as int / 480;
            let taken = manager.taken_bytes(data, position);
            let new = data.subrange(position, position + taken);
            &&& 0 <= taken <= data.len() - position
            &&& manager.fills_packet(data, position) <==> manager.raw_pcm_buffer@.len()
                + data.len() - position >= 480
            &&& if manager.fills_packet(data, position) {
                &&& manager.raw_pcm_buffer@ + new == (stream + new).subrange(
                    480 * packets,
                    480 * packets + 480,
                )
                &&& (stream + new).len() == 480 * packets + 480
            } else {
                &&& (manager.raw_pcm_buffer@ + new).len() < 480
                &&& position + taken == data.len()
                &&& manager.raw_pcm_buffer@ + new == (stream + new).skip(480 * packets)
            }
        }),
{
    let packets = stream.len() as int / 480;
    let taken = manager.taken_bytes(data, position);
    let new = data.subrange(position, position + taken);
    let buffered = manager.raw_pcm_buffer@ + new;
    assert(stream.len() == 480 * packets + manager.raw_pcm_buffer@.len());
    assert(buffered =~= (stream + new).skip(480 * packets));
    if manager.fills_packet(data, position) {
        assert(buffered =~= (stream + new).subrange(480 * packets, 480 * packets + 480));
    }
}

/// Each packet of a stream is its number and the next 480 bytes of the stream, and
/// less than that is left over.
#[verifier::spinoff_prover]
pub proof fn law_packet_holds_its_piece_of_the_stream(counter: int, stream: Seq<u8>, index: int)
    requires
        0 <= counter < 0x1_0000_0000,
        0 <= index < stream.len() as int / 480,
    ensures
        audio_packets(counter, stream).len() == stream.len() as int / 480,
        audio_packets(counter, stream)[index].len() == 484,
        endian::be32(audio_packets(counter, stream)[index]) == (counter + index) % 0x1_0000_0000,
        audio_packets(counter, stream)[index].skip(4) == stream.subrange(
            480 * index,
            480 * index + 480,
        ),
        unsent_data(stream) == stream.skip(480 * (stream.len() as int / 480)),
        unsent_data(stream).len() < 480,
{
    let number = (counter + index) % 0x1_0000_0000;
    let data = stream.subrange(480 * index, 480 * index + 480);
    law_packet_is_read_as_written(number, data);
    assert(packet_data(stream, index) == data);
    let packet = audio_packets(counter, stream)[index];
    assert(packet == audio_packet(number, data));
    assert(packet.skip(4) =~= data);
    endian::law_be32_round_trip(number);
    let bytes = endian::be32_bytes(number);
    assert(packet[0] == bytes[0] && packet[1] == bytes[1] && packet[2] == bytes[2] && packet[3]
        == bytes[3]);
}

/// A stream makes as many packets as it has whole pieces of 480 bytes, and what is left
/// over is the rest of it.
pub proof fn law_packets_and_the_rest_are_the_stream(counter: int, stream: Seq<u8>)
    ensures
        packet_count(stream) == stream.len() as int / 480,
        audio_packets(counter, stream).len() == stream.len() as int / 480,
        unsent_data(stream) == stream.skip(480 * (stream.len() as int / 480)),
        unsent_data(stream).len() == stream.len() % 480,
{
}

/// Packet numbers grow one by one, and after the largest 32-bit number comes zero.
pub proof fn law_packet_numbers_grow(packet_number: int)
    requires
        0 <= packet_number <= 0xffff_ffff,
    ensures
        packet_number < 0xffff_ffff ==> next_packet_number(packet_number) == packet_number + 1,
        packet_number == 0xffff_ffff ==> next_packet_number(packet_number) == 0,
{
}

/// Only missing room in the connection can wait. Any other error ends the stream
/// and is handed on as it came.
pub proof fn law_connection_errors_are_handed_on(result: Result<(), IoError>)
    ensures
        stream_result(result) is Err <==> (result matches Err(e) && !(e.kind is WouldBlock)),
        stream_result(result) matches Err(error) ==> (error matches StreamError::SocketError(e)
            && result == Err::<(), IoError>(e)),
{
}

/// When a packet causes a connection error, packets before it are sent in order, and
/// it is the first one of those which are not. The connection had room all the time.
pub proof fn law_failed_packet_stays_first<S: DataSenderInterface>(
    before: SendState<S>,
    packet: Seq<u8>,
    after: SendState<S>,
    error: IoError,
) -> (attempt: (int, S))
    requires
        sends_packet(before, packet, after, Err(StreamError::SocketError(error))),
    ensures
        ({
            let (sent, connection) = attempt;
            let all = before.unsent + seq![packet];
            &&& error.kind !is WouldBlock
            &&& 0 <= sent < all.len()
            &&& sends_all(before.connection, all.take(sent), connection)
            &&& connection.send_outcome(all[sent], &after.connection, Err(error))
            &&& after.unsent == all.skip(sent)
            &&& after.drop_count == before.drop_count
        }),
{
    let pending = before.unsent.push(packet);
    assert(pending =~= before.unsent + seq![packet]);
    let outcome = choose|outcome: Result<(), IoError>|
        #[trigger] sends_pending(before, pending, after, outcome) && Err::<(), StreamError>(
            StreamError::SocketError(error),
        ) == stream_result(outcome);
    let (sent, connection) = choose|sent: int, connection: S|
        sends_until(before, pending, sent, connection, after, outcome);
    assert(outcome == Err::<(), IoError>(error));
    (sent, connection)
}

/// A recording goes on until its stream terminates. Then the missing room which was
/// counted is reported. A state change of the stream changes nothing else.
pub proof fn law_recording_ends_with_its_stream(
    manager: PAStreamManager,
    state: RecordingStreamState,
)
    requires
        manager.record,
    ensures
        manager.after_state_change(state).record <==> !(state is Terminated),
        manager.after_state_change(state).enable_recording == manager.enable_recording,
        manager.after_state_change(state).quit_requested == manager.quit_requested,
        manager.after_state_change(state).raw_pcm_buffer == manager.raw_pcm_buffer,
        manager.after_state_change(state).encoder == manager.encoder,
        manager.after_state_change(state).encoder_buffer == manager.encoder_buffer,
        manager.after_state_change(state).audio_packet_drop_count
            == manager.audio_packet_drop_count,
        manager.after_state_change(state).audio_packet_counter == manager.audio_packet_counter,
        manager.after_state_change(state).unsent == manager.unsent,
        manager.state_change_action(state) is DropStream <==> state is Terminated,
        manager.state_change_action(state) matches StateChangeAction::DropStream {
            quit_ready,
            audio_packet_drop_count,
        } ==> quit_ready == manager.quit_requested && audio_packet_drop_count
            == manager.audio_packet_drop_count,
        manager.state_change_action(state) is LogFailure <==> state is Failed,
        manager.state_change_action(state) is LogDeviceName <==> state is Ready,
{
}

/// The packets which wait for the connection are those which the manager keeps, in the
/// same order, and they fit if none of them is longer than the connection can send.
pub proof fn law_kept_packets_wait_for_the_connection<S>(
    manager: PAStreamManager,
    connection: S,
    size: usize,
)
    ensures
        manager.send_state(connection).connection == connection,
        manager.send_state(connection).drop_count == manager.audio_packet_drop_count,
        manager.send_state(connection).unsent.len() == manager.unsent@.len(),
        forall|i: int|
            0 <= i < manager.unsent@.len() ==> #[trigger] manager.send_state(connection).unsent[i]
                == manager.unsent@[i]@,
        manager.unsent_fits(size) <==> forall|i: int|
            0 <= i < manager.unsent@.len() ==> #[trigger] manager.unsent@[i]@.len() <= size,
{
    let contents = packet_contents(manager.unsent@);
    assert(forall|i: int|
        0 <= i < manager.unsent@.len() ==> #[trigger] contents[i] == manager.unsent@[i]@);
    if forall|i: int|
        0 <= i < manager.unsent@.len() ==> #[trigger] manager.unsent@[i]@.len() <= size {
        assert(packets_fit(contents, size));
    }
    if packets_fit(contents, size) {
        assert forall|i: int| 0 <= i < manager.unsent@.len() implies #[trigger] manager.unsent@[i]@.len()
            <= size by {
            assert(contents[i].len() <= size);
        }
    }
}

} // verus!
