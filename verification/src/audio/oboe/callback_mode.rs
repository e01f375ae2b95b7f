//! Playing from a callback which asks for samples.

use std::collections::VecDeque;

use vstd::prelude::*;

use super::{
    cpp_bridge::{self, UnderrunReport, STATUS_ERROR, STATUS_OK},
    AudioDataBlock, AUDIO_BLOCK_SAMPLE_COUNT,
};
use crate::{
    audio::pulseaudio::stream,
    config::{PCM_AUDIO_PACKET_SIZE_IN_BYTES, RAW_PCM_AUDIO_UDP_DATA_SIZE_IN_SAMPLES},
    utils::{endian, error::IoErrorKind},
};

verus! {

/// How many packets are buffered before playing starts.
pub const DIRECT_MODE_BUFFERING_COUNT: usize = 2;

/// Samples of one audio packet.
pub type AudioPacketSamples = [i16; RAW_PCM_AUDIO_UDP_DATA_SIZE_IN_SAMPLES];

/// `base` with its first samples replaced by `samples`.
pub open spec fn overwritten(base: Seq<i16>, samples: Seq<i16>) -> Seq<i16> {
    Seq::new(
        base.len(),
        |i: int|
            if i < samples.len() {
                samples[i]
            } else {
                base[i]
            },
    )
}

/// No sound.
pub open spec fn silence() -> Seq<i16> {
    Seq::new(RAW_PCM_AUDIO_UDP_DATA_SIZE_IN_SAMPLES as nat, |i: int| 0i16)
}

/// Write the samples in `audio_data` over the first samples of `target`.
fn overwrite_samples(target: &mut AudioPacketSamples, audio_data: &[u8])
    ensures
        final(target)@ == overwritten(old(target)@, endian::le_samples(audio_data@)),
{
    let mut i: usize = 0;
    while i < RAW_PCM_AUDIO_UDP_DATA_SIZE_IN_SAMPLES && i < audio_data.len() / 2
        invariant
            i <= RAW_PCM_AUDIO_UDP_DATA_SIZE_IN_SAMPLES,
            i <= audio_data.len() / 2,
            target@.len() == RAW_PCM_AUDIO_UDP_DATA_SIZE_IN_SAMPLES,
            forall|j: int|
                0 <= j < i ==> #[trigger] target@[j] == endian::le_samples(audio_data@)[j],
            forall|j: int|
                i <= j < RAW_PCM_AUDIO_UDP_DATA_SIZE_IN_SAMPLES ==> #[trigger] target@[j] == old(
                    target,
                )@[j],
        decreases RAW_PCM_AUDIO_UDP_DATA_SIZE_IN_SAMPLES - i,
    {
        target[i] = endian::i16_from_le_bytes(audio_data[2 * i], audio_data[2 * i + 1]);
        i += 1;
    }
    assert(target@ =~= overwritten(old(target)@, endian::le_samples(audio_data@)));
}

/// Buffer for audio packets of a reliable connection.
pub struct AudioBuffer {
    pub data: VecDeque<AudioPacketSamples>,
    pub buffer: AudioPacketSamples,
    pub playing_started: bool,
}

impl AudioBuffer {
    /// At most `DIRECT_MODE_BUFFERING_COUNT` packets are queued, and as soon as
    /// that many are, playing starts. Before that there is silence.
    pub open spec fn wf(self) -> bool {
        &&& self.data@.len() <= DIRECT_MODE_BUFFERING_COUNT
        &&& !self.playing_started ==> self.data@.len() < DIRECT_MODE_BUFFERING_COUNT
            && self.buffer@ == silence()
    }

    /// Samples of the oldest packet which is not yet taken, and otherwise of the
    /// current packet.
    pub open spec fn next_samples(self) -> AudioPacketSamples {
        if self.playing_started && self.data@.len() > 0 {
            self.data@[0]
        } else {
            self.buffer
        }
    }

    pub fn new() -> (buffer: Self)
        ensures
            buffer.wf(),
            buffer.data@.len() == 0,
            buffer.buffer@ == silence(),
            forall|i: int| 0 <= i < 240 ==> #[trigger] buffer.buffer@[i] == 0,
            !buffer.playing_started,
    {
        let buffer: AudioPacketSamples = [0;RAW_PCM_AUDIO_UDP_DATA_SIZE_IN_SAMPLES];
        assert(buffer@ =~= silence());
        Self {
            data: VecDeque::with_capacity(DIRECT_MODE_BUFFERING_COUNT),
            playing_started: false,
            buffer,
        }
    }

    pub fn playing_started(&self) -> (started: bool)
        ensures
            started == self.playing_started,
    {
        self.playing_started
    }

    pub fn audio_buffer_full(&self) -> (full: bool)
        ensures
            full == (self.data@.len() >= DIRECT_MODE_BUFFERING_COUNT),
    {
        self.data.len() >= DIRECT_MODE_BUFFERING_COUNT
    }

    /// While playing a new packet is needed when the queue is empty, and before
    /// that until playing starts.
    pub open spec fn requires_data(self) -> bool {
        self.playing_started ==> self.data@.len() == 0
    }

    pub fn new_data_required(&self) -> (required: bool)
        requires
            self.wf(),
        ensures
            required == self.requires_data(),
    {
        if self.playing_started {
            self.data.len() == 0
        } else {
            !self.audio_buffer_full()
        }
    }

    /// Add a packet, which is a packet number and samples. While playing the
    /// samples are written over the current packet. Before that they are queued.
    pub fn add_new_audio_packet(&mut self, audio_packet: &[u8])
        requires
            old(self).wf(),
            audio_packet@.len() >= 4,
        ensures
            final(self).wf(),
            ({
                let samples = endian::le_samples(super::packet_audio(audio_packet@));
                if old(self).playing_started {
                    &&& final(self).data@ == old(self).data@
                    &&& final(self).buffer@ == overwritten(old(self).buffer@, samples)
                    &&& final(self).playing_started
                } else {
                    &&& final(self).data@.len() == old(self).data@.len() + 1
                    &&& final(self).data@.drop_last() == old(self).data@
                    &&& final(self).data@.last()@ == overwritten(silence(), samples)
                    &&& final(self).buffer == old(self).buffer
                    &&& final(self).playing_started == (final(self).data@.len()
                        >= DIRECT_MODE_BUFFERING_COUNT)
                }
            }),
    {
        // Direct mode is only enabled for reliable connections so there is no
        // need to check the packet counter.
        let (_packet_counter_bytes, audio_data) = audio_packet.split_at(4);
        assert(audio_data@ =~= super::packet_audio(audio_packet@));

        if self.playing_started {
            overwrite_samples(&mut self.buffer, audio_data);
        } else {
            let mut new_data: AudioPacketSamples = [0;RAW_PCM_AUDIO_UDP_DATA_SIZE_IN_SAMPLES];
            assert(new_data@ =~= silence());
            overwrite_samples(&mut new_data, audio_data);

            self.data.push_back(new_data);
            assert(self.data@.drop_last() =~= old(self).data@);

            if self.audio_buffer_full() {
                self.playing_started = true;
            }
        }
    }

    /// Take the next samples. Before playing starts these are silence.
    pub fn get_audio_data(&mut self) -> (samples: AudioPacketSamples)
        requires
            old(self).wf(),
        ensures
            final(self).wf(),
            samples == old(self).next_samples(),
            samples == if old(self).playing_started && old(self).data@.len() > 0 {
                old(self).data@[0]
            } else {
                old(self).buffer
            },
            !old(self).playing_started ==> samples@ == silence(),
            final(self).buffer == samples,
            final(self).playing_started == old(self).playing_started,
            final(self).data@ == if old(self).playing_started && old(self).data@.len() > 0 {
                old(self).data@.drop_first()
            } else {
                old(self).data@
            },
    {
        if self.playing_started {
            match self.data.pop_front() {
                Some(data) => {
                    self.buffer = data;
                },
                None => {},
            }
        }
        self.buffer
    }
}

/// Where samples come from. `B` is the receiving end of a queue of audio blocks
/// and `D` is a data connection.
pub enum PcmReceiver<B, D> {
    AudioDataBlock(B),
    DirectReceiver(D),
}

impl<B, D> PcmReceiver<B, D> {
    pub fn with_buffer(self) -> (receiver: BufferAndReceiver<B, D>)
        ensures
            match self {
                PcmReceiver::AudioDataBlock(r) => {
                    &&& receiver matches BufferAndReceiver::AudioDataBlock(receiver, block)
                    &&& receiver == r
                    &&& block@ == Seq::new(AUDIO_BLOCK_SAMPLE_COUNT as nat, |i: int| 0i16)
                },
                PcmReceiver::DirectReceiver(r) => {
                    &&& receiver matches BufferAndReceiver::DirectReceiver {
                        receiver,
                        buffer,
                        ..
                    }
                    &&& receiver == r
                    &&& buffer.wf()
                    &&& buffer.data@.len() == 0
                    &&& buffer.buffer@ == silence()
                    &&& !buffer.playing_started
                },
            },
    {
        match self {
            PcmReceiver::AudioDataBlock(receiver) => {
                let block: AudioDataBlock = [0;AUDIO_BLOCK_SAMPLE_COUNT];
                assert(block@ =~= Seq::new(AUDIO_BLOCK_SAMPLE_COUNT as nat, |i: int| 0i16));
                BufferAndReceiver::AudioDataBlock(receiver, block)
            },
            PcmReceiver::DirectReceiver(receiver) => BufferAndReceiver::DirectReceiver {
                receiver,
                conversion_buffer: [0;PCM_AUDIO_PACKET_SIZE_IN_BYTES],
                buffer: AudioBuffer::new(),
            },
        }
    }
}

/// Where samples come from and what is received from there.
pub enum BufferAndReceiver<B, D> {
    AudioDataBlock(B, AudioDataBlock),
    DirectReceiver {
        receiver: D,
        conversion_buffer: [u8; PCM_AUDIO_PACKET_SIZE_IN_BYTES],
        buffer: AudioBuffer,
    },
}

/// What has to be received before samples can be written.
#[derive(Debug, Clone, Copy, PartialEq, Eq, Structural)]
pub enum DataRequest {
    Nothing,
    /// Receive an audio block.
    AudioDataBlock,
    /// Receive a packet to the conversion buffer.
    Packet,
}

/// What happened after the previous step of the callback.
pub enum Received {
    /// Nothing was asked for. The callback starts or writes more samples.
    Nothing,
    /// Audio block which was asked for. `None` is a broken queue.
    AudioDataBlock(Option<AudioDataBlock>),
    /// Result of receiving a packet to the conversion buffer.
    Packet(Result<usize, IoErrorKind>),
    /// Result of changing the connection to blocking mode.
    BlockingMode(Result<(), ()>),
}

/// What the callback does next.
#[derive(Debug, Clone, Copy, PartialEq, Eq, Structural)]
pub enum CallbackStep {
    /// Receive what is requested and go on from the same position.
    Receive(DataRequest),
    /// Change the connection to blocking mode and go on from the same position.
    SetBlockingMode,
    /// Go on from this position.
    WriteMore(usize),
    /// All samples are written.
    Done,
    /// There are no more samples.
    Failed,
}

impl CallbackStep {
    /// Status which the callback returns, if it is ready. After an error the
    /// callback is not called anymore.
    pub open spec fn callback_status(self) -> Option<i32> {
        match self {
            CallbackStep::Done => Some(STATUS_OK),
            CallbackStep::Failed => Some(STATUS_ERROR),
            _ => None,
        }
    }

    /// Status which the callback returns, if it is ready.
    pub fn status(self) -> (status: Option<i32>)
        ensures
            status == self.callback_status(),
    {
        match self {
            CallbackStep::Done => Some(STATUS_OK),
            CallbackStep::Failed => Some(STATUS_ERROR),
            _ => None,
        }
    }
}

/// State of the audio callback.
pub struct CallbackState<B, D> {
    pub pcm_data_receiver: BufferAndReceiver<B, D>,
    pub samples_written: usize,
}

impl<B, D> CallbackState<B, D> {
    /// How many samples the current data has.
    pub open spec fn current_len(self) -> nat {
        match self.pcm_data_receiver {
            BufferAndReceiver::AudioDataBlock(..) => AUDIO_BLOCK_SAMPLE_COUNT as nat,
            BufferAndReceiver::DirectReceiver { .. } =>
                RAW_PCM_AUDIO_UDP_DATA_SIZE_IN_SAMPLES as nat,
        }
    }

    pub open spec fn wf(self) -> bool {
        &&& self.samples_written <= self.current_len()
        &&& self.pcm_data_receiver matches BufferAndReceiver::DirectReceiver { buffer, .. }
            ==> buffer.wf()
    }

    /// Samples which the next write starts from.
    pub open spec fn current_samples(self) -> Seq<i16> {
        match self.pcm_data_receiver {
            BufferAndReceiver::AudioDataBlock(_, block) => block@,
            BufferAndReceiver::DirectReceiver { buffer, .. } => buffer.next_samples()@,
        }
    }

    /// Samples of the current data which are not yet written.
    pub open spec fn unwritten(self) -> Seq<i16> {
        self.current_samples().skip(self.samples_written as int)
    }

    pub fn new(pcm_data_receiver: PcmReceiver<B, D>) -> (state: Self)
        ensures
            state.wf(),
            state.samples_written == 0,
            state.current_samples() =~= Seq::new(state.current_len(), |i: int| 0i16),
            match pcm_data_receiver {
                PcmReceiver::AudioDataBlock(r) => state.pcm_data_receiver
                    matches BufferAndReceiver::AudioDataBlock(receiver, _) && receiver == r,
                PcmReceiver::DirectReceiver(r) => state.pcm_data_receiver
                    matches BufferAndReceiver::DirectReceiver { receiver, buffer, .. }
                    && receiver == r && buffer.data@.len() == 0 && !buffer.playing_started,
            },
    {
        Self { pcm_data_receiver: pcm_data_receiver.with_buffer(), samples_written: 0 }
    }

    pub fn all_current_data_written(&self) -> (written: bool)
        ensures
            written == (self.samples_written == self.current_len()),
    {
        match self.pcm_data_receiver {
            BufferAndReceiver::AudioDataBlock(_, _) => self.samples_written
                == AUDIO_BLOCK_SAMPLE_COUNT,
            BufferAndReceiver::DirectReceiver { .. } => self.samples_written
                == RAW_PCM_AUDIO_UDP_DATA_SIZE_IN_SAMPLES,
        }
    }

    /// Does the state ask for `request` and become `after`.
    pub open spec fn requests(self, after: Self, request: DataRequest) -> bool {
        &&& after.pcm_data_receiver == self.pcm_data_receiver
        &&& request == if self.samples_written < self.current_len() {
            DataRequest::Nothing
        } else {
            match self.pcm_data_receiver {
                BufferAndReceiver::AudioDataBlock(..) => DataRequest::AudioDataBlock,
                BufferAndReceiver::DirectReceiver { buffer, .. } => if buffer.requires_data() {
                    DataRequest::Packet
                } else {
                    DataRequest::Nothing
                },
            }
        }
        &&& after.samples_written == if request == DataRequest::Nothing && self.samples_written
            == self.current_len() {
            0
        } else {
            self.samples_written
        }
    }

    /// What has to be received before samples can be written. When the current
    /// data is all written and no packet is needed, the next write starts from
    /// the beginning of the next samples.
    pub fn get_new_data(&mut self) -> (request: DataRequest)
        requires
            old(self).wf(),
        ensures
            final(self).wf(),
            old(self).requests(*final(self), request),
    {
        if !self.all_current_data_written() {
            return DataRequest::Nothing;
        }
        let request = match &self.pcm_data_receiver {
            BufferAndReceiver::AudioDataBlock(_, _) => DataRequest::AudioDataBlock,
            BufferAndReceiver::DirectReceiver { buffer, .. } => if buffer.new_data_required() {
                DataRequest::Packet
            } else {
                DataRequest::Nothing
            },
        };
        if request == DataRequest::Nothing {
            self.samples_written = 0;
        }
        request
    }

    /// Does a received audio block change the state to `after`.
    pub open spec fn takes_block(
        self,
        received: Option<AudioDataBlock>,
        after: Self,
        result: Result<(), ()>,
    ) -> bool {
        match received {
            None => result is Err && after == self,
            Some(block) => {
                &&& result is Ok
                &&& after.samples_written == 0
                &&& after.pcm_data_receiver == BufferAndReceiver::<B, D>::AudioDataBlock(
                    self.pcm_data_receiver->AudioDataBlock_0,
                    block,
                )
            },
        }
    }

    /// Handle a received audio block. `None` is a broken queue.
    pub fn handle_block(&mut self, received: Option<AudioDataBlock>) -> (result: Result<(), ()>)
        requires
            old(self).wf(),
            old(self).pcm_data_receiver is AudioDataBlock,
        ensures
            final(self).wf(),
            old(self).takes_block(received, *final(self), result),
    {
        match received {
            Some(block) => {
                match &mut self.pcm_data_receiver {
                    BufferAndReceiver::AudioDataBlock(_, current) => {
                        *current = block;
                    },
                    BufferAndReceiver::DirectReceiver { .. } => {
                        assert(false);
                    },
                }
                self.samples_written = 0;
                Ok(())
            },
            None => Err(()),
        }
    }

    /// Does the result of receiving a packet change the state to `after`.
    pub open spec fn takes_packet(
        self,
        received: Result<usize, IoErrorKind>,
        after: Self,
        result: Result<bool, ()>,
    ) -> bool {
        &&& after.pcm_data_receiver is DirectReceiver
        &&& after.pcm_data_receiver->receiver == self.pcm_data_receiver->receiver
        &&& after.pcm_data_receiver->conversion_buffer == self.pcm_data_receiver->conversion_buffer
        &&& {
            let buffer = self.pcm_data_receiver->buffer;
            let new_buffer = after.pcm_data_receiver->buffer;
            match received {
                Ok(size) if size > 0 => {
                    let packet = self.pcm_data_receiver->conversion_buffer@.take(size as int);
                    let samples = endian::le_samples(super::packet_audio(packet));
                    &&& result == Ok::<bool, ()>(new_buffer.playing_started)
                    &&& after.samples_written == if new_buffer.playing_started {
                        self.samples_written
                    } else {
                        0
                    }
                    &&& if buffer.playing_started {
                        &&& new_buffer.data@ == buffer.data@
                        &&& new_buffer.buffer@ == overwritten(buffer.buffer@, samples)
                        &&& new_buffer.playing_started
                    } else {
                        &&& new_buffer.data@.len() == buffer.data@.len() + 1
                        &&& new_buffer.data@.drop_last() == buffer.data@
                        &&& new_buffer.data@.last()@ == overwritten(silence(), samples)
                        &&& new_buffer.buffer == buffer.buffer
                        &&& new_buffer.playing_started == (new_buffer.data@.len()
                            >= DIRECT_MODE_BUFFERING_COUNT)
                    }
                },
                Err(IoErrorKind::WouldBlock) if !buffer.playing_started => {
                    &&& result == Ok::<bool, ()>(false)
                    &&& after.samples_written == 0
                    &&& new_buffer == buffer
                },
                _ => result is Err && after == self,
            }
        }
    }

    /// Handle the result of receiving a packet to the conversion buffer. Returns
    /// true if the connection should be changed to blocking mode, which happens
    /// when a packet is added and playing has started. In that case the result of
    /// the change goes to `handle_blocking_mode`. Otherwise the next write starts
    /// from the beginning of the next samples.
    ///
    /// Before playing starts nothing needs to be available.
    pub fn handle_packet(&mut self, received: Result<usize, IoErrorKind>) -> (result: Result<
        bool,
        (),
    >)
        requires
            old(self).wf(),
            old(self).pcm_data_receiver is DirectReceiver,
            received matches Ok(size) ==> size == 0 || 4 <= size <= PCM_AUDIO_PACKET_SIZE_IN_BYTES,
        ensures
            final(self).wf(),
            old(self).takes_packet(received, *final(self), result),
    {
        match &mut self.pcm_data_receiver {
            BufferAndReceiver::AudioDataBlock(_, _) => {
                assert(false);
                Err(())
            },
            BufferAndReceiver::DirectReceiver { conversion_buffer, buffer, .. } => {
                let size: usize = match received {
                    Ok(0) => {
                        return Err(());
                    },
                    Ok(size) => size,
                    Err(IoErrorKind::WouldBlock) => {
                        if buffer.playing_started() {
                            // This is probably a data sending bug.
                            return Err(());
                        }
                        0
                    },
                    Err(_) => {
                        return Err(());
                    },
                };

                let mut set_blocking = false;
                if size > 0 {
                    let (audio_packet, _) = conversion_buffer.as_slice().split_at(size);
                    buffer.add_new_audio_packet(audio_packet);
                    set_blocking = buffer.playing_started();
                }
                if !set_blocking {
                    self.samples_written = 0;
                }
                Ok(set_blocking)
            },
        }
    }

    /// Does the result of changing the connection to blocking mode change the state
    /// to `after`.
    pub open spec fn takes_blocking_mode(self, mode: Result<(), ()>, after: Self) -> bool {
        &&& after.pcm_data_receiver == self.pcm_data_receiver
        &&& after.samples_written == if mode is Ok {
            0
        } else {
            self.samples_written
        }
    }

    /// Handle the result of changing the connection to blocking mode. If there is no
    /// error, the next write starts from the beginning of the next samples.
    pub fn handle_blocking_mode(&mut self, mode: Result<(), ()>) -> (result: Result<(), ()>)
        requires
            old(self).wf(),
        ensures
            final(self).wf(),
            old(self).takes_blocking_mode(mode, *final(self)),
            result == mode,
    {
        if mode.is_ok() {
            self.samples_written = 0;
        }
        mode
    }

    /// Do the samples which are written to `target`, starting from `position`, make
    /// it `new_target`, and is the state `after` that.
    pub open spec fn writes(
        self,
        target: Seq<i16>,
        position: int,
        after: Self,
        new_target: Seq<i16>,
        new_position: int,
    ) -> bool {
        let unwritten = self.unwritten();
        let room = target.len() - position;
        let count = if unwritten.len() < room {
            unwritten.len() as int
        } else {
            room
        };
        &&& new_position == position + count
        &&& new_target == target.take(position) + unwritten.take(count) + target.skip(
            position + count,
        )
        &&& after.samples_written == self.samples_written + count
        &&& match (self.pcm_data_receiver, after.pcm_data_receiver) {
            (
                BufferAndReceiver::AudioDataBlock(..),
                BufferAndReceiver::AudioDataBlock(..),
            ) => after.pcm_data_receiver == self.pcm_data_receiver,
            (
                BufferAndReceiver::DirectReceiver { receiver, conversion_buffer, buffer },
                BufferAndReceiver::DirectReceiver {
                    receiver: new_receiver,
                    conversion_buffer: new_conversion_buffer,
                    buffer: new_buffer,
                },
            ) => {
                &&& new_receiver == receiver
                &&& new_conversion_buffer == conversion_buffer
                &&& new_buffer.buffer == buffer.next_samples()
                &&& new_buffer.playing_started == buffer.playing_started
                &&& new_buffer.data@ == if buffer.playing_started && buffer.data@.len() > 0 {
                    buffer.data@.drop_first()
                } else {
                    buffer.data@
                }
            },
            _ => false,
        }
    }

    /// Write samples to `target`, starting from `position`. Returns the position
    /// after the last written sample.
    ///
    /// Each call takes the next samples from the buffer of a direct receiver.
    pub fn write_samples(&mut self, target: &mut [i16], position: usize) -> (new_position: usize)
        requires
            old(self).wf(),
            position <= old(target)@.len(),
        ensures
            final(self).wf(),
            old(self).writes(
                old(target)@,
                position as int,
                *final(self),
                final(target)@,
                new_position as int,
            ),
            ({
                let samples = match old(self).pcm_data_receiver {
                    BufferAndReceiver::AudioDataBlock(_, block) => block@,
                    BufferAndReceiver::DirectReceiver { buffer, .. } => if buffer.playing_started
                        && buffer.data@.len() > 0 {
                        buffer.data@[0]@
                    } else {
                        buffer.buffer@
                    },
                };
                let written = old(self).samples_written;
                &&& position <= new_position <= final(target)@.len()
                &&& final(target)@.len() == old(target)@.len()
                &&& final(self).samples_written == written + (new_position - position)
                    <= samples.len()
                &&& new_position == final(target)@.len() || final(self).samples_written
                    == samples.len()
                &&& forall|i: int|
                    position <= i < new_position ==> #[trigger] final(target)@[i] == samples[written
                        + (i - position)]
                &&& forall|i: int|
                    0 <= i < final(target)@.len() && !(position <= i < new_position)
                        ==> #[trigger] final(target)@[i] == old(target)@[i]
            }),
    {
        let samples_written: usize = self.samples_written;
        let target_len: usize = target.len();
        let written: usize = match &mut self.pcm_data_receiver {
            BufferAndReceiver::AudioDataBlock(_, block) => copy_samples(
                block.as_slice(),
                samples_written,
                target,
                position,
            ),
            BufferAndReceiver::DirectReceiver { buffer, .. } => {
                let samples: AudioPacketSamples = buffer.get_audio_data();
                copy_samples(samples.as_slice(), samples_written, target, position)
            },
        };
        self.samples_written = samples_written + written;
        assert(position + written <= target_len);
        position + written
    }

    /// Can `received` be handled.
    pub open spec fn accepts(self, received: Received) -> bool {
        match received {
            Received::Nothing => true,
            Received::AudioDataBlock(_) => self.pcm_data_receiver is AudioDataBlock,
            Received::Packet(result) => {
                &&& self.pcm_data_receiver is DirectReceiver
                &&& result matches Ok(size) ==> size == 0 || 4 <= size
                    <= PCM_AUDIO_PACKET_SIZE_IN_BYTES
            },
            Received::BlockingMode(_) => self.pcm_data_receiver is DirectReceiver,
        }
    }

    /// Can `received` be handled.
    pub fn can_handle(&self, received: &Received) -> (accepts: bool)
        ensures
            accepts == self.accepts(*received),
    {
        let direct = match &self.pcm_data_receiver {
            BufferAndReceiver::AudioDataBlock(_, _) => false,
            BufferAndReceiver::DirectReceiver { .. } => true,
        };
        match received {
            Received::Nothing => true,
            Received::AudioDataBlock(_) => !direct,
            Received::Packet(Ok(size)) => direct && (*size == 0 || 4 <= *size && *size
                <= PCM_AUDIO_PACKET_SIZE_IN_BYTES),
            Received::Packet(Err(_)) => direct,
            Received::BlockingMode(_) => direct,
        }
    }

    /// Does `received` change the state to `after`. The result tells if the
    /// connection should be changed to blocking mode, or that there are no more
    /// samples.
    pub open spec fn takes(self, received: Received, after: Self, result: Result<bool, ()>) -> bool {
        match received {
            Received::Nothing => after == self && result == Ok::<bool, ()>(false),
            Received::AudioDataBlock(block) => self.takes_block(
                block,
                after,
                match result {
                    Ok(_) => Ok(()),
                    Err(_) => Err(()),
                },
            ) && result != Ok::<bool, ()>(true),
            Received::Packet(packet) => self.takes_packet(packet, after, result),
            Received::BlockingMode(mode) => self.takes_blocking_mode(mode, after) && result
                == if mode is Ok {
                Ok::<bool, ()>(false)
            } else {
                Err(())
            },
        }
    }

    /// Can the next step of a state which has taken what was received be `step`, and
    /// does it change the state to `after` and `target` to `new_target`.
    pub open spec fn steps(
        self,
        target: Seq<i16>,
        position: int,
        after: Self,
        new_target: Seq<i16>,
        step: CallbackStep,
    ) -> bool {
        exists|ready: Self, request: DataRequest|
            #[trigger] self.requests(ready, request) && if request != DataRequest::Nothing {
                &&& step == CallbackStep::Receive(request)
                &&& after == ready
                &&& new_target == target
            } else {
                exists|new_position: usize|
                    #[trigger] ready.writes(
                        target,
                        position,
                        after,
                        new_target,
                        new_position as int,
                    ) && step == if new_position == target.len() {
                        CallbackStep::Done
                    } else {
                        CallbackStep::WriteMore(new_position)
                    }
            }
    }

    /// Fill `target` with samples, starting from `position`, as far as there are
    /// samples. The callback does what the returned step asks for, until it is ready.
    pub fn write_step(&mut self, target: &mut [i16], position: usize, received: Received) -> (step:
        CallbackStep)
        requires
            old(self).wf(),
            position <= old(target)@.len(),
            old(self).accepts(received),
        ensures
            final(self).wf(),
            exists|taken: Self, result: Result<bool, ()>|
                #[trigger] old(self).takes(received, taken, result) && match result {
                    Err(_) => {
                        &&& step == CallbackStep::Failed
                        &&& *final(self) == taken
                        &&& final(target)@ == old(target)@
                    },
                    Ok(true) => {
                        &&& step == CallbackStep::SetBlockingMode
                        &&& *final(self) == taken
                        &&& final(target)@ == old(target)@
                    },
                    Ok(false) => taken.steps(
                        old(target)@,
                        position as int,
                        *final(self),
                        final(target)@,
                        step,
                    ),
                },
    {
        let result: Result<bool, ()> = match received {
            Received::Nothing => Ok(false),
            Received::AudioDataBlock(block) => match self.handle_block(block) {
                Ok(()) => Ok(false),
                Err(()) => Err(()),
            },
            Received::Packet(packet) => self.handle_packet(packet),
            Received::BlockingMode(mode) => match self.handle_blocking_mode(mode) {
                Ok(()) => Ok(false),
                Err(()) => Err(()),
            },
        };
        let ghost taken = *self;
        assert(old(self).takes(received, taken, result));
        match result {
            Err(_) => CallbackStep::Failed,
            Ok(true) => CallbackStep::SetBlockingMode,
            Ok(false) => {
                let request = self.get_new_data();
                let ghost ready = *self;
                assert(taken.requests(ready, request));
                if request != DataRequest::Nothing {
                    return CallbackStep::Receive(request);
                }
                let new_position: usize = self.write_samples(target, position);
                assert(ready.writes(
                    old(target)@,
                    position as int,
                    *self,
                    target@,
                    new_position as int,
                ));
                if new_position == target.len() {
                    CallbackStep::Done
                } else {
                    CallbackStep::WriteMore(new_position)
                }
            },
        }
    }
}

/// Copy as much of `source`, starting from `source_position`, as fits in
/// `target` after `position`.
fn copy_samples(
    source: &[i16],
    source_position: usize,
    target: &mut [i16],
    position: usize,
) -> (count: usize)
    requires
        source_position <= source@.len(),
        position <= old(target)@.len(),
    ensures
        ({
            let unwritten = source@.skip(source_position as int);
            let room = old(target)@.len() - position;
            &&& count == if unwritten.len() < room {
                unwritten.len() as int
            } else {
                room
            }
            &&& final(target)@ == old(target)@.take(position as int) + unwritten.take(count as int)
                + old(target)@.skip(position + count)
        }),
{
    let available: usize = source.len() - source_position;
    let room: usize = target.len() - position;
    let count: usize = if available < room {
        available
    } else {
        room
    };
    let mut i: usize = 0;
    while i < count
        invariant
            i <= count,
            source_position + count <= source.len(),
            position + count <= target.len(),
            target@.len() == old(target)@.len(),
            forall|j: int|
                position <= j < position + i ==> #[trigger] target@[j] == source@[source_position
                    + j - position],
            forall|j: int|
                0 <= j < target@.len() && !(position <= j < position + i) ==> #[trigger] target@[j]
                    == old(target)@[j],
        decreases count - i,
    {
        target[position + i] = source[source_position + i];
        i += 1;
    }
    assert(target@ =~= old(target)@.take(position as int) + source@.skip(
        source_position as int,
    ).take(count as int) + old(target)@.skip(position + count));
    count
}

/// The samples which are written are the samples of the current data in order: the
/// first one is the one after those which were written before, and as many are
/// written as there are and as fit. Other samples of the target stay as they are.
///
/// The current data is the received block, or the oldest packet which waits while
/// playing, or else the packet which was taken last. It stays the current data, if no
/// other packet waits.
pub proof fn law_samples_are_written_in_order<B, D>(
    state: CallbackState<B, D>,
    target: Seq<i16>,
    position: int,
    after: CallbackState<B, D>,
    new_target: Seq<i16>,
    new_position: int,
)
    requires
        state.wf(),
        0 <= position <= target.len(),
        state.writes(target, position, after, new_target, new_position),
    ensures
        ({
            let samples = match state.pcm_data_receiver {
                BufferAndReceiver::AudioDataBlock(_, block) => block@,
                BufferAndReceiver::DirectReceiver { buffer, .. } => if buffer.playing_started
                    && buffer.data@.len() > 0 {
                    buffer.data@[0]@
                } else {
                    buffer.buffer@
                },
            };
            let written = state.samples_written;
            &&& state.current_samples() == samples
            &&& position <= new_position <= target.len()
            &&& new_target.len() == target.len()
            &&& new_target.subrange(position, new_position) == samples.subrange(
                written as int,
                after.samples_written as int,
            )
            &&& new_target.take(position) == target.take(position)
            &&& new_target.skip(new_position) == target.skip(new_position)
            &&& after.samples_written == written + (new_position - position) <= samples.len()
            &&& new_position == target.len() || after.samples_written == samples.len()
            &&& match state.pcm_data_receiver {
                BufferAndReceiver::AudioDataBlock(receiver, block) => after.pcm_data_receiver
                    matches BufferAndReceiver::AudioDataBlock(new_receiver, new_block)
                    && new_receiver == receiver && new_block == block,
                BufferAndReceiver::DirectReceiver { receiver, conversion_buffer, buffer } => {
                    &&& after.pcm_data_receiver matches BufferAndReceiver::DirectReceiver {
                        receiver: new_receiver,
                        conversion_buffer: new_conversion_buffer,
                        buffer: new_buffer,
                    }
                    &&& new_receiver == receiver
                    &&& new_conversion_buffer == conversion_buffer
                    &&& new_buffer.buffer@ == samples
                    &&& new_buffer.playing_started == buffer.playing_started
                    &&& new_buffer.data@ == if buffer.playing_started && buffer.data@.len() > 0 {
                        buffer.data@.skip(1)
                    } else {
                        buffer.data@
                    }
                },
            }
        }),
{
    let samples = state.current_samples();
    let written = state.samples_written as int;
    let count = new_position - position;
    assert(new_target.subrange(position, new_position) =~= samples.subrange(
        written,
        written + count,
    ));
    assert(new_target.take(position) =~= target.take(position));
    assert(new_target.skip(new_position) =~= target.skip(new_position));
    match state.pcm_data_receiver {
        BufferAndReceiver::DirectReceiver { buffer, .. } => {
            if buffer.playing_started && buffer.data@.len() > 0 {
                assert(buffer.data@.drop_first() =~= buffer.data@.skip(1));
            }
        },
        _ => {},
    }
}

/// One write of samples.
pub struct SampleWrite {
    pub target: Seq<i16>,
    pub position: int,
    pub new_target: Seq<i16>,
    pub new_position: int,
}

/// The samples which the writes have put to their targets.
pub open spec fn written_samples(writes: Seq<SampleWrite>) -> Seq<i16>
    decreases writes.len(),
{
    if writes.len() == 0 {
        Seq::empty()
    } else {
        written_samples(writes.drop_last()) + writes.last().new_target.subrange(
            writes.last().position,
            writes.last().new_position,
        )
    }
}

/// Over successive writes with no new data in between each sample of the current data
/// is written once and in order, however many samples each callback asks for. When the
/// data is all written, the samples which were written are exactly those of the data.
pub proof fn law_each_sample_is_written_once<B, D>(
    states: Seq<CallbackState<B, D>>,
    writes: Seq<SampleWrite>,
)
    requires
        states.len() == writes.len() + 1,
        states[0].wf(),
        states[0].samples_written == 0,
        states[0].pcm_data_receiver matches BufferAndReceiver::DirectReceiver { buffer, .. }
            ==> buffer.playing_started ==> buffer.data@.len() <= 1,
        forall|i: int|
            0 <= i < writes.len() ==> {
                let write = #[trigger] writes[i];
                &&& 0 <= write.position <= write.target.len()
                &&& states[i].writes(
                    write.target,
                    write.position,
                    states[i + 1],
                    write.new_target,
                    write.new_position,
                )
            },
    ensures
        states.last().wf(),
        states.last().current_samples() == states[0].current_samples(),
        states.last().pcm_data_receiver is DirectReceiver <==> states[0].pcm_data_receiver is DirectReceiver,
        written_samples(writes) == states[0].current_samples().take(
            states.last().samples_written as int,
        ),
        states.last().samples_written == states[0].current_samples().len() ==> written_samples(
            writes,
        ) == states[0].current_samples(),
        writes.len() > 0 ==> (states.last().pcm_data_receiver
            matches BufferAndReceiver::DirectReceiver { buffer, .. } ==> buffer.playing_started
            ==> buffer.data@.len() == 0),
    decreases writes.len(),
{
    let samples = states[0].current_samples();
    if writes.len() == 0 {
        assert(samples.take(0) =~= Seq::<i16>::empty());
    } else {
        let n = writes.len() - 1;
        let earlier = states.drop_last();
        let write = writes.last();
        assert(states[n + 1] == states.last());
        assert(earlier.last() == states[n]);
        assert forall|i: int| 0 <= i < writes.drop_last().len() implies {
            let write = #[trigger] writes.drop_last()[i];
            &&& 0 <= write.position <= write.target.len()
            &&& earlier[i].writes(
                write.target,
                write.position,
                earlier[i + 1],
                write.new_target,
                write.new_position,
            )
        } by {
            assert(writes.drop_last()[i] == writes[i]);
        }
        law_each_sample_is_written_once(earlier, writes.drop_last());
        assert(writes[n] == write);
        law_samples_are_written_in_order(
            states[n],
            write.target,
            write.position,
            states[n + 1],
            write.new_target,
            write.new_position,
        );
        assert(written_samples(writes) =~= samples.take(states.last().samples_written as int));
    }
    if states.last().samples_written == samples.len() {
        assert(samples.take(samples.len() as int) =~= samples);
    }
}

/// New data is asked for only when all current data is written. A block is asked for
/// in any case then, and a packet while playing only if none waits.
pub proof fn law_data_is_requested_when_it_runs_out<B, D>(
    state: CallbackState<B, D>,
    after: CallbackState<B, D>,
    request: DataRequest,
)
    requires
        state.wf(),
        state.requests(after, request),
    ensures
        after.pcm_data_receiver == state.pcm_data_receiver,
        match state.pcm_data_receiver {
            BufferAndReceiver::AudioDataBlock(..) => {
                &&& request == DataRequest::AudioDataBlock <==> state.samples_written == 16
                &&& request == DataRequest::Nothing <==> state.samples_written < 16
                &&& after.samples_written == state.samples_written
            },
            BufferAndReceiver::DirectReceiver { buffer, .. } => {
                &&& request == DataRequest::Packet <==> state.samples_written == 240 && (
                !buffer.playing_started || buffer.data@.len() == 0)
                &&& request == DataRequest::Nothing <==> request != DataRequest::Packet
                &&& state.samples_written < 240 || request == DataRequest::Packet
                    ==> after.samples_written == state.samples_written
                &&& state.samples_written == 240 && request == DataRequest::Nothing
                    ==> after.samples_written == 0
            },
        },
{
}

/// A short packet replaces the first samples and keeps the rest. A packet with at
/// least as many samples replaces all of them.
pub proof fn law_packet_replaces_the_first_samples(base: Seq<i16>, samples: Seq<i16>)
    ensures
        overwritten(base, samples).len() == base.len(),
        samples.len() <= base.len() ==> {
            &&& overwritten(base, samples).take(samples.len() as int) == samples
            &&& overwritten(base, samples).skip(samples.len() as int) == base.skip(
                samples.len() as int,
            )
        },
        samples.len() >= base.len() ==> overwritten(base, samples) == samples.take(
            base.len() as int,
        ),
{
    if samples.len() <= base.len() {
        assert(overwritten(base, samples).take(samples.len() as int) =~= samples);
        assert(overwritten(base, samples).skip(samples.len() as int) =~= base.skip(
            samples.len() as int,
        ));
    }
    if samples.len() >= base.len() {
        assert(overwritten(base, samples) =~= samples.take(base.len() as int));
    }
}

/// No sound is 240 samples which are zero.
pub proof fn law_silence_is_zeros()
    ensures
        silence().len() == 240,
        forall|i: int| 0 <= i < 240 ==> #[trigger] silence()[i] == 0,
{
}

/// A received packet is played as it was recorded: while playing its samples become the
/// current ones, and before that they wait after the earlier packets. Playing starts
/// when two packets wait. If the packet is short, the rest of the current samples stays,
/// or is silence before playing starts.
pub proof fn law_received_packet_is_played<B, D>(
    state: CallbackState<B, D>,
    number: int,
    data: Seq<u8>,
    size: usize,
    after: CallbackState<B, D>,
    result: Result<bool, ()>,
)
    requires
        state.wf(),
        state.pcm_data_receiver is DirectReceiver,
        data.len() + 4 == size <= 484,
        state.pcm_data_receiver->conversion_buffer@.take(size as int) == stream::audio_packet(
            number,
            data,
        ),
        state.takes_packet(Ok(size), after, result),
    ensures
        after.pcm_data_receiver is DirectReceiver,
        after.pcm_data_receiver->receiver == state.pcm_data_receiver->receiver,
        after.pcm_data_receiver->conversion_buffer == state.pcm_data_receiver->conversion_buffer,
        ({
            let buffer = state.pcm_data_receiver->buffer;
            let new_buffer = after.pcm_data_receiver->buffer;
            let samples = endian::le_samples(data);
            let count = samples.len() as int;
            &&& result == Ok::<bool, ()>(new_buffer.playing_started)
            &&& if buffer.playing_started {
                &&& new_buffer.playing_started
                &&& new_buffer.buffer@ == samples + buffer.buffer@.skip(count)
                &&& new_buffer.data@ == buffer.data@
            } else {
                &&& new_buffer.data@.len() == buffer.data@.len() + 1
                &&& new_buffer.data@.last()@ == samples + Seq::new(
                    (240 - count) as nat,
                    |i: int| 0i16,
                )
                &&& forall|i: int|
                    0 <= i < buffer.data@.len() ==> #[trigger] new_buffer.data@[i]
                        == buffer.data@[i]
                &&& new_buffer.buffer == buffer.buffer
                &&& new_buffer.playing_started <==> new_buffer.data@.len() == 2
            }
            &&& after.samples_written == if new_buffer.playing_started {
                state.samples_written
            } else {
                0
            }
        }),
{
    let packet = stream::audio_packet(number, data);
    let buffer = state.pcm_data_receiver->buffer;
    let new_buffer = after.pcm_data_receiver->buffer;
    let samples = endian::le_samples(data);
    let count = samples.len() as int;
    assert(super::packet_audio(packet) =~= data);
    law_packet_replaces_the_first_samples(buffer.buffer@, samples);
    law_packet_replaces_the_first_samples(silence(), samples);
    assert(overwritten(buffer.buffer@, samples) =~= samples + buffer.buffer@.skip(count));
    assert(overwritten(silence(), samples) =~= samples + Seq::new(
        (240 - count) as nat,
        |i: int| 0i16,
    ));
    if !buffer.playing_started {
        assert forall|i: int| 0 <= i < buffer.data@.len() implies #[trigger] new_buffer.data@[i]
            == buffer.data@[i] by {
            assert(new_buffer.data@.drop_last()[i] == buffer.data@[i]);
        }
    }
}

/// A broken connection ends playing. So does a connection which has nothing to read
/// while playing. Before that there is silence as long as nothing can be read.
pub proof fn law_broken_connection_ends_playing<B, D>(
    state: CallbackState<B, D>,
    received: Result<usize, IoErrorKind>,
    after: CallbackState<B, D>,
    result: Result<bool, ()>,
)
    requires
        state.wf(),
        state.pcm_data_receiver is DirectReceiver,
        state.takes_packet(received, after, result),
    ensures
        ({
            let playing = state.pcm_data_receiver->buffer.playing_started;
            &&& result is Err <==> match received {
                Ok(size) => size == 0,
                Err(kind) => !(kind is WouldBlock) || playing,
            }
            &&& result is Err ==> after == state
            &&& received == Err::<usize, IoErrorKind>(IoErrorKind::WouldBlock) && !playing ==> {
                &&& result == Ok::<bool, ()>(false)
                &&& after.samples_written == 0
                &&& after.pcm_data_receiver->buffer == state.pcm_data_receiver->buffer
                &&& after.pcm_data_receiver->receiver == state.pcm_data_receiver->receiver
            }
        }),
{
}

/// A received block is the current data, and nothing of it is written yet. A broken
/// queue and a failed change to blocking mode end playing and change nothing.
pub proof fn law_received_block_is_current<B, D>(
    state: CallbackState<B, D>,
    received: Received,
    after: CallbackState<B, D>,
    result: Result<bool, ()>,
)
    requires
        state.wf(),
        state.accepts(received),
        state.takes(received, after, result),
    ensures
        match received {
            Received::Nothing => result == Ok::<bool, ()>(false) && after == state,
            Received::AudioDataBlock(None) => result is Err && after == state,
            Received::AudioDataBlock(Some(block)) => {
                &&& result == Ok::<bool, ()>(false)
                &&& after.samples_written == 0
                &&& state.pcm_data_receiver matches BufferAndReceiver::AudioDataBlock(receiver, _)
                &&& after.pcm_data_receiver matches BufferAndReceiver::AudioDataBlock(
                    new_receiver,
                    new_block,
                )
                &&& new_receiver == receiver
                &&& new_block == block
            },
            Received::Packet(packet) => {
                &&& state.takes_packet(packet, after, result)
                &&& state.pcm_data_receiver is DirectReceiver
            },
            Received::BlockingMode(mode) => {
                &&& result is Ok <==> mode is Ok
                &&& result != Ok::<bool, ()>(true)
                &&& after.pcm_data_receiver == state.pcm_data_receiver
                &&& after.samples_written == if mode is Ok {
                    0
                } else {
                    state.samples_written
                }
            },
        },
{
    match result {
        Ok(blocking) => {
            assert(blocking || result == Ok::<bool, ()>(false));
        },
        Err(_) => {},
    }
    match received {
        Received::AudioDataBlock(None) => {
            assert(result is Err && after == state);
        },
        Received::AudioDataBlock(Some(block)) => {
            assert(result is Ok);
        },
        _ => {},
    }
}

/// A step either asks for new data, when the current data is all written and nothing
/// waits, or writes samples in order, and it is ready when the target is full.
pub proof fn law_step_writes_or_asks_for_data<B, D>(
    state: CallbackState<B, D>,
    target: Seq<i16>,
    position: int,
    after: CallbackState<B, D>,
    new_target: Seq<i16>,
    step: CallbackStep,
)
    requires
        state.wf(),
        0 <= position <= target.len(),
        state.steps(target, position, after, new_target, step),
    ensures
        step !is SetBlockingMode,
        step !is Failed,
        step is Receive <==> match state.pcm_data_receiver {
            BufferAndReceiver::AudioDataBlock(..) => state.samples_written == 16,
            BufferAndReceiver::DirectReceiver { buffer, .. } => state.samples_written == 240 && (
            !buffer.playing_started || buffer.data@.len() == 0),
        },
        step matches CallbackStep::Receive(request) ==> {
            &&& after == state
            &&& new_target == target
            &&& request == if state.pcm_data_receiver is AudioDataBlock {
                DataRequest::AudioDataBlock
            } else {
                DataRequest::Packet
            }
        },
        step !is Receive ==> {
            let samples = state.current_samples();
            let start = if state.samples_written == samples.len() {
                0
            } else {
                state.samples_written as int
            };
            let new_position = match step {
                CallbackStep::WriteMore(new_position) => new_position as int,
                _ => target.len() as int,
            };
            &&& position <= new_position <= target.len()
            &&& step is WriteMore ==> new_position < target.len()
            &&& step is WriteMore ==> start + (new_position - position) == samples.len()
            &&& new_target.len() == target.len()
            &&& new_target.subrange(position, new_position) == samples.subrange(
                start,
                start + (new_position - position),
            )
            &&& new_target.take(position) == target.take(position)
            &&& new_target.skip(new_position) == target.skip(new_position)
            &&& after.samples_written == start + (new_position - position)
            &&& (CallbackState {
                samples_written: start as usize,
                pcm_data_receiver: state.pcm_data_receiver,
            }).writes(target, position, after, new_target, new_position)
        },
{
    let (ready, request) = choose|ready: CallbackState<B, D>, request: DataRequest|
        #[trigger] state.requests(ready, request) && if request != DataRequest::Nothing {
            &&& step == CallbackStep::Receive(request)
            &&& after == ready
            &&& new_target == target
        } else {
            exists|new_position: usize|
                #[trigger] ready.writes(
                    target,
                    position,
                    after,
                    new_target,
                    new_position as int,
                ) && step == if new_position == target.len() {
                    CallbackStep::Done
                } else {
                    CallbackStep::WriteMore(new_position)
                }
        };
    law_data_is_requested_when_it_runs_out(state, ready, request);
    if request == DataRequest::Nothing {
        let new_position = choose|new_position: usize|
            #[trigger] ready.writes(target, position, after, new_target, new_position as int)
                && step == if new_position == target.len() {
                CallbackStep::Done
            } else {
                CallbackStep::WriteMore(new_position)
            };
        assert(ready.wf());
        law_samples_are_written_in_order(
            ready,
            target,
            position,
            after,
            new_target,
            new_position as int,
        );
    }
}

/// The callback returns zero when all samples are written and minus one when there are no
/// more. Otherwise it goes on.
pub proof fn law_callback_returns_when_it_is_ready(step: CallbackStep)
    ensures
        step.callback_status() == Some(0i32) <==> step is Done,
        step.callback_status() == Some(-1i32) <==> step is Failed,
        step.callback_status() is None <==> step is Receive || step is SetBlockingMode || step
            is WriteMore,
{
}

/// At most two packets wait, and as soon as two do, playing starts. Before that there is
/// silence. No more samples are written than the current data has.
pub proof fn law_buffer_waits_for_two_packets<B, D>(state: CallbackState<B, D>)
    requires
        state.wf(),
    ensures
        match state.pcm_data_receiver {
            BufferAndReceiver::AudioDataBlock(..) => state.samples_written <= 16,
            BufferAndReceiver::DirectReceiver { buffer, .. } => {
                &&& state.samples_written <= 240
                &&& buffer.data@.len() <= 2
                &&& !buffer.playing_started ==> {
                    &&& buffer.data@.len() < 2
                    &&& forall|i: int| 0 <= i < 240 ==> #[trigger] state.current_samples()[i] == 0
                }
            },
        },
{
}

/// A receiver of blocks handles blocks, and a data connection handles packets, which are
/// empty or have a packet number and at most one packet of samples.
pub proof fn law_receiver_handles_its_own_data<B, D>(
    state: CallbackState<B, D>,
    received: Received,
)
    ensures
        state.accepts(received) <==> match received {
            Received::Nothing => true,
            Received::AudioDataBlock(_) => state.pcm_data_receiver is AudioDataBlock,
            Received::Packet(Ok(size)) => state.pcm_data_receiver is DirectReceiver && (size == 0
                || 4 <= size <= 484),
            Received::Packet(Err(_)) => state.pcm_data_receiver is DirectReceiver,
            Received::BlockingMode(_) => state.pcm_data_receiver is DirectReceiver,
        },
{
}

/// Bookkeeping for a stream which plays in callback mode.
pub struct OboeCppCallbackMode {
    pub previous_underrun_count: Option<i32>,
    pub previous_blocking_count: Option<u32>,
    /// An error was detected in the callback.
    pub callback_error_detected: bool,
}

impl OboeCppCallbackMode {
    pub fn new() -> (mode: Self)
        ensures
            mode.previous_underrun_count == Some(0i32),
            mode.previous_blocking_count == Some(0u32),
            !mode.callback_error_detected,
    {
        Self {
            previous_underrun_count: Some(0),
            previous_blocking_count: Some(0),
            callback_error_detected: false,
        }
    }

    /// Compare the counts with the previous ones. The second value is the count
    /// of missing data, if it has grown.
    pub fn check_underruns(&mut self, underrun_count: i32, blocking_count: u32) -> (report: (
        UnderrunReport,
        Option<u32>,
    ))
        ensures
            final(self).callback_error_detected == old(self).callback_error_detected,
            match old(self).previous_underrun_count {
                None => {
                    &&& report.0 == UnderrunReport::Nothing
                    &&& final(self).previous_underrun_count is None
                },
                Some(previous_count) => if underrun_count == STATUS_ERROR {
                    &&& report.0 == UnderrunReport::CheckFailed
                    &&& final(self).previous_underrun_count is None
                } else if underrun_count > previous_count {
                    &&& report.0 == UnderrunReport::NewUnderruns(underrun_count)
                    &&& final(self).previous_underrun_count == Some(underrun_count)
                } else {
                    &&& report.0 == UnderrunReport::Nothing
                    &&& final(self).previous_underrun_count == Some(previous_count)
                },
            },
            match old(self).previous_blocking_count {
                Some(previous) if blocking_count > previous => {
                    &&& report.1 == Some(blocking_count)
                    &&& final(self).previous_blocking_count == Some(blocking_count)
                },
                _ => {
                    &&& report.1 is None
                    &&& final(self).previous_blocking_count == old(self).previous_blocking_count
                },
            },
    {
        let report = cpp_bridge::check_underruns(&mut self.previous_underrun_count, underrun_count);

        let mut new_blocking_count: Option<u32> = None;
        match self.previous_blocking_count {
            Some(previous) => {
                if blocking_count > previous {
                    new_blocking_count = Some(blocking_count);
                    self.previous_blocking_count = new_blocking_count;
                }
            },
            None => {},
        }
        (report, new_blocking_count)
    }

    /// Handle the status which the callback returned.
    pub fn handle_callback_status(&mut self, status: i32)
        ensures
            *final(self) == (Self {
                callback_error_detected: old(self).callback_error_detected || status
                    == STATUS_ERROR,
                ..*old(self)
            }),
    {
        if status == STATUS_ERROR {
            self.callback_error_detected = true;
        }
    }

    pub fn error_occurred(&self) -> (error: bool)
        ensures
            error == self.callback_error_detected,
    {
        self.callback_error_detected
    }
}

} // verus!
