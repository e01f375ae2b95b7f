//! USB packet format.
//!
//! A packet is a packet type byte, the size of its data as two bytes, the most
//! significant first, the data and zeros up to the fixed size of the packet.

use vstd::prelude::*;

use crate::utils::endian;

verus! {

pub const USB_PACKET_MAX_DATA_SIZE: u16 = 512 - 3;

pub const USB_IN_PACKET_MAX_DATA_SIZE: u16 = 64 - 3;

pub const USB_EMPTY_PACKET: u8 = 1;

/// Size of packets to the USB accessory.
pub const USB_OUT_PACKET_SIZE: usize = 512;

/// Size of packets from the USB accessory.
pub const USB_IN_PACKET_SIZE: usize = 64;

/// Size of the packet type and the data size.
pub const USB_PACKET_HEADER_SIZE: usize = 3;

/// Type of a packet to the USB accessory.
#[derive(Debug, Clone, Copy, PartialEq, Eq, Structural)]
pub enum UsbPacketOutType {
    Empty,
    /// Normal JSON message stream.
    JsonStream,
    /// Normal audio data stream.
    AudioData,
    NextIsWrite,
}

impl UsbPacketOutType {
    /// Packet type byte.
    pub open spec fn byte(self) -> u8 {
        match self {
            UsbPacketOutType::Empty => 1,
            UsbPacketOutType::JsonStream => 2,
            UsbPacketOutType::AudioData => 3,
            UsbPacketOutType::NextIsWrite => 4,
        }
    }

    /// Packet type whose byte is `byte`.
    pub fn from_byte(byte: u8) -> (packet_type: Option<Self>)
        ensures
            packet_type is None <==> !(1 <= byte <= 4),
            packet_type matches Some(packet_type) ==> packet_type.byte() == byte,
    {
        if byte == 1 {
            Some(UsbPacketOutType::Empty)
        } else if byte == 2 {
            Some(UsbPacketOutType::JsonStream)
        } else if byte == 3 {
            Some(UsbPacketOutType::AudioData)
        } else if byte == 4 {
            Some(UsbPacketOutType::NextIsWrite)
        } else {
            None
        }
    }
}

impl From<UsbPacketOutType> for u8 {
    fn from(packet_type: UsbPacketOutType) -> Self {
        match packet_type {
            UsbPacketOutType::Empty => USB_EMPTY_PACKET,
            UsbPacketOutType::JsonStream => 2,
            UsbPacketOutType::AudioData => 3,
            UsbPacketOutType::NextIsWrite => 4,
        }
    }
}

impl vstd::std_specs::convert::FromSpecImpl<UsbPacketOutType> for u8 {
    open spec fn obeys_from_spec() -> bool {
        true
    }

    open spec fn from_spec(packet_type: UsbPacketOutType) -> u8 {
        packet_type.byte()
    }
}

/// Type of a packet from the USB accessory.
#[derive(Debug, Clone, Copy, PartialEq, Eq, Structural)]
pub enum UsbPacketInType {
    Empty,
    /// Normal JSON message stream.
    JsonStream,
}

impl UsbPacketInType {
    /// Packet type byte.
    pub open spec fn byte(self) -> u8 {
        match self {
            UsbPacketInType::Empty => 1,
            UsbPacketInType::JsonStream => 2,
        }
    }

    /// Packet type whose byte is `byte`.
    pub fn from_byte(byte: u8) -> (packet_type: Option<Self>)
        ensures
            packet_type is None <==> !(1 <= byte <= 2),
            packet_type matches Some(packet_type) ==> packet_type.byte() == byte,
    {
        if byte == 1 {
            Some(UsbPacketInType::Empty)
        } else if byte == 2 {
            Some(UsbPacketInType::JsonStream)
        } else {
            None
        }
    }
}

impl From<UsbPacketInType> for u8 {
    fn from(packet_type: UsbPacketInType) -> Self {
        match packet_type {
            UsbPacketInType::Empty => USB_EMPTY_PACKET,
            UsbPacketInType::JsonStream => 2,
        }
    }
}

impl vstd::std_specs::convert::FromSpecImpl<UsbPacketInType> for u8 {
    open spec fn obeys_from_spec() -> bool {
        true
    }

    open spec fn from_spec(packet_type: UsbPacketInType) -> u8 {
        packet_type.byte()
    }
}

/// Packet type, data size and data without the zeros at the end.
pub open spec fn packet_content(packet_type: u8, data: Seq<u8>) -> Seq<u8> {
    seq![packet_type] + endian::be16_bytes(data.len() as int) + data
}

/// Packet of `packet_size` bytes. Data which does not fit is left out.
pub open spec fn packet_bytes(packet_type: u8, data: Seq<u8>, packet_size: nat) -> Seq<u8> {
    Seq::new(
        packet_size,
        |i: int|
            if i < packet_content(packet_type, data).len() {
                packet_content(packet_type, data)[i]
            } else {
                0
            },
    )
}

/// Size of the data, as the packet tells it.
pub open spec fn packet_data_size(packet: Seq<u8>) -> int {
    endian::be16(packet[1], packet[2])
}

/// The packet tells a data size which fits in it.
pub open spec fn is_valid_packet(packet: Seq<u8>) -> bool {
    &&& packet.len() >= USB_PACKET_HEADER_SIZE
    &&& packet_data_size(packet) <= packet.len() - USB_PACKET_HEADER_SIZE
}

/// Data of a packet.
pub open spec fn packet_data(packet: Seq<u8>) -> Seq<u8> {
    packet.subrange(
        USB_PACKET_HEADER_SIZE as int,
        USB_PACKET_HEADER_SIZE + packet_data_size(packet),
    )
}

/// Write a packet which fills `buffer`.
pub fn write_packet_bytes(packet_type: u8, data: &[u8], buffer: &mut [u8])
    requires
        data@.len() <= 0xffff,
    ensures
        final(buffer)@ == packet_bytes(packet_type, data@, old(buffer)@.len()),
{
    let size_bytes: [u8; 2] = endian::u16_to_be_bytes(data.len() as u16);
    let mut i: usize = 0;
    while i < buffer.len()
        invariant
            i <= buffer.len(),
            buffer@.len() == old(buffer)@.len(),
            data.len() <= 0xffff,
            size_bytes@ == endian::be16_bytes(data@.len() as int),
            forall|j: int|
                0 <= j < i ==> #[trigger] buffer@[j] == packet_bytes(
                    packet_type,
                    data@,
                    buffer@.len(),
                )[j],
        decreases buffer.len() - i,
    {
        buffer[i] =
        if i == 0 {
            packet_type
        } else if i < USB_PACKET_HEADER_SIZE {
            size_bytes[i - 1]
        } else if i - USB_PACKET_HEADER_SIZE < data.len() {
            data[i - USB_PACKET_HEADER_SIZE]
        } else {
            0
        };
        i += 1;
    }
    assert(buffer@ =~= packet_bytes(packet_type, data@, old(buffer)@.len()));
}

/// Does the packet tell a data size which fits in it.
pub fn check_packet_size(packet: &[u8]) -> (valid: bool)
    ensures
        valid == is_valid_packet(packet@),
{
    if packet.len() < USB_PACKET_HEADER_SIZE {
        return false;
    }
    let size: usize = endian::u16_from_be_bytes(packet[1], packet[2]) as usize;
    size <= packet.len() - USB_PACKET_HEADER_SIZE
}

/// Data of a packet.
pub fn read_packet_data(packet: &[u8]) -> (data: &[u8])
    requires
        is_valid_packet(packet@),
    ensures
        data@ == packet_data(packet@),
{
    let size: usize = endian::u16_from_be_bytes(packet[1], packet[2]) as usize;
    let (_header, data) = packet.split_at(USB_PACKET_HEADER_SIZE);
    let (data, _zeros) = data.split_at(size);
    assert(data@ =~= packet_data(packet@));
    data
}

/// Data which fits in a packet is read as it was written.
pub proof fn law_packet_is_read_as_written(packet_type: u8, data: Seq<u8>, packet_size: nat)
    requires
        data.len() + USB_PACKET_HEADER_SIZE <= packet_size,
        data.len() <= 0xffff,
    ensures
        is_valid_packet(packet_bytes(packet_type, data, packet_size)),
        packet_bytes(packet_type, data, packet_size)[0] == packet_type,
        packet_data(packet_bytes(packet_type, data, packet_size)) == data,
{
    let content = packet_content(packet_type, data);
    let packet = packet_bytes(packet_type, data, packet_size);
    endian::law_be16_round_trip(data.len() as int);
    assert(content[1] == endian::be16_bytes(data.len() as int)[0]);
    assert(content[2] == endian::be16_bytes(data.len() as int)[1]);
    assert(packet[1] == content[1] && packet[2] == content[2]);
    assert(packet_data(packet) =~= data);
}

/// A packet is its type, the size of the data and the data, as far as it fits, and zeros
/// after that.
pub proof fn law_packet_is_padded_with_zeros(
    packet_type: u8,
    data: Seq<u8>,
    packet_size: nat,
    index: int,
)
    requires
        data.len() <= 0xffff,
        3 <= packet_size,
        3 <= index < packet_size,
    ensures
        ({
            let packet = packet_bytes(packet_type, data, packet_size);
            &&& packet.len() == packet_size
            &&& packet[0] == packet_type
            &&& 256 * packet[1] + packet[2] == data.len()
            &&& packet[index] == if index - 3 < data.len() {
                data[index - 3]
            } else {
                0
            }
        }),
{
    let content = packet_content(packet_type, data);
    endian::law_be16_round_trip(data.len() as int);
    assert(content[1] == endian::be16_bytes(data.len() as int)[0]);
    assert(content[2] == endian::be16_bytes(data.len() as int)[1]);
}

/// A packet is valid if the data size which it tells fits in it, and its data is that
/// many bytes after the size.
pub proof fn law_packet_tells_its_data(packet: Seq<u8>)
    ensures
        is_valid_packet(packet) <==> packet.len() >= 3 && 256 * packet[1] + packet[2] + 3
            <= packet.len(),
        is_valid_packet(packet) ==> packet_data(packet) == packet.skip(3).take(
            256 * packet[1] + packet[2],
        ),
{
    if is_valid_packet(packet) {
        assert(packet_data(packet) =~= packet.skip(3).take(256 * packet[1] + packet[2]));
    }
}

/// The type of a packet can be told from its byte.
pub proof fn law_types_have_different_bytes(
    first: UsbPacketOutType,
    second: UsbPacketOutType,
    first_in: UsbPacketInType,
    second_in: UsbPacketInType,
)
    ensures
        first.byte() == second.byte() <==> first == second,
        first_in.byte() == second_in.byte() <==> first_in == second_in,
        1 <= first.byte() <= 4,
        1 <= first_in.byte() <= 2,
        first is Empty ==> first.byte() == USB_EMPTY_PACKET,
        first_in is Empty ==> first_in.byte() == USB_EMPTY_PACKET,
        first is JsonStream && first_in is JsonStream ==> first.byte() == first_in.byte(),
        first is AudioData ==> first.byte() == 3,
        <u8 as vstd::std_specs::convert::FromSpec<UsbPacketOutType>>::from_spec(first) == first.byte(),
        <u8 as vstd::std_specs::convert::FromSpec<UsbPacketInType>>::from_spec(first_in)
            == first_in.byte(),
{
}

/// A packet which is made without a type and typed afterwards, as audio packets
/// are, is the packet of that type, and its data is read as it was written.
pub proof fn law_typed_packet_is_read_as_written(packet_type: u8, data: Seq<u8>)
    requires
        data.len() <= USB_PACKET_MAX_DATA_SIZE,
    ensures
        ({
            let size = USB_OUT_PACKET_SIZE as nat;
            let packet = packet_bytes(USB_EMPTY_PACKET, data, size).update(0, packet_type);
            &&& packet == packet_bytes(packet_type, data, size)
            &&& is_valid_packet(packet)
            &&& packet[0] == packet_type
            &&& packet_data(packet) == data
        }),
{
    let size = USB_OUT_PACKET_SIZE as nat;
    let packet = packet_bytes(USB_EMPTY_PACKET, data, size).update(0, packet_type);
    assert(packet =~= packet_bytes(packet_type, data, size));
    law_packet_is_read_as_written(packet_type, data, size);
}

/// Copy as many bytes as fit. Returns how many were copied.
pub fn copy_bytes(source: &[u8], target: &mut [u8]) -> (copied: usize)
    ensures
        copied == if source@.len() < old(target)@.len() {
            source@.len()
        } else {
            old(target)@.len()
        },
        final(target)@ == source@.take(copied as int) + old(target)@.skip(copied as int),
{
    let mut i: usize = 0;
    while i < source.len() && i < target.len()
        invariant
            i <= source.len(),
            i <= target.len(),
            target@.len() == old(target)@.len(),
            forall|j: int| 0 <= j < i ==> #[trigger] target@[j] == source@[j],
            forall|j: int| i <= j < target@.len() ==> #[trigger] target@[j] == old(target)@[j],
        decreases source.len() - i,
    {
        target[i] = source[i];
        i += 1;
    }
    assert(target@ =~= source@.take(i as int) + old(target)@.skip(i as int));
    i
}

/// Packet to the USB accessory.
#[derive(Debug)]
pub struct UsbPacket {
    packet_type: u8,
    size: u16,
    area: [u8; 509],
}

impl UsbPacket {
    #[verifier::type_invariant]
    spec fn size_is_valid(self) -> bool {
        self.size <= USB_PACKET_MAX_DATA_SIZE
    }

    /// All bytes of the packet.
    pub closed spec fn bytes(self) -> Seq<u8> {
        seq![self.packet_type] + endian::be16_bytes(self.size as int) + self.area@
    }

    /// Data of the packet.
    pub closed spec fn payload(self) -> Seq<u8> {
        self.area@.take(self.size as int)
    }

    /// Empty packet.
    pub fn new() -> (packet: UsbPacket)
        ensures
            packet.payload() == Seq::<u8>::empty(),
            packet.bytes() == packet_bytes(
                USB_EMPTY_PACKET,
                Seq::empty(),
                USB_OUT_PACKET_SIZE as nat,
            ),
    {
        let packet = Self { packet_type: USB_EMPTY_PACKET, size: 0, area: [0;509] };
        assert(packet.bytes() =~= packet_bytes(
            USB_EMPTY_PACKET,
            Seq::empty(),
            USB_OUT_PACKET_SIZE as nat,
        ));
        packet
    }

    pub fn set_packet_type(&mut self, packet_type: u8)
        ensures
            final(self).bytes() == old(self).bytes().update(0, packet_type),
            final(self).payload() == old(self).payload(),
    {
        proof {
            use_type_invariant(&*self);
        }
        self.packet_type = packet_type;
        assert(self.bytes() =~= old(self).bytes().update(0, packet_type));
    }

    /// All bytes of the packet.
    pub fn raw(&self) -> (bytes: [u8; USB_OUT_PACKET_SIZE])
        ensures
            bytes@ == self.bytes(),
            is_valid_packet(bytes@),
            packet_data(bytes@) == self.payload(),
    {
        proof {
            use_type_invariant(&*self);
            endian::law_be16_round_trip(self.size as int);
        }
        let size_bytes: [u8; 2] = endian::u16_to_be_bytes(self.size);
        let mut bytes: [u8; USB_OUT_PACKET_SIZE] = [0;USB_OUT_PACKET_SIZE];
        bytes[0] = self.packet_type;
        bytes[1] = size_bytes[0];
        bytes[2] = size_bytes[1];
        let mut i: usize = 0;
        while i < 509
            invariant
                i <= 509,
                self.area@.len() == 509,
                bytes@.len() == USB_OUT_PACKET_SIZE,
                bytes@[0] == self.packet_type,
                bytes@[1] == endian::be16_bytes(self.size as int)[0],
                bytes@[2] == endian::be16_bytes(self.size as int)[1],
                forall|j: int| 3 <= j < 3 + i ==> #[trigger] bytes@[j] == self.area@[j - 3],
            decreases 509 - i,
        {
            bytes[3 + i] = self.area[i];
            i += 1;
        }
        assert(bytes@ =~= self.bytes());
        assert(packet_data(bytes@) =~= self.payload());
        bytes
    }

    /// Max size is `USB_PACKET_MAX_DATA_SIZE`.
    pub fn set_size(&mut self, size: u16)
        requires
            size <= USB_PACKET_MAX_DATA_SIZE,
        ensures
            final(self).bytes() == old(self).bytes().update(
                1,
                endian::be16_bytes(size as int)[0],
            ).update(2, endian::be16_bytes(size as int)[1]),
            final(self).payload() == old(self).bytes().subrange(
                USB_PACKET_HEADER_SIZE as int,
                USB_PACKET_HEADER_SIZE + size,
            ),
    {
        self.size = size;
        assert(self.bytes() =~= old(self).bytes().update(
            1,
            endian::be16_bytes(size as int)[0],
        ).update(2, endian::be16_bytes(size as int)[1]));
        assert(self.payload() =~= old(self).bytes().subrange(
            USB_PACKET_HEADER_SIZE as int,
            USB_PACKET_HEADER_SIZE + size,
        ));
    }

    pub fn data(&self) -> (data: &[u8])
        ensures
            data@ == self.payload(),
            data@.len() <= USB_PACKET_MAX_DATA_SIZE,
    {
        proof {
            use_type_invariant(&*self);
        }
        let (data, _) = self.area.as_slice().split_at(self.size as usize);
        data
    }

    /// Empty packet which holds `data`.
    pub fn with_data(data: &[u8]) -> (packet: UsbPacket)
        requires
            data@.len() <= USB_PACKET_MAX_DATA_SIZE,
        ensures
            packet.payload() == data@,
            packet.bytes() == packet_bytes(USB_EMPTY_PACKET, data@, USB_OUT_PACKET_SIZE as nat),
    {
        let mut packet = UsbPacket::new();
        packet.set_size(data.len() as u16);
        let copied: usize = copy_bytes(data, packet.data_mut());
        assert(packet.bytes() =~= packet_bytes(
            USB_EMPTY_PACKET,
            data@,
            USB_OUT_PACKET_SIZE as nat,
        ));
        packet
    }

    pub fn data_mut(&mut self) -> (data: &mut [u8])
        ensures
            data@ == old(self).payload(),
            data@.len() <= USB_PACKET_MAX_DATA_SIZE,
            final(data)@.len() == data@.len() ==> {
                &&& final(self).payload() == final(data)@
                &&& final(self).bytes() == old(self).bytes().take(USB_PACKET_HEADER_SIZE as int)
                    + final(data)@ + old(self).bytes().skip(USB_PACKET_HEADER_SIZE + data@.len())
            },
    {
        proof {
            use_type_invariant(&*self);
        }
        let size: usize = self.size as usize;
        let area: &mut [u8] = &mut self.area;
        let (data, _) = area.split_at_mut(size);
        data
    }
}

} // verus!
