//! Packets of a USB accessory.

use vstd::prelude::*;

use super::UsbError;
use crate::connection::usb::protocol::{
    self, UsbPacketInType, UsbPacketOutType, USB_IN_PACKET_SIZE, USB_OUT_PACKET_SIZE,
};

verus! {

/// Reads packets from the file of the accessory.
pub struct AccessoryReader {
    pub fd: i32,
    pub buffer: [u8; USB_OUT_PACKET_SIZE],
}

impl AccessoryReader {
    pub fn new(fd: i32) -> (reader: Self)
        ensures
            reader.fd == fd,
            reader.buffer@ == Seq::new(USB_OUT_PACKET_SIZE as nat, |i: int| 0u8),
    {
        let reader = Self { fd, buffer: [0;USB_OUT_PACKET_SIZE] };
        assert(reader.buffer@ =~= Seq::new(USB_OUT_PACKET_SIZE as nat, |i: int| 0u8));
        reader
    }

    /// Can the packet in `buffer` be handled. Its data size is one that fits in
    /// it, if the type of the packet is known.
    pub open spec fn accepts_packet(self) -> bool {
        1 <= self.buffer@[0] <= 4 ==> protocol::is_valid_packet(self.buffer@)
    }

    /// Can the packet in `buffer` be handled.
    pub fn can_read_packet(&self) -> (result: bool)
        ensures
            result == self.accepts_packet(),
    {
        let packet_type: u8 = self.buffer[0];
        packet_type < 1 || packet_type > 4 || protocol::check_packet_size(self.buffer.as_slice())
    }

    /// Handle the result of reading a packet to `buffer`.
    pub fn read_packet(&self, result: Result<usize, nix::errno::Errno>) -> (packet: Result<
        (UsbPacketOutType, &[u8]),
        UsbError,
    >)
        requires
            result == Ok::<usize, nix::errno::Errno>(USB_OUT_PACKET_SIZE) ==> self.accepts_packet(),
        ensures
            match result {
                Err(e) => packet == Err::<(UsbPacketOutType, &[u8]), _>(UsbError::Read(e)),
                Ok(size) => if size != USB_OUT_PACKET_SIZE {
                    packet == Err::<(UsbPacketOutType, &[u8]), _>(
                        UsbError::UnexpectedReadSize(size),
                    )
                } else if 1 <= self.buffer@[0] <= 4 {
                    &&& packet matches Ok((packet_type, data))
                    &&& packet_type.byte() == self.buffer@[0]
                    &&& data@ == protocol::packet_data(self.buffer@)
                    &&& data@.len() <= protocol::USB_PACKET_MAX_DATA_SIZE
                } else {
                    packet == Err::<(UsbPacketOutType, &[u8]), _>(
                        UsbError::UnexpectedPacketOutType(self.buffer@[0]),
                    )
                },
            },
    {
        match result {
            Err(e) => Err(UsbError::Read(e)),
            Ok(size) => {
                if size != USB_OUT_PACKET_SIZE {
                    return Err(UsbError::UnexpectedReadSize(size));
                }
                match UsbPacketOutType::from_byte(self.buffer[0]) {
                    Some(packet_type) => Ok(
                        (packet_type, protocol::read_packet_data(self.buffer.as_slice())),
                    ),
                    None => Err(UsbError::UnexpectedPacketOutType(self.buffer[0])),
                }
            },
        }
    }
}

/// Writes packets to the file of the accessory.
pub struct AccessoryWriter {
    pub fd: i32,
    pub buffer: [u8; USB_IN_PACKET_SIZE],
}

impl AccessoryWriter {
    pub fn new(fd: i32) -> (writer: Self)
        ensures
            writer.fd == fd,
            writer.buffer@ == Seq::new(USB_IN_PACKET_SIZE as nat, |i: int| 0u8),
    {
        let writer = Self { fd, buffer: [0;USB_IN_PACKET_SIZE] };
        assert(writer.buffer@ =~= Seq::new(USB_IN_PACKET_SIZE as nat, |i: int| 0u8));
        writer
    }

    /// Make a packet for writing to `buffer`. Data which does not fit is left out.
    pub fn write_packet(&mut self, packet_type: UsbPacketInType, data: &[u8])
        requires
            data@.len() <= 0xffff,
        ensures
            final(self).fd == old(self).fd,
            final(self).buffer@ == protocol::packet_bytes(
                packet_type.byte(),
                data@,
                USB_IN_PACKET_SIZE as nat,
            ),
    {
        let buffer: &mut [u8] = &mut self.buffer;
        protocol::write_packet_bytes(packet_type.into(), data, buffer);
    }

    /// Handle the result of writing a packet.
    pub fn handle_write_result(result: Result<usize, nix::errno::Errno>) -> (written: Result<
        (),
        UsbError,
    >)
        ensures
            written == match result {
                Ok(size) => if size == USB_IN_PACKET_SIZE {
                    Ok::<(), UsbError>(())
                } else {
                    Err(UsbError::UnexpectedWriteSize(size))
                },
                Err(e) => Err(UsbError::Write(e)),
            },
    {
        match result {
            Ok(size) => {
                if size != USB_IN_PACKET_SIZE {
                    return Err(UsbError::UnexpectedWriteSize(size));
                }
                Ok(())
            },
            Err(e) => Err(UsbError::Write(e)),
        }
    }
}

/// A packet of a known type can be read if its data fits in it. A packet of an unknown
/// type is an error in any case.
pub proof fn law_packets_with_fitting_data_are_read(reader: AccessoryReader)
    ensures
        reader.accepts_packet() <==> {
            ||| reader.buffer@[0] < 1
            ||| reader.buffer@[0] > 4
            ||| 256 * reader.buffer@[1] + reader.buffer@[2] <= 509
        },
{
}

} // verus!
