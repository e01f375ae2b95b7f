//! Find Android USB device

use vstd::prelude::*;

use rusb::{Direction, Recipient, RequestType};

use super::{accessory::TransferDirection, UsbError};

verus! {

/// Control request which asks the version of the Android Open Accessory protocol.
pub const AOA_GET_PROTOCOL_REQUEST: u8 = 51;

/// Control request which sends a string.
pub const AOA_SEND_STRING_REQUEST: u8 = 52;

/// Control request which starts accessory mode.
pub const AOA_START_REQUEST: u8 = 53;

/// String lengths, with the zero at the end, must be less than this.
pub const AOA_STRING_SIZE_LIMIT: usize = 255;

/// Control request without its data.
#[derive(Debug, Clone, Copy, PartialEq, Eq, Structural)]
pub struct ControlRequest {
    pub request_type: u8,
    pub request: u8,
    pub value: u16,
    pub index: u16,
}

/// Who defines a control request.
#[derive(Debug, Clone, Copy, PartialEq, Eq, Structural)]
pub enum RequestOrigin {
    Standard,
    Class,
    Vendor,
    Reserved,
}

/// Who gets a control request.
#[derive(Debug, Clone, Copy, PartialEq, Eq, Structural)]
pub enum RequestRecipient {
    Device,
    Interface,
    Endpoint,
    Other,
}

/// Byte which has the direction as its highest bit, the origin as the next two bits
/// and the recipient as the lowest bits.
pub open spec fn request_type_byte(
    direction: TransferDirection,
    origin: RequestOrigin,
    recipient: RequestRecipient,
) -> int {
    let direction_value: int = match direction {
        TransferDirection::In => 0x80,
        TransferDirection::Out => 0,
    };
    let origin_value: int = match origin {
        RequestOrigin::Standard => 0,
        RequestOrigin::Class => 0x20,
        RequestOrigin::Vendor => 0x40,
        RequestOrigin::Reserved => 0x60,
    };
    let recipient_value: int = match recipient {
        RequestRecipient::Device => 0,
        RequestRecipient::Interface => 1,
        RequestRecipient::Endpoint => 2,
        RequestRecipient::Other => 3,
    };
    direction_value + origin_value + recipient_value
}

/// Request type byte from `rusb::request_type`, which joins the bits that stand for
/// its three arguments.
#[verifier::external_body]
fn request_type(direction: TransferDirection, origin: RequestOrigin, recipient: RequestRecipient)
    -> (request_type: u8)
    ensures
        request_type == request_type_byte(direction, origin, recipient),
{
    let direction = match direction {
        TransferDirection::In => Direction::In, TransferDirection::Out => Direction::Out,
    };
    let origin = match origin {
        RequestOrigin::Standard => RequestType::Standard, RequestOrigin::Class => RequestType::Class,
        RequestOrigin::Vendor => RequestType::Vendor, RequestOrigin::Reserved => RequestType::Reserved,
    };
    let recipient = match recipient {
        RequestRecipient::Device => Recipient::Device, RequestRecipient::Other => Recipient::Other,
        RequestRecipient::Interface => Recipient::Interface,
        RequestRecipient::Endpoint => Recipient::Endpoint,
    };
    rusb::request_type(direction, origin, recipient)
}

/// Request type of a vendor request to a device.
fn vendor_request_type(direction: TransferDirection) -> (vendor_request_type: u8)
    ensures
        vendor_request_type == match direction {
            TransferDirection::In => 0xc0u8,
            TransferDirection::Out => 0x40u8,
        },
{
    request_type(direction, RequestOrigin::Vendor, RequestRecipient::Device)
}

/// String which is sent to the device.
#[derive(Debug, Clone, Copy, PartialEq, Eq, Structural)]
pub enum AoaStringId {
    ManufacturerName,
    ModelName,
    Description,
    Version,
    Uri,
    SerialNumber,
}

impl AoaStringId {
    /// Number of the string.
    pub open spec fn number(self) -> u16 {
        match self {
            AoaStringId::ManufacturerName => 0,
            AoaStringId::ModelName => 1,
            AoaStringId::Description => 2,
            AoaStringId::Version => 3,
            AoaStringId::Uri => 4,
            AoaStringId::SerialNumber => 5,
        }
    }

    /// Text of the string.
    pub open spec fn text(self) -> Seq<char> {
        match self {
            AoaStringId::ManufacturerName => "Jonect Developers"@,
            AoaStringId::ModelName => "Jonect"@,
            AoaStringId::Description => "Jonect speaker app"@,
            AoaStringId::Version => "0.1"@,
            AoaStringId::Uri => "https://github.com/jutuon/jonect"@,
            AoaStringId::SerialNumber => "1234"@,
        }
    }

    fn as_number(&self) -> (number: u16)
        ensures
            number == self.number(),
    {
        match self {
            AoaStringId::ManufacturerName => 0,
            AoaStringId::ModelName => 1,
            AoaStringId::Description => 2,
            AoaStringId::Version => 3,
            AoaStringId::Uri => 4,
            AoaStringId::SerialNumber => 5,
        }
    }

    fn as_text(&self) -> (text: &'static str)
        ensures
            text@ == self.text(),
            is_sendable(text@),
    {
        proof {
            reveal_strlit("Jonect Developers");
            reveal_strlit("Jonect");
            reveal_strlit("Jonect speaker app");
            reveal_strlit("0.1");
            reveal_strlit("https://github.com/jutuon/jonect");
            reveal_strlit("1234");
        }
        let text: &'static str = match self {
            AoaStringId::ManufacturerName => "Jonect Developers",
            AoaStringId::ModelName => "Jonect",
            AoaStringId::Description => "Jonect speaker app",
            AoaStringId::Version => "0.1",
            AoaStringId::Uri => "https://github.com/jutuon/jonect",
            AoaStringId::SerialNumber => "1234",
        };
        proof {
            assert(vstd::string::is_ascii(text));
            vstd::string::is_ascii_spec_bytes(text);
        }
        text
    }
}

/// Can the text be sent: with a zero at the end it is not too long, and there are
/// no other zeros.
pub open spec fn is_sendable(text: Seq<char>) -> bool {
    let bytes = vstd::utf8::encode_utf8(text);
    &&& bytes.len() + 1 < AOA_STRING_SIZE_LIMIT
    &&& forall|i: int| 0 <= i < bytes.len() ==> #[trigger] bytes[i] != 0
}

/// What to do next for starting a device in accessory mode.
#[derive(Debug)]
pub enum StartStep {
    /// Send the string with `AndroidUsbDevice::send_aoa_id_string`.
    SendString(AoaStringId, &'static str),
    /// Send the request from `AndroidUsbDevice::start_request`.
    Start,
}

/// Android device which supports accessory mode.
pub struct AndroidUsbDevice;

impl AndroidUsbDevice {
    /// Request for the protocol version. The answer has two bytes.
    pub fn protocol_request() -> (request: ControlRequest)
        ensures
            request == (ControlRequest {
                request_type: 0xc0,
                request: AOA_GET_PROTOCOL_REQUEST,
                value: 0,
                index: 0,
            }),
            request.request == 51,
    {
        ControlRequest {
            request_type: vendor_request_type(TransferDirection::In),
            request: AOA_GET_PROTOCOL_REQUEST,
            value: 0,
            index: 0,
        }
    }

    /// Handle the answer to the protocol request. Versions 1 and 2 are supported.
    pub fn new(result: Result<usize, rusb::Error>, buffer: [u8; 2]) -> (device: Result<
        Option<Self>,
        UsbError,
    >)
        ensures
            match result {
                Ok(size) => {
                    &&& device is Ok
                    &&& device->Ok_0 is Some <==> size == 2 && 1 <= buffer@[0] + 256 * buffer@[1] <= 2
                },
                Err(e) => device == Err::<Option<Self>, _>(UsbError::ReadControlFailed(e)),
            },
    {
        match result {
            Ok(size) => {
                if size == 2 {
                    let version: u16 = buffer[0] as u16 + 256 * (buffer[1] as u16);
                    if version == 1 || version == 2 {
                        Ok(Some(Self))
                    } else {
                        Ok(None)
                    }
                } else {
                    Ok(None)
                }
            },
            Err(e) => Err(UsbError::ReadControlFailed(e)),
        }
    }

    /// Next step after `sent` strings are sent. The strings are sent in the order
    /// of their numbers.
    pub fn start_device_in_aoa_mode(sent: u16) -> (step: StartStep)
        ensures
            match step {
                StartStep::SendString(id, text) => {
                    &&& sent < 6 && id.number() == sent
                    &&& text@ == id.text()
                    &&& is_sendable(text@)
                },
                StartStep::Start => sent >= 6,
            },
    {
        let id = match sent {
            0 => AoaStringId::ManufacturerName,
            1 => AoaStringId::ModelName,
            2 => AoaStringId::Description,
            3 => AoaStringId::Version,
            4 => AoaStringId::Uri,
            5 => AoaStringId::SerialNumber,
            _ => {
                return StartStep::Start;
            },
        };
        StartStep::SendString(id, id.as_text())
    }

    /// Request for starting accessory mode. There is no data.
    pub fn start_request() -> (request: ControlRequest)
        ensures
            request == (ControlRequest {
                request_type: 0x40,
                request: AOA_START_REQUEST,
                value: 0,
                index: 0,
            }),
            request.request == 53,
    {
        ControlRequest {
            request_type: vendor_request_type(TransferDirection::Out),
            request: AOA_START_REQUEST,
            value: 0,
            index: 0,
        }
    }

    /// Request for sending a string, and its data, which ends in a zero.
    pub fn send_aoa_id_string(string_id: AoaStringId, normal_text: &str) -> (request: (
        ControlRequest,
        Vec<u8>,
    ))
        requires
            is_sendable(normal_text@),
        ensures
            request.0 == (ControlRequest {
                request_type: 0x40,
                request: AOA_SEND_STRING_REQUEST,
                value: 0,
                index: string_id.number(),
            }),
            request.0.request == 52,
            request.1@ == vstd::utf8::encode_utf8(normal_text@).push(0),
    {
        let mut data: Vec<u8> = Vec::new();
        data.extend_from_slice(normal_text.as_bytes());
        data.push(0);
        assert(data@ =~= vstd::utf8::encode_utf8(normal_text@).push(0));
        let request = ControlRequest {
            request_type: vendor_request_type(TransferDirection::Out),
            request: AOA_SEND_STRING_REQUEST,
            value: 0,
            index: string_id.as_number(),
        };
        (request, data)
    }

    /// Handle the result of sending a string whose data is `data`.
    pub fn handle_string_result(data: &[u8], result: Result<usize, rusb::Error>) -> (sent: Result<
        (),
        UsbError,
    >)
        ensures
            sent == match result {
                Ok(size) => if size == data@.len() {
                    Ok::<(), UsbError>(())
                } else {
                    Err(UsbError::AndroidStartAccessoryModeUnexpectedWriteResult(size))
                },
                Err(e) => Err(UsbError::WriteControlFailed(e)),
            },
    {
        match result {
            Ok(size) => {
                if size == data.len() {
                    Ok(())
                } else {
                    Err(UsbError::AndroidStartAccessoryModeUnexpectedWriteResult(size))
                }
            },
            Err(e) => Err(UsbError::WriteControlFailed(e)),
        }
    }
}

/// The strings have the numbers and texts which the accessory protocol and the app on the
/// device expect.
pub proof fn law_strings_name_the_app(id: AoaStringId)
    ensures
        id.number() < 6,
        id is ManufacturerName ==> id.number() == 0 && id.text() == "Jonect Developers"@,
        id is ModelName ==> id.number() == 1 && id.text() == "Jonect"@,
        id is Description ==> id.number() == 2 && id.text() == "Jonect speaker app"@,
        id is Version ==> id.number() == 3 && id.text() == "0.1"@,
        id is Uri ==> id.number() == 4 && id.text() == "https://github.com/jutuon/jonect"@,
        id is SerialNumber ==> id.number() == 5 && id.text() == "1234"@,
{
}

/// A text can be sent if it has less than 254 bytes, none of which is zero.
pub proof fn law_short_texts_can_be_sent(text: Seq<char>)
    ensures
        is_sendable(text) <==> vstd::utf8::encode_utf8(text).len() < 254
            && !vstd::utf8::encode_utf8(text).contains(0),
{
}

} // verus!
