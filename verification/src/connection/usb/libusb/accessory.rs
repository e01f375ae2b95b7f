//! Find Android device in USB accessory mode

use vstd::prelude::*;

use super::UsbError;
use crate::connection::usb::protocol::{
    self, UsbPacketInType, UsbPacketOutType, USB_IN_PACKET_SIZE, USB_OUT_PACKET_SIZE,
    USB_PACKET_MAX_DATA_SIZE,
};

verus! {

pub const ACCESSORY_MODE_VENDOR_ID: u16 = 0x18d1;

pub const ACCESSORY_MODE_PRODUCT_ID: u16 = 0x2d00;

pub const ACCESSORY_MODE_AND_ADB_PRODUCT_ID: u16 = 0x2d01;

/// Packet size which endpoints must have.
pub const ENDPOINT_MAX_PACKET_SIZE: u16 = 512;

/// Direction of a transfer.
#[derive(Debug, Clone, Copy, PartialEq, Eq, Structural)]
pub enum TransferDirection {
    In,
    Out,
}

#[derive(Debug, Clone, Copy, PartialEq, Eq, Structural)]
pub struct EndpointInfo {
    pub address: u8,
    pub max_packet_size: u16,
    pub direction: TransferDirection,
}

#[derive(Debug)]
pub struct InterfaceDescriptorInfo {
    pub num_endpoints: u8,
    pub endpoints: Vec<EndpointInfo>,
}

#[derive(Debug)]
pub struct InterfaceInfo {
    pub number: u8,
    pub descriptors: Vec<InterfaceDescriptorInfo>,
}

/// Endpoints which are found so far.
#[derive(Debug, Clone, Copy, PartialEq, Eq, Structural)]
pub struct FoundEndpoints {
    pub interface_found: bool,
    pub endpoint_in: Option<u8>,
    pub endpoint_out: Option<u8>,
}

impl FoundEndpoints {
    pub open spec fn with_endpoint(self, endpoint: EndpointInfo) -> FoundEndpoints {
        match endpoint.direction {
            TransferDirection::In => FoundEndpoints {
                endpoint_in: Some(endpoint.address),
                ..self
            },
            TransferDirection::Out => FoundEndpoints {
                endpoint_out: Some(endpoint.address),
                ..self
            },
        }
    }

    pub open spec fn complete(self) -> bool {
        self.endpoint_in is Some && self.endpoint_out is Some
    }
}

/// What is found when endpoints are gone through. Of two endpoints with the same
/// direction the later one is used. The first endpoint with a wrong packet size
/// is an error, which is that size.
pub open spec fn scan_endpoints(found: FoundEndpoints, endpoints: Seq<EndpointInfo>) -> Result<
    FoundEndpoints,
    u16,
>
    decreases endpoints.len(),
{
    if endpoints.len() == 0 {
        Ok(found)
    } else if endpoints[0].max_packet_size != ENDPOINT_MAX_PACKET_SIZE {
        Err(endpoints[0].max_packet_size)
    } else {
        scan_endpoints(found.with_endpoint(endpoints[0]), endpoints.drop_first())
    }
}

/// What is found when descriptors are gone through. Only those with two endpoints
/// are used.
pub open spec fn scan_descriptors(
    found: FoundEndpoints,
    descriptors: Seq<InterfaceDescriptorInfo>,
) -> Result<FoundEndpoints, u16>
    decreases descriptors.len(),
{
    if descriptors.len() == 0 {
        Ok(found)
    } else if descriptors[0].num_endpoints != 2 {
        scan_descriptors(found, descriptors.drop_first())
    } else {
        match scan_endpoints(found, descriptors[0].endpoints@) {
            Ok(found) => scan_descriptors(found, descriptors.drop_first()),
            Err(size) => Err(size),
        }
    }
}

/// What is found when interfaces are gone through until endpoints for both
/// directions are found. Only interfaces with number zero are used.
pub open spec fn scan_interfaces(found: FoundEndpoints, interfaces: Seq<InterfaceInfo>) -> Result<
    FoundEndpoints,
    u16,
>
    decreases interfaces.len(),
{
    if interfaces.len() == 0 {
        Ok(found)
    } else if interfaces[0].number != 0 {
        scan_interfaces(found, interfaces.drop_first())
    } else {
        match scan_descriptors(found, interfaces[0].descriptors@) {
            Ok(found) => {
                let found = FoundEndpoints { interface_found: true, ..found };
                if found.complete() {
                    Ok(found)
                } else {
                    scan_interfaces(found, interfaces.drop_first())
                }
            },
            Err(size) => Err(size),
        }
    }
}

/// Nothing is found yet.
pub open spec fn nothing_found() -> FoundEndpoints {
    FoundEndpoints { interface_found: false, endpoint_in: None, endpoint_out: None }
}

/// Go through endpoints.
fn find_in_endpoints(start: FoundEndpoints, endpoints: &Vec<EndpointInfo>) -> (result: Result<
    FoundEndpoints,
    UsbError,
>)
    ensures
        match scan_endpoints(start, endpoints@) {
            Ok(found) => result == Ok::<FoundEndpoints, UsbError>(found),
            Err(size) => result == Err::<FoundEndpoints, UsbError>(
                UsbError::UnsupportedEndpointMaxPacketSize(size),
            ),
        },
{
    let mut found: FoundEndpoints = start;
    let mut i: usize = 0;
    assert(endpoints@.skip(0) =~= endpoints@);
    while i < endpoints.len()
        invariant
            i <= endpoints.len(),
            scan_endpoints(start, endpoints@) == scan_endpoints(found, endpoints@.skip(i as int)),
        decreases endpoints.len() - i,
    {
        let endpoint: EndpointInfo = endpoints[i];
        assert(endpoints@.skip(i as int)[0] == endpoint);
        assert(endpoints@.skip(i as int).drop_first() =~= endpoints@.skip(i + 1));
        if endpoint.max_packet_size != ENDPOINT_MAX_PACKET_SIZE {
            return Err(UsbError::UnsupportedEndpointMaxPacketSize(endpoint.max_packet_size));
        }
        match endpoint.direction {
            TransferDirection::In => {
                found.endpoint_in = Some(endpoint.address);
            },
            TransferDirection::Out => {
                found.endpoint_out = Some(endpoint.address);
            },
        }
        i += 1;
    }
    Ok(found)
}

/// Go through interface descriptors.
fn find_in_descriptors(
    start: FoundEndpoints,
    descriptors: &Vec<InterfaceDescriptorInfo>,
) -> (result: Result<FoundEndpoints, UsbError>)
    ensures
        match scan_descriptors(start, descriptors@) {
            Ok(found) => result == Ok::<FoundEndpoints, UsbError>(found),
            Err(size) => result == Err::<FoundEndpoints, UsbError>(
                UsbError::UnsupportedEndpointMaxPacketSize(size),
            ),
        },
{
    let mut found: FoundEndpoints = start;
    let mut i: usize = 0;
    assert(descriptors@.skip(0) =~= descriptors@);
    while i < descriptors.len()
        invariant
            i <= descriptors.len(),
            scan_descriptors(start, descriptors@) == scan_descriptors(
                found,
                descriptors@.skip(i as int),
            ),
        decreases descriptors.len() - i,
    {
        assert(descriptors@.skip(i as int)[0] == descriptors@[i as int]);
        assert(descriptors@.skip(i as int).drop_first() =~= descriptors@.skip(i + 1));
        if descriptors[i].num_endpoints == 2 {
            match find_in_endpoints(found, &descriptors[i].endpoints) {
                Ok(new_found) => {
                    found = new_found;
                },
                Err(e) => {
                    return Err(e);
                },
            }
        }
        i += 1;
    }
    Ok(found)
}

/// Device in accessory mode, which is open and whose interface is claimed.
pub struct AndroidUsbAccessory {
    pub endpoint_in: u8,
    pub endpoint_out: u8,
    pub buffer: [u8; USB_OUT_PACKET_SIZE],
    pub receive_buffer: [u8; USB_IN_PACKET_SIZE],
}

impl AndroidUsbAccessory {
    /// Is a device in accessory mode.
    pub open spec fn is_accessory(vendor_id: u16, product_id: u16) -> bool {
        &&& vendor_id == ACCESSORY_MODE_VENDOR_ID
        &&& product_id == ACCESSORY_MODE_PRODUCT_ID || product_id
            == ACCESSORY_MODE_AND_ADB_PRODUCT_ID
    }

    /// Is a device in accessory mode.
    pub fn is_accessory_device(vendor_id: u16, product_id: u16) -> (accessory: bool)
        ensures
            accessory == Self::is_accessory(vendor_id, product_id),
    {
        vendor_id == ACCESSORY_MODE_VENDOR_ID && (product_id == ACCESSORY_MODE_PRODUCT_ID
            || product_id == ACCESSORY_MODE_AND_ADB_PRODUCT_ID)
    }

    /// Is this a new accessory with the endpoints in `found`.
    pub open spec fn has_endpoints(self, found: FoundEndpoints) -> bool {
        &&& found.endpoint_in == Some(self.endpoint_in)
        &&& found.endpoint_out == Some(self.endpoint_out)
        &&& self.buffer@ == Seq::new(USB_OUT_PACKET_SIZE as nat, |i: int| 0u8)
        &&& self.receive_buffer@ == Seq::new(USB_IN_PACKET_SIZE as nat, |i: int| 0u8)
    }

    /// Find endpoints of a device in accessory mode. If they are found, interface
    /// zero should be claimed.
    pub fn new(interfaces: &Vec<InterfaceInfo>) -> (accessory: Result<Option<Self>, UsbError>)
        ensures
            match scan_interfaces(nothing_found(), interfaces@) {
                Ok(found) => if found.complete() {
                    accessory matches Ok(Some(accessory)) && accessory.has_endpoints(found)
                } else {
                    accessory matches Ok(None)
                },
                Err(size) => accessory == Err::<Option<Self>, _>(
                    UsbError::UnsupportedEndpointMaxPacketSize(size),
                ),
            },
            accessory matches Ok(Some(accessory)) ==> {
                &&& has_endpoint(interfaces@, TransferDirection::In, accessory.endpoint_in, 512)
                &&& has_endpoint(interfaces@, TransferDirection::Out, accessory.endpoint_out, 512)
            },
    {
        proof {
            law_found_endpoints_are_of_interface_zero(interfaces@);
        }
        let mut found = FoundEndpoints {
            interface_found: false,
            endpoint_in: None,
            endpoint_out: None,
        };
        let mut i: usize = 0;
        let mut complete = false;
        assert(interfaces@.skip(0) =~= interfaces@);
        while i < interfaces.len() && !complete
            invariant
                i <= interfaces.len(),
                found.complete() ==> found.interface_found,
                complete == found.complete(),
                if complete {
                    scan_interfaces(nothing_found(), interfaces@) == Ok::<FoundEndpoints, u16>(
                        found,
                    )
                } else {
                    scan_interfaces(nothing_found(), interfaces@) == scan_interfaces(
                        found,
                        interfaces@.skip(i as int),
                    )
                },
            decreases interfaces.len() - i,
        {
            assert(interfaces@.skip(i as int)[0] == interfaces@[i as int]);
            assert(interfaces@.skip(i as int).drop_first() =~= interfaces@.skip(i + 1));
            if interfaces[i].number == 0 {
                match find_in_descriptors(found, &interfaces[i].descriptors) {
                    Ok(new_found) => {
                        found = new_found;
                    },
                    Err(e) => {
                        return Err(e);
                    },
                }
                found.interface_found = true;
                complete = found.endpoint_in.is_some() && found.endpoint_out.is_some();
            }
            i += 1;
        }

        match (found.interface_found, found.endpoint_in, found.endpoint_out) {
            (true, Some(endpoint_in), Some(endpoint_out)) => {
                let accessory = Self {
                    endpoint_in,
                    endpoint_out,
                    buffer: [0;USB_OUT_PACKET_SIZE],
                    receive_buffer: [0;USB_IN_PACKET_SIZE],
                };
                assert(accessory.buffer@ =~= Seq::new(USB_OUT_PACKET_SIZE as nat, |i: int| 0u8));
                assert(accessory.receive_buffer@ =~= Seq::new(
                    USB_IN_PACKET_SIZE as nat,
                    |i: int| 0u8,
                ));
                Ok(Some(accessory))
            },
            _ => Ok(None),
        }
    }

    /// Make a packet for sending to `buffer`. Max data size is 509 bytes.
    pub fn send_packet(&mut self, packet_type: UsbPacketOutType, data: &[u8])
        requires
            data@.len() <= USB_PACKET_MAX_DATA_SIZE,
        ensures
            final(self).buffer@ == protocol::packet_bytes(
                packet_type.byte(),
                data@,
                USB_OUT_PACKET_SIZE as nat,
            ),
            *final(self) == (Self { buffer: final(self).buffer, ..*old(self) }),
    {
        let buffer: &mut [u8] = &mut self.buffer;
        protocol::write_packet_bytes(packet_type.into(), data, buffer);
    }

    /// Handle the result of writing a packet. Returns false if the packet should
    /// be written again.
    pub fn handle_write_result(result: Result<usize, rusb::Error>) -> (written: Result<
        bool,
        UsbError,
    >)
        ensures
            written == match result {
                Ok(size) => Ok::<bool, UsbError>(size == USB_OUT_PACKET_SIZE),
                Err(e) => Err(UsbError::WriteBulkFailed(e)),
            },
    {
        match result {
            Ok(size) => Ok(size == USB_OUT_PACKET_SIZE),
            Err(e) => Err(UsbError::WriteBulkFailed(e)),
        }
    }

    /// Can the packet in `receive_buffer` be handled. Its data size is one that
    /// fits in it, if the type of the packet is known.
    pub open spec fn accepts_received(self) -> bool {
        1 <= self.receive_buffer@[0] <= 2 ==> protocol::is_valid_packet(self.receive_buffer@)
    }

    /// Can the packet in `receive_buffer` be handled.
    pub fn can_handle_received(&self) -> (result: bool)
        ensures
            result == self.accepts_received(),
    {
        let packet_type: u8 = self.receive_buffer[0];
        packet_type < 1 || packet_type > 2 || protocol::check_packet_size(
            self.receive_buffer.as_slice(),
        )
    }

    /// Handle the result of reading a packet to `receive_buffer`. Returns `None`
    /// if the packet should be read again.
    pub fn receive_packet(&self, result: Result<usize, rusb::Error>) -> (packet: Result<
        Option<(UsbPacketInType, &[u8])>,
        UsbError,
    >)
        requires
            result == Ok::<usize, rusb::Error>(USB_IN_PACKET_SIZE) ==> self.accepts_received(),
        ensures
            match result {
                Err(e) => packet == Err::<Option<(UsbPacketInType, &[u8])>, _>(
                    UsbError::ReadBulkFailed(e),
                ),
                Ok(size) => if size != USB_IN_PACKET_SIZE {
                    packet matches Ok(None)
                } else if 1 <= self.receive_buffer@[0] <= 2 {
                    &&& packet matches Ok(Some((packet_type, data)))
                    &&& packet_type.byte() == self.receive_buffer@[0]
                    &&& data@ == protocol::packet_data(self.receive_buffer@)
                } else {
                    packet == Err::<Option<(UsbPacketInType, &[u8])>, _>(
                        UsbError::UnknownInPacket(self.receive_buffer@[0]),
                    )
                },
            },
    {
        match result {
            Err(e) => Err(UsbError::ReadBulkFailed(e)),
            Ok(size) => {
                if size != USB_IN_PACKET_SIZE {
                    return Ok(None);
                }
                match UsbPacketInType::from_byte(self.receive_buffer[0]) {
                    Some(packet_type) => Ok(
                        Some(
                            (
                                packet_type,
                                protocol::read_packet_data(self.receive_buffer.as_slice()),
                            ),
                        ),
                    ),
                    None => Err(UsbError::UnknownInPacket(self.receive_buffer[0])),
                }
            },
        }
    }
}

/// What happened when a device was opened.
pub enum OpeningEvent<'a> {
    /// Vendor and product of the device.
    Descriptor(Result<(u16, u16), rusb::Error>),
    Opened(Result<(), rusb::Error>),
    /// The active configuration.
    Configuration(Result<u8, rusb::Error>),
    ConfigurationSet(Result<(), rusb::Error>),
    Interfaces(Result<&'a Vec<InterfaceInfo>, rusb::Error>),
    InterfaceClaimed(Result<(), rusb::Error>),
}

/// What to do next for opening a device.
pub enum OpeningAction {
    /// The device is not an accessory which can be used. Stop.
    NotFound,
    OpenDevice,
    GetConfiguration,
    SetConfiguration(u8),
    GetInterfaces,
    ClaimInterface(u8),
    /// The accessory is ready for use.
    Done(AndroidUsbAccessory),
}

/// Logic for opening a device in accessory mode. The first event is
/// `OpeningEvent::Descriptor`, and others are what the actions lead to. An error
/// stops opening.
pub struct AccessoryOpening {
    /// Product of the device, when it is an accessory.
    pub product_id: Option<u16>,
    /// Accessory whose interface is not yet claimed.
    pub accessory: Option<AndroidUsbAccessory>,
}

impl AccessoryOpening {
    pub fn new() -> (opening: Self)
        ensures
            opening.product_id is None,
            opening.accessory is None,
    {
        Self { product_id: None, accessory: None }
    }

    /// Can the event be handled. An interface is claimed only when an accessory is
    /// found.
    pub open spec fn accepts(self, event: OpeningEvent) -> bool {
        event is InterfaceClaimed ==> self.accessory is Some
    }

    /// Handle one event. Only the configuration of a device which has also the debug
    /// bridge is checked and, if needed, set to 1.
    pub fn handle_event<'a>(&mut self, event: OpeningEvent<'a>) -> (action: Result<
        OpeningAction,
        UsbError,
    >)
        requires
            old(self).accepts(event),
        ensures
            match event {
                OpeningEvent::Descriptor(Ok((vendor_id, product_id))) => {
                    let accessory = AndroidUsbAccessory::is_accessory(vendor_id, product_id);
                    &&& action == Ok::<OpeningAction, UsbError>(
                        if accessory {
                            OpeningAction::OpenDevice
                        } else {
                            OpeningAction::NotFound
                        },
                    )
                    &&& final(self).product_id == if accessory {
                        Some(product_id)
                    } else {
                        None
                    }
                    &&& final(self).accessory == old(self).accessory
                },
                OpeningEvent::Opened(Ok(_)) => {
                    &&& action == Ok::<OpeningAction, UsbError>(
                        if old(self).product_id == Some(ACCESSORY_MODE_AND_ADB_PRODUCT_ID) {
                            OpeningAction::GetConfiguration
                        } else {
                            OpeningAction::GetInterfaces
                        },
                    )
                    &&& *final(self) == *old(self)
                },
                OpeningEvent::Configuration(Ok(configuration)) => {
                    &&& action == Ok::<OpeningAction, UsbError>(
                        if configuration != 1 {
                            OpeningAction::SetConfiguration(1)
                        } else {
                            OpeningAction::GetInterfaces
                        },
                    )
                    &&& *final(self) == *old(self)
                },
                OpeningEvent::ConfigurationSet(Ok(_)) => {
                    &&& action == Ok::<OpeningAction, UsbError>(OpeningAction::GetInterfaces)
                    &&& *final(self) == *old(self)
                },
                OpeningEvent::Interfaces(Ok(interfaces)) => {
                    &&& final(self).product_id == old(self).product_id
                    &&& match scan_interfaces(nothing_found(), interfaces@) {
                        Ok(found) if found.complete() => {
                            &&& action == Ok::<OpeningAction, UsbError>(
                                OpeningAction::ClaimInterface(0),
                            )
                            &&& final(self).accessory matches Some(accessory)
                            &&& accessory.has_endpoints(found)
                        },
                        Ok(_) => {
                            &&& action == Ok::<OpeningAction, UsbError>(OpeningAction::NotFound)
                            &&& final(self).accessory is None
                        },
                        Err(size) => {
                            &&& action == Err::<OpeningAction, _>(
                                UsbError::UnsupportedEndpointMaxPacketSize(size),
                            )
                            &&& final(self).accessory is None
                        },
                    }
                },
                OpeningEvent::InterfaceClaimed(Ok(_)) => {
                    &&& action == Ok::<OpeningAction, UsbError>(
                        OpeningAction::Done(old(self).accessory->0),
                    )
                    &&& final(self).accessory is None
                    &&& final(self).product_id == old(self).product_id
                },
                OpeningEvent::Descriptor(Err(e)) => {
                    &&& action == Err::<OpeningAction, _>(UsbError::DeviceDescriptorRequestFailed(e))
                    &&& *final(self) == *old(self)
                },
                OpeningEvent::Opened(Err(e)) => {
                    &&& action == Err::<OpeningAction, _>(UsbError::DeviceOpenFailed(e))
                    &&& *final(self) == *old(self)
                },
                OpeningEvent::Configuration(Err(e)) => {
                    &&& action == Err::<OpeningAction, _>(UsbError::GetConfigurationFailed(e))
                    &&& *final(self) == *old(self)
                },
                OpeningEvent::ConfigurationSet(Err(e)) => {
                    &&& action == Err::<OpeningAction, _>(UsbError::SetConfigurationFailed(e))
                    &&& *final(self) == *old(self)
                },
                OpeningEvent::Interfaces(Err(e)) => {
                    &&& action == Err::<OpeningAction, _>(UsbError::GetConfigDescriptorFailed(e))
                    &&& *final(self) == *old(self)
                },
                OpeningEvent::InterfaceClaimed(Err(e)) => {
                    &&& action == Err::<OpeningAction, _>(UsbError::ClaimInterfaceFailed(e))
                    &&& *final(self) == *old(self)
                },
            },
    {
        match event {
            OpeningEvent::Descriptor(Ok((vendor_id, product_id))) => {
                if AndroidUsbAccessory::is_accessory_device(vendor_id, product_id) {
                    self.product_id = Some(product_id);
                    Ok(OpeningAction::OpenDevice)
                } else {
                    self.product_id = None;
                    Ok(OpeningAction::NotFound)
                }
            },
            OpeningEvent::Opened(Ok(_)) => match self.product_id {
                Some(product_id) if product_id == ACCESSORY_MODE_AND_ADB_PRODUCT_ID => Ok(
                    OpeningAction::GetConfiguration,
                ),
                _ => Ok(OpeningAction::GetInterfaces),
            },
            OpeningEvent::Configuration(Ok(configuration)) => if configuration != 1 {
                Ok(OpeningAction::SetConfiguration(1))
            } else {
                Ok(OpeningAction::GetInterfaces)
            },
            OpeningEvent::ConfigurationSet(Ok(_)) => Ok(OpeningAction::GetInterfaces),
            OpeningEvent::Interfaces(Ok(interfaces)) => {
                self.accessory = None;
                match AndroidUsbAccessory::new(interfaces) {
                    Ok(Some(accessory)) => {
                        self.accessory = Some(accessory);
                        Ok(OpeningAction::ClaimInterface(0))
                    },
                    Ok(None) => Ok(OpeningAction::NotFound),
                    Err(e) => Err(e),
                }
            },
            OpeningEvent::InterfaceClaimed(Ok(_)) => match self.accessory.take() {
                Some(accessory) => Ok(OpeningAction::Done(accessory)),
                None => Ok(OpeningAction::NotFound),
            },
            OpeningEvent::Descriptor(Err(e)) => Err(UsbError::DeviceDescriptorRequestFailed(e)),
            OpeningEvent::Opened(Err(e)) => Err(UsbError::DeviceOpenFailed(e)),
            OpeningEvent::Configuration(Err(e)) => Err(UsbError::GetConfigurationFailed(e)),
            OpeningEvent::ConfigurationSet(Err(e)) => Err(UsbError::SetConfigurationFailed(e)),
            OpeningEvent::Interfaces(Err(e)) => Err(UsbError::GetConfigDescriptorFailed(e)),
            OpeningEvent::InterfaceClaimed(Err(e)) => Err(UsbError::ClaimInterfaceFailed(e)),
        }
    }
}

/// Is there an endpoint with this direction, address and packet size among those which an
/// accessory can use: those of interface zero, where a descriptor has two of them.
pub open spec fn has_endpoint(
    interfaces: Seq<InterfaceInfo>,
    direction: TransferDirection,
    address: u8,
    max_packet_size: u16,
) -> bool {
    exists|i: int, j: int, k: int|
        {
            &&& 0 <= i < interfaces.len()
            &&& interfaces[i].number == 0
            &&& 0 <= j < interfaces[i].descriptors@.len()
            &&& interfaces[i].descriptors@[j].num_endpoints == 2
            &&& 0 <= k < interfaces[i].descriptors@[j].endpoints@.len()
            &&& #[trigger] interfaces[i].descriptors@[j].endpoints@[k] == (EndpointInfo {
                address,
                max_packet_size,
                direction,
            })
        }
}

/// At the start nothing is found, and all is found when there are endpoints for both
/// directions.
pub proof fn law_both_endpoints_are_needed(found: FoundEndpoints)
    ensures
        found == nothing_found() <==> !found.interface_found && found.endpoint_in is None
            && found.endpoint_out is None,
        found.complete() <==> found.endpoint_in is Some && found.endpoint_out is Some,
{
}

/// An endpoint is remembered for its direction, and the other direction stays as it was.
pub proof fn law_endpoint_is_found_for_its_direction(found: FoundEndpoints, endpoint: EndpointInfo)
    ensures
        ({
            let after = found.with_endpoint(endpoint);
            &&& after.interface_found == found.interface_found
            &&& endpoint.direction is In ==> after.endpoint_in == Some(endpoint.address)
                && after.endpoint_out == found.endpoint_out
            &&& endpoint.direction is Out ==> after.endpoint_out == Some(endpoint.address)
                && after.endpoint_in == found.endpoint_in
            &&& after.complete() <==> after.endpoint_in is Some && after.endpoint_out is Some
        }),
{
}

/// One more endpoint at the end replaces an earlier one with the same direction, if its
/// packet size is right. An error before it stays the error.
#[verifier::spinoff_prover]
pub proof fn law_later_endpoint_is_used(
    found: FoundEndpoints,
    endpoints: Seq<EndpointInfo>,
    endpoint: EndpointInfo,
)
    ensures
        scan_endpoints(found, Seq::empty()) == Ok::<FoundEndpoints, u16>(found),
        scan_endpoints(found, endpoints.push(endpoint)) == match scan_endpoints(found, endpoints) {
            Ok(earlier) => if endpoint.max_packet_size == 512 {
                Ok::<FoundEndpoints, u16>(earlier.with_endpoint(endpoint))
            } else {
                Err(endpoint.max_packet_size)
            },
            Err(size) => Err(size),
        },
    decreases endpoints.len(),
{
    let more = endpoints.push(endpoint);
    if endpoints.len() == 0 {
        assert(more.drop_first() =~= Seq::<EndpointInfo>::empty());
        assert(endpoints =~= Seq::<EndpointInfo>::empty());
        assert(scan_endpoints(found.with_endpoint(endpoint), more.drop_first()) == Ok::<
            FoundEndpoints,
            u16,
        >(found.with_endpoint(endpoint)));
    } else {
        assert(more[0] == endpoints[0]);
        assert(more.drop_first() =~= endpoints.drop_first().push(endpoint));
        law_later_endpoint_is_used(
            found.with_endpoint(endpoints[0]),
            endpoints.drop_first(),
            endpoint,
        );
    }
}

/// One more descriptor at the end is used if it has two endpoints.
#[verifier::spinoff_prover]
pub proof fn law_descriptors_with_two_endpoints_are_used(
    found: FoundEndpoints,
    descriptors: Seq<InterfaceDescriptorInfo>,
    descriptor: InterfaceDescriptorInfo,
)
    ensures
        scan_descriptors(found, Seq::empty()) == Ok::<FoundEndpoints, u16>(found),
        scan_descriptors(found, descriptors.push(descriptor)) == match scan_descriptors(
            found,
            descriptors,
        ) {
            Ok(earlier) => if descriptor.num_endpoints == 2 {
                scan_endpoints(earlier, descriptor.endpoints@)
            } else {
                Ok(earlier)
            },
            Err(size) => Err(size),
        },
    decreases descriptors.len(),
{
    let more = descriptors.push(descriptor);
    let rest = more.drop_first();
    if descriptors.len() == 0 {
        assert(more[0] == descriptor);
        assert(rest.len() == 0);
        assert(scan_descriptors(found, descriptors) == Ok::<FoundEndpoints, u16>(found));
        assert(scan_descriptors(found, rest) == Ok::<FoundEndpoints, u16>(found));
        if descriptor.num_endpoints == 2 {
            match scan_endpoints(found, descriptor.endpoints@) {
                Ok(next) => {
                    assert(scan_descriptors(next, rest) == Ok::<FoundEndpoints, u16>(next));
                    assert(scan_descriptors(found, more) == scan_descriptors(next, rest));
                },
                Err(size) => {
                    assert(scan_descriptors(found, more) == Err::<FoundEndpoints, u16>(size));
                },
            }
        } else {
            assert(scan_descriptors(found, more) == scan_descriptors(found, rest));
        }
    } else {
        let first = descriptors[0];
        let others = descriptors.drop_first();
        assert(more[0] == first);
        assert(rest =~= others.push(descriptor));
        if first.num_endpoints != 2 {
            law_descriptors_with_two_endpoints_are_used(found, others, descriptor);
            assert(scan_descriptors(found, more) == scan_descriptors(found, rest));
            assert(scan_descriptors(found, descriptors) == scan_descriptors(found, others));
        } else {
            match scan_endpoints(found, first.endpoints@) {
                Ok(next) => {
                    law_descriptors_with_two_endpoints_are_used(next, others, descriptor);
                    assert(scan_descriptors(found, more) == scan_descriptors(next, rest));
                    assert(scan_descriptors(found, descriptors) == scan_descriptors(next, others));
                },
                Err(size) => {
                    assert(scan_descriptors(found, more) == Err::<FoundEndpoints, u16>(size));
                    assert(scan_descriptors(found, descriptors) == Err::<FoundEndpoints, u16>(size));
                },
            }
        }
    }
}

/// One more interface at the end is used if its number is zero and an endpoint is still
/// missing.
#[verifier::spinoff_prover]
pub proof fn law_interfaces_are_used_until_all_is_found(
    found: FoundEndpoints,
    interfaces: Seq<InterfaceInfo>,
    interface: InterfaceInfo,
)
    requires
        !(found.endpoint_in is Some && found.endpoint_out is Some),
    ensures
        scan_interfaces(found, Seq::empty()) == Ok::<FoundEndpoints, u16>(found),
        scan_interfaces(found, interfaces.push(interface)) == match scan_interfaces(
            found,
            interfaces,
        ) {
            Ok(earlier) => if earlier.endpoint_in is Some && earlier.endpoint_out is Some {
                Ok(earlier)
            } else if interface.number != 0 {
                Ok(earlier)
            } else {
                match scan_descriptors(earlier, interface.descriptors@) {
                    Ok(last) => Ok(FoundEndpoints { interface_found: true, ..last }),
                    Err(size) => Err(size),
                }
            },
            Err(size) => Err::<FoundEndpoints, u16>(size),
        },
    decreases interfaces.len(),
{
    let more = interfaces.push(interface);
    let rest = more.drop_first();
    if interfaces.len() == 0 {
        assert(more[0] == interface);
        assert(rest.len() == 0);
        assert(scan_interfaces(found, interfaces) == Ok::<FoundEndpoints, u16>(found));
        assert(scan_interfaces(found, rest) == Ok::<FoundEndpoints, u16>(found));
        if interface.number == 0 {
            match scan_descriptors(found, interface.descriptors@) {
                Ok(next) => {
                    let next = FoundEndpoints { interface_found: true, ..next };
                    assert(scan_interfaces(next, rest) == Ok::<FoundEndpoints, u16>(next));
                    assert(scan_interfaces(found, more) == Ok::<FoundEndpoints, u16>(next));
                },
                Err(size) => {
                    assert(scan_interfaces(found, more) == Err::<FoundEndpoints, u16>(size));
                },
            }
        } else {
            assert(scan_interfaces(found, more) == scan_interfaces(found, rest));
        }
    } else {
        let first = interfaces[0];
        let others = interfaces.drop_first();
        assert(more[0] == first);
        assert(rest =~= others.push(interface));
        if first.number != 0 {
            law_interfaces_are_used_until_all_is_found(found, others, interface);
            assert(scan_interfaces(found, more) == scan_interfaces(found, rest));
            assert(scan_interfaces(found, interfaces) == scan_interfaces(found, others));
        } else {
            match scan_descriptors(found, first.descriptors@) {
                Ok(next) => {
                    let next = FoundEndpoints { interface_found: true, ..next };
                    if next.complete() {
                        assert(scan_interfaces(found, interfaces) == Ok::<FoundEndpoints, u16>(
                            next,
                        ));
                        assert(scan_interfaces(found, more) == Ok::<FoundEndpoints, u16>(next));
                    } else {
                        law_interfaces_are_used_until_all_is_found(next, others, interface);
                        assert(scan_interfaces(found, more) == scan_interfaces(next, rest));
                        assert(scan_interfaces(found, interfaces) == scan_interfaces(next, others));
                    }
                },
                Err(size) => {
                    assert(scan_interfaces(found, more) == Err::<FoundEndpoints, u16>(size));
                    assert(scan_interfaces(found, interfaces) == Err::<FoundEndpoints, u16>(size));
                },
            }
        }
    }
}

/// Is an endpoint of a descriptor list usable.
spec fn in_descriptors(descriptors: Seq<InterfaceDescriptorInfo>, endpoint: EndpointInfo) -> bool {
    exists|j: int, k: int|
        {
            &&& 0 <= j < descriptors.len()
            &&& descriptors[j].num_endpoints == 2
            &&& 0 <= k < descriptors[j].endpoints@.len()
            &&& #[trigger] descriptors[j].endpoints@[k] == endpoint
        }
}

/// What endpoints can add to what was found.
#[verifier::spinoff_prover]
proof fn lemma_scan_endpoints(found: FoundEndpoints, endpoints: Seq<EndpointInfo>)
    ensures
        match scan_endpoints(found, endpoints) {
            Ok(after) => {
                &&& after.interface_found == found.interface_found
                &&& found.endpoint_in is Some ==> after.endpoint_in is Some
                &&& found.endpoint_out is Some ==> after.endpoint_out is Some
                &&& after.endpoint_in == found.endpoint_in || (after.endpoint_in
                    matches Some(address) && endpoints.contains(
                    EndpointInfo {
                        address,
                        max_packet_size: 512,
                        direction: TransferDirection::In,
                    },
                ))
                &&& after.endpoint_out == found.endpoint_out || (after.endpoint_out
                    matches Some(address) && endpoints.contains(
                    EndpointInfo {
                        address,
                        max_packet_size: 512,
                        direction: TransferDirection::Out,
                    },
                ))
                &&& forall|k: int|
                    0 <= k < endpoints.len() ==> {
                        &&& (#[trigger] endpoints[k]).max_packet_size == 512
                        &&& endpoints[k].direction is In ==> after.endpoint_in is Some
                        &&& endpoints[k].direction is Out ==> after.endpoint_out is Some
                    }
            },
            Err(size) => size != 512 && exists|k: int|
                0 <= k < endpoints.len() && (#[trigger] endpoints[k]).max_packet_size == size,
        },
    decreases endpoints.len(),
{
    if endpoints.len() > 0 {
        let earlier = endpoints.drop_last();
        let last = endpoints.last();
        assert(earlier.push(last) =~= endpoints);
        lemma_scan_endpoints(found, earlier);
        law_later_endpoint_is_used(found, earlier, last);
        assert(endpoints[endpoints.len() - 1] == last);
        assert(forall|k: int| 0 <= k < earlier.len() ==> #[trigger] earlier[k] == endpoints[k]);
        match scan_endpoints(found, earlier) {
            Ok(before) => {
                assert forall|e: EndpointInfo| #[trigger]
                    earlier.contains(e) implies endpoints.contains(e) by {
                    let k = choose|k: int| 0 <= k < earlier.len() && earlier[k] == e;
                    assert(endpoints[k] == e);
                }
                if last.max_packet_size == 512 {
                    assert(endpoints.contains(last));
                    assert forall|k: int| 0 <= k < endpoints.len() implies {
                        let after = before.with_endpoint(last);
                        &&& (#[trigger] endpoints[k]).max_packet_size == 512
                        &&& endpoints[k].direction is In ==> after.endpoint_in is Some
                        &&& endpoints[k].direction is Out ==> after.endpoint_out is Some
                    } by {
                        if k < earlier.len() {
                            assert(earlier[k] == endpoints[k]);
                        }
                    }
                }
            },
            Err(size) => {
                let k = choose|k: int|
                    0 <= k < earlier.len() && (#[trigger] earlier[k]).max_packet_size == size;
                assert(endpoints[k].max_packet_size == size);
            },
        }
    }
}

/// What descriptors can add to what was found.
#[verifier::spinoff_prover]
proof fn lemma_scan_descriptors(found: FoundEndpoints, descriptors: Seq<InterfaceDescriptorInfo>)
    ensures
        match scan_descriptors(found, descriptors) {
            Ok(after) => {
                &&& after.interface_found == found.interface_found
                &&& found.endpoint_in is Some ==> after.endpoint_in is Some
                &&& found.endpoint_out is Some ==> after.endpoint_out is Some
                &&& after.endpoint_in == found.endpoint_in || (after.endpoint_in
                    matches Some(address) && in_descriptors(
                    descriptors,
                    EndpointInfo {
                        address,
                        max_packet_size: 512,
                        direction: TransferDirection::In,
                    },
                ))
                &&& after.endpoint_out == found.endpoint_out || (after.endpoint_out
                    matches Some(address) && in_descriptors(
                    descriptors,
                    EndpointInfo {
                        address,
                        max_packet_size: 512,
                        direction: TransferDirection::Out,
                    },
                ))
                &&& forall|e: EndpointInfo| #[trigger]
                    in_descriptors(descriptors, e) ==> {
                        &&& e.max_packet_size == 512
                        &&& e.direction is In ==> after.endpoint_in is Some
                        &&& e.direction is Out ==> after.endpoint_out is Some
                    }
            },
            Err(size) => size != 512 && exists|e: EndpointInfo| #[trigger]
                in_descriptors(descriptors, e) && e.max_packet_size == size,
        },
    decreases descriptors.len(),
{
    if descriptors.len() > 0 {
        let earlier = descriptors.drop_last();
        let last = descriptors.last();
        assert(earlier.push(last) =~= descriptors);
        lemma_scan_descriptors(found, earlier);
        law_descriptors_with_two_endpoints_are_used(found, earlier, last);
        assert forall|e: EndpointInfo| #[trigger] in_descriptors(earlier, e) implies in_descriptors(
            descriptors,
            e,
        ) by {
            let (j, k) = choose|j: int, k: int|
                {
                    &&& 0 <= j < earlier.len()
                    &&& earlier[j].num_endpoints == 2
                    &&& 0 <= k < earlier[j].endpoints@.len()
                    &&& #[trigger] earlier[j].endpoints@[k] == e
                };
            assert(descriptors[j].endpoints@[k] == e);
        }
        assert forall|e: EndpointInfo|
            last.num_endpoints == 2 && #[trigger] last.endpoints@.contains(
                e,
            ) implies in_descriptors(descriptors, e) by {
            let k = choose|k: int| 0 <= k < last.endpoints@.len() && last.endpoints@[k] == e;
            assert(descriptors[descriptors.len() - 1].endpoints@[k] == e);
        }
        assert forall|e: EndpointInfo| #[trigger]
            in_descriptors(descriptors, e) implies in_descriptors(earlier, e) || (
        last.num_endpoints == 2 && last.endpoints@.contains(e)) by {
            let (j, k) = choose|j: int, k: int|
                {
                    &&& 0 <= j < descriptors.len()
                    &&& descriptors[j].num_endpoints == 2
                    &&& 0 <= k < descriptors[j].endpoints@.len()
                    &&& #[trigger] descriptors[j].endpoints@[k] == e
                };
            if j < earlier.len() {
                assert(earlier[j].endpoints@[k] == e);
            }
        }
        match scan_descriptors(found, earlier) {
            Ok(before) => {
                if last.num_endpoints == 2 {
                    lemma_scan_endpoints(before, last.endpoints@);
                    match scan_endpoints(before, last.endpoints@) {
                        Ok(_) => {},
                        Err(size) => {
                            let k = choose|k: int|
                                0 <= k < last.endpoints@.len() && (
                                #[trigger] last.endpoints@[k]).max_packet_size == size;
                            assert(last.endpoints@.contains(last.endpoints@[k]));
                            assert(in_descriptors(descriptors, last.endpoints@[k]));
                        },
                    }
                }
            },
            Err(size) => {},
        }
    } else {
        assert(forall|e: EndpointInfo| !(#[trigger] in_descriptors(descriptors, e)));
    }
}

/// The endpoints which are found are endpoints of interface zero with the right direction
/// and packet size. If one is missing, there is no endpoint for that direction. An error
/// is a packet size which an endpoint of interface zero has.
#[verifier::spinoff_prover]
pub proof fn law_found_endpoints_are_of_interface_zero(interfaces: Seq<InterfaceInfo>)
    ensures
        match scan_interfaces(nothing_found(), interfaces) {
            Ok(found) => {
                &&& found.endpoint_in matches Some(address) ==> has_endpoint(
                    interfaces,
                    TransferDirection::In,
                    address,
                    512,
                )
                &&& found.endpoint_out matches Some(address) ==> has_endpoint(
                    interfaces,
                    TransferDirection::Out,
                    address,
                    512,
                )
                &&& !found.complete() ==> forall|
                    direction: TransferDirection,
                    address: u8,
                    size: u16,
                | #[trigger]
                    has_endpoint(interfaces, direction, address, size) ==> {
                        &&& size == 512
                        &&& direction is In ==> found.endpoint_in is Some
                        &&& direction is Out ==> found.endpoint_out is Some
                    }
                &&& found.complete() ==> found.interface_found
            },
            Err(size) => size != 512 && exists|direction: TransferDirection, address: u8| #[trigger]
                has_endpoint(interfaces, direction, address, size),
        },
    decreases interfaces.len(),
{
    if interfaces.len() > 0 {
        let earlier = interfaces.drop_last();
        let last = interfaces.last();
        assert(earlier.push(last) =~= interfaces);
        law_found_endpoints_are_of_interface_zero(earlier);
        law_interfaces_are_used_until_all_is_found(nothing_found(), earlier, last);
        assert forall|direction: TransferDirection, address: u8, size: u16| #[trigger]
            has_endpoint(earlier, direction, address, size) implies has_endpoint(
            interfaces,
            direction,
            address,
            size,
        ) by {
            let e = EndpointInfo { address, max_packet_size: size, direction };
            let (i, j, k) = choose|i: int, j: int, k: int|
                {
                    &&& 0 <= i < earlier.len()
                    &&& earlier[i].number == 0
                    &&& 0 <= j < earlier[i].descriptors@.len()
                    &&& earlier[i].descriptors@[j].num_endpoints == 2
                    &&& 0 <= k < earlier[i].descriptors@[j].endpoints@.len()
                    &&& #[trigger] earlier[i].descriptors@[j].endpoints@[k] == e
                };
            assert(interfaces[i].descriptors@[j].endpoints@[k] == e);
        }
        assert forall|e: EndpointInfo|
            last.number == 0 && #[trigger] in_descriptors(
                last.descriptors@,
                e,
            ) implies has_endpoint(interfaces, e.direction, e.address, e.max_packet_size) by {
            let (j, k) = choose|j: int, k: int|
                {
                    &&& 0 <= j < last.descriptors@.len()
                    &&& last.descriptors@[j].num_endpoints == 2
                    &&& 0 <= k < last.descriptors@[j].endpoints@.len()
                    &&& #[trigger] last.descriptors@[j].endpoints@[k] == e
                };
            assert(interfaces[interfaces.len() - 1].descriptors@[j].endpoints@[k] == e);
        }
        assert forall|direction: TransferDirection, address: u8, size: u16| #[trigger]
            has_endpoint(interfaces, direction, address, size) implies has_endpoint(
            earlier,
            direction,
            address,
            size,
        ) || (last.number == 0 && in_descriptors(
            last.descriptors@,
            EndpointInfo { address, max_packet_size: size, direction },
        )) by {
            let e = EndpointInfo { address, max_packet_size: size, direction };
            let (i, j, k) = choose|i: int, j: int, k: int|
                {
                    &&& 0 <= i < interfaces.len()
                    &&& interfaces[i].number == 0
                    &&& 0 <= j < interfaces[i].descriptors@.len()
                    &&& interfaces[i].descriptors@[j].num_endpoints == 2
                    &&& 0 <= k < interfaces[i].descriptors@[j].endpoints@.len()
                    &&& #[trigger] interfaces[i].descriptors@[j].endpoints@[k] == e
                };
            if i < earlier.len() {
                assert(earlier[i].descriptors@[j].endpoints@[k] == e);
            } else {
                assert(last.descriptors@[j].endpoints@[k] == e);
            }
        }
        match scan_interfaces(nothing_found(), earlier) {
            Ok(before) => {
                if !before.complete() && last.number == 0 {
                    lemma_scan_descriptors(before, last.descriptors@);
                    match scan_descriptors(before, last.descriptors@) {
                        Ok(_) => {},
                        Err(size) => {
                            let e = choose|e: EndpointInfo| #[trigger]
                                in_descriptors(last.descriptors@, e) && e.max_packet_size == size;
                            assert(has_endpoint(interfaces, e.direction, e.address, size));
                        },
                    }
                }
            },
            Err(size) => {
                let (direction, address) = choose|direction: TransferDirection, address: u8|
                    #[trigger] has_endpoint(earlier, direction, address, size);
                assert(has_endpoint(interfaces, direction, address, size));
            },
        }
    } else {
        assert(forall|direction: TransferDirection, address: u8, size: u16|
            !(#[trigger] has_endpoint(interfaces, direction, address, size)));
    }
}

/// A device is an accessory if it has the vendor of accessories and one of their two
/// products.
pub proof fn law_accessories_have_known_ids(vendor_id: u16, product_id: u16)
    ensures
        AndroidUsbAccessory::is_accessory(vendor_id, product_id) <==> vendor_id == 0x18d1 && (
        product_id == 0x2d00 || product_id == 0x2d01),
{
}

/// A new accessory uses the endpoints which were found, each for its direction, and its
/// buffers are empty.
pub proof fn law_accessory_uses_the_found_endpoints(
    accessory: AndroidUsbAccessory,
    found: FoundEndpoints,
)
    requires
        accessory.has_endpoints(found),
    ensures
        found.endpoint_in matches Some(address) && address == accessory.endpoint_in,
        found.endpoint_out matches Some(address) && address == accessory.endpoint_out,
        forall|i: int| 0 <= i < 512 ==> #[trigger] accessory.buffer@[i] == 0,
        forall|i: int| 0 <= i < 64 ==> #[trigger] accessory.receive_buffer@[i] == 0,
{
}

/// A received packet of a known type can be handled if its data fits in it. A packet of
/// an unknown type is an error in any case.
pub proof fn law_received_packets_with_fitting_data_are_handled(accessory: AndroidUsbAccessory)
    ensures
        accessory.accepts_received() <==> {
            ||| accessory.receive_buffer@[0] < 1
            ||| accessory.receive_buffer@[0] > 2
            ||| 256 * accessory.receive_buffer@[1] + accessory.receive_buffer@[2] <= 61
        },
{
}

} // verus!
