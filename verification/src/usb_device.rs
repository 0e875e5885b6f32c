use vstd::prelude::*;
use crate::proto::usb_device::{UsbDeviceEvent, UsbDeviceState, UsbDeviceTransferStatus};

verus! {

/// The bulk endpoint towards the host.
pub const ENDPOINT_IN: u8 = 0x81;

/// The bulk endpoint from the host.
pub const ENDPOINT_OUT: u8 = 0x1;

/// Descriptor type of a string descriptor.
pub const USB_DESC_TYPE_STRING: u8 = 3;

/// Length of the serial-number string descriptor.
pub const SERIAL_DESCRIPTOR_LEN: usize = 32;

/// What the session controller gets to see of the transport.
#[derive(Debug)]
pub enum EfiUsbDeviceEvent {
    NoEvent,
    Connected,
    Disconnected,
    OutData(Vec<u8>),
}

/// A change of the link state is passed on; of the transfers only one that
/// completed on the endpoint from the host carries data; all else is no event.
pub open spec fn event_of(raw: UsbDeviceEvent) -> EfiUsbDeviceEvent {
    match raw {
        UsbDeviceEvent::NoEvent => EfiUsbDeviceEvent::NoEvent,
        UsbDeviceEvent::DeviceStateChange(UsbDeviceState::Connected) => EfiUsbDeviceEvent::Connected,
        UsbDeviceEvent::DeviceStateChange(UsbDeviceState::Disconnected) => {
            EfiUsbDeviceEvent::Disconnected
        },
        UsbDeviceEvent::TransferNotification(outcome) => {
            if outcome.endpoint_index == ENDPOINT_OUT && outcome.status
                == UsbDeviceTransferStatus::CompleteOK {
                EfiUsbDeviceEvent::OutData(outcome.data)
            } else {
                EfiUsbDeviceEvent::NoEvent
            }
        },
        UsbDeviceEvent::OemEvent => EfiUsbDeviceEvent::NoEvent,
    }
}

/// Decodes what the device service reported into an event of the session.
pub fn handle_event(raw: UsbDeviceEvent) -> (event: EfiUsbDeviceEvent)
    ensures
        event == event_of(raw),
{
    match raw {
        UsbDeviceEvent::NoEvent => EfiUsbDeviceEvent::NoEvent,
        UsbDeviceEvent::DeviceStateChange(state) => match state {
            UsbDeviceState::Connected => EfiUsbDeviceEvent::Connected,
            UsbDeviceState::Disconnected => EfiUsbDeviceEvent::Disconnected,
        },
        UsbDeviceEvent::TransferNotification(outcome) => {
            if outcome.endpoint_index == ENDPOINT_OUT {
                match outcome.status {
                    UsbDeviceTransferStatus::CompleteOK => EfiUsbDeviceEvent::OutData(outcome.data),
                    UsbDeviceTransferStatus::Active => EfiUsbDeviceEvent::NoEvent,
                    UsbDeviceTransferStatus::Cancelled => EfiUsbDeviceEvent::NoEvent,
                    UsbDeviceTransferStatus::CompleteError => EfiUsbDeviceEvent::NoEvent,
                }
            } else {
                EfiUsbDeviceEvent::NoEvent
            }
        },
        UsbDeviceEvent::OemEvent => EfiUsbDeviceEvent::NoEvent,
    }
}

/// The serial-number string descriptor: the length of the text, the
/// descriptor type, the text, and zeros up to 32 bytes.
pub open spec fn serial_descriptor(serial_number: Seq<u8>) -> Seq<u8> {
    Seq::new(
        32,
        |i: int|
            if i == 0 {
                serial_number.len() as u8
            } else if i == 1 {
                3u8
            } else if i < 2 + serial_number.len() {
                serial_number[i - 2]
            } else {
                0u8
            },
    )
}

/// Builds the string descriptor that carries the serial number, given as
/// the bytes of its 16-bit text with the terminator. A text of more than 30
/// bytes does not fit the descriptor.
pub fn build_string_descriptors(serial_number: &[u8]) -> (r: Option<Vec<u8>>)
    ensures
        r is Some <==> serial_number@.len() <= 30,
        r is Some ==> r->Some_0@ == serial_descriptor(serial_number@),
{
    let length: usize = serial_number.len();
    if length > SERIAL_DESCRIPTOR_LEN - 2 {
        return None;
    }
    let mut descriptor: Vec<u8> = vec![0u8; SERIAL_DESCRIPTOR_LEN];
    descriptor[0] = length as u8;
    descriptor[1] = USB_DESC_TYPE_STRING;
    let mut i: usize = 0;
    while i < length
        invariant
            i <= length <= 30,
            length == serial_number@.len(),
            descriptor@.len() == 32,
            descriptor@[0] == length as u8,
            descriptor@[1] == 3,
            forall|j: int| 2 <= j < 2 + i ==> descriptor@[j] == serial_number@[j - 2],
            forall|j: int| 2 + i <= j < 32 ==> descriptor@[j] == 0,
        decreases length - i,
    {
        descriptor[2 + i] = serial_number[i];
        i += 1;
    }
    assert(descriptor@ =~= serial_descriptor(serial_number@));
    Some(descriptor)
}

} // verus!
