use vstd::prelude::*;

verus! {

/// Whether the host side of the link is attached.
#[derive(Clone, Copy, Debug, PartialEq, Eq, Structural)]
pub enum UsbDeviceState {
    Connected,
    Disconnected,
}

/// How a queued transfer ended, or that it has not ended yet.
#[derive(Clone, Copy, Debug, PartialEq, Eq, Structural)]
pub enum UsbDeviceTransferStatus {
    Active,
    CompleteOK,
    Cancelled,
    CompleteError,
}

/// The report on one transfer: its endpoint, its status and the bytes that
/// were completed.
#[derive(Debug)]
pub struct UsbDeviceTransferOutcome {
    pub status: UsbDeviceTransferStatus,
    pub endpoint_index: u8,
    pub data: Vec<u8>,
}

/// What one poll of the device service reports, with the payload that
/// belongs to the kind of event.
#[derive(Debug)]
pub enum UsbDeviceEvent {
    NoEvent,
    DeviceStateChange(UsbDeviceState),
    TransferNotification(UsbDeviceTransferOutcome),
    OemEvent,
}

} // verus!
