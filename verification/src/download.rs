use vstd::prelude::*;
use vstd::slice::slice_to_vec;
use vstd::string::StringSliceAdditionalSpecFns;
use crate::buffer::{overlay, FastbootBuffer, MemoryClass};
use crate::hex::{hex_text, push_hex};
use crate::usb_device::EfiUsbDeviceEvent;

verus! {

/// Size of the scratch buffer that inbound data is received into.
pub const RECEIVE_CHUNK: usize = 0x100_0000;

/// A download in progress: the destination and how much of it is filled.
#[derive(Debug)]
pub struct Download {
    /// The destination region; its write cursor counts what has arrived.
    pub target: FastbootBuffer,
}

/// What the transport has to do after an event was fed to a download.
#[derive(Clone, Copy, Debug, PartialEq, Eq, Structural)]
pub enum DownloadStep {
    /// Nothing arrived: poll again.
    Wait,
    /// Queue a transfer of this many bytes into the scratch buffer.
    Receive(usize),
    /// The destination is full.
    Complete,
    /// The link went away, or came up anew, before the destination was full.
    Aborted,
    /// The host sent more than was still missing.
    Overrun,
}

pub open spec fn min_nat(a: nat, b: nat) -> nat {
    if a <= b {
        a
    } else {
        b
    }
}

/// The step that follows an event, given how many bytes were still missing.
pub open spec fn step_of(remaining: nat, event: EfiUsbDeviceEvent) -> DownloadStep {
    match event {
        EfiUsbDeviceEvent::NoEvent => DownloadStep::Wait,
        EfiUsbDeviceEvent::Connected => DownloadStep::Aborted,
        EfiUsbDeviceEvent::Disconnected => DownloadStep::Aborted,
        EfiUsbDeviceEvent::OutData(data) => {
            if data@.len() > remaining {
                DownloadStep::Overrun
            } else if data@.len() == remaining {
                DownloadStep::Complete
            } else {
                DownloadStep::Receive(
                    min_nat((remaining - data@.len()) as nat, RECEIVE_CHUNK as nat) as usize,
                )
            }
        },
    }
}

impl Download {
    /// The declared size.
    pub open spec fn size(&self) -> nat {
        self.target.capacity()
    }

    /// How many bytes have arrived.
    pub open spec fn received(&self) -> nat {
        self.target.write_offset()
    }

    /// How many bytes are still missing.
    pub open spec fn remaining(&self) -> nat {
        (self.size() - self.received()) as nat
    }

    /// Starts a download of `size` bytes into a fresh destination.
    pub fn begin(size: usize) -> (d: Download)
        ensures
            d.target.class() == MemoryClass::BootServicesData,
            d.size() == size,
            d.received() == 0,
            d.target.bytes() == Seq::new(size as nat, |i: int| 0u8),
    {
        Download { target: FastbootBuffer::allocate(MemoryClass::BootServicesData, size) }
    }

    /// The size of the next transfer to queue: what is missing, but no more
    /// than the scratch buffer holds.
    pub fn next_chunk(&self) -> (n: usize)
        ensures
            n == min_nat(self.remaining(), RECEIVE_CHUNK as nat),
    {
        let received: usize = self.target.offset();
        let remaining: usize = self.target.len() - received;
        if remaining <= RECEIVE_CHUNK {
            remaining
        } else {
            RECEIVE_CHUNK
        }
    }

    /// Feeds one transport event to the download. Data that fits is appended
    /// to the destination; any other event leaves the destination as it is.
    pub fn on_event(&mut self, event: &EfiUsbDeviceEvent) -> (step: DownloadStep)
        ensures
            final(self).target.class() == old(self).target.class(),
            final(self).size() == old(self).size(),
            step == step_of(old(self).remaining(), *event),
            match *event {
                EfiUsbDeviceEvent::OutData(data) if data@.len() <= old(self).remaining() => {
                    &&& final(self).received() == old(self).received() + data@.len()
                    &&& final(self).target.bytes() == overlay(
                        old(self).target.bytes(),
                        old(self).received() as int,
                        data@,
                    )
                },
                _ => final(self).target == old(self).target,
            },
    {
        match event {
            EfiUsbDeviceEvent::NoEvent => DownloadStep::Wait,
            EfiUsbDeviceEvent::Connected => DownloadStep::Aborted,
            EfiUsbDeviceEvent::Disconnected => DownloadStep::Aborted,
            EfiUsbDeviceEvent::OutData(data) => {
                match self.target.write(data.as_slice()) {
                    Err(_) => DownloadStep::Overrun,
                    Ok(()) => {
                        if self.target.offset() == self.target.len() {
                            DownloadStep::Complete
                        } else {
                            DownloadStep::Receive(self.next_chunk())
                        }
                    },
                }
            },
        }
    }

    /// Ends the download and hands out the destination.
    pub fn into_payload(self) -> (payload: FastbootBuffer)
        ensures
            payload == self.target,
    {
        self.target
    }
}

/// The acknowledgment that opens the data phase: `DATA` and the size in at
/// least eight hexadecimal digits.
pub open spec fn data_ack(size: nat) -> Seq<u8> {
    "DATA".spec_bytes() + hex_text(size, 8)
}

/// Builds the acknowledgment that opens the data phase of a download.
pub fn data_response(size: usize) -> (r: Vec<u8>)
    ensures
        r@ == data_ack(size as nat),
{
    let mut r = slice_to_vec("DATA".as_bytes());
    push_hex(&mut r, size as u64, 8);
    r
}


/// The sizes of the transfers that are queued, one after the other, while
/// `remaining` bytes are missing and the host sends each time exactly what
/// was asked for.
pub open spec fn requests(remaining: nat) -> Seq<nat>
    decreases remaining,
{
    if remaining == 0 {
        seq![]
    } else {
        let chunk = min_nat(remaining, RECEIVE_CHUNK as nat);
        seq![chunk] + requests((remaining - chunk) as nat)
    }
}

/// The sum of a sequence of sizes.
pub open spec fn total(sizes: Seq<nat>) -> nat
    decreases sizes.len(),
{
    if sizes.len() == 0 {
        0
    } else {
        sizes[0] + total(sizes.drop_first())
    }
}

/// `requests` lists what the engine asks for: after a transfer of the size
/// that was asked for, the download is complete where nothing is missing any
/// more, and else the next request is the next size of the list.
pub proof fn lemma_requests_follow_the_engine(remaining: nat, data: Vec<u8>)
    requires
        0 < remaining <= usize::MAX,
        data@.len() == requests(remaining)[0],
    ensures
        requests(remaining)[0] == min_nat(remaining, RECEIVE_CHUNK as nat),
        requests(remaining).drop_first() == requests((remaining - data@.len()) as nat),
        step_of(remaining, EfiUsbDeviceEvent::OutData(data)) == if remaining == data@.len() {
            DownloadStep::Complete
        } else {
            DownloadStep::Receive(requests((remaining - data@.len()) as nat)[0] as usize)
        },
{
    let chunk = min_nat(remaining, RECEIVE_CHUNK as nat);
    let rest = requests((remaining - chunk) as nat);
    assert((seq![chunk] + rest).drop_first() =~= rest);
}

/// The requests of a download add up to its size, none is larger than the
/// scratch buffer, and a download that is larger takes at least two.
pub proof fn lemma_requests_add_up(size: nat)
    ensures
        total(requests(size)) == size,
        forall|i: int| 0 <= i < requests(size).len() ==> 0 < #[trigger] requests(size)[i] <= RECEIVE_CHUNK,
        size > RECEIVE_CHUNK ==> requests(size).len() >= 2,
        size > 0 ==> requests(size).len() >= 1,
    decreases size,
{
    if size > 0 {
        let chunk = min_nat(size, RECEIVE_CHUNK as nat);
        let rest = requests((size - chunk) as nat);
        lemma_requests_add_up((size - chunk) as nat);
        assert((seq![chunk] + rest).drop_first() =~= rest);
        assert forall|i: int| 0 <= i < requests(size).len() implies 0 < #[trigger] requests(
            size,
        )[i] <= RECEIVE_CHUNK by {
            if i > 0 {
                assert(requests(size)[i] == rest[i - 1]);
            }
        }
    }
}

} // verus!
