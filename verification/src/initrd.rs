use vstd::prelude::*;
use crate::buffer::{overlay, FastbootBuffer};
use crate::error::BootError;

verus! {

/// The vendor GUID under which the next stage looks for the ramdisk,
/// `5568e427-68fc-4f3d-ac74-ca555231cc68`, in its stored byte order.
pub open spec fn initrd_media_guid() -> Seq<u8> {
    seq![
        0x27u8,
        0xe4,
        0x68,
        0x55,
        0xfc,
        0x68,
        0x3d,
        0x4f,
        0xac,
        0x74,
        0xca,
        0x55,
        0x52,
        0x31,
        0xcc,
        0x68,
    ]
}

/// A device path of one vendor-defined media node without data, closed by
/// the end-of-path node.
pub open spec fn vendor_path(guid: Seq<u8>) -> Seq<u8> {
    seq![0x04u8, 0x03, 0x14, 0x00] + guid + seq![0x7fu8, 0xff, 0x04, 0x00]
}

/// Builds a device path with `uefi`'s `DevicePathBuilder`: one
/// `media::Vendor` node with the given GUID and no data, then the end node
/// that `finalize` appends. Trusted: the bytes are the two nodes as the
/// device-path format lays them out.
#[verifier::external_body]
fn vendor_device_path(guid: &[u8; 16]) -> (path: Vec<u8>)
    ensures
        path@ == vendor_path(guid@),
{
    let mut storage = Vec::new();
    let node = uefi::proto::device_path::build::media::Vendor {
        vendor_guid: uefi::Guid::from_bytes(*guid),
        vendor_defined_data: &[],
    };
    uefi::proto::device_path::build::DevicePathBuilder::with_vec(&mut storage)
        .push(&node)
        .unwrap()
        .finalize()
        .unwrap()
        .as_bytes()
        .to_vec()
}

/// The file-loading capability that serves the ramdisk.
#[derive(Debug)]
pub struct LoadFile2ProtocolWrapper {
    pub buffer: FastbootBuffer,
}

impl LoadFile2ProtocolWrapper {
    pub fn new(buffer: FastbootBuffer) -> (wrapper: Self)
        ensures
            wrapper.buffer == buffer,
    {
        LoadFile2ProtocolWrapper { buffer }
    }

    /// Serves one read request. The length of the ramdisk is reported in
    /// `buf_len` in every case. A destination that is absent or shorter than
    /// the ramdisk is left alone and the request fails; any other
    /// destination receives the ramdisk at its front.
    pub fn load_file(&self, buf_len: &mut usize, buf: Option<&mut Vec<u8>>) -> (r: Result<
        (),
        BootError,
    >)
        ensures
            *final(buf_len) == self.buffer.capacity(),
            match buf {
                None => r == Err::<(), BootError>(BootError::BufferTooSmall),
                Some(destination) => if destination@.len() < self.buffer.capacity() {
                    &&& r == Err::<(), BootError>(BootError::BufferTooSmall)
                    &&& final(destination)@ == destination@
                } else {
                    &&& r is Ok
                    &&& final(destination)@ == overlay(destination@, 0, self.buffer.bytes())
                },
            },
    {
        *buf_len = self.buffer.len();
        match buf {
            None => Err(BootError::BufferTooSmall),
            Some(destination) => {
                let source = self.buffer.as_slice();
                let ghost before = destination@;
                if destination.len() < source.len() {
                    return Err(BootError::BufferTooSmall);
                }
                let mut i: usize = 0;
                while i < source.len()
                    invariant
                        i <= source@.len() <= destination@.len(),
                        destination@.len() == before.len(),
                        forall|j: int|
                            0 <= j < destination@.len() ==> #[trigger] destination@[j] == if j
                                < i {
                                source@[j]
                            } else {
                                before[j]
                            },
                    decreases source@.len() - i,
                {
                    destination[i] = source[i];
                    i += 1;
                }
                assert(destination@ =~= overlay(before, 0, source@));
                Ok(())
            },
        }
    }
}

/// The ramdisk as it is exposed to the next stage: the file-loading
/// capability and the path record it is registered under.
#[derive(Debug)]
pub struct LinuxInitrd {
    pub load_file: LoadFile2ProtocolWrapper,
    pub device_path: Vec<u8>,
}

impl LinuxInitrd {
    /// Pairs the ramdisk with its vendor-tagged path record.
    pub fn new(ramdisk: FastbootBuffer) -> (initrd: Self)
        ensures
            initrd.load_file.buffer == ramdisk,
            initrd.device_path@ == vendor_path(initrd_media_guid()),
    {
        LinuxInitrd {
            load_file: LoadFile2ProtocolWrapper::new(ramdisk),
            device_path: Self::build_initrd_device_path(),
        }
    }

    /// The path record of the ramdisk: a single vendor node with the
    /// ramdisk GUID.
    pub fn build_initrd_device_path() -> (path: Vec<u8>)
        ensures
            path@ == vendor_path(initrd_media_guid()),
    {
        let guid: [u8; 16] = [
            0x27,
            0xe4,
            0x68,
            0x55,
            0xfc,
            0x68,
            0x3d,
            0x4f,
            0xac,
            0x74,
            0xca,
            0x55,
            0x52,
            0x31,
            0xcc,
            0x68,
        ];
        assert(guid@ =~= initrd_media_guid());
        vendor_device_path(&guid)
    }
}

} // verus!
