use vstd::prelude::*;
use crate::buffer::{FastbootBuffer, MemoryClass};
use crate::le::{read_u16, read_u32, u16_at, u32_at};

verus! {

/// Where the offset of the second header is stored.
pub const PE_OFFSET: usize = 0x3c;

/// Machine type of 64-bit ARM.
pub const PE_ARM64: u16 = 0xaa64;

/// Optional-header magic of the 64-bit image format.
pub const PE_PLUS: u16 = 0x020b;

/// Subsystem code of an EFI application.
pub const PE_SUBSYSTEM_EFI_APP: u16 = 10;

/// Smallest optional header that still holds the subsystem field.
pub const PE_MIN_OPTIONAL_HEADER: u16 = 88;

/// The offset of the second header, as the first header declares it.
pub open spec fn pe_header_offset(p: Seq<u8>) -> int {
    u32_at(p, 0x3c)
}

/// The first header: long enough to hold the offset field, and led by `MZ`.
pub open spec fn has_dos_header(p: Seq<u8>) -> bool {
    &&& p.len() >= 0x3c + 4
    &&& p[0] == 0x4d
    &&& p[1] == 0x5a
}

/// The second header starts with `PE\0\0` and every field that is inspected
/// lies inside the payload.
pub open spec fn has_pe_signature(p: Seq<u8>) -> bool {
    let at = pe_header_offset(p);
    &&& p.len() >= at + 94
    &&& p[at] == 0x50
    &&& p[at + 1] == 0x45
    &&& p[at + 2] == 0
    &&& p[at + 3] == 0
}

pub open spec fn pe_machine(p: Seq<u8>) -> int {
    u16_at(p, pe_header_offset(p) + 4)
}

pub open spec fn pe_optional_header_size(p: Seq<u8>) -> int {
    u16_at(p, pe_header_offset(p) + 20)
}

pub open spec fn pe_optional_magic(p: Seq<u8>) -> int {
    u16_at(p, pe_header_offset(p) + 24)
}

pub open spec fn pe_subsystem(p: Seq<u8>) -> int {
    u16_at(p, pe_header_offset(p) + 92)
}

/// A loadable application for the target: both headers are present and the
/// image is a 64-bit ARM64 EFI application.
pub open spec fn is_pe_image(p: Seq<u8>) -> bool {
    &&& has_dos_header(p)
    &&& has_pe_signature(p)
    &&& pe_machine(p) == 0xaa64
    &&& pe_optional_header_size(p) >= 88
    &&& pe_optional_magic(p) == 0x020b
    &&& pe_subsystem(p) == 10
}

/// What alone suffices to refuse a payload: being shorter than the offset
/// field of the first header reaches, a leading marker other than `MZ`, a
/// machine type other than ARM64, a subsystem other than EFI application.
pub proof fn lemma_not_an_image(p: Seq<u8>)
    ensures
        p.len() < 0x3c + 4 ==> !is_pe_image(p),
        p.len() >= 2 && (p[0] != 0x4d || p[1] != 0x5a) ==> !is_pe_image(p),
        pe_machine(p) != 0xaa64 ==> !is_pe_image(p),
        pe_subsystem(p) != 10 ==> !is_pe_image(p),
{
}

/// Tells whether `payload` is an executable image that the firmware can load
/// on this architecture. Never fails: a payload too short for any inspected
/// field is simply not an image.
pub fn is_peimage(payload: &[u8]) -> (b: bool)
    ensures
        b == is_pe_image(payload@),
{
    if payload.len() < PE_OFFSET + 4 || payload[0] != 0x4d || payload[1] != 0x5a {
        return false;
    }
    let pe_offset: u64 = read_u32(payload, PE_OFFSET) as u64;
    if (payload.len() as u64) < pe_offset + 94 {
        return false;
    }
    let at: usize = pe_offset as usize;
    if payload[at] != 0x50 || payload[at + 1] != 0x45 || payload[at + 2] != 0 || payload[at + 3]
        != 0 {
        return false;
    }
    if read_u16(payload, at + 4) != PE_ARM64 {
        return false;
    }
    if read_u16(payload, at + 20) < PE_MIN_OPTIONAL_HEADER {
        return false;
    }
    if read_u16(payload, at + 24) != PE_PLUS {
        return false;
    }
    read_u16(payload, at + 92) == PE_SUBSYSTEM_EFI_APP
}


/// Puts an executable image into executable memory, ready to be loaded.
pub fn handle_peimage(payload: &[u8]) -> (kernel: FastbootBuffer)
    ensures
        kernel.class() == MemoryClass::RuntimeServicesCode,
        kernel.bytes() == payload@,
        kernel.write_offset() == payload@.len(),
{
    FastbootBuffer::filled(MemoryClass::RuntimeServicesCode, payload)
}

} // verus!
