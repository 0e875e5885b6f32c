use vstd::prelude::*;
use vstd::arithmetic::power2::{lemma_pow2_pos, pow2};
use vstd::bits::lemma_u64_low_bits_mask_is_mod;
use vstd::slice::slice_subrange;
use vstd::utf8::{decode_utf8, valid_utf8};
use crate::buffer::{FastbootBuffer, MemoryClass};
use crate::error::BootError;
use crate::inflate::{inflate, inflated};
use crate::le::{
    byte_position,
    find_byte,
    lemma_byte_position_at_least,
    read_u16,
    read_u32,
    read_u64,
    u16_at,
    u32_at,
    u64_at,
};
use crate::peimage::{is_pe_image, is_peimage};
use crate::text::decode_text;

verus! {

/// Length of the fixed header at the start of a boot image.
pub const HEADER_LEN: usize = 1660;

/// Where the command-line field starts inside the header.
pub const CMDLINE_OFFSET: usize = 64;

/// Length of the command-line field.
pub const CMDLINE_LEN: usize = 512;

/// Size of the region a compressed kernel is inflated into.
pub const KERNEL_INFLATE_CAPACITY: usize = 0x800_0000;

/// The eight bytes `ANDROID!`.
pub open spec fn boot_magic() -> Seq<u8> {
    seq![0x41u8, 0x4e, 0x44, 0x52, 0x4f, 0x49, 0x44, 0x21]
}

/// Starts with the boot image magic.
pub open spec fn is_boot_image(p: Seq<u8>) -> bool {
    p.len() >= 8 && p.subrange(0, 8) == boot_magic()
}

/// Tells whether `payload` starts with the boot image magic.
pub fn is_bootimg(payload: &[u8]) -> (b: bool)
    ensures
        b == is_boot_image(payload@),
{
    if payload.len() < 8 {
        return false;
    }
    let b = payload[0] == 0x41 && payload[1] == 0x4e && payload[2] == 0x44 && payload[3] == 0x52
        && payload[4] == 0x4f && payload[5] == 0x49 && payload[6] == 0x44 && payload[7] == 0x21;
    proof {
        let head = payload@.subrange(0, 8);
        if b {
            assert(head =~= boot_magic());
        } else {
            assert(head[0] == payload@[0] && head[1] == payload@[1] && head[2] == payload@[2]
                && head[3] == payload@[3] && head[4] == payload@[4] && head[5] == payload@[5]
                && head[6] == payload@[6] && head[7] == payload@[7]);
        }
    }
    b
}

/// Starts with the gzip signature: the two identification bytes and the
/// deflate method.
pub open spec fn is_gzip_member(p: Seq<u8>) -> bool {
    p.len() > 2 && p[0] == 0x1f && p[1] == 0x8b && p[2] == 0x08
}

/// Tells whether `payload` starts with the gzip signature.
pub fn is_gzip(payload: &[u8]) -> (b: bool)
    ensures
        b == is_gzip_member(payload@),
{
    payload.len() > 2 && payload[0] == 0x1f && payload[1] == 0x8b && payload[2] == 0x08
}

/// The position of the first zero byte at or after `from`, or the length of
/// `s` where there is none.
pub open spec fn nul_position(s: Seq<u8>, from: int) -> int {
    byte_position(s, from, 0)
}

/// Where the member header of a gzip stream ends: after the ten fixed bytes
/// and whichever of the extra field, the file name, the comment and the
/// header checksum the flag byte announces. `None` where the fixed part, the
/// signature or the length of the extra field is missing.
pub open spec fn gzip_header_end(d: Seq<u8>) -> Option<int> {
    if d.len() < 10 || d[0] != 0x1f || d[1] != 0x8b || d[2] != 0x08 {
        None
    } else if d[3] & 0x04 != 0 && d.len() < 12 {
        None
    } else {
        let after_extra = if d[3] & 0x04 != 0 {
            12 + u16_at(d, 10)
        } else {
            10
        };
        let after_name = if d[3] & 0x08 != 0 {
            nul_position(d, after_extra) + 1
        } else {
            after_extra
        };
        let after_comment = if d[3] & 0x10 != 0 {
            nul_position(d, after_name) + 1
        } else {
            after_name
        };
        Some(
            if d[3] & 0x02 != 0 {
                after_comment + 2
            } else {
                after_comment
            },
        )
    }
}

/// The deflate stream of a gzip member: what lies between the member header
/// and the eight-byte trailer. `None` where the header is malformed or leaves
/// no room for the trailer.
pub open spec fn gzip_deflate_stream(d: Seq<u8>) -> Option<Seq<u8>> {
    match gzip_header_end(d) {
        Some(end) => if end + 8 <= d.len() {
            Some(d.subrange(end, d.len() - 8))
        } else {
            None
        },
        None => None,
    }
}

/// Cuts the deflate stream out of a gzip member.
pub fn gzip_deflate_slice(data: &[u8]) -> (r: Option<&[u8]>)
    ensures
        r is Some <==> gzip_deflate_stream(data@) is Some,
        r is Some ==> r->Some_0@ == gzip_deflate_stream(data@)->Some_0,
{
    let len: usize = data.len();
    if len < 10 || data[0] != 0x1f || data[1] != 0x8b || data[2] != 0x08 {
        return None;
    }
    let flags: u8 = data[3];
    let mut offset: usize = 10;
    if flags & 0x04 != 0 {
        if len < 12 {
            return None;
        }
        let xlen: usize = read_u16(data, 10) as usize;
        if len - 12 <= xlen {
            proof {
                lemma_byte_position_at_least(data@, 12 + xlen, 0);
                lemma_byte_position_at_least(data@, nul_position(data@, 12 + xlen) + 1, 0);
            }
            return None;
        }
        offset = 12 + xlen;
    }
    if flags & 0x08 != 0 {
        let pos: usize = find_byte(data, offset, 0);
        if pos >= len - 1 {
            proof {
                lemma_byte_position_at_least(data@, pos + 1, 0);
            }
            return None;
        }
        offset = pos + 1;
    }
    if flags & 0x10 != 0 {
        let pos: usize = find_byte(data, offset, 0);
        if pos >= len - 1 {
            return None;
        }
        offset = pos + 1;
    }
    if flags & 0x02 != 0 {
        if len - offset < 2 {
            return None;
        }
        offset += 2;
    }
    if len - offset < 8 {
        return None;
    }
    Some(slice_subrange(data, offset, len - 8))
}

/// An all-zero region of `n` bytes.
pub open spec fn zeros(n: nat) -> Seq<u8> {
    Seq::new(n, |i: int| 0u8)
}

/// Inflates the gzip member `payload` into `output`, which is used as it
/// stands, as one wrapping window. Fails where the member has no deflate
/// stream or the stream does not end cleanly inside the region.
pub fn gzip_decompress(payload: &[u8], output: &mut Vec<u8>) -> (r: Result<(), BootError>)
    ensures
        final(output)@.len() == old(output)@.len(),
        r is Err ==> r == Err::<(), BootError>(BootError::KernelDecompressionFailed),
        gzip_deflate_stream(payload@) is None ==> r is Err && final(output)@ == old(output)@,
        gzip_deflate_stream(payload@) is Some ==> {
            let outcome = inflated(gzip_deflate_stream(payload@)->Some_0, old(output)@);
            &&& r is Ok <==> outcome.0
            &&& final(output)@ == outcome.1
        },
{
    match gzip_deflate_slice(payload) {
        None => Err(BootError::KernelDecompressionFailed),
        Some(stream) => {
            if inflate(stream, output) {
                Ok(())
            } else {
                Err(BootError::KernelDecompressionFailed)
            }
        },
    }
}


/// The numeric fields of a version-2 boot image header.
#[derive(Clone, Copy, Debug, PartialEq, Eq, Structural)]
pub struct BootImageHeader {
    pub kernel_size: u32,
    pub kernel_addr: u32,
    pub ramdisk_size: u32,
    pub ramdisk_addr: u32,
    pub second_size: u32,
    pub second_addr: u32,
    pub tags_addr: u32,
    pub page_size: u32,
    pub header_version: u32,
    pub os_version: u32,
    pub recovery_dtbo_size: u32,
    pub recovery_dtbo_offset: u64,
    pub header_size: u32,
    pub dtb_size: u32,
    pub dtb_addr: u64,
}

/// The header that the first `HEADER_LEN` bytes of `p` spell out.
pub open spec fn header_of(p: Seq<u8>) -> BootImageHeader {
    BootImageHeader {
        kernel_size: u32_at(p, 8) as u32,
        kernel_addr: u32_at(p, 12) as u32,
        ramdisk_size: u32_at(p, 16) as u32,
        ramdisk_addr: u32_at(p, 20) as u32,
        second_size: u32_at(p, 24) as u32,
        second_addr: u32_at(p, 28) as u32,
        tags_addr: u32_at(p, 32) as u32,
        page_size: u32_at(p, 36) as u32,
        header_version: u32_at(p, 40) as u32,
        os_version: u32_at(p, 44) as u32,
        recovery_dtbo_size: u32_at(p, 1632) as u32,
        recovery_dtbo_offset: u64_at(p, 1636) as u64,
        header_size: u32_at(p, 1644) as u32,
        dtb_size: u32_at(p, 1648) as u32,
        dtb_addr: u64_at(p, 1652) as u64,
    }
}

/// Reads the fixed header, or nothing where the payload is too short for it.
pub fn parse_header(payload: &[u8]) -> (r: Option<BootImageHeader>)
    ensures
        r is Some <==> payload@.len() >= HEADER_LEN,
        r is Some ==> r->Some_0 == header_of(payload@),
{
    if payload.len() < HEADER_LEN {
        return None;
    }
    Some(
        BootImageHeader {
            kernel_size: read_u32(payload, 8),
            kernel_addr: read_u32(payload, 12),
            ramdisk_size: read_u32(payload, 16),
            ramdisk_addr: read_u32(payload, 20),
            second_size: read_u32(payload, 24),
            second_addr: read_u32(payload, 28),
            tags_addr: read_u32(payload, 32),
            page_size: read_u32(payload, 36),
            header_version: read_u32(payload, 40),
            os_version: read_u32(payload, 44),
            recovery_dtbo_size: read_u32(payload, 1632),
            recovery_dtbo_offset: read_u64(payload, 1636),
            header_size: read_u32(payload, 1644),
            dtb_size: read_u32(payload, 1648),
            dtb_addr: read_u64(payload, 1652),
        },
    )
}

/// The bits that rounding to `page_size` clears: `page_size - 1`, taken in
/// 32 bits, so that a page size of zero acts as 2^32.
pub open spec fn page_mask(page_size: u32) -> u64 {
    if page_size == 0 {
        0xffff_ffffu64
    } else {
        (page_size - 1) as u64
    }
}

/// `(offset + page_size - 1) & !(page_size - 1)`.
pub open spec fn aligned_up(offset: u64, page_size: u32) -> u64 {
    ((offset + page_mask(page_size)) as u64) & !page_mask(page_size)
}

/// Rounds `offset` up to the page size of the image.
pub fn page_align(offset: u64, page_size: u32) -> (r: u64)
    requires
        offset + page_mask(page_size) <= u64::MAX,
    ensures
        r == aligned_up(offset, page_size),
        offset <= r <= offset + page_mask(page_size),
{
    let mask: u64 = if page_size == 0 {
        0xffff_ffff
    } else {
        (page_size - 1) as u64
    };
    let sum: u64 = offset + mask;
    assert(sum & !mask <= sum && sum & !mask >= sum - mask) by (bit_vector)
        requires
            mask <= sum,
    ;
    sum & !mask
}

/// For every page size but zero, and so for every power of two: rounding up
/// never moves an offset back, moves it by less than a page, clears every
/// bit of `page_size - 1`, and leaves an offset that is already rounded
/// where it is.
pub proof fn lemma_page_align(offset: u64, page_size: u32)
    requires
        page_size != 0,
        offset + page_size - 1 <= u64::MAX,
    ensures
        aligned_up(offset, page_size) >= offset,
        aligned_up(offset, page_size) < offset + page_size,
        aligned_up(offset, page_size) & page_mask(page_size) == 0,
        aligned_up(aligned_up(offset, page_size), page_size) == aligned_up(offset, page_size),
{
    let m: u64 = page_mask(page_size);
    let sum: u64 = (offset + m) as u64;
    let r: u64 = sum & !m;
    assert(r >= sum - m && r <= sum && r & m == 0 && ((r + m) as u64) & !m == r) by (bit_vector)
        requires
            m <= sum,
            r == sum & !m,
    ;
}

/// Rounding up to a power of two lands on a multiple of the page size.
pub proof fn lemma_page_align_multiple(offset: u64, page_size: u32, exponent: nat)
    requires
        exponent < 32,
        page_size == pow2(exponent),
        offset + page_size - 1 <= u64::MAX,
    ensures
        aligned_up(offset, page_size) % (page_size as u64) == 0,
{
    lemma_pow2_pos(exponent);
    lemma_page_align(offset, page_size);
    lemma_u64_low_bits_mask_is_mod(aligned_up(offset, page_size), exponent);
}

/// Where each section of a boot image starts.
#[derive(Clone, Copy, Debug, PartialEq, Eq, Structural)]
pub struct SectionLayout {
    pub kernel_offset: u64,
    pub ramdisk_offset: u64,
    pub second_offset: u64,
    pub dtb_offset: u64,
}

/// Each section starts where the one before it ends, rounded up to a page;
/// the kernel follows the header.
pub open spec fn layout_of(h: BootImageHeader) -> SectionLayout {
    let kernel_offset = aligned_up(h.header_size as u64, h.page_size);
    let ramdisk_offset = aligned_up((kernel_offset + h.kernel_size) as u64, h.page_size);
    let second_offset = aligned_up((ramdisk_offset + h.ramdisk_size) as u64, h.page_size);
    let dtb_offset = aligned_up((second_offset + h.second_size) as u64, h.page_size);
    SectionLayout { kernel_offset, ramdisk_offset, second_offset, dtb_offset }
}

/// The sections follow each other without overlap, and none starts beyond 2^36.
pub proof fn lemma_layout_ordered(h: BootImageHeader)
    ensures
        h.header_size <= layout_of(h).kernel_offset,
        layout_of(h).kernel_offset + h.kernel_size <= layout_of(h).ramdisk_offset,
        layout_of(h).ramdisk_offset + h.ramdisk_size <= layout_of(h).second_offset,
        layout_of(h).second_offset + h.second_size <= layout_of(h).dtb_offset,
        layout_of(h).dtb_offset + h.dtb_size <= 0xf_ffff_ffff,
{
    let m: u64 = page_mask(h.page_size);
    let a: u64 = h.header_size as u64;
    let k: u64 = aligned_up(a, h.page_size);
    lemma_mask_bounds(a, m);
    let b: u64 = (k + h.kernel_size) as u64;
    let r: u64 = aligned_up(b, h.page_size);
    lemma_mask_bounds(b, m);
    let c: u64 = (r + h.ramdisk_size) as u64;
    let s: u64 = aligned_up(c, h.page_size);
    lemma_mask_bounds(c, m);
    let d: u64 = (s + h.second_size) as u64;
    lemma_mask_bounds(d, m);
}

proof fn lemma_mask_bounds(offset: u64, mask: u64)
    requires
        offset <= 0xffff_ffff_ffff,
        mask <= 0xffff_ffff,
    ensures
        offset <= (((offset + mask) as u64) & !mask) <= offset + mask,
{
    let sum: u64 = (offset + mask) as u64;
    assert(sum & !mask <= sum && sum & !mask >= sum - mask) by (bit_vector)
        requires
            mask <= sum,
    ;
}

/// Computes the start of every section.
pub fn section_layout(h: &BootImageHeader) -> (l: SectionLayout)
    ensures
        l == layout_of(*h),
{
    let kernel_offset = page_align(h.header_size as u64, h.page_size);
    let ramdisk_offset = page_align(kernel_offset + h.kernel_size as u64, h.page_size);
    let second_offset = page_align(ramdisk_offset + h.ramdisk_size as u64, h.page_size);
    let dtb_offset = page_align(second_offset + h.second_size as u64, h.page_size);
    SectionLayout { kernel_offset, ramdisk_offset, second_offset, dtb_offset }
}

/// The device-tree blob, and with it every section before it, ends inside a
/// payload of `len` bytes.
pub open spec fn sections_fit(h: BootImageHeader, len: nat) -> bool {
    layout_of(h).dtb_offset + h.dtb_size <= len
}

/// What the header says before any section is read: the error it leads to,
/// or the header itself.
pub open spec fn header_outcome(p: Seq<u8>) -> Result<BootImageHeader, BootError> {
    if p.len() < HEADER_LEN {
        Err(BootError::TruncatedPayload)
    } else if header_of(p).header_version != 2 {
        Err(BootError::UnsupportedHeaderVersion)
    } else if !sections_fit(header_of(p), p.len()) {
        Err(BootError::TruncatedPayload)
    } else {
        Ok(header_of(p))
    }
}

/// Reads the header and checks its version and that every section it
/// declares lies inside the payload.
pub fn checked_header(payload: &[u8]) -> (r: Result<BootImageHeader, BootError>)
    ensures
        r == header_outcome(payload@),
{
    let header = match parse_header(payload) {
        Some(h) => h,
        None => {
            return Err(BootError::TruncatedPayload);
        },
    };
    if header.header_version != 2 {
        return Err(BootError::UnsupportedHeaderVersion);
    }
    let layout = section_layout(&header);
    proof {
        lemma_layout_ordered(header);
    }
    if layout.dtb_offset + header.dtb_size as u64 > payload.len() as u64 {
        return Err(BootError::TruncatedPayload);
    }
    Ok(header)
}

/// The bytes of the kernel section.
pub open spec fn kernel_section(p: Seq<u8>) -> Seq<u8> {
    let h = header_of(p);
    p.subrange(layout_of(h).kernel_offset as int, layout_of(h).kernel_offset + h.kernel_size)
}

/// The bytes of the ramdisk section.
pub open spec fn ramdisk_section(p: Seq<u8>) -> Seq<u8> {
    let h = header_of(p);
    p.subrange(layout_of(h).ramdisk_offset as int, layout_of(h).ramdisk_offset + h.ramdisk_size)
}

/// The bytes of the device-tree blob.
pub open spec fn dtb_section(p: Seq<u8>) -> Seq<u8> {
    let h = header_of(p);
    p.subrange(layout_of(h).dtb_offset as int, layout_of(h).dtb_offset + h.dtb_size)
}

/// The command-line field up to its first zero byte.
pub open spec fn cmdline_bytes(p: Seq<u8>) -> Seq<u8> {
    let field = p.subrange(CMDLINE_OFFSET as int, CMDLINE_OFFSET + CMDLINE_LEN);
    field.subrange(0, nul_position(field, 0))
}

/// Copies `size` bytes of `payload` from `start` on into a region of their own.
fn copy_section(class: MemoryClass, payload: &[u8], start: u64, size: u32) -> (buffer:
    FastbootBuffer)
    requires
        start + size <= payload@.len(),
    ensures
        buffer.class() == class,
        buffer.bytes() == payload@.subrange(start as int, start + size),
        buffer.write_offset() == size,
{
    assert(start + size <= payload.len());
    let from: usize = start as usize;
    FastbootBuffer::filled(class, slice_subrange(payload, from, from + size as usize))
}

/// The kernel as it is loaded: a section that starts with the gzip signature
/// is inflated into an all-zero region of `KERNEL_INFLATE_CAPACITY` bytes,
/// any other section is taken as it stands.
pub open spec fn kernel_outcome(section: Seq<u8>) -> Result<Seq<u8>, BootError> {
    if is_gzip_member(section) {
        match gzip_deflate_stream(section) {
            None => Err(BootError::KernelDecompressionFailed),
            Some(stream) => {
                let outcome = inflated(stream, zeros(KERNEL_INFLATE_CAPACITY as nat));
                if outcome.0 {
                    Ok(outcome.1)
                } else {
                    Err(BootError::KernelDecompressionFailed)
                }
            },
        }
    } else {
        Ok(section)
    }
}

/// Puts the kernel section into executable memory, inflating it first where
/// it is compressed.
pub fn load_kernel(section: &[u8]) -> (r: Result<FastbootBuffer, BootError>)
    ensures
        r is Err ==> Err::<Seq<u8>, BootError>(r->Err_0) == kernel_outcome(section@),
        r is Ok ==> {
            &&& Ok::<Seq<u8>, BootError>(r->Ok_0.bytes()) == kernel_outcome(section@)
            &&& r->Ok_0.class() == MemoryClass::RuntimeServicesCode
            &&& r->Ok_0.write_offset() == r->Ok_0.capacity()
        },
{
    if is_gzip(section) {
        let mut region: Vec<u8> = vec![0u8; KERNEL_INFLATE_CAPACITY];
        assert(region@ =~= zeros(KERNEL_INFLATE_CAPACITY as nat));
        match gzip_decompress(section, &mut region) {
            Err(e) => Err(e),
            Ok(()) => Ok(FastbootBuffer::holding(MemoryClass::RuntimeServicesCode, region)),
        }
    } else {
        Ok(FastbootBuffer::filled(MemoryClass::RuntimeServicesCode, section))
    }
}

/// A boot image taken apart: each section in a region of its own, and the
/// command line as text.
#[derive(Debug)]
pub struct BootImage {
    pub kernel: FastbootBuffer,
    pub ramdisk: FastbootBuffer,
    pub dtb: FastbootBuffer,
    pub cmdline: String,
}

/// The contents of a `BootImage`.
pub struct BootImageView {
    pub kernel: Seq<u8>,
    pub ramdisk: Seq<u8>,
    pub dtb: Seq<u8>,
    pub cmdline: Seq<char>,
}

impl BootImage {
    pub open spec fn view(&self) -> BootImageView {
        BootImageView {
            kernel: self.kernel.bytes(),
            ramdisk: self.ramdisk.bytes(),
            dtb: self.dtb.bytes(),
            cmdline: self.cmdline@,
        }
    }

    /// Every region is filled to its end and lies in the memory class that
    /// its consumer expects.
    pub open spec fn wf(&self) -> bool {
        &&& self.kernel.class() == MemoryClass::RuntimeServicesCode
        &&& self.kernel.write_offset() == self.kernel.capacity()
        &&& self.ramdisk.class() == MemoryClass::BootServicesData
        &&& self.ramdisk.write_offset() == self.ramdisk.capacity()
        &&& self.dtb.class() == MemoryClass::AcpiReclaim
        &&& self.dtb.write_offset() == self.dtb.capacity()
    }
}

/// What a load returns, with the image reduced to its contents.
pub open spec fn outcome_view(r: Result<BootImage, BootError>) -> Result<BootImageView, BootError> {
    match r {
        Ok(image) => Ok(image@),
        Err(e) => Err(e),
    }
}

/// The image that `p` and an already loaded kernel make: the header checks
/// come first, then the kernel must be a loadable application and the
/// command line valid text.
pub open spec fn assembled(p: Seq<u8>, kernel: Seq<u8>) -> Result<BootImageView, BootError> {
    match header_outcome(p) {
        Err(e) => Err(e),
        Ok(h) => {
            if !is_pe_image(kernel) {
                Err(BootError::InvalidKernelImage)
            } else if !valid_utf8(cmdline_bytes(p)) {
                Err(BootError::InvalidCommandLine)
            } else {
                Ok(
                    BootImageView {
                        kernel,
                        ramdisk: ramdisk_section(p),
                        dtb: dtb_section(p),
                        cmdline: decode_utf8(cmdline_bytes(p)),
                    },
                )
            }
        },
    }
}

/// The whole load: header checks, then the kernel, then the rest.
pub open spec fn boot_image_outcome(p: Seq<u8>) -> Result<BootImageView, BootError> {
    match header_outcome(p) {
        Err(e) => Err(e),
        Ok(h) => match kernel_outcome(kernel_section(p)) {
            Err(e) => Err(e),
            Ok(kernel) => assembled(p, kernel),
        },
    }
}

/// Completes a boot image around a kernel that is already in memory:
/// validates the kernel, copies the ramdisk and the device-tree blob, and
/// decodes the command line.
pub fn assemble_bootimg(payload: &[u8], kernel: FastbootBuffer) -> (r: Result<BootImage, BootError>)
    ensures
        outcome_view(r) == assembled(payload@, kernel.bytes()),
        r is Ok ==> {
            &&& r->Ok_0.kernel == kernel
            &&& r->Ok_0.ramdisk.class() == MemoryClass::BootServicesData
            &&& r->Ok_0.ramdisk.write_offset() == r->Ok_0.ramdisk.capacity()
            &&& r->Ok_0.dtb.class() == MemoryClass::AcpiReclaim
            &&& r->Ok_0.dtb.write_offset() == r->Ok_0.dtb.capacity()
        },
{
    let header = match checked_header(payload) {
        Ok(h) => h,
        Err(e) => {
            return Err(e);
        },
    };
    if !is_peimage(kernel.as_slice()) {
        return Err(BootError::InvalidKernelImage);
    }
    let layout = section_layout(&header);
    proof {
        lemma_layout_ordered(header);
    }
    let ramdisk = copy_section(
        MemoryClass::BootServicesData,
        payload,
        layout.ramdisk_offset,
        header.ramdisk_size,
    );
    let dtb = copy_section(MemoryClass::AcpiReclaim, payload, layout.dtb_offset, header.dtb_size);
    let field = slice_subrange(payload, CMDLINE_OFFSET, CMDLINE_OFFSET + CMDLINE_LEN);
    let end = find_byte(field, 0, 0);
    let cmdline = match decode_text(slice_subrange(field, 0, end)) {
        Some(text) => text,
        None => {
            return Err(BootError::InvalidCommandLine);
        },
    };
    Ok(BootImage { kernel, ramdisk, dtb, cmdline })
}

/// Takes a boot image apart. The payload is expected to start with the boot
/// image magic; the header version, the section bounds, the kernel and the
/// command line are checked here, in this order.
pub fn handle_bootimg(payload: &[u8]) -> (r: Result<BootImage, BootError>)
    ensures
        outcome_view(r) == boot_image_outcome(payload@),
        r is Ok ==> r->Ok_0.wf(),
        payload@.len() >= HEADER_LEN && header_of(payload@).header_version == 2 && payload@.len()
            < layout_of(header_of(payload@)).dtb_offset + header_of(payload@).dtb_size ==> r
            is Err && r->Err_0 == BootError::TruncatedPayload,
{
    let header = match checked_header(payload) {
        Ok(h) => h,
        Err(e) => {
            return Err(e);
        },
    };
    let layout = section_layout(&header);
    proof {
        lemma_layout_ordered(header);
    }
    assert(layout.kernel_offset + header.kernel_size <= payload.len());
    let start: usize = layout.kernel_offset as usize;
    let section = slice_subrange(payload, start, start + header.kernel_size as usize);
    let kernel = match load_kernel(section) {
        Ok(k) => k,
        Err(e) => {
            return Err(e);
        },
    };
    assemble_bootimg(payload, kernel)
}


/// A well-formed image comes back as it went in: where the header passes
/// its checks, the kernel section is an uncompressed loadable application
/// and the command line is valid text, the load succeeds, the three regions
/// hold the three sections, each of the size the header declares, and the
/// command line is the field up to its first zero byte.
pub proof fn lemma_round_trip(p: Seq<u8>)
    requires
        header_outcome(p) is Ok,
        !is_gzip_member(kernel_section(p)),
        is_pe_image(kernel_section(p)),
        valid_utf8(cmdline_bytes(p)),
    ensures
        boot_image_outcome(p) is Ok,
        boot_image_outcome(p)->Ok_0.kernel == kernel_section(p),
        boot_image_outcome(p)->Ok_0.kernel.len() == header_of(p).kernel_size,
        boot_image_outcome(p)->Ok_0.ramdisk == ramdisk_section(p),
        boot_image_outcome(p)->Ok_0.ramdisk.len() == header_of(p).ramdisk_size,
        boot_image_outcome(p)->Ok_0.dtb == dtb_section(p),
        boot_image_outcome(p)->Ok_0.dtb.len() == header_of(p).dtb_size,
        boot_image_outcome(p)->Ok_0.cmdline == decode_utf8(cmdline_bytes(p)),
{
    lemma_layout_ordered(header_of(p));
}

/// A kernel that is not a loadable application stops the load, compressed
/// or not, whatever the rest of the image holds.
pub proof fn lemma_invalid_kernel_rejected(p: Seq<u8>, kernel: Seq<u8>)
    requires
        header_outcome(p) is Ok,
        !is_pe_image(kernel),
    ensures
        assembled(p, kernel) == Err::<BootImageView, BootError>(BootError::InvalidKernelImage),
{
}

} // verus!
