use vstd::prelude::*;

verus! {

/// The identification record of the boot storage device.
#[derive(Clone, Copy, Debug)]
pub struct MemCardInfoStruct {
    pub manufacturer_id: u16,
    pub oem_id: u16,
    pub manufacturer_date: [u8; 8],
    pub serial_number: [u8; 252],
    pub serial_number_len: u32,
    pub inquiry_str: [u8; 29],
    pub rpmb_size: u32,
    pub reliable_write_count: u32,
    pub card_type: [u8; 4],
}

} // verus!
