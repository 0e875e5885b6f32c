use vstd::prelude::*;
use crate::hex::{hex_text, push_hex};
use crate::le::{read_u32, u32_at};
use crate::proto::memcardinfo::MemCardInfoStruct;

verus! {

/// Where the serial number of a device comes from.
#[derive(Debug)]
pub enum SerialSource {
    /// The checksum of these bytes, to be computed by the firmware.
    Crc32Of(Vec<u8>),
    /// The number itself.
    Value(u32),
}

/// The card type starts with `UFS`.
pub open spec fn is_ufs(info: MemCardInfoStruct) -> bool {
    info.card_type@[0] == 0x55 && info.card_type@[1] == 0x46 && info.card_type@[2] == 0x53
}

/// Decides how the serial number of the device is derived: for UFS storage
/// it is the checksum of the serial-number text, for any other storage the
/// first four bytes of that field, read as a little-endian number. There is
/// none where the record declares a text longer than its field.
pub fn serial_source(info: &MemCardInfoStruct) -> (r: Option<SerialSource>)
    ensures
        is_ufs(*info) && info.serial_number_len > 252 ==> r is None,
        is_ufs(*info) && info.serial_number_len <= 252 ==> r is Some && r->Some_0 is Crc32Of
            && r->Some_0->Crc32Of_0@ == info.serial_number@.subrange(
            0,
            info.serial_number_len as int,
        ),
        !is_ufs(*info) ==> r is Some && r->Some_0 is Value && r->Some_0->Value_0 == u32_at(
            info.serial_number@,
            0,
        ),
{
    if info.card_type[0] == 0x55 && info.card_type[1] == 0x46 && info.card_type[2] == 0x53 {
        let len: usize = info.serial_number_len as usize;
        if len > 252 {
            return None;
        }
        let mut text: Vec<u8> = Vec::new();
        let mut i: usize = 0;
        while i < len
            invariant
                i <= len <= 252,
                text@ == info.serial_number@.subrange(0, i as int),
            decreases len - i,
        {
            text.push(info.serial_number[i]);
            assert(text@ =~= info.serial_number@.subrange(0, i + 1));
            i += 1;
        }
        Some(SerialSource::Crc32Of(text))
    } else {
        Some(SerialSource::Value(read_u32(info.serial_number.as_slice(), 0)))
    }
}

/// Writes a serial number as the device announces it: eight lower-case
/// hexadecimal digits.
pub fn generate_serial_number(serial: u32) -> (text: Vec<u8>)
    ensures
        text@ == hex_text(serial as nat, 8),
{
    let mut text: Vec<u8> = Vec::new();
    push_hex(&mut text, serial as u64, 8);
    assert(text@ =~= hex_text(serial as nat, 8));
    text
}

} // verus!
