use vstd::prelude::*;

verus! {

/// One shift round of the reflected CRC-16 used by the platform's boot ROM:
/// polynomial 0xA001 (0x8005 bit-reflected), shifting out the low bit.
pub open spec fn crc16_shift(c: u16) -> u16 {
    if c & 1 == 1 {
        (c >> 1) ^ 0xA001
    } else {
        c >> 1
    }
}

/// `n` shift rounds applied to `c`.
pub open spec fn crc16_shifts(c: u16, n: nat) -> u16
    decreases n,
{
    if n == 0 {
        c
    } else {
        crc16_shift(crc16_shifts(c, (n - 1) as nat))
    }
}

/// Folds one byte into the running value: XOR into the low byte, then eight
/// shift rounds.
pub open spec fn crc16_byte(c: u16, b: u8) -> u16 {
    crc16_shifts(c ^ (b as u16), 8)
}

/// The CRC-16 of the first `n` bytes of `data`, from initial value 0xFFFF.
pub open spec fn crc16_upto(data: Seq<u8>, n: nat) -> u16
    decreases n,
{
    if n == 0 {
        0xFFFF
    } else {
        crc16_byte(crc16_upto(data, (n - 1) as nat), data[n - 1])
    }
}

/// The boot-ROM CRC-16 of a whole byte sequence.
pub open spec fn spec_crc16(data: Seq<u8>) -> u16 {
    crc16_upto(data, data.len())
}

/// Computes the boot-ROM CRC-16 convention (reflected polynomial 0xA001,
/// initial value 0xFFFF, no final XOR) over an arbitrary-length byte slice.
pub fn bios_get_crc16(data: &[u8]) -> (r: u16)
    ensures
        r == spec_crc16(data@),
{
    let mut c: u16 = 0xFFFF;
    let n: usize = data.len();
    let mut i: usize = 0;
    while i < n
        invariant
            i <= n,
            n == data@.len(),
            c == crc16_upto(data@, i as nat),
        decreases n - i,
    {
        c = c ^ (data[i] as u16);
        let mut k: usize = 0;
        while k < 8
            invariant
                k <= 8,
                c == crc16_shifts(crc16_upto(data@, i as nat) ^ (data@[i as int] as u16), k as nat),
            decreases 8 - k,
        {
            if c & 1 == 1 {
                c = (c >> 1) ^ 0xA001;
            } else {
                c = c >> 1;
            }
            k += 1;
        }
        i += 1;
    }
    c
}

/// Checks the embedded secure-area CRC-16 at `crc` against the value
/// recomputed over the 0x7F0-byte slice spanning secure-area bytes
/// [0x10, 0x800). Returns whether they match, together with the recomputed
/// value so a wrong embedded one can be corrected when repacking.
pub fn check_secure_area_crc(crc: &u16, sec_area_slice: &[u8]) -> (r: (bool, u16))
    requires
        sec_area_slice@.len() == 0x7F0,
    ensures
        r.1 == spec_crc16(sec_area_slice@),
        r.0 <==> *crc == spec_crc16(sec_area_slice@),
{
    let crc_correct = bios_get_crc16(sec_area_slice);
    (crc_correct == *crc, crc_correct)
}

/// Length-checked entry to the validator: rejects any slice that is not
/// exactly 0x7F0 bytes instead of treating it as a caller fault.
pub fn try_check_secure_area_crc(crc: &u16, sec_area_slice: &[u8]) -> (r: Option<(bool, u16)>)
    ensures
        sec_area_slice@.len() != 0x7F0 <==> r is None,
        r matches Some(p) ==> {
            &&& p.1 == spec_crc16(sec_area_slice@)
            &&& (p.0 <==> *crc == spec_crc16(sec_area_slice@))
        },
{
    if sec_area_slice.len() != 0x7F0 {
        return None;
    }
    Some(check_secure_area_crc(crc, sec_area_slice))
}

} // verus!
