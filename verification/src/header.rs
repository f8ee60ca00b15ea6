use vstd::prelude::*;

use crate::errors::NdsError;

verus! {

/// Number of bytes the fixed-layout cartridge header occupies at offset 0.
pub const HEADER_LEN: usize = 48;

/// The 16-bit little-endian integer held at byte offset `i` of `b`.
pub open spec fn le16_at(b: Seq<u8>, i: int) -> u16 {
    (b[i] + b[i + 1] * 0x100) as u16
}

/// The 32-bit little-endian integer held at byte offset `i` of `b`.
pub open spec fn le32_at(b: Seq<u8>, i: int) -> u32 {
    (b[i] + b[i + 1] * 0x100 + b[i + 2] * 0x10000 + b[i + 3] * 0x1000000) as u32
}

/// The 64-bit little-endian integer held at byte offset `i` of `b`.
pub open spec fn le64_at(b: Seq<u8>, i: int) -> u64 {
    (le32_at(b, i) + le32_at(b, i + 4) * 0x100000000) as u64
}

/// Reads the 16-bit little-endian integer at offset `i`.
pub fn read_le16(b: &[u8], i: usize) -> (r: u16)
    requires
        i + 2 <= b@.len(),
    ensures
        r == le16_at(b@, i as int),
{
    (b[i] as u16) + (b[i + 1] as u16) * 0x100
}

/// Reads the 32-bit little-endian integer at offset `i`.
pub fn read_le32(b: &[u8], i: usize) -> (r: u32)
    requires
        i + 4 <= b@.len(),
    ensures
        r == le32_at(b@, i as int),
{
    (b[i] as u32) + (b[i + 1] as u32) * 0x100 + (b[i + 2] as u32) * 0x10000
        + (b[i + 3] as u32) * 0x1000000
}

/// Reads the 64-bit little-endian integer at offset `i`.
pub fn read_le64(b: &[u8], i: usize) -> (r: u64)
    requires
        i + 8 <= b@.len(),
    ensures
        r == le64_at(b@, i as int),
{
    let n: usize = b.len();
    proof {
        assert(i + 4 <= n);
    }
    let lo = read_le32(b, i);
    let hi = read_le32(b, i + 4);
    (lo as u64) + (hi as u64) * 0x100000000
}

/// The fixed-layout record at offset 0 of a cartridge image. Field order and
/// widths follow the on-disk byte layout exactly; `parse_nds` states the byte
/// offset of every field.
pub struct NDSCartridgeHeader {
    pub gametitle: Vec<u8>,
    pub gamecode: u32,
    pub makercode: u16,
    pub unitcode: u8,
    pub encrseedsel: u8,
    pub devicecaps: u8,
    pub res0: Vec<u8>,
    pub ndsregion: u8,
    pub romversion: u8,
    pub autostart: u8,
    pub arm9off: u32,
    pub arm9entry: u32,
    pub arm9raddr: u32,
    pub arm9size: u32,
}

impl NDSCartridgeHeader {
    /// Every field equals the decode of its documented byte range of `b`.
    pub open spec fn matches_bytes(self, b: Seq<u8>) -> bool {
        &&& self.gametitle@ == b.subrange(0, 12)
        &&& self.gamecode == le32_at(b, 12)
        &&& self.makercode == le16_at(b, 16)
        &&& self.unitcode == b[18]
        &&& self.encrseedsel == b[19]
        &&& self.devicecaps == b[20]
        &&& self.res0@ == b.subrange(21, 29)
        &&& self.ndsregion == b[29]
        &&& self.romversion == b[30]
        &&& self.autostart == b[31]
        &&& self.arm9off == le32_at(b, 32)
        &&& self.arm9entry == le32_at(b, 36)
        &&& self.arm9raddr == le32_at(b, 40)
        &&& self.arm9size == le32_at(b, 44)
    }

    /// Decodes the header from the first `HEADER_LEN` bytes of `bytes`,
    /// field by field in the documented order and widths.
    pub fn parse_nds(bytes: &[u8]) -> (r: Result<Self, NdsError>)
        ensures
            bytes@.len() < HEADER_LEN <==> r == Err::<Self, NdsError>(NdsError::TruncatedInput),
            bytes@.len() >= HEADER_LEN <==> r is Ok,
            r matches Ok(h) ==> h.matches_bytes(bytes@.subrange(0, HEADER_LEN as int)),
    {
        if bytes.len() < HEADER_LEN {
            return Err(NdsError::TruncatedInput);
        }
        let mut gametitle: Vec<u8> = Vec::new();
        let mut i: usize = 0;
        while i < 12
            invariant
                i <= 12,
                bytes@.len() >= 48,
                gametitle@ == bytes@.subrange(0, i as int),
            decreases 12 - i,
        {
            gametitle.push(bytes[i]);
            i += 1;
        }
        let mut res0: Vec<u8> = Vec::new();
        let mut j: usize = 21;
        while j < 29
            invariant
                21 <= j <= 29,
                bytes@.len() >= 48,
                res0@ == bytes@.subrange(21, j as int),
            decreases 29 - j,
        {
            res0.push(bytes[j]);
            j += 1;
        }
        let h = NDSCartridgeHeader {
            gametitle,
            gamecode: read_le32(bytes, 12),
            makercode: read_le16(bytes, 16),
            unitcode: bytes[18],
            encrseedsel: bytes[19],
            devicecaps: bytes[20],
            res0,
            ndsregion: bytes[29],
            romversion: bytes[30],
            autostart: bytes[31],
            arm9off: read_le32(bytes, 32),
            arm9entry: read_le32(bytes, 36),
            arm9raddr: read_le32(bytes, 40),
            arm9size: read_le32(bytes, 44),
        };
        proof {
            let p = bytes@.subrange(0, HEADER_LEN as int);
            assert(h.gametitle@ =~= p.subrange(0, 12));
            assert(h.res0@ =~= p.subrange(21, 29));
            assert(le32_at(p, 12) == le32_at(bytes@, 12));
            assert(le16_at(p, 16) == le16_at(bytes@, 16));
            assert(le32_at(p, 32) == le32_at(bytes@, 32));
            assert(le32_at(p, 36) == le32_at(bytes@, 36));
            assert(le32_at(p, 40) == le32_at(bytes@, 40));
            assert(le32_at(p, 44) == le32_at(bytes@, 44));
        }
        Ok(h)
    }

    /// The title keycode seeded by this header's game code:
    /// `{code, code >> 1, code << 1}`, each truncated to 32 bits.
    pub fn title_keycode(&self) -> (r: Vec<u32>)
        ensures
            r@.len() == 3,
            r@[0] == self.gamecode,
            r@[1] == self.gamecode >> 1,
            r@[2] == self.gamecode << 1,
    {
        let mut r: Vec<u32> = Vec::new();
        r.push(self.gamecode);
        r.push(self.gamecode >> 1);
        r.push(self.gamecode << 1);
        r
    }
}

/// Decodes a key table of exactly 1042 little-endian 32-bit words from the
/// start of `bytes`; fails when fewer than 1042 words are available.
pub fn load_encr_data(bytes: &[u8]) -> (r: Result<Vec<u32>, NdsError>)
    ensures
        bytes@.len() < 4168 <==> r == Err::<Vec<u32>, NdsError>(NdsError::TruncatedInput),
        bytes@.len() >= 4168 <==> r is Ok,
        r matches Ok(v) ==> {
            &&& v@.len() == 1042
            &&& forall|k: int| 0 <= k < 1042 ==> v@[k] == le32_at(bytes@, 4 * k)
        },
{
    if bytes.len() < 4168 {
        return Err(NdsError::TruncatedInput);
    }
    let mut v: Vec<u32> = Vec::new();
    let mut i: usize = 0;
    while i < 1042
        invariant
            i <= 1042,
            bytes@.len() >= 4168,
            v@.len() == i,
            forall|k: int| 0 <= k < i ==> v@[k] == le32_at(bytes@, 4 * k),
        decreases 1042 - i,
    {
        v.push(read_le32(bytes, 4 * i));
        i += 1;
    }
    Ok(v)
}

} // verus!
