use vstd::prelude::*;

use crate::errors::NdsError;
use crate::header::NDSCartridgeHeader;

verus! {

/// The 64-bit plaintext word that marks an already-decrypted secure area.
pub const SECURE_AREA_SENTINEL: u64 = 0xE7FFDEFFE7FFDEFF;

/// The only boot-code source offset this tool extracts from. A secure area
/// may legally start anywhere in [0x4000, 0x8000), but only 0x4000 is
/// supported here.
pub const SUPPORTED_ARM9_OFFSET: u32 = 0x4000;

/// A secure area is present iff the boot-code source offset falls in
/// [0x4000, 0x8000).
pub open spec fn spec_secure_area_present(arm9off: u32) -> bool {
    0x4000 <= arm9off < 0x8000
}

/// A present secure area is still encrypted iff its first 64-bit word
/// differs from the fixed plaintext sentinel.
pub open spec fn spec_secure_area_encrypted(first_word: u64) -> bool {
    first_word != SECURE_AREA_SENTINEL
}

/// Classifies a boot-code source offset: is a secure area present?
pub fn secure_area_present(arm9off: u32) -> (r: bool)
    ensures
        r == spec_secure_area_present(arm9off),
{
    0x4000 <= arm9off && arm9off < 0x8000
}

/// Classifies the leading boot-code word: is the secure area encrypted?
pub fn secure_area_encrypted(first_word: u64) -> (r: bool)
    ensures
        r == spec_secure_area_encrypted(first_word),
{
    first_word != SECURE_AREA_SENTINEL
}

/// The boot-code region: its 64-bit little-endian words, and what they say
/// about the secure area.
pub struct ARM9Bootcode {
    pub raw_data: Vec<u64>,
    pub secure_area_present: bool,
    pub secure_area_encrypted: bool,
}

impl ARM9Bootcode {
    /// Builds the boot-code record from the words read at the header's
    /// boot-code offset. `words` is what the source held from that offset
    /// on; the first `arm9size` of them are kept. Rejects any offset other
    /// than the single supported one, and a source holding fewer words than
    /// the header declares.
    pub fn new(words: Vec<u64>, hdr: &NDSCartridgeHeader) -> (r: Result<ARM9Bootcode, NdsError>)
        requires
            hdr.arm9size >= 1,
        ensures
            hdr.arm9off != SUPPORTED_ARM9_OFFSET <==> r == Err::<ARM9Bootcode, NdsError>(
                NdsError::UnsupportedLayout,
            ),
            (hdr.arm9off == SUPPORTED_ARM9_OFFSET && words@.len() < hdr.arm9size) <==> r
                == Err::<ARM9Bootcode, NdsError>(NdsError::TruncatedInput),
            r matches Ok(bc) ==> {
                &&& hdr.arm9off == SUPPORTED_ARM9_OFFSET
                &&& words@.len() >= hdr.arm9size
                &&& bc.raw_data@ == words@.subrange(0, hdr.arm9size as int)
                &&& bc.secure_area_present == spec_secure_area_present(hdr.arm9off)
                &&& bc.secure_area_encrypted == spec_secure_area_encrypted(words@[0])
            },
    {
        if hdr.arm9off != SUPPORTED_ARM9_OFFSET {
            return Err(NdsError::UnsupportedLayout);
        }
        let size = hdr.arm9size as usize;
        let mut contents = words;
        if contents.len() < size {
            return Err(NdsError::TruncatedInput);
        }
        contents.truncate(size);
        let first = contents[0];
        let r = ARM9Bootcode {
            raw_data: contents,
            secure_area_present: secure_area_present(hdr.arm9off),
            secure_area_encrypted: secure_area_encrypted(first),
        };
        Ok(r)
    }
}

} // verus!
