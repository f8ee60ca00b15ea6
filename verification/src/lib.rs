//! Inspection of a handheld-console cartridge image: fixed-layout header
//! decoding, extraction of the boot-code region, the vendor block cipher
//! protecting its secure area, the per-title key schedule, and the CRC16
//! check over the secure area.

pub mod bootcode;
pub mod checksum;
pub mod cipher;
pub mod errors;
pub mod header;
pub mod schedule;

pub use bootcode::ARM9Bootcode;
pub use cipher::blowfish_nds;
pub use schedule::apply_keycode;
pub use checksum::bios_get_crc16;
pub use checksum::check_secure_area_crc;
pub use checksum::try_check_secure_area_crc;
pub use errors::NdsError;
pub use header::NDSCartridgeHeader;
pub use header::load_encr_data;
