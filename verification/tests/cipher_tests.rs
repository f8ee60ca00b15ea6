use ndsdump::blowfish_nds;

fn zero_table() -> Vec<u32> {
    vec![0u32; 1042]
}

fn degenerate_table() -> Vec<u32> {
    // A table with varied contents whose P-array entries 0/1 and 16/17
    // agree, as the round-trip law asks.
    let mut k: Vec<u32> = (0..1042u32).map(|i| i.wrapping_mul(0x9E3779B9) ^ 0x5A5A5A5A).collect();
    k[1] = k[0];
    k[17] = k[16];
    k
}

#[test]
fn zero_table_encrypt_swaps_halves() {
    let k = zero_table();
    let mut v: u64 = 0x1122334455667788;
    blowfish_nds(&mut v, &k, true);
    assert_eq!(v, 0x5566778811223344);
}

#[test]
fn zero_table_decrypt_swaps_halves() {
    let k = zero_table();
    let mut v: u64 = 0x5566778811223344;
    blowfish_nds(&mut v, &k, false);
    assert_eq!(v, 0x1122334455667788);
}

#[test]
fn round_trip_on_degenerate_table() {
    let k = degenerate_table();
    for &b in &[0u64, 1, 0xE7FFDEFFE7FFDEFF, 0x0123456789ABCDEF, u64::MAX] {
        let mut v = b;
        blowfish_nds(&mut v, &k, true);
        blowfish_nds(&mut v, &k, false);
        assert_eq!(v, b);

        let mut w = b;
        blowfish_nds(&mut w, &k, false);
        blowfish_nds(&mut w, &k, true);
        assert_eq!(w, b);
    }
}

#[test]
fn encrypt_depends_on_table() {
    // The same block under two tables that differ in one S-box entry must
    // encrypt differently; a transform that ignored the table would not.
    let k1 = degenerate_table();
    let mut k2 = degenerate_table();
    k2[5] ^= 0xFFFF_FFFF;
    let mut a: u64 = 0x0123456789ABCDEF;
    let mut b: u64 = 0x0123456789ABCDEF;
    blowfish_nds(&mut a, &k1, true);
    blowfish_nds(&mut b, &k2, true);
    assert_ne!(a, b);
}

#[test]
fn golden_encrypt_reference_table() {
    // Recorded reference outputs for the fixed table above; any change to
    // the round structure, S-box addressing or finalization breaks these.
    let k = degenerate_table();
    let mut v: u64 = 0x0123456789ABCDEF;
    blowfish_nds(&mut v, &k, true);
    assert_eq!(v, 0xAA817A7F234301D1);
    let mut w: u64 = 0;
    blowfish_nds(&mut w, &k, false);
    assert_eq!(w, 0x0D1ABEC275241D75);
}
