use vstd::prelude::*;

verus! {

/// Number of 32-bit words in a key table: an 18-word P-array followed by
/// four 256-word S-boxes.
pub const KEY_TABLE_WORDS: usize = 1042;

/// The low 32 bits of a 64-bit block.
pub open spec fn lo32(v: u64) -> u32 {
    (v & 0xFFFF_FFFF) as u32
}

/// The high 32 bits of a 64-bit block.
pub open spec fn hi32(v: u64) -> u32 {
    ((v >> 32) & 0xFFFF_FFFF) as u32
}

/// A 64-bit block assembled from its low and high 32-bit halves.
pub open spec fn pack64(lo: u32, hi: u32) -> u64 {
    (lo as u64) | ((hi as u64) << 32)
}

/// Whether `k` is shaped like a key table.
pub open spec fn key_table_valid(k: Seq<u32>) -> bool {
    k.len() == KEY_TABLE_WORDS
}

/// The cipher's mixing of one 32-bit word through the four S-boxes: the
/// most significant byte indexes S-box 0 directly, the next is folded in by
/// wrapping addition through S-box 1, the next by XOR through S-box 2, and
/// the least significant by wrapping addition through S-box 3.
pub open spec fn sbox_mix(k: Seq<u32>, z: u32) -> u32 {
    let a = k[0x12 + ((z >> 24) & 0xFF)];
    let b = k[0x112 + ((z >> 16) & 0xFF)].wrapping_add(a);
    let c = k[0x212 + ((z >> 8) & 0xFF)] ^ b;
    k[0x312 + (z & 0xFF)].wrapping_add(c)
}

/// One Feistel round with P-array entry `i` as the round subkey:
/// `z = k[i] XOR x`, the new x is `y XOR sbox_mix(z)`, and the old z
/// becomes the new y.
pub open spec fn round_spec(k: Seq<u32>, x: u32, y: u32, i: int) -> (u32, u32) {
    let z = k[i] ^ x;
    (y ^ sbox_mix(k, z), z)
}

/// The state after the first `n` encryption rounds, which use P-array
/// entries 0..n-1 in ascending order.
pub open spec fn enc_rounds(k: Seq<u32>, x: u32, y: u32, n: nat) -> (u32, u32)
    decreases n,
{
    if n == 0 {
        (x, y)
    } else {
        let s = enc_rounds(k, x, y, (n - 1) as nat);
        round_spec(k, s.0, s.1, n - 1)
    }
}

/// The state after the first `n` decryption rounds, which use P-array
/// entries 17 down to 18-n in descending order.
pub open spec fn dec_rounds(k: Seq<u32>, x: u32, y: u32, n: nat) -> (u32, u32)
    decreases n,
{
    if n == 0 {
        (x, y)
    } else {
        let s = dec_rounds(k, x, y, (n - 1) as nat);
        round_spec(k, s.0, s.1, 18 - n)
    }
}

/// The whole forward transform: 16 rounds on (low half, high half), then
/// the encrypt-direction finalization, which XORs the y half with P-array
/// entry 16 and the x half with entry 17 and writes y to the low half of
/// the result and x to the high half.
pub open spec fn spec_encrypt_block(k: Seq<u32>, v: u64) -> u64 {
    let s = enc_rounds(k, lo32(v), hi32(v), 16);
    pack64(s.1 ^ k[16], s.0 ^ k[17])
}

/// The whole backward transform: 16 rounds with subkeys 17 down to 2, then
/// the decrypt-direction finalization with P-array entries 1 and 0.
pub open spec fn spec_decrypt_block(k: Seq<u32>, v: u64) -> u64 {
    let s = dec_rounds(k, lo32(v), hi32(v), 16);
    pack64(s.1 ^ k[1], s.0 ^ k[0])
}

/// The block transform in the direction chosen by `enc`.
pub open spec fn spec_blowfish(k: Seq<u32>, v: u64, enc: bool) -> u64 {
    if enc {
        spec_encrypt_block(k, v)
    } else {
        spec_decrypt_block(k, v)
    }
}

/// Extracts the low half of a block.
pub fn lo32_exec(v: u64) -> (r: u32)
    ensures
        r == lo32(v),
{
    proof {
        assert(v & 0xFFFF_FFFF <= 0xFFFF_FFFFu64) by (bit_vector);
    }
    (v & 0xFFFF_FFFF) as u32
}

/// Extracts the high half of a block.
pub fn hi32_exec(v: u64) -> (r: u32)
    ensures
        r == hi32(v),
{
    proof {
        assert((v >> 32) & 0xFFFF_FFFF <= 0xFFFF_FFFFu64) by (bit_vector);
    }
    ((v >> 32) & 0xFFFF_FFFF) as u32
}

/// Assembles a block from its halves.
pub fn pack64_exec(lo: u32, hi: u32) -> (r: u64)
    ensures
        r == pack64(lo, hi),
{
    (lo as u64) | ((hi as u64) << 32)
}

/// One executable Feistel round with subkey `k[i]`.
fn cipher_round(kbuf: &[u32], x: u32, y: u32, i: usize) -> (r: (u32, u32))
    requires
        key_table_valid(kbuf@),
        i < 18,
    ensures
        r == round_spec(kbuf@, x, y, i as int),
{
    let z = kbuf[i] ^ x;
    proof {
        assert(((z >> 24) & 0xFF) <= 0xFF && ((z >> 16) & 0xFF) <= 0xFF && ((z >> 8) & 0xFF)
            <= 0xFF && (z & 0xFF) <= 0xFF) by (bit_vector);
    }
    let mut t: u32 = kbuf[(0x12 + ((z >> 24) & 0xFF)) as usize];
    t = kbuf[(0x112 + ((z >> 16) & 0xFF)) as usize].wrapping_add(t);
    t = kbuf[(0x212 + ((z >> 8) & 0xFF)) as usize] ^ t;
    t = kbuf[(0x312 + (z & 0xFF)) as usize].wrapping_add(t);
    (y ^ t, z)
}

/// Transforms one 64-bit block in place with the key table `kbuf`, in the
/// direction chosen by `enc`: 16 Feistel rounds over the block's halves
/// (subkeys ascending 0..=15 when encrypting, descending 17..=2 when
/// decrypting) followed by the direction-dependent finalization.
pub fn blowfish_nds(v: &mut u64, kbuf: &[u32], enc: bool)
    requires
        key_table_valid(kbuf@),
    ensures
        *final(v) == spec_blowfish(kbuf@, *old(v), enc),
{
    let mut x: u32 = lo32_exec(*v);
    let mut y: u32 = hi32_exec(*v);
    let ghost x0 = x;
    let ghost y0 = y;
    if enc {
        let mut i: usize = 0;
        while i < 16
            invariant
                key_table_valid(kbuf@),
                i <= 16,
                (x, y) == enc_rounds(kbuf@, x0, y0, i as nat),
            decreases 16 - i,
        {
            let (nx, ny) = cipher_round(kbuf, x, y, i);
            x = nx;
            y = ny;
            i += 1;
        }
        y = y ^ kbuf[16];
        x = x ^ kbuf[17];
    } else {
        let mut i: usize = 17;
        while i >= 2
            invariant
                key_table_valid(kbuf@),
                1 <= i <= 17,
                (x, y) == dec_rounds(kbuf@, x0, y0, (17 - i) as nat),
            decreases i,
        {
            let (nx, ny) = cipher_round(kbuf, x, y, i);
            x = nx;
            y = ny;
            i -= 1;
        }
        y = y ^ kbuf[1];
        x = x ^ kbuf[0];
    }
    *v = pack64_exec(y, x);
}

proof fn lemma_xor_abc(a: u32, b: u32)
    ensures
        a ^ (b ^ a) == b,
{
    assert(a ^ (b ^ a) == b) by (bit_vector);
}

proof fn lemma_xor_fold(c: u32, d: u32, f: u32)
    ensures
        (c ^ (d ^ f)) ^ f == d ^ c,
{
    assert((c ^ (d ^ f)) ^ f == d ^ c) by (bit_vector);
}

proof fn lemma_xor_fold2(d: u32, f: u32, c: u32)
    ensures
        ((d ^ f) ^ c) ^ f == d ^ c,
{
    assert(((d ^ f) ^ c) ^ f == d ^ c) by (bit_vector);
}

proof fn lemma_xor_cancel_pair(a: u32, b: u32)
    ensures
        (a ^ b) ^ a == b,
        (b ^ a) ^ a == b,
{
    assert((a ^ b) ^ a == b && (b ^ a) ^ a == b) by (bit_vector);
}

proof fn lemma_unpack_pack(lo: u32, hi: u32)
    ensures
        lo32(pack64(lo, hi)) == lo,
        hi32(pack64(lo, hi)) == hi,
{
    assert(lo32(pack64(lo, hi)) == lo && hi32(pack64(lo, hi)) == hi) by (bit_vector);
}

proof fn lemma_pack_unpack(v: u64)
    ensures
        pack64(lo32(v), hi32(v)) == v,
{
    assert(pack64(lo32(v), hi32(v)) == v) by (bit_vector);
}

/// After `j` decryption rounds applied to the finalized encryption output,
/// the state is the encryption state of `16 - j` rounds, up to a XOR with
/// the P-array entry the next decryption round will cancel.
proof fn lemma_dec_undoes_enc_rounds(k: Seq<u32>, x0: u32, y0: u32, j: nat)
    requires
        key_table_valid(k),
        k[16] == k[17],
        1 <= j <= 16,
    ensures
        dec_rounds(k, enc_rounds(k, x0, y0, 16).1 ^ k[16], enc_rounds(k, x0, y0, 16).0 ^ k[17], j).0
            == enc_rounds(k, x0, y0, (16 - j) as nat).1 ^ k[17 - j],
        dec_rounds(k, enc_rounds(k, x0, y0, 16).1 ^ k[16], enc_rounds(k, x0, y0, 16).0 ^ k[17], j).1
            == enc_rounds(k, x0, y0, (17 - j) as nat).1,
    decreases j,
{
    let e16 = enc_rounds(k, x0, y0, 16);
    let xh0 = e16.1 ^ k[16];
    let yh0 = e16.0 ^ k[17];
    if j == 1 {
        let e15 = enc_rounds(k, x0, y0, 15);
        assert(e16 == round_spec(k, e15.0, e15.1, 15));
        assert(dec_rounds(k, xh0, yh0, 0) == (xh0, yh0));
        let d1 = dec_rounds(k, xh0, yh0, 1);
        assert(d1 == round_spec(k, xh0, yh0, 17));
        lemma_xor_abc(k[16], e16.1);
        assert(k[17] ^ xh0 == e16.1);
        lemma_xor_fold2(e15.1, sbox_mix(k, e16.1), k[17]);
        assert(d1.0 == e15.1 ^ k[16]);
        assert(d1.1 == e16.1);
    } else {
        lemma_dec_undoes_enc_rounds(k, x0, y0, (j - 1) as nat);
        let dpre = dec_rounds(k, xh0, yh0, (j - 1) as nat);
        let dj = dec_rounds(k, xh0, yh0, j);
        assert(dj == round_spec(k, dpre.0, dpre.1, 18 - j));
        let e_m2 = enc_rounds(k, x0, y0, (16 - j) as nat);
        let e_m1 = enc_rounds(k, x0, y0, (17 - j) as nat);
        let e_m0 = enc_rounds(k, x0, y0, (18 - j) as nat);
        assert(e_m1 == round_spec(k, e_m2.0, e_m2.1, 16 - j));
        assert(e_m0 == round_spec(k, e_m1.0, e_m1.1, 17 - j));
        lemma_xor_abc(k[18 - j], e_m1.1);
        assert(k[18 - j] ^ dpre.0 == e_m1.1);
        lemma_xor_fold(k[17 - j], e_m2.1, sbox_mix(k, e_m1.1));
        assert(dj.0 == e_m2.1 ^ k[17 - j]);
        assert(dj.1 == e_m1.1);
    }
}

/// The mirror image of `lemma_dec_undoes_enc_rounds` for the other
/// composition order.
proof fn lemma_enc_undoes_dec_rounds(k: Seq<u32>, x0: u32, y0: u32, j: nat)
    requires
        key_table_valid(k),
        k[0] == k[1],
        1 <= j <= 16,
    ensures
        enc_rounds(k, dec_rounds(k, x0, y0, 16).1 ^ k[1], dec_rounds(k, x0, y0, 16).0 ^ k[0], j).0
            == dec_rounds(k, x0, y0, (16 - j) as nat).1 ^ k[j as int],
        enc_rounds(k, dec_rounds(k, x0, y0, 16).1 ^ k[1], dec_rounds(k, x0, y0, 16).0 ^ k[0], j).1
            == dec_rounds(k, x0, y0, (17 - j) as nat).1,
    decreases j,
{
    let d16 = dec_rounds(k, x0, y0, 16);
    let xp0 = d16.1 ^ k[1];
    let yp0 = d16.0 ^ k[0];
    if j == 1 {
        let d15 = dec_rounds(k, x0, y0, 15);
        assert(d16 == round_spec(k, d15.0, d15.1, 2));
        assert(enc_rounds(k, xp0, yp0, 0) == (xp0, yp0));
        let e1 = enc_rounds(k, xp0, yp0, 1);
        assert(e1 == round_spec(k, xp0, yp0, 0));
        lemma_xor_abc(k[1], d16.1);
        assert(k[0] ^ xp0 == d16.1);
        lemma_xor_fold2(d15.1, sbox_mix(k, d16.1), k[0]);
        assert(e1.0 == d15.1 ^ k[1]);
        assert(e1.1 == d16.1);
    } else {
        lemma_enc_undoes_dec_rounds(k, x0, y0, (j - 1) as nat);
        let epre = enc_rounds(k, xp0, yp0, (j - 1) as nat);
        let ej = enc_rounds(k, xp0, yp0, j);
        assert(ej == round_spec(k, epre.0, epre.1, j - 1));
        let d_m2 = dec_rounds(k, x0, y0, (16 - j) as nat);
        let d_m1 = dec_rounds(k, x0, y0, (17 - j) as nat);
        let d_m0 = dec_rounds(k, x0, y0, (18 - j) as nat);
        assert(d_m1 == round_spec(k, d_m2.0, d_m2.1, j + 1 as int));
        assert(d_m0 == round_spec(k, d_m1.0, d_m1.1, j as int));
        lemma_xor_abc(k[j - 1], d_m1.1);
        assert(k[j - 1] ^ epre.0 == d_m1.1);
        lemma_xor_fold(k[j as int], d_m2.1, sbox_mix(k, d_m1.1));
        assert(ej.0 == d_m2.1 ^ k[j as int]);
        assert(ej.1 == d_m1.1);
    }
}

/// Round trip: on any key table whose P-array entries 0 and 1 agree and
/// whose entries 16 and 17 agree, decrypting an encrypted block gives the
/// block back, and encrypting a decrypted block does too. The
/// direction-dependent finalization pairs entry 16 with the half that
/// decryption first XORs with entry 17 (and entry 1 with the half
/// encryption first XORs with entry 0), so on tables where those pairs
/// differ the two transforms are not mutual inverses.
pub proof fn lemma_cipher_round_trip(k: Seq<u32>, v: u64)
    requires
        key_table_valid(k),
        k[0] == k[1],
        k[16] == k[17],
    ensures
        spec_blowfish(k, spec_blowfish(k, v, true), false) == v,
        spec_blowfish(k, spec_blowfish(k, v, false), true) == v,
{
    let x0 = lo32(v);
    let y0 = hi32(v);

    let e16 = enc_rounds(k, x0, y0, 16);
    let enc = spec_encrypt_block(k, v);
    lemma_unpack_pack(e16.1 ^ k[16], e16.0 ^ k[17]);
    assert(lo32(enc) == e16.1 ^ k[16]);
    assert(hi32(enc) == e16.0 ^ k[17]);
    lemma_dec_undoes_enc_rounds(k, x0, y0, 16);
    let d16 = dec_rounds(k, lo32(enc), hi32(enc), 16);
    assert(enc_rounds(k, x0, y0, 0) == (x0, y0));
    assert(enc_rounds(k, x0, y0, 1) == round_spec(k, x0, y0, 0));
    assert(d16.0 == y0 ^ k[1]);
    assert(d16.1 == k[0] ^ x0);
    lemma_xor_cancel_pair(k[1], x0);
    lemma_xor_cancel_pair(k[0], y0);
    assert(d16.1 ^ k[1] == x0);
    assert(d16.0 ^ k[0] == y0);
    lemma_pack_unpack(v);
    assert(spec_decrypt_block(k, enc) == v);

    let d16v = dec_rounds(k, x0, y0, 16);
    let dec = spec_decrypt_block(k, v);
    lemma_unpack_pack(d16v.1 ^ k[1], d16v.0 ^ k[0]);
    assert(lo32(dec) == d16v.1 ^ k[1]);
    assert(hi32(dec) == d16v.0 ^ k[0]);
    lemma_enc_undoes_dec_rounds(k, x0, y0, 16);
    let e16v = enc_rounds(k, lo32(dec), hi32(dec), 16);
    assert(dec_rounds(k, x0, y0, 0) == (x0, y0));
    assert(dec_rounds(k, x0, y0, 1) == round_spec(k, x0, y0, 17));
    assert(e16v.0 == y0 ^ k[16]);
    assert(e16v.1 == k[17] ^ x0);
    lemma_xor_cancel_pair(k[16], x0);
    lemma_xor_cancel_pair(k[17], y0);
    assert(e16v.1 ^ k[16] == x0);
    assert(e16v.0 ^ k[17] == y0);
    assert(spec_encrypt_block(k, dec) == v);
}

} // verus!
