use vstd::prelude::*;

use crate::cipher::KEY_TABLE_WORDS;
use crate::cipher::blowfish_nds;
use crate::cipher::hi32;
use crate::cipher::hi32_exec;
use crate::cipher::key_table_valid;
use crate::cipher::lo32;
use crate::cipher::lo32_exec;
use crate::cipher::pack64;
use crate::cipher::pack64_exec;
use crate::cipher::spec_encrypt_block;

verus! {

/// The byte-swapped value of a 32-bit word.
pub open spec fn bswap32(x: u32) -> u32 {
    ((x & 0xFF) << 24) | (((x >> 8) & 0xFF) << 16) | (((x >> 16) & 0xFF) << 8) | ((x >> 24) & 0xFF)
}

/// Byte-swaps a 32-bit word.
pub fn bswap32_exec(x: u32) -> (r: u32)
    ensures
        r == bswap32(x),
{
    ((x & 0xFF) << 24) | (((x >> 8) & 0xFF) << 16) | (((x >> 16) & 0xFF) << 8) | ((x >> 24) & 0xFF)
}

/// The key table after the schedule's XOR stage: each of the first twelve
/// entries is XORed with the byte-swapped keycode word of matching index
/// parity; the rest of the table is unchanged.
pub open spec fn xor_stage(k: Seq<u32>, t0: u32, t1: u32) -> Seq<u32> {
    Seq::new(
        k.len(),
        |i: int|
            if i < 12 {
                k[i] ^ bswap32(
                    if i % 2 == 0 {
                        t0
                    } else {
                        t1
                    },
                )
            } else {
                k[i]
            },
    )
}

/// The key table and scratch block after `n` iterations of the schedule's
/// fill stage. Each iteration encrypts the running scratch block with the
/// current table and stores the result's high half at entry `2(n-1)` and
/// its low half at the entry after it, so every iteration depends on all
/// earlier ones.
pub open spec fn fill_rounds(k: Seq<u32>, s: u64, n: nat) -> (Seq<u32>, u64)
    decreases n,
{
    if n == 0 {
        (k, s)
    } else {
        let p = fill_rounds(k, s, (n - 1) as nat);
        let e = spec_encrypt_block(p.0, p.1);
        (p.0.update(2 * (n - 1), hi32(e)).update(2 * (n - 1) + 1, lo32(e)), e)
    }
}

/// The whole derivation: the value of (keycode, key table) after the
/// schedule has run. The two leading encrypt steps overlap: the block made
/// of keycode words 1 (low) and 2 (high) is encrypted and written back
/// first, then the block made of words 0 (low) and the fresh word 1 (high).
/// The XOR stage then folds the mutated keycode words 0 and 1 into the
/// first twelve table entries, and the fill stage rewrites entries 0..=131
/// from repeated encryptions of a zero-initialized scratch block.
pub open spec fn spec_apply_keycode(tk: Seq<u32>, k: Seq<u32>) -> (Seq<u32>, Seq<u32>) {
    let b1 = spec_encrypt_block(k, pack64(tk[1], tk[2]));
    let tk_a = tk.update(1, lo32(b1)).update(2, hi32(b1));
    let b0 = spec_encrypt_block(k, pack64(tk_a[0], tk_a[1]));
    let tk_b = tk_a.update(0, lo32(b0)).update(1, hi32(b0));
    let k_mid = xor_stage(k, tk_b[0], tk_b[1]);
    (tk_b, fill_rounds(k_mid, 0, 66).0)
}

/// Key-schedule derivation is a pure function of the title keycode and the
/// initial key table: identical inputs always yield identical mutated
/// keycodes and tables.
pub proof fn lemma_keycode_derivation_deterministic(
    tk1: Seq<u32>,
    k1: Seq<u32>,
    tk2: Seq<u32>,
    k2: Seq<u32>,
)
    requires
        tk1 == tk2,
        k1 == k2,
    ensures
        spec_apply_keycode(tk1, k1) == spec_apply_keycode(tk2, k2),
{
}

/// Mutates `kbuf` in place into the title-specific schedule for the 3-word
/// title keycode `tk`, which is mutated alongside it, exactly as
/// `spec_apply_keycode` states.
pub fn apply_keycode(tk: &mut Vec<u32>, kbuf: &mut Vec<u32>)
    requires
        old(tk)@.len() == 3,
        key_table_valid(old(kbuf)@),
    ensures
        final(tk)@ == spec_apply_keycode(old(tk)@, old(kbuf)@).0,
        final(kbuf)@ == spec_apply_keycode(old(tk)@, old(kbuf)@).1,
{
    let ghost k0 = kbuf@;
    let ghost tk0 = tk@;

    let mut b1: u64 = pack64_exec(tk[1], tk[2]);
    blowfish_nds(&mut b1, kbuf.as_slice(), true);
    tk[1] = lo32_exec(b1);
    tk[2] = hi32_exec(b1);

    let mut b0: u64 = pack64_exec(tk[0], tk[1]);
    blowfish_nds(&mut b0, kbuf.as_slice(), true);
    tk[0] = lo32_exec(b0);
    tk[1] = hi32_exec(b0);

    let t0 = tk[0];
    let t1 = tk[1];
    let ghost tk_b = tk@;
    assert(tk_b == spec_apply_keycode(tk0, k0).0);

    let mut i: usize = 0;
    while i < 12
        invariant
            kbuf@.len() == KEY_TABLE_WORDS,
            k0.len() == KEY_TABLE_WORDS,
            tk_b.len() == 3,
            i <= 12,
            t0 == tk_b[0],
            t1 == tk_b[1],
            forall|j: int| 0 <= j < i ==> kbuf@[j] == xor_stage(k0, t0, t1)[j],
            forall|j: int| i <= j < KEY_TABLE_WORDS ==> kbuf@[j] == k0[j],
        decreases 12 - i,
    {
        let w = if i % 2 == 0 {
            t0
        } else {
            t1
        };
        kbuf[i] = kbuf[i] ^ bswap32_exec(w);
        i += 1;
    }
    assert(kbuf@ =~= xor_stage(k0, t0, t1));
    let ghost k_mid = kbuf@;

    let mut scratch: u64 = 0;
    let mut n: usize = 0;
    while n < 66
        invariant
            kbuf@.len() == KEY_TABLE_WORDS,
            n <= 66,
            kbuf@ == fill_rounds(k_mid, 0, n as nat).0,
            scratch == fill_rounds(k_mid, 0, n as nat).1,
        decreases 66 - n,
    {
        blowfish_nds(&mut scratch, kbuf.as_slice(), true);
        kbuf[2 * n] = hi32_exec(scratch);
        kbuf[2 * n + 1] = lo32_exec(scratch);
        n += 1;
    }
}

} // verus!
