use ndsdump::apply_keycode;

fn reference_table() -> Vec<u32> {
    (0..1042u32).map(|i| i.wrapping_mul(2654435761)).collect()
}

fn reference_keycode() -> Vec<u32> {
    vec![0x12345678, 0x091A2B3C, 0x2468ACF0]
}

fn fold_xor(t: &[u32]) -> u32 {
    t.iter().fold(0u32, |a, &w| a ^ w)
}

fn fold_sum(t: &[u32]) -> u32 {
    t.iter().fold(0u32, |a, &w| a.wrapping_add(w))
}

#[test]
fn schedule_is_deterministic() {
    let mut tk1 = reference_keycode();
    let mut k1 = reference_table();
    let mut tk2 = reference_keycode();
    let mut k2 = reference_table();
    apply_keycode(&mut tk1, &mut k1);
    apply_keycode(&mut tk2, &mut k2);
    assert_eq!(tk1, tk2);
    assert_eq!(k1, k2);
}

#[test]
fn schedule_leaves_sboxes_beyond_fill_untouched() {
    let mut tk = reference_keycode();
    let mut k = reference_table();
    apply_keycode(&mut tk, &mut k);
    assert_eq!(k.len(), 1042);
    // Only entries 0..=131 are rewritten; the rest keep their loaded values.
    for i in 132..1042u32 {
        assert_eq!(k[i as usize], i.wrapping_mul(2654435761));
    }
}

#[test]
fn schedule_reference_scenario() {
    let mut tk = reference_keycode();
    let mut k = reference_table();
    apply_keycode(&mut tk, &mut k);
    // Recorded reference derivation for this keycode and table: the mutated
    // keycode, the first and last rewritten table entries, and two folds
    // over the whole table, which pin every entry.
    assert_eq!(tk, vec![0xBD35DBAB, 0x354CF3C3, 0x059EF32E]);
    assert_eq!(k[0], 0xD4C2102C);
    assert_eq!(k[1], 0xF477B4C1);
    assert_eq!(k[130], 0xA03263EA);
    assert_eq!(k[131], 0xA71F19E4);
    assert_eq!(fold_xor(&k), 0x8151B033);
    assert_eq!(fold_sum(&k), 0x26528851);
}
