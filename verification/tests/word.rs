use crisp_vm::machine::word::{right_shift_arithmetic, sign_extend, signed_ge, signed_lt};

const SAMPLES: [u32; 12] = [
    0,
    1,
    2,
    0x7f,
    0x80,
    0x7fff_fffe,
    0x7fff_ffff,
    0x8000_0000,
    0x8000_0001,
    0xdead_beef,
    0xffff_fffe,
    0xffff_ffff,
];

#[test]
fn sign_extend_from_twelve_bits() {
    assert_eq!(sign_extend(0x000, 12), 0);
    assert_eq!(sign_extend(0x005, 12), 5);
    assert_eq!(sign_extend(0x7ff, 12), 0x7ff);
    assert_eq!(sign_extend(0x800, 12), 0xffff_f800);
    assert_eq!(sign_extend(0xfff, 12), 0xffff_ffff);
}

#[test]
fn sign_extend_from_each_width_in_use() {
    assert_eq!(sign_extend(0x7f, 8), 0x7f);
    assert_eq!(sign_extend(0x80, 8), 0xffff_ff80);
    assert_eq!(sign_extend(0xff, 8), 0xffff_ffff);
    assert_eq!(sign_extend(0x0fff, 13), 0x0fff);
    assert_eq!(sign_extend(0x1000, 13), 0xffff_f000);
    assert_eq!(sign_extend(0x1ff8, 13), 0xffff_fff8);
    assert_eq!(sign_extend(0x7fff, 16), 0x7fff);
    assert_eq!(sign_extend(0x8000, 16), 0xffff_8000);
    assert_eq!(sign_extend(0x0f_ffff, 21), 0x0f_ffff);
    assert_eq!(sign_extend(0x10_0000, 21), 0xfff0_0000);
    assert_eq!(sign_extend(0x1f_fffc, 21), 0xffff_fffc);
}

#[test]
fn sign_extend_is_off_by_one_safe() {
    // Bit 11 decides for width 12, not bit 10 and not bit 12.
    assert_eq!(sign_extend(0x400, 12), 0x400);
    assert_eq!(sign_extend(0x1000, 12), 0x1000);
    assert_eq!(sign_extend(0x1800, 12), 0xffff_f800 | 0x1000);
}

#[test]
fn sign_extend_in_degenerate_widths_is_identity() {
    assert_eq!(sign_extend(0xffff_ffff, 0), 0xffff_ffff);
    assert_eq!(sign_extend(1, 0), 1);
    assert_eq!(sign_extend(0x8000_0000, 32), 0x8000_0000);
    assert_eq!(sign_extend(0x8000_0000, 33), 0x8000_0000);
    assert_eq!(sign_extend(0x4000_0000, 31), 0xc000_0000);
    assert_eq!(sign_extend(1, 1), 0xffff_ffff);
}

#[test]
fn signed_lt_agrees_with_i32_order() {
    for &a in SAMPLES.iter() {
        for &b in SAMPLES.iter() {
            assert_eq!(signed_lt(a, b), (a as i32) < (b as i32), "{a:#x} < {b:#x}");
        }
    }
}

#[test]
fn signed_ge_is_the_negation_of_signed_lt() {
    for &a in SAMPLES.iter() {
        for &b in SAMPLES.iter() {
            assert_eq!(signed_ge(a, b), (a as i32) >= (b as i32), "{a:#x} >= {b:#x}");
            assert_eq!(signed_ge(a, b), !signed_lt(a, b));
        }
    }
}

#[test]
fn signed_lt_on_named_values() {
    assert!(signed_lt(0xffff_ffff, 0));
    assert!(!signed_lt(0, 0xffff_ffff));
    assert!(signed_lt(0x8000_0000, 0x7fff_ffff));
    assert!(signed_lt(0x8000_0000, 0x8000_0001));
    assert!(!signed_lt(5, 5));
    assert!(signed_lt(4, 5));
}

#[test]
fn arithmetic_shift_agrees_with_i32_shift() {
    for &v in SAMPLES.iter() {
        for s in 0..32u32 {
            assert_eq!(right_shift_arithmetic(v, s), ((v as i32) >> s) as u32, "{v:#x} >> {s}");
        }
    }
}

#[test]
fn arithmetic_shift_preserves_sign_bit() {
    for &v in SAMPLES.iter() {
        for s in 0..32u32 {
            assert_eq!(right_shift_arithmetic(v, s) >> 31, v >> 31, "{v:#x} >> {s}");
        }
    }
}

#[test]
fn arithmetic_shift_on_named_values() {
    assert_eq!(right_shift_arithmetic(0x8000_0000, 0), 0x8000_0000);
    assert_eq!(right_shift_arithmetic(0x8000_0000, 1), 0xc000_0000);
    assert_eq!(right_shift_arithmetic(0x8000_0000, 31), 0xffff_ffff);
    assert_eq!(right_shift_arithmetic(0x4000_0000, 1), 0x2000_0000);
    assert_eq!(right_shift_arithmetic(0x7fff_ffff, 31), 0);
    assert_eq!(right_shift_arithmetic(0xffff_fff0, 4), 0xffff_ffff);
}

#[test]
fn arithmetic_shift_masks_amount_to_five_bits() {
    assert_eq!(right_shift_arithmetic(0x8000_0000, 32), 0x8000_0000);
    assert_eq!(right_shift_arithmetic(0x8000_0000, 33), 0xc000_0000);
    assert_eq!(right_shift_arithmetic(0x0000_0100, 0xffff_ffe4), 0x10);
}
