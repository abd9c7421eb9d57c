use mos6502::psr::ArchPSR;

#[test]
fn test_psr_sanity() {
    let psr = ArchPSR { n: true, v: false, d: true, i: true, z: false, c: true };
    let stk_u8 = psr.as_stk_u8(true);
    assert_eq!(stk_u8, 0b10111101);
    assert_eq!(
        psr.with_nzcv_from_value(0x00, false, true),
        ArchPSR { n: false, v: true, d: true, i: true, z: true, c: false }
    );
}

#[test]
fn test_psr_reset_value() {
    assert_eq!(
        ArchPSR::default(),
        ArchPSR { n: false, v: false, d: false, i: false, z: false, c: false }
    );
}

#[test]
fn test_psr_bit_updates() {
    let psr = ArchPSR { n: true, z: false, c: true, v: false, i: true, d: false };
    assert_eq!(psr.with_c(false), ArchPSR { c: false, ..psr });
    assert_eq!(psr.with_v(true), ArchPSR { v: true, ..psr });
    assert_eq!(psr.with_d(true), ArchPSR { d: true, ..psr });
    assert_eq!(psr.with_i(false), ArchPSR { i: false, ..psr });
    assert_eq!(psr.with_nz(false, true), ArchPSR { n: false, z: true, ..psr });
    assert_eq!(psr.with_nzc(false, true, false), ArchPSR { n: false, z: true, c: false, ..psr });
    assert_eq!(psr.with_nzv(false, true, true), ArchPSR { n: false, z: true, v: true, ..psr });
    assert_eq!(
        psr.with_nzcv(false, true, false, true),
        ArchPSR { n: false, z: true, c: false, v: true, ..psr }
    );
}

#[test]
fn test_psr_value_updates() {
    let psr = ArchPSR { n: false, z: false, c: false, v: false, i: true, d: true };
    // N tracks bit 7, Z tracks a zero value
    assert_eq!(psr.with_nz_from_value(0x80), ArchPSR { n: true, z: false, ..psr });
    assert_eq!(psr.with_nz_from_value(0x00), ArchPSR { n: false, z: true, ..psr });
    assert_eq!(psr.with_nz_from_value(0x41), ArchPSR { n: false, z: false, ..psr });
    assert_eq!(
        psr.with_nzc_from_value(0xFF, true),
        ArchPSR { n: true, z: false, c: true, ..psr }
    );
    assert_eq!(
        psr.with_nzcv_from_value(0x00, true, true),
        ArchPSR { n: false, z: true, c: true, v: true, ..psr }
    );
}

#[test]
fn test_psr_stk_u8_roundtrip() {
    // Round-trip every flag combination, under both stacked B bits
    for bits in 0..64u8 {
        let psr = ArchPSR {
            n: bits & 1 != 0,
            z: bits & 2 != 0,
            c: bits & 4 != 0,
            v: bits & 8 != 0,
            i: bits & 16 != 0,
            d: bits & 32 != 0,
        };
        for b in [false, true] {
            assert_eq!(ArchPSR::from_stk_u8(psr.as_stk_u8(b)), psr);
        }
    }
}

#[test]
fn test_psr_stk_u8_bits() {
    for bits in 0..64u8 {
        let psr = ArchPSR {
            n: bits & 1 != 0,
            z: bits & 2 != 0,
            c: bits & 4 != 0,
            v: bits & 8 != 0,
            i: bits & 16 != 0,
            d: bits & 32 != 0,
        };
        for b in [false, true] {
            let stk_u8 = psr.as_stk_u8(b);
            assert_eq!(stk_u8 & 0x80 != 0, psr.n);
            assert_eq!(stk_u8 & 0x40 != 0, psr.v);
            assert_eq!(stk_u8 & 0x20 != 0, true);
            assert_eq!(stk_u8 & 0x10 != 0, b);
            assert_eq!(stk_u8 & 0x08 != 0, psr.d);
            assert_eq!(stk_u8 & 0x04 != 0, psr.i);
            assert_eq!(stk_u8 & 0x02 != 0, psr.z);
            assert_eq!(stk_u8 & 0x01 != 0, psr.c);
        }
    }
}

#[test]
fn test_psr_from_stk_ignores_bits_4_and_5() {
    let with_extras = ArchPSR::from_stk_u8(0b1011_0101);
    let without = ArchPSR::from_stk_u8(0b1000_0101);
    assert_eq!(with_extras, without);
}
