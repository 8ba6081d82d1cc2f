//! Checksum vectors from the datasheet.
use ltc681x::pec15::PEC15;

#[test]
fn test_pec15_two_bytes() {
    // STSCTRL command
    assert_eq!([0x8e, 0x4e], PEC15::calc(&[0x0, 0x19]));

    // CLRSCTRL command
    assert_eq!([0x5, 0x7c], PEC15::calc(&[0x0, 0x18]));

    // Cell voltage register group A
    assert_eq!([7, 194], PEC15::calc(&[0x0, 0x4]));
}

#[test]
fn test_pec15_multiple_bytes() {
    assert_eq!([0x37, 0x9e], PEC15::calc(&[0x32, 0x67, 0xF2, 0x1E, 0x5F, 0x24]));
    assert_eq!([0x98, 0x84], PEC15::calc(&[0xCD, 0x62, 0x11, 0x1F, 0x83, 0x24]));
    assert_eq!([0x1B, 0xE6], PEC15::calc(&[0xC9, 0x62, 0x7C, 0x1C, 0x1A, 0x21]));
}

#[test]
fn test_pec15_deterministic() {
    let payload = [0x93, 0x61, 0xBB, 0x1E, 0xAE, 0x22];
    assert_eq!(PEC15::calc(&payload), PEC15::calc(&payload));
}

#[test]
fn test_pec15_empty_payload() {
    // The remainder of an empty payload is the seed itself.
    assert_eq!([0x00, 0x20], PEC15::calc(&[]));
}
