use avifpixart::{high_byte, low_byte, sample_from_bytes, sample_to_bytes};

#[test]
fn sample_is_assembled_low_byte_first() {
    assert_eq!(sample_from_bytes(0x34, 0x12), 0x1234);
    assert_eq!(sample_from_bytes(0xff, 0x00), 0x00ff);
    assert_eq!(sample_from_bytes(0x00, 0xff), 0xff00);
}

#[test]
fn sample_is_split_low_byte_first() {
    assert_eq!(sample_to_bytes(0x1234), (0x34, 0x12));
    assert_eq!(low_byte(0xabcd), 0xcd);
    assert_eq!(high_byte(0xabcd), 0xab);
}

#[test]
fn every_sample_survives_split_and_assembly() {
    for value in 0..=65535u16 {
        let (lo, hi) = sample_to_bytes(value);
        assert_eq!(sample_from_bytes(lo, hi), value);
    }
}
