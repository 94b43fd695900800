use avifpixart::{pixart_rgb_u16_to_ra30, pixart_rgba_u16_to_ra30};

fn region_of(samples: &[u16], row: usize, stride: usize) -> Vec<u8> {
    let rows = samples.len() / row;
    let mut bytes = vec![0xabu8; stride * rows];
    for r in 0..rows {
        for c in 0..row {
            let sample = samples[r * row + c];
            bytes[r * stride + 2 * c] = (sample & 0xff) as u8;
            bytes[r * stride + 2 * c + 1] = (sample >> 8) as u8;
        }
    }
    bytes
}

fn word_of(r: u32, g: u32, b: u32, a: u32) -> [u8; 4] {
    ((r << 22) | (g << 12) | (b << 2) | a).to_be_bytes()
}

#[test]
fn ten_bit_rgba_packs_red_highest_and_two_bits_of_alpha() {
    let source = region_of(&[1023, 0, 0, 1023, 1, 2, 3, 256], 8, 16);
    let mut dst = vec![0u8; 8];
    assert_eq!(pixart_rgba_u16_to_ra30(&source, 16, &mut dst, 8, 10, 2, 1), Ok(()));
    assert_eq!(dst, vec![0xff, 0xc0, 0x00, 0x03, 0x00, 0x40, 0x20, 0x0d]);
}

#[test]
fn twelve_bit_rgba_drops_the_lowest_two_bits_of_each_colour() {
    let source = region_of(&[4095, 4, 8, 4095, 7, 3, 2, 1023], 8, 16);
    let mut dst = vec![0u8; 8];
    assert_eq!(pixart_rgba_u16_to_ra30(&source, 16, &mut dst, 8, 12, 2, 1), Ok(()));
    let mut expected = word_of(1023, 1, 2, 3).to_vec();
    expected.extend_from_slice(&word_of(1, 0, 0, 0));
    assert_eq!(dst, expected);
    assert_eq!(&dst[..4], &[0xff, 0xc0, 0x10, 0x0b]);
}

#[test]
fn rgb_without_alpha_packs_opaque_pixels() {
    let source = region_of(&[4095, 4, 8, 0, 0, 0], 6, 12);
    let mut dst = vec![0u8; 8];
    assert_eq!(pixart_rgb_u16_to_ra30(&source, 12, &mut dst, 8, 12, 2, 1), Ok(()));
    assert_eq!(dst, vec![0xff, 0xc0, 0x10, 0x0b, 0x00, 0x00, 0x00, 0x03]);
    let source = region_of(&[5, 6, 7], 3, 6);
    let mut dst = vec![0u8; 4];
    assert_eq!(pixart_rgb_u16_to_ra30(&source, 6, &mut dst, 4, 10, 1, 1), Ok(()));
    assert_eq!(dst, word_of(5, 6, 7, 3).to_vec());
}

#[test]
fn packing_masks_nothing() {
    let source = region_of(&[0, 0xffff, 0, 0], 4, 8);
    let mut dst = vec![0u8; 4];
    assert_eq!(pixart_rgba_u16_to_ra30(&source, 8, &mut dst, 4, 10, 1, 1), Ok(()));
    assert_eq!(dst, vec![0x0f, 0xff, 0xf0, 0x00]);
    let source = region_of(&[0xffff, 0, 0, 0xffff], 4, 8);
    let mut dst = vec![0u8; 4];
    assert_eq!(pixart_rgba_u16_to_ra30(&source, 8, &mut dst, 4, 10, 1, 1), Ok(()));
    assert_eq!(dst, vec![0xff, 0xc0, 0x00, 0xff]);
}

#[test]
fn packing_leaves_stride_padding_alone() {
    let source = region_of(&[1, 2, 3, 4, 5, 6, 7, 8, 9, 10, 11, 12], 6, 13);
    let mut dst = vec![0x5au8; 22];
    assert_eq!(pixart_rgb_u16_to_ra30(&source, 13, &mut dst, 11, 10, 2, 2), Ok(()));
    let mut expected = vec![0x5au8; 22];
    expected[0..4].copy_from_slice(&word_of(1, 2, 3, 3));
    expected[4..8].copy_from_slice(&word_of(4, 5, 6, 3));
    expected[11..15].copy_from_slice(&word_of(7, 8, 9, 3));
    expected[15..19].copy_from_slice(&word_of(10, 11, 12, 3));
    assert_eq!(dst, expected);
}
