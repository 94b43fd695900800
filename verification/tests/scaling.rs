use avifpixart::native::host_stores_low_byte_first;
use avifpixart::{pixart_scale_plane_u16, pixart_scale_plane_u8, PixartError, PlanePath};

fn wide_bytes(store: &mut Vec<u16>, count: usize, skew: bool) -> &mut [u8] {
    store.resize(count / 2 + 2, 0);
    let bytes: &mut [u8] = bytemuck::cast_slice_mut(store.as_mut_slice());
    let start = if skew { 1 } else { 0 };
    &mut bytes[start..start + count]
}

#[test]
fn scaling_a_flat_plane_keeps_it_flat() {
    let src = vec![77u8; 6 * 4];
    let mut dst = vec![0u8; 5 * 2];
    let outcome = pixart_scale_plane_u8(&src, 6, 4, 4, &mut dst, 5, 2, 2);
    assert_eq!(outcome, Ok(()));
    assert_eq!(&dst[0..2], &[77, 77]);
    assert_eq!(&dst[5..7], &[77, 77]);
}

#[test]
fn scaling_to_the_same_size_copies() {
    let src: Vec<u8> = (0..12).collect();
    let mut dst = vec![0u8; 6];
    let outcome = pixart_scale_plane_u8(&src, 4, 3, 3, &mut dst, 3, 3, 2);
    assert_eq!(outcome, Ok(()));
    let mut same = vec![0u8; 9];
    let outcome = pixart_scale_plane_u8(&src, 4, 3, 3, &mut same, 3, 3, 3);
    assert_eq!(outcome, Ok(()));
    assert_eq!(same, vec![0, 1, 2, 4, 5, 6, 8, 9, 10]);
}

#[test]
fn scaling_refuses_empty_and_mismatched_planes() {
    let src = vec![0u8; 16];
    let mut dst = vec![9u8; 4];
    assert_eq!(pixart_scale_plane_u8(&src, 4, 4, 4, &mut dst, 2, 0, 2), Err(PixartError::EmptyImage));
    assert_eq!(pixart_scale_plane_u8(&src, 3, 4, 4, &mut dst, 2, 2, 2), Err(PixartError::StrideTooSmall));
    assert_eq!(pixart_scale_plane_u8(&src, 4, 4, 3, &mut dst, 2, 2, 2), Err(PixartError::RegionMismatch));
    assert_eq!(pixart_scale_plane_u8(&src, 4, 4, 4, &mut dst, 2, 2, 3), Err(PixartError::RegionMismatch));
    assert_eq!(dst, vec![9u8; 4]);
}

#[test]
fn scaling_wide_plane_gives_the_same_samples_on_either_path() {
    let samples: Vec<u16> = (0..16).map(|k| 100 + 50 * k as u16).collect();
    let mut expected: Option<Vec<u8>> = None;
    for skew_src in [false, true] {
        for skew_dst in [false, true] {
            let mut src_store = Vec::new();
            let src = wide_bytes(&mut src_store, 40, skew_src);
            for (k, sample) in samples.iter().enumerate() {
                let at = (k / 4) * 10 + 2 * (k % 4);
                src[at] = (*sample & 0xff) as u8;
                src[at + 1] = (*sample >> 8) as u8;
            }
            let mut dst_store = Vec::new();
            let dst = wide_bytes(&mut dst_store, 8, skew_dst);
            let outcome = pixart_scale_plane_u16(src, 10, 4, 4, dst, 2, 2, 10);
            let path = if !skew_dst && host_stores_low_byte_first() {
                PlanePath::Fast
            } else {
                PlanePath::Slow
            };
            assert_eq!(outcome, Ok(path));
            match &expected {
                None => expected = Some(dst.to_vec()),
                Some(first) => assert_eq!(&dst.to_vec(), first),
            }
        }
    }
    assert_ne!(expected, Some(vec![0u8; 8]));
}

#[test]
fn scaling_wide_plane_checks_depth_and_regions() {
    let src = vec![0u8; 32];
    let mut dst = vec![5u8; 8];
    assert_eq!(pixart_scale_plane_u16(&src, 8, 4, 4, &mut dst, 2, 2, 0), Err(PixartError::UnsupportedBitDepth));
    assert_eq!(pixart_scale_plane_u16(&src, 8, 4, 4, &mut dst, 2, 2, 17), Err(PixartError::UnsupportedBitDepth));
    assert_eq!(pixart_scale_plane_u16(&src, 8, 4, 4, &mut dst, 2, 0, 10), Err(PixartError::EmptyImage));
    assert_eq!(pixart_scale_plane_u16(&src, 7, 4, 4, &mut dst, 2, 2, 10), Err(PixartError::StrideTooSmall));
    assert_eq!(pixart_scale_plane_u16(&src, 8, 4, 4, &mut dst, 3, 2, 10), Err(PixartError::RegionMismatch));
    assert_eq!(dst, vec![5u8; 8]);
}

#[test]
fn wide_plane_of_the_size_asked_for_is_copied() {
    let samples: Vec<u16> = (0..12).map(|k| 1000 + 37 * k as u16).collect();
    for skew_src in [false, true] {
        for skew_dst in [false, true] {
            let mut src_store = Vec::new();
            let src = wide_bytes(&mut src_store, 33, skew_src);
            src.fill(0xee);
            for (k, sample) in samples.iter().enumerate() {
                let at = (k / 4) * 11 + 2 * (k % 4);
                src[at] = (*sample & 0xff) as u8;
                src[at + 1] = (*sample >> 8) as u8;
            }
            let mut dst_store = Vec::new();
            let dst = wide_bytes(&mut dst_store, 24, skew_dst);
            let outcome = pixart_scale_plane_u16(src, 11, 4, 3, dst, 4, 3, 12);
            assert!(outcome.is_ok());
            let copied: Vec<u16> =
                dst.chunks_exact(2).map(|pair| u16::from_le_bytes([pair[0], pair[1]])).collect();
            assert_eq!(copied, samples);
        }
    }
}

#[test]
fn narrow_plane_of_the_size_asked_for_is_copied_stride_by_stride() {
    // Source rows are 5 apart, destination rows 6: only 5 bytes a row exist to copy.
    let src: Vec<u8> = (1..=15).collect();
    let mut dst = vec![0xaau8; 18];
    assert_eq!(pixart_scale_plane_u8(&src, 5, 3, 3, &mut dst, 6, 3, 3), Ok(()));
    assert_eq!(
        dst,
        vec![1, 2, 3, 4, 5, 0xaa, 6, 7, 8, 9, 10, 0xaa, 11, 12, 13, 14, 15, 0xaa]
    );
    // Destination rows closer than source rows: a destination row is filled whole.
    let mut tight = vec![0u8; 12];
    assert_eq!(pixart_scale_plane_u8(&src, 5, 3, 3, &mut tight, 4, 3, 3), Ok(()));
    assert_eq!(tight, vec![1, 2, 3, 4, 6, 7, 8, 9, 11, 12, 13, 14]);
}
