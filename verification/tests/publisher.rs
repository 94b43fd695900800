use avifpixart::destination::{settle, settle_direct, staging_for};
use avifpixart::{flush, publish, unpack_plane, PixartError, PlaneLayout, PlanePath};

#[test]
fn flush_writes_low_byte_then_high_byte() {
    let mut dst = [0u8; 4];
    let layout = PlaneLayout::wide(4, 2, 1, 1);
    flush(&[0x1234, 0xabcd], &mut dst, &layout);
    assert_eq!(dst, [0x34, 0x12, 0xcd, 0xab]);
}

#[test]
fn flush_leaves_stride_padding_untouched() {
    // 3 rows of 2 samples of 2 channels, stride 11: 3 bytes of padding a row.
    let layout = PlaneLayout::wide(11, 2, 3, 2);
    let mut dst = [0xa5u8; 33];
    let staged: Vec<u16> = (1..=12).map(|k| k * 0x0101).collect();
    flush(&staged, &mut dst, &layout);
    for row in 0..3 {
        for col in 0..4 {
            let sample = staged[row * 4 + col];
            assert_eq!(dst[row * 11 + 2 * col], (sample & 0xff) as u8);
            assert_eq!(dst[row * 11 + 2 * col + 1], (sample >> 8) as u8);
        }
        for offset in 8..11 {
            assert_eq!(dst[row * 11 + offset], 0xa5);
        }
    }
}

#[test]
fn single_pixel_with_wide_stride_touches_one_sample() {
    let layout = PlaneLayout::wide(64, 1, 1, 1);
    let mut dst = [0x5au8; 64];
    flush(&[0xbeef], &mut dst, &layout);
    assert_eq!(dst[0], 0xef);
    assert_eq!(dst[1], 0xbe);
    assert!(dst[2..].iter().all(|byte| *byte == 0x5a));
}

#[test]
fn unpack_then_flush_reproduces_every_value() {
    // All 65536 values, 256 to a row, with 5 bytes of padding after each row.
    let layout = PlaneLayout::wide(517, 256, 256, 1);
    let mut bytes = vec![0x77u8; 517 * 256];
    for value in 0..=65535usize {
        let at = (value / 256) * 517 + 2 * (value % 256);
        bytes[at] = (value & 0xff) as u8;
        bytes[at + 1] = (value >> 8) as u8;
    }
    let packed = unpack_plane(&bytes, &layout);
    for value in 0..=65535usize {
        assert_eq!(packed[value] as usize, value);
    }
    let mut back = vec![0x77u8; 517 * 256];
    flush(&packed, &mut back, &layout);
    assert_eq!(back, bytes);
}

#[test]
fn flush_then_unpack_gives_the_buffer_back() {
    let layout = PlaneLayout::wide(9, 2, 2, 2);
    let staged = vec![0xffff, 0x0000, 0x8001, 0x7ffe, 0x00ff, 0xff00, 0x1234, 0x4321];
    let mut dst = [0x11u8; 18];
    flush(&staged, &mut dst, &layout);
    assert_eq!(unpack_plane(&dst, &layout), staged);
}

#[test]
fn flushing_twice_changes_nothing_more() {
    let layout = PlaneLayout::wide(7, 3, 2, 1);
    let staged = vec![1, 2, 3, 4, 5, 6];
    let mut dst = [0xeeu8; 14];
    flush(&staged, &mut dst, &layout);
    let once = dst;
    flush(&staged, &mut dst, &layout);
    assert_eq!(dst, once);
}

#[test]
fn flush_of_empty_plane_writes_nothing() {
    let layout = PlaneLayout::wide(6, 0, 2, 3);
    let mut dst = [9u8; 12];
    flush(&[], &mut dst, &layout);
    assert_eq!(dst, [9u8; 12]);
}

#[test]
fn publish_on_fast_path_writes_nothing() {
    let layout = PlaneLayout::wide(6, 2, 2, 1);
    let mut dst = [0x3cu8; 12];
    publish(PlanePath::Fast, &[], &mut dst, &layout);
    assert_eq!(dst, [0x3cu8; 12]);
    publish(PlanePath::Fast, &[1, 2, 3, 4], &mut dst, &layout);
    assert_eq!(dst, [0x3cu8; 12]);
}

#[test]
fn publish_on_slow_path_flushes() {
    let layout = PlaneLayout::wide(6, 2, 2, 1);
    let mut dst = [0x3cu8; 12];
    publish(PlanePath::Slow, &[1, 2, 3, 4], &mut dst, &layout);
    assert_eq!(dst, [1, 0, 2, 0, 0x3c, 0x3c, 3, 0, 4, 0, 0x3c, 0x3c]);
}

#[test]
fn staging_exists_on_slow_path_only() {
    let layout = PlaneLayout::wide(6, 2, 2, 1);
    assert_eq!(staging_for(PlanePath::Slow, &layout), vec![0u16; 4]);
    assert_eq!(staging_for(PlanePath::Fast, &layout), Vec::<u16>::new());
}

#[test]
fn settle_publishes_after_conversion() {
    let layout = PlaneLayout::wide(5, 2, 1, 1);
    let mut dst = [7u8; 5];
    let outcome = settle(Ok::<(), ()>(()), PlanePath::Slow, &[0x0102, 0x0304], &mut dst, &layout);
    assert_eq!(outcome, Ok(PlanePath::Slow));
    assert_eq!(dst, [2, 1, 4, 3, 7]);
}

#[test]
fn settle_writes_nothing_after_refusal() {
    let layout = PlaneLayout::wide(5, 2, 1, 1);
    let mut dst = [7u8; 5];
    let outcome = settle(Err::<(), u8>(1), PlanePath::Slow, &[0x0102, 0x0304], &mut dst, &layout);
    assert_eq!(outcome, Err(PixartError::KernelRejected(PlanePath::Slow)));
    assert_eq!(dst, [7u8; 5]);
    let outcome = settle(Err::<(), u8>(1), PlanePath::Fast, &[], &mut dst, &layout);
    assert_eq!(outcome, Err(PixartError::KernelRejected(PlanePath::Fast)));
}

#[test]
fn settle_direct_reports_the_kernel() {
    assert_eq!(settle_direct(Ok::<(), ()>(())), Ok(()));
    assert_eq!(
        settle_direct(Err::<(), ()>(())),
        Err(PixartError::KernelRejected(PlanePath::Fast))
    );
}
