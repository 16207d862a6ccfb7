use wpe::renderer::{RenderContext, SoftwareRenderer, CLEAR_COLOR};

fn block(pixels: &[u32], stride: usize, width: usize, height: usize) -> Vec<u8> {
    let mut bytes = vec![0xEE_u8; stride * height];
    for y in 0..height {
        for x in 0..width {
            let at = y * stride + x * 4;
            bytes[at..at + 4].copy_from_slice(&pixels[y * width + x].to_le_bytes());
        }
    }
    bytes
}

#[test]
fn write_of_a_small_block_leaves_the_rest_untouched() {
    let mut buffer = SoftwareRenderer::new(4, 4);
    let source = block(&[0xFF11_1111, 0xFF22_2222, 0xFF33_3333, 0xFF44_4444], 16, 2, 2);
    buffer.copy_shm_buffer(&source, 2, 2, 16);
    let (pixels, width, height) = buffer.read();
    assert_eq!((width, height), (4, 4));
    let mut expected = vec![CLEAR_COLOR; 16];
    expected[0] = 0xFF11_1111;
    expected[1] = 0xFF22_2222;
    expected[4] = 0xFF33_3333;
    expected[5] = 0xFF44_4444;
    assert_eq!(pixels, &expected[..]);
    assert_eq!(pixels.iter().filter(|p| **p == CLEAR_COLOR).count(), 12);
    assert!(buffer.is_dirty());
}

#[test]
fn new_buffer_is_clear() {
    let buffer = SoftwareRenderer::new(3, 2);
    let (pixels, width, height) = buffer.read();
    assert_eq!((width, height), (3, 2));
    assert_eq!(pixels, &[0xFF00_0000_u32; 6][..]);
    assert!(!buffer.is_dirty());
    assert_eq!(buffer.width(), 3);
    assert_eq!(buffer.height(), 2);
    assert_eq!(CLEAR_COLOR, 0xFF00_0000);
}

#[test]
fn zero_dimensions_are_raised_to_one() {
    let buffer = SoftwareRenderer::new(0, 0);
    assert_eq!((buffer.width(), buffer.height()), (1, 1));
    assert_eq!(buffer.read().0.len(), 1);
    let buffer = SoftwareRenderer::new(0, 5);
    assert_eq!((buffer.width(), buffer.height()), (1, 5));
    assert_eq!(buffer.read().0.len(), 5);
}

#[test]
fn resize_to_nothing_keeps_one_pixel() {
    let mut buffer = SoftwareRenderer::new(4, 4);
    buffer.resize(0, 0);
    assert_eq!((buffer.width(), buffer.height()), (1, 1));
    assert_eq!(buffer.read().0, &[CLEAR_COLOR][..]);
    buffer.resize(7, 0);
    assert_eq!((buffer.width(), buffer.height()), (7, 1));
    assert_eq!(buffer.read().0.len(), 7);
}

#[test]
fn resize_twice_is_resize_once() {
    let mut buffer = SoftwareRenderer::new(2, 2);
    buffer.fill(0xFFAB_CDEF);
    buffer.resize(3, 2);
    let first: Vec<u32> = buffer.read().0.to_vec();
    let dirty = buffer.is_dirty();
    buffer.resize(3, 2);
    assert_eq!(buffer.read().0, &first[..]);
    assert_eq!((buffer.width(), buffer.height()), (3, 2));
    assert_eq!(buffer.is_dirty(), dirty);
}

#[test]
fn resize_to_the_same_size_changes_nothing() {
    let mut buffer = SoftwareRenderer::new(2, 2);
    buffer.fill(0xFF12_3456);
    assert!(buffer.is_dirty());
    buffer.resize(2, 2);
    assert!(buffer.is_dirty());
    assert_eq!(buffer.read().0, &[0xFF12_3456_u32; 4][..]);
}

#[test]
fn resize_keeps_storage_order_and_clears_dirty() {
    let mut buffer = SoftwareRenderer::new(2, 2);
    buffer.fill(0xFF10_1010);
    buffer.resize(3, 2);
    assert!(!buffer.is_dirty());
    assert_eq!(
        buffer.read().0,
        &[0xFF10_1010, 0xFF10_1010, 0xFF10_1010, 0xFF10_1010, CLEAR_COLOR, CLEAR_COLOR][..]
    );
    buffer.resize(1, 2);
    assert_eq!(buffer.read().0, &[0xFF10_1010, 0xFF10_1010][..]);
}

#[test]
fn write_clips_to_the_buffer() {
    let mut buffer = SoftwareRenderer::new(2, 1);
    let source_pixels: Vec<u32> = (0..9).map(|i| 0xFF00_0000 + i).collect();
    let source = block(&source_pixels, 12, 3, 3);
    buffer.copy_shm_buffer(&source, 3, 3, 12);
    assert_eq!(buffer.read().0, &[0xFF00_0000, 0xFF00_0001][..]);
    assert_eq!((buffer.width(), buffer.height()), (2, 1));
}

#[test]
fn write_respects_the_stride() {
    let mut buffer = SoftwareRenderer::new(2, 2);
    let source = block(&[1, 2, 3, 4], 20, 2, 2);
    buffer.copy_shm_buffer(&source, 2, 2, 20);
    assert_eq!(buffer.read().0, &[1, 2, 3, 4][..]);
}

#[test]
fn write_reads_pixels_lowest_byte_first() {
    let mut buffer = SoftwareRenderer::new(1, 1);
    buffer.copy_shm_buffer(&[0x78, 0x56, 0x34, 0x12], 1, 1, 4);
    assert_eq!(buffer.read().0, &[0x1234_5678][..]);
}

#[test]
fn write_stops_where_the_source_ends() {
    let mut buffer = SoftwareRenderer::new(2, 2);
    // the source claims two rows of two pixels but holds only three pixels
    let source = block(&[5, 6, 7, 8], 8, 2, 2);
    buffer.copy_shm_buffer(&source[..12], 2, 2, 8);
    assert_eq!(buffer.read().0, &[5, 6, 7, CLEAR_COLOR][..]);
    let mut empty = SoftwareRenderer::new(2, 2);
    empty.copy_shm_buffer(&[], 2, 2, 8);
    assert_eq!(empty.read().0, &[CLEAR_COLOR; 4][..]);
    assert!(empty.is_dirty());
}

#[test]
fn clear_dirty_hands_the_buffer_back() {
    let mut buffer = SoftwareRenderer::new(1, 1);
    buffer.copy_shm_buffer(&[1, 0, 0, 0], 1, 1, 4);
    assert!(buffer.is_dirty());
    buffer.clear_dirty();
    assert!(!buffer.is_dirty());
    assert_eq!(buffer.read().0, &[1][..]);
}

#[test]
fn fill_sets_every_pixel() {
    let mut buffer = SoftwareRenderer::new(3, 3);
    buffer.fill(0xFF2D_2D2D);
    assert_eq!(buffer.read().0, &[0xFF2D_2D2D_u32; 9][..]);
    assert!(buffer.is_dirty());
}

#[test]
fn bytes_are_lowest_first_and_cut_at_the_limit() {
    let mut buffer = SoftwareRenderer::new(2, 1);
    buffer.copy_shm_buffer(&[0x78, 0x56, 0x34, 0x12, 0xDD, 0xCC, 0xBB, 0xAA], 2, 1, 8);
    assert_eq!(buffer.to_bytes(100), vec![0x78, 0x56, 0x34, 0x12, 0xDD, 0xCC, 0xBB, 0xAA]);
    assert_eq!(buffer.to_bytes(8), vec![0x78, 0x56, 0x34, 0x12, 0xDD, 0xCC, 0xBB, 0xAA]);
    assert_eq!(buffer.to_bytes(5), vec![0x78, 0x56, 0x34, 0x12, 0xDD]);
    assert_eq!(buffer.to_bytes(0), Vec::<u8>::new());
}

#[test]
fn present_cuts_at_the_surface() {
    let mut renderer = SoftwareRenderer::new(2, 2);
    renderer.copy_shm_buffer(&block(&[1, 2, 3, 4], 8, 2, 2), 2, 2, 8);
    assert_eq!(renderer.present(4), &[1, 2, 3, 4][..]);
    assert_eq!(renderer.present(100), &[1, 2, 3, 4][..]);
    assert_eq!(renderer.present(3), &[1, 2, 3][..]);
    assert_eq!(renderer.present(0), &[0_u32; 0][..]);
}

#[test]
fn render_context_starts_without_a_frame() {
    let context = RenderContext::new(SoftwareRenderer::new(5, 4));
    assert!(!context.pending_frame);
    assert_eq!((context.renderer.width(), context.renderer.height()), (5, 4));
}
