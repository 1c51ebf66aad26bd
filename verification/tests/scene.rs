use wave_compute::scene::{
    is_tile_aligned, is_valid_grid, ComputeScene, BYTES_PER_CELL, FREQUENCY, FREQUENCY_BITS,
    HEIGHT, POINT, SCENE_BYTES, START_BITS, TILE, WIDTH,
};

#[test]
fn the_standard_scene_has_the_standard_values() {
    let scene = ComputeScene::standard();
    assert_eq!(f32::from_bits(scene.time()), 0.0);
    assert_eq!(f32::from_bits(scene.freq()), 43000.0);
    assert_eq!(scene.count(), 8);
    assert_eq!(scene.width(), 1024);
    assert_eq!(scene.height(), 1024);
}

#[test]
fn the_constants_are_those_of_the_standard_run() {
    assert_eq!(TILE, 256);
    assert_eq!(BYTES_PER_CELL, 4);
    assert_eq!(SCENE_BYTES, 20);
    assert_eq!((WIDTH, HEIGHT, POINT, FREQUENCY), (1024, 1024, 8, 43000));
    assert_eq!(FREQUENCY_BITS, (FREQUENCY as f32).to_bits());
    assert_eq!(START_BITS, 0.0f32.to_bits());
}

#[test]
fn the_uniform_block_is_five_words_without_padding() {
    let bytes = ComputeScene::standard().to_bytes();
    assert_eq!(
        bytes,
        vec![
            0x00, 0x00, 0x00, 0x00, // time
            0x00, 0xf8, 0x27, 0x47, // freq
            0x08, 0x00, 0x00, 0x00, // count
            0x00, 0x04, 0x00, 0x00, // width
            0x00, 0x04, 0x00, 0x00, // height
        ]
    );
}

#[test]
fn the_uniform_block_keeps_the_order_of_the_fields() {
    let scene = ComputeScene::new(1, 2, 3, 256, 512).unwrap();
    assert_eq!(
        scene.to_bytes(),
        vec![1, 0, 0, 0, 2, 0, 0, 0, 3, 0, 0, 0, 0, 1, 0, 0, 0, 2, 0, 0]
    );
}

#[test]
fn the_uniform_block_is_the_memory_of_the_fields_on_a_little_endian_host() {
    if 1u32.to_ne_bytes() == 1u32.to_le_bytes() {
        let time = 1.5f32;
        let freq = 440.0f32;
        let scene = ComputeScene::new(time.to_bits(), freq.to_bits(), 3, 512, 256).unwrap();
        let mut expected = Vec::new();
        expected.extend_from_slice(bytemuck::bytes_of(&time));
        expected.extend_from_slice(bytemuck::bytes_of(&freq));
        expected.extend_from_slice(bytemuck::bytes_of(&[3u32, 512, 256]));
        assert_eq!(scene.to_bytes(), expected);
    }
}

#[test]
fn a_scene_keeps_what_it_was_made_with() {
    let scene = ComputeScene::new(7, 9, 11, 768, 256).unwrap();
    assert_eq!(
        (scene.time(), scene.freq(), scene.count(), scene.width(), scene.height()),
        (7, 9, 11, 768, 256)
    );
}

#[test]
fn a_grid_that_is_not_whole_tiles_makes_no_scene() {
    assert!(ComputeScene::new(0, 0, 1, 1000, 1024).is_none());
    assert!(ComputeScene::new(0, 0, 1, 1024, 1000).is_none());
    assert!(ComputeScene::new(0, 0, 1, 255, 256).is_none());
    assert!(ComputeScene::new(0, 0, 1, 257, 256).is_none());
    assert!(ComputeScene::new(0, 0, 1, 256, 256).is_some());
}

#[test]
fn an_empty_grid_is_whole_tiles() {
    let scene = ComputeScene::new(0, 0, 0, 0, 0).unwrap();
    assert_eq!(scene.output_size(), 0);
}

#[test]
fn a_grid_whose_bytes_cannot_be_counted_makes_no_scene() {
    let largest = 0xffff_ff00u32;
    assert!(is_tile_aligned(largest));
    assert!(!is_valid_grid(largest, largest));
    assert!(ComputeScene::new(0, 0, 1, largest, largest).is_none());
    // 2^31 * 2^31 * 4 is 2^64, one more than can be counted.
    assert!(!is_valid_grid(0x8000_0000, 0x8000_0000));
    // 2^31 * (2^31 - 256) * 4 can.
    assert!(is_valid_grid(0x8000_0000, 0x7fff_ff00));
}

#[test]
fn the_output_has_four_bytes_for_each_cell() {
    assert_eq!(ComputeScene::standard().output_size(), 4 * 1024 * 1024);
    for (width, height) in [(256u32, 256u32), (512, 256), (256, 768), (2048, 1024)] {
        let scene = ComputeScene::new(0, 0, 1, width, height).unwrap();
        assert_eq!(scene.output_size(), width as u64 * height as u64 * 4);
    }
    let scene = ComputeScene::new(0, 0, 1, 0x8000_0000, 0x7fff_ff00).unwrap();
    assert_eq!(scene.output_size(), 0x8000_0000u64 * 0x7fff_ff00u64 * 4);
}

#[test]
fn tile_alignment_is_divisibility_by_256() {
    assert!(is_tile_aligned(0));
    assert!(is_tile_aligned(256));
    assert!(is_tile_aligned(1024));
    assert!(!is_tile_aligned(1));
    assert!(!is_tile_aligned(128));
    assert!(!is_tile_aligned(u32::MAX));
}
