use gameboy::memory::Memory;

#[test]
fn test_read_tile_map() {
    let mut memory = Memory::new();
    let values = [
        0, 1, 2, 3, 4, 5, 6, 7, 8, 9, 10, 11, 12, 13, 14, 15, 16, 17, 18, 19, 20, 21, 22, 23, 24,
        25, 26, 27, 28, 29, 30, 31,
    ];
    memory.vram[0x1800..(0x1800 + 32)].copy_from_slice(&values);
    memory.vram[(0x1C00 - 32)..0x1C00].copy_from_slice(&values);

    let tile_map = memory.read_bg_tile_map();

    assert_eq!(tile_map[0], values);
    assert_eq!(tile_map[31], values);
}
