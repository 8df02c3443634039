use gameboy::ppu::get_row_from_tile;
use gameboy::sprite_attribute::SpriteAttribute;
use gameboy::tile_info::{TileInfo, TileType};

fn get_basic_tile_info() -> TileInfo {
    let tile = [
        0x3C, 0x7E, 0x42, 0x42, 0x42, 0x42, 0x42, 0x42, 0x7E, 0x5E, 0x7E, 0x0A, 0x7C, 0x56, 0x38,
        0x7C,
    ];

    let tile_info = TileInfo { tile, tile_type: TileType::Obj };

    tile_info
}

const BASIC_TILE_COLORS: [[u8; 8]; 8] = [
    [0, 2, 3, 3, 3, 3, 2, 0],
    [0, 3, 0, 0, 0, 0, 3, 0],
    [0, 3, 0, 0, 0, 0, 3, 0],
    [0, 3, 0, 0, 0, 0, 3, 0],
    [0, 3, 1, 3, 3, 3, 3, 0],
    [0, 1, 1, 1, 3, 1, 3, 0],
    [0, 3, 1, 3, 1, 3, 2, 0],
    [0, 2, 3, 3, 3, 2, 0, 0],
];

const BASIC_TILE: TileInfo = TileInfo {
    tile: [
        0x3C, 0x7E, 0x42, 0x42, 0x42, 0x42, 0x42, 0x42, 0x7E, 0x5E, 0x7E, 0x0A, 0x7C, 0x56, 0x38,
        0x7C,
    ],
    tile_type: TileType::Background,
};

#[test]
fn test_get_color_ids_from_tile() {
    // First byte is the LSB, second byte is MSB
    // combined these bytes encode the color ids for a tile
    //
    // tile[0] = 0x3C; //0b0011_1100
    // tile[0] = 0x7E; //0b0111_1110
    // result => 0b00, 0b10, 0b11, 0b11, 0b11, 0b11, 0b10, 0b00

    let colors = get_basic_tile_info().get_color_ids_from_tile();

    assert_eq!(colors[0], [0, 2, 3, 3, 3, 3, 2, 0]);
    assert_eq!(colors[1], [0, 3, 0, 0, 0, 0, 3, 0]);
    assert_eq!(colors[2], [0, 3, 0, 0, 0, 0, 3, 0]);
    assert_eq!(colors[3], [0, 3, 0, 0, 0, 0, 3, 0]);
    assert_eq!(colors[4], [0, 3, 1, 3, 3, 3, 3, 0]);
    assert_eq!(colors[5], [0, 1, 1, 1, 3, 1, 3, 0]);
    assert_eq!(colors[6], [0, 3, 1, 3, 1, 3, 2, 0]);
    assert_eq!(colors[7], [0, 2, 3, 3, 3, 2, 0, 0]);
}

#[test]
fn test_get_scanline_from_tile_under_8() {
    for i in 0..8 {
        assert_eq!(
            BASIC_TILE_COLORS[i],
            get_row_from_tile(BASIC_TILE, i as i32),
            "failed on row {}",
            i
        )
    }
}

#[test]
fn test_get_scanline_from_tile_over_8() {
    for i in 0..8 {
        assert_eq!(
            BASIC_TILE_COLORS[i],
            get_row_from_tile(BASIC_TILE, i as i32 + 8),
            "failed on row {}",
            i
        )
    }
}

#[test]
fn test_get_row_from_tile_above_the_screen() {
    assert_eq!(BASIC_TILE_COLORS[7], get_row_from_tile(BASIC_TILE, -1));
    assert_eq!(BASIC_TILE_COLORS[0], get_row_from_tile(BASIC_TILE, -8));
    assert_eq!(BASIC_TILE_COLORS[0], get_row_from_tile(BASIC_TILE, i32::MIN));
    assert_eq!(BASIC_TILE_COLORS[7], get_row_from_tile(BASIC_TILE, i32::MAX));
}

#[test]
fn test_sprite_attribute_flags() {
    let sprite = SpriteAttribute::new(16, 8, 3, 0b1010_0000);
    assert_eq!(sprite.y, 16);
    assert_eq!(sprite.x, 8);
    assert_eq!(sprite.index, 3);
    assert!(sprite.bg_over_obj);
    assert!(!sprite.y_flip);
    assert!(sprite.x_flip);
    assert_eq!(sprite.palette, 0);

    let sprite = SpriteAttribute::new(0, 0, 0, 0b0101_1111);
    assert!(!sprite.bg_over_obj);
    assert!(sprite.y_flip);
    assert!(!sprite.x_flip);
    assert_eq!(sprite.palette, 1);
}
