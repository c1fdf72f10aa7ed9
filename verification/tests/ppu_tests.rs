//! OAM addressing and tile-line decoding.

use rusty_gb::ppu::{combine_tile_bytes, translate_oam_address};

#[test]
fn translate_oam_address_ok() {
    assert_eq!(translate_oam_address(0xFE00, false), (0, 0));
    assert_eq!(translate_oam_address(0xFE16, false), (5, 2));
    assert_eq!(translate_oam_address(0xFE15, false), (5, 1));
    assert_eq!(translate_oam_address(0xFE14, false), (5, 0));
    assert_eq!(translate_oam_address(0xFE13, false), (4, 3));

    assert_eq!(
        translate_oam_address(0xFE00, false),
        translate_oam_address(0x00, true)
    );
    assert_eq!(
        translate_oam_address(0xFE16, false),
        translate_oam_address(0x16, true)
    );
    assert_eq!(
        translate_oam_address(0xFE15, false),
        translate_oam_address(0x15, true)
    );
    assert_eq!(
        translate_oam_address(0xFE14, false),
        translate_oam_address(0x14, true)
    );
    assert_eq!(
        translate_oam_address(0xFE13, false),
        translate_oam_address(0x13, true)
    );
}

#[test]
fn combine_tile_bytes_ok() {
    let expected = [0, 0, 0, 0, 0, 0, 0, 0xFFFFFF];
    let line = combine_tile_bytes(0xFE, 0xFE);
    for (index, pixel) in line.iter().enumerate() {
        assert_eq!(
            *pixel, expected[index],
            "index: {} - {:X} == {:X}",
            index, *pixel, expected[index]
        );
    }
}

#[test]
fn combine_tile_bytes_shades() {
    // bit 7 of byte1 is the high bit of the leftmost pixel, bit 7 of byte2
    // the low bit: $80/$00 gives shade 2, $00/$80 shade 1, $80/$80 shade 3.
    assert_eq!(combine_tile_bytes(0x80, 0x00)[0], 0x555555);
    assert_eq!(combine_tile_bytes(0x00, 0x80)[0], 0xAAAAAA);
    assert_eq!(combine_tile_bytes(0x80, 0x80)[0], 0x000000);
    assert_eq!(combine_tile_bytes(0x00, 0x00)[0], 0xFFFFFF);
}
