//! Cartridge loading, header parsing and the header checksum.

use rusty_gb::cartridge::{Cartridge, CartridgeError, RomHeader};

fn fixture_rom() -> Vec<u8> {
    let mut rom = vec![0u8; 0x8000];
    // entry point and a recognizable title
    rom[0x100] = 0x00;
    rom[0x101] = 0xC3;
    rom[0x102] = 0x50;
    rom[0x103] = 0x01;
    rom[0x134] = b'T';
    rom[0x135] = b'E';
    rom[0x136] = b'S';
    rom[0x137] = b'T';
    rom[0x147] = 0x00; // ROM-only
    rom[0x148] = 0x00; // 32 KiB
    rom[0x14B] = 0x01; // old licensee: Nintendo
    // header checksum over $0134..$014C: x = x - byte - 1 for each byte,
    // starting from zero. The nonzero bytes in range (the title and the old
    // licensee code) sum to $141 and there are $19 bytes, so the checksum
    // is -($141 + $19) mod 256 = $A6.
    rom[0x14D] = 0xA6;
    rom
}

#[test]
fn header_checksum_matches_fixture() {
    let rom = fixture_rom();
    let computed = Cartridge::calculate_checksum(&rom);
    assert_eq!(computed, 0xA6);
    assert_eq!(computed, rom[0x14D]);

    let cart = Cartridge::from_rom_bytes(rom).unwrap();
    assert!(cart.checksum_passes());
}

#[test]
fn header_checksum_mismatch_is_not_fatal() {
    let mut rom = fixture_rom();
    rom[0x14D] = 0x00;
    let cart = Cartridge::from_rom_bytes(rom).unwrap();
    assert!(!cart.checksum_passes());
}

#[test]
fn header_fields_parse() {
    let rom = fixture_rom();
    let header = RomHeader::new(&rom);
    assert_eq!(header.entry_point.as_slice(), &[0x00, 0xC3, 0x50, 0x01]);
    assert_eq!(&header.title[..4], b"TEST");
    assert_eq!(header.cartridge_type, 0);
    assert_eq!(header.rom_size, 0);
    assert_eq!(header.old_licensee_code, 0x01);
    assert_eq!(header.header_checksum, 0xA6);
    assert_eq!(header.cartridge_licensee_name(), "Nintendo");
    assert_eq!(header.title_name(), "");
}

#[test]
fn short_image_is_refused() {
    let rom = vec![0u8; 0x100];
    assert!(matches!(
        Cartridge::from_rom_bytes(rom),
        Err(CartridgeError::BadCartridgeHeader)
    ));
}

#[test]
fn mapper_cartridges_are_refused() {
    let mut rom = fixture_rom();
    rom[0x147] = 0x01; // MBC1
    assert!(matches!(
        Cartridge::from_rom_bytes(rom),
        Err(CartridgeError::UnsupportedMapper)
    ));
}

#[test]
fn cart_read_indexes_rom() {
    let mut rom = fixture_rom();
    rom[0x2000] = 0x5C;
    let cart = Cartridge::from_rom_bytes(rom).unwrap();
    assert_eq!(cart.cart_read(0x2000), 0x5C);
    assert_eq!(cart.cart_read(0xA000), 0, "beyond a 32 KiB image");
    assert_eq!(cart.rom_len(), 0x8000);
}
