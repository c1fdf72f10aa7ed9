//! Bus routing: each region reads and writes where the map says, the echo
//! and forbidden regions are inert, and tiles come out of VRAM.

use rusty_gb::bus::Bus;
use rusty_gb::cartridge::Cartridge;

fn make_bus() -> Bus {
    let mut rom = vec![0u8; 0x8000];
    rom[0x000] = 0x31;
    rom[0x147] = 0;
    Bus::new(Cartridge::from_rom_bytes(rom).unwrap())
}

#[test]
fn rom_reads_and_ignores_writes() {
    let mut bus = make_bus();
    assert_eq!(bus.bus_read(0x0000), 0x31);
    bus.bus_write8(0x0000, 0xEE);
    assert_eq!(bus.bus_read(0x0000), 0x31, "ROM-only drops writes");
}

#[test]
fn vram_wram_hram_roundtrip() {
    let mut bus = make_bus();
    bus.bus_write8(0x8123, 0xAA);
    assert_eq!(bus.bus_read(0x8123), 0xAA);
    bus.bus_write8(0xC345, 0xBB);
    assert_eq!(bus.bus_read(0xC345), 0xBB);
    bus.bus_write8(0xFF80, 0xCC);
    assert_eq!(bus.bus_read(0xFF80), 0xCC);
    bus.bus_write8(0xFFFE, 0xDD);
    assert_eq!(bus.bus_read(0xFFFE), 0xDD);
}

#[test]
fn echo_and_forbidden_regions_are_inert() {
    let mut bus = make_bus();
    bus.bus_write8(0xE000, 0x11);
    assert_eq!(bus.bus_read(0xE000), 0);
    bus.bus_write8(0xFEA0, 0x22);
    assert_eq!(bus.bus_read(0xFEA0), 0);
    assert_eq!(bus.bus_read(0xFDFF), 0);
}

#[test]
fn ie_register_roundtrip() {
    let mut bus = make_bus();
    bus.bus_write8(0xFFFF, 0x1F);
    assert_eq!(bus.bus_read(0xFFFF), 0x1F);
    assert_eq!(bus.get_ie_register(), 0x1F);
}

#[test]
fn oam_roundtrip_when_dma_idle() {
    let mut bus = make_bus();
    bus.bus_write8(0xFE00, 0x40);
    bus.bus_write8(0xFE01, 0x20);
    bus.bus_write8(0xFE02, 0x07);
    bus.bus_write8(0xFE03, 0x80);
    assert_eq!(bus.bus_read(0xFE00), 0x40);
    assert_eq!(bus.bus_read(0xFE01), 0x20);
    assert_eq!(bus.bus_read(0xFE02), 0x07);
    assert_eq!(bus.bus_read(0xFE03), 0x80);
}

#[test]
fn oam_locked_while_dma_active() {
    let mut bus = make_bus();
    bus.bus_write8(0xFE00, 0x40);
    bus.bus_write8(0xFF46, 0xC0);
    assert_eq!(bus.bus_read(0xFE00), 0xFF, "reads return $FF");
    bus.bus_write8(0xFE00, 0x99);
    let mut cycles = 0;
    while bus.dma.active {
        bus.dma_tick();
        cycles += 1;
    }
    assert_eq!(cycles, 162, "2-cycle delay plus 160 transfer cycles");
    assert_eq!(bus.bus_read(0xFE00), 0x00, "write during DMA was dropped; byte 0 copied");
}

#[test]
fn bus_read16_is_little_endian() {
    let mut bus = make_bus();
    bus.bus_write8(0xC000, 0x34);
    bus.bus_write8(0xC001, 0x12);
    assert_eq!(bus.bus_read16(0xC000), 0x1234);
    bus.bus_write16(0xC002, 0xBEEF);
    assert_eq!(bus.bus_read(0xC002), 0xEF);
    assert_eq!(bus.bus_read(0xC003), 0xBE);
}

#[test]
fn fetch_tile_reads_vram() {
    let mut bus = make_bus();
    for i in 0..16u16 {
        bus.bus_write8(0x8000 + 5 * 16 + i, i as u8);
    }
    let tile = bus.fetch_tile(5);
    assert_eq!(tile.len(), 16);
    for i in 0..16usize {
        assert_eq!(tile[i], i as u8);
    }
}

#[test]
fn dbg_update_requires_transfer_flag() {
    let mut bus = make_bus();
    bus.bus_write8(0xFF01, b'A');
    bus.dbg_update();
    assert!(bus.dbg_message().is_empty(), "SC not $81: nothing captured");
    bus.bus_write8(0xFF02, 0x81);
    bus.dbg_update();
    assert_eq!(bus.dbg_message().as_slice(), b"A");
    assert_eq!(bus.bus_read(0xFF02), 0);
}
