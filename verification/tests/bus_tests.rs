use nes_core::bus::Bus;
use nes_core::cartridge::Rom;
use nes_core::cpu::Mem;
use nes_core::joypad::JoypadButton;

fn test_rom() -> Rom {
    let mut raw: Vec<u8> = vec![0x4e, 0x45, 0x53, 0x1a, 2, 1, 0, 0];
    raw.resize(16 + 2 * 0x4000 + 0x2000, 0);
    Rom::new(&raw).unwrap()
}

#[test]
fn test_mem_read_write_to_ram() {
    let mut bus = Bus::new(test_rom());
    bus.mem_write(0x01, 0x55);
    assert_eq!(bus.mem_read(0x01), 0x55);
}

#[test]
fn test_ram_mirrors() {
    let mut bus = Bus::new(test_rom());
    bus.mem_write(0x0005, 0x12);
    assert_eq!(bus.mem_read(0x0005), 0x12);
    assert_eq!(bus.mem_read(0x0805), 0x12);
    assert_eq!(bus.mem_read(0x1005), 0x12);
    assert_eq!(bus.mem_read(0x1805), 0x12);
    // a write through a mirror lands in the same cell
    bus.mem_write(0x1805, 0x34);
    assert_eq!(bus.mem_read(0x0005), 0x34);
}

#[test]
fn test_write_only_registers_read_zero() {
    let mut bus = Bus::new(test_rom());
    assert_eq!(bus.mem_read(0x2000), 0);
    assert_eq!(bus.mem_read(0x2001), 0);
    assert_eq!(bus.mem_read(0x2003), 0);
    assert_eq!(bus.mem_read(0x2005), 0);
    assert_eq!(bus.mem_read(0x2006), 0);
    assert_eq!(bus.mem_read(0x4014), 0);
    assert_eq!(bus.mem_read(0x4000), 0);
    assert_eq!(bus.mem_read(0x4017), 0);
    assert_eq!(bus.mem_read(0x5000), 0);
}

#[test]
fn test_prg_rom_window_and_mirroring() {
    // 16 KiB of PRG: the upper window mirrors the lower.
    let mut raw: Vec<u8> = vec![0x4e, 0x45, 0x53, 0x1a, 1, 1, 0, 0];
    raw.resize(16 + 0x4000 + 0x2000, 0);
    raw[16] = 0xab; // first PRG byte
    raw[16 + 0x123] = 0xcd;
    let mut bus = Bus::new(Rom::new(&raw).unwrap());
    assert_eq!(bus.mem_read(0x8000), 0xab);
    assert_eq!(bus.mem_read(0x8123), 0xcd);
    assert_eq!(bus.mem_read(0xc000), 0xab);
    assert_eq!(bus.mem_read(0xc123), 0xcd);
}

#[test]
fn test_tick_advances_ppu_three_dots_per_cycle() {
    let mut bus = Bus::new(test_rom());
    assert_eq!(bus.ppu.dots, 0);
    bus.tick(5);
    assert_eq!(bus.ppu.dots, 15);
    assert_eq!(bus.cycles, 5);
    bus.tick(7);
    assert_eq!(bus.ppu.dots, 36);
    assert_eq!(bus.cycles, 12);
}

#[test]
fn test_oam_dma_copies_a_page_from_ram() {
    let mut bus = Bus::new(test_rom());
    for i in 0..256u16 {
        bus.mem_write(0x0200 + i, i as u8);
    }
    bus.mem_write(0x4014, 0x02);
    for i in 0..256u16 {
        bus.mem_write(0x2003, i as u8);
        assert_eq!(bus.mem_read(0x2004), i as u8);
    }
}

#[test]
fn test_controller_strobe_sequence() {
    let mut bus = Bus::new(test_rom());
    bus.set_button_pressed(JoypadButton::Right, true);
    bus.mem_write(0x4016, 1);
    bus.mem_write(0x4016, 0);
    let expected = [0u8, 0, 0, 0, 0, 0, 0, 1];
    for e in expected {
        assert_eq!(bus.mem_read(0x4016), e);
    }
    // exhausted: further reads return 1 until the next strobe
    assert_eq!(bus.mem_read(0x4016), 1);
    assert_eq!(bus.mem_read(0x4016), 1);
}

#[test]
fn test_controller_strobe_high_pins_button_a() {
    let mut bus = Bus::new(test_rom());
    bus.set_button_pressed(JoypadButton::ButtonA, true);
    bus.mem_write(0x4016, 1);
    assert_eq!(bus.mem_read(0x4016), 1);
    assert_eq!(bus.mem_read(0x4016), 1);
    assert_eq!(bus.mem_read(0x4016), 1);
}

#[test]
fn test_ppu_data_buffered_read_through_bus() {
    let mut bus = Bus::new(test_rom());
    // point the PPU at nametable memory and write a byte
    bus.mem_write(0x2006, 0x20);
    bus.mem_write(0x2006, 0x10);
    bus.mem_write(0x2007, 0x66);
    // read it back: the first data read returns the stale buffer
    bus.mem_write(0x2006, 0x20);
    bus.mem_write(0x2006, 0x10);
    let _stale = bus.mem_read(0x2007);
    assert_eq!(bus.mem_read(0x2007), 0x66);
}

#[test]
fn test_vblank_raises_nmi_and_frame_signal() {
    let mut bus = Bus::new(test_rom());
    bus.mem_write(0x2000, 0x80); // enable NMI at vblank
    assert!(!bus.take_frame_signal());
    // scanline 241 starts after 241 * 341 dots = 82181, i.e. 27394 cycles
    for _ in 0..27400 {
        bus.tick(1);
    }
    assert!(bus.take_frame_signal());
    assert!(bus.poll_nmi_status().is_some());
    // consuming the latch clears it
    assert!(bus.poll_nmi_status().is_none());
    // the status register reports vblank, and reading it clears the bit
    assert!(bus.mem_read(0x2002) & 0x80 != 0);
    assert!(bus.mem_read(0x2002) & 0x80 == 0);
}

#[test]
fn test_rom_writes_are_ignored() {
    let mut bus = Bus::new(test_rom());
    let before = bus.mem_read(0x8000);
    bus.mem_write(0x8000, 0x99);
    assert_eq!(bus.mem_read(0x8000), before);
}
