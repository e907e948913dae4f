use bitbite::{Bitbite, Flag};

/// A byte of the NES cartridge header.
struct NesCartridgeF6(pub u8);

impl NesCartridgeF6 {
    pub const MIRRORING: Flag<u8> = Flag { mask: 0b0000_0001 };
    pub const HAS_BATTERY_RAM: Flag<u8> = Flag { mask: 0b0000_0010 };
    pub const TRAINER: Flag<u8> = Flag { mask: 0b0000_0100 };
    pub const FOUR_SCREEN: Flag<u8> = Flag { mask: 0b0000_1000 };
    pub const LOWER_MAPPER: Flag<u8> = Flag { mask: 0b1111_0000 };
}

impl Bitbite for NesCartridgeF6 {
    type Unit = u8;

    fn cell(&self) -> u8 {
        self.0
    }

    fn read(&self) -> u8 {
        self.0
    }

    fn write(&mut self, value: u8) {
        self.0 = value;
    }
}

struct U16Flags(pub u16);

impl U16Flags {
    pub const FIRST_NIBBLE: Flag<u16> = Flag { mask: 0b0000_0000_0000_1111 };
    pub const MIDDLE_NIBBLE: Flag<u16> = Flag { mask: 0b0000_0011_1100_0000 };
    pub const LAST_NIBBLE: Flag<u16> = Flag { mask: 0b1111_0000_0000_0000 };
}

impl Bitbite for U16Flags {
    type Unit = u16;

    fn cell(&self) -> u16 {
        self.0
    }

    fn read(&self) -> u16 {
        self.0
    }

    fn write(&mut self, value: u16) {
        self.0 = value;
    }
}

/// A value with more than one field, whose cell is one of them.
struct Header {
    field: u16,
    count: u8,
}

impl Bitbite for Header {
    type Unit = u16;

    fn cell(&self) -> u16 {
        self.field
    }

    fn read(&self) -> u16 {
        self.field
    }

    fn write(&mut self, value: u16) {
        self.field = value;
    }
}

#[test]
fn test_u8() {
    let mut t = NesCartridgeF6(0b0100_1011);
    assert_eq!(t.get_flag(&NesCartridgeF6::MIRRORING), 0b1);
    assert_eq!(t.get_flag(&NesCartridgeF6::HAS_BATTERY_RAM), 0b1);
    assert_eq!(t.get_flag(&NesCartridgeF6::TRAINER), 0b0);
    assert_eq!(t.get_flag(&NesCartridgeF6::FOUR_SCREEN), 0b1);
    assert_eq!(t.get_flag(&NesCartridgeF6::LOWER_MAPPER), 0b0100);
    t.set_flag(0b0010, &NesCartridgeF6::LOWER_MAPPER);
    assert_eq!(t.get_flag(&NesCartridgeF6::LOWER_MAPPER), 0b0010);
    t.set_on(0b0100, &NesCartridgeF6::LOWER_MAPPER);
    assert_eq!(t.get_flag(&NesCartridgeF6::LOWER_MAPPER), 0b0110);
}

#[test]
fn test_u16() {
    let mut t = U16Flags(0b0110_0010_1000_0011);
    assert_eq!(t.get_flag(&U16Flags::FIRST_NIBBLE), 0b0011);
    assert_eq!(t.get_flag(&U16Flags::MIDDLE_NIBBLE), 0b1010);
    assert_eq!(t.get_flag(&U16Flags::LAST_NIBBLE), 0b0110);
    t.set_flag(0b0101, &U16Flags::MIDDLE_NIBBLE);
    assert_eq!(t.get_flag(&U16Flags::MIDDLE_NIBBLE), 0b0101);
    t.set_on(0b0010, &U16Flags::MIDDLE_NIBBLE);
    assert_eq!(t.get_flag(&U16Flags::MIDDLE_NIBBLE), 0b0111);
}

#[test]
fn shift_is_lowest_set_bit() {
    assert_eq!(Flag::new(0b0000_1111_0000_0000u16).shift(), 8);
    assert_eq!(Flag::new(0b0000_0000_0000_0001u16).shift(), 0);
    assert_eq!(Flag::new(0b1000_0000u8).shift(), 7);
    assert_eq!(Flag::new(0b1010_0100u8).shift(), 2);
    assert_eq!(Flag::new(1u64 << 63).shift(), 63);
}

#[test]
fn zero_mask_reads_zero_and_writes_nothing() {
    let empty = Flag::new(0u8);
    assert_eq!(empty.shift(), 8);
    let mut t = NesCartridgeF6(0b1010_0101);
    assert_eq!(t.get_flag(&empty), 0);
    t.set_flag(0b1111, &empty);
    assert_eq!(t.0, 0b1010_0101);
    t.set_on(0b1111, &empty);
    assert_eq!(t.0, 0b1010_0101);
    t.set_off(0b1111, &empty);
    assert_eq!(t.0, 0b1010_0101);
    t.reset_flag(&empty);
    assert_eq!(t.0, 0b1010_0101);
    let empty64 = Flag::new(0u64);
    assert_eq!(empty64.shift(), 64);
    let mut c: u64 = u64::MAX;
    c.set_flag(1, &empty64);
    assert_eq!(c, u64::MAX);
    assert_eq!(c.get_flag(&empty64), 0);
}

#[test]
fn round_trip_every_fitting_value() {
    let mask = Flag::new(0b0011_1000u8);
    for cell in 0..=u8::MAX {
        for v in 0..8u8 {
            let mut t = NesCartridgeF6(cell);
            t.set_flag(v, &mask);
            assert_eq!(t.get_flag(&mask), v);
        }
    }
}

#[test]
fn reset_twice_equals_reset_once() {
    let mut once = U16Flags(0b1110_1101_0110_1011);
    once.reset_flag(&U16Flags::MIDDLE_NIBBLE);
    assert_eq!(once.0, 0b1110_1100_0010_1011);
    let mut twice = U16Flags(0b1110_1101_0110_1011);
    twice.reset_flag(&U16Flags::MIDDLE_NIBBLE);
    twice.reset_flag(&U16Flags::MIDDLE_NIBBLE);
    assert_eq!(twice.0, once.0);
}

#[test]
fn bits_outside_the_mask_are_kept() {
    let mask: u8 = 0b0011_1100;
    let flag = Flag::new(mask);
    let start: u8 = 0b1101_0110;
    let mut t = NesCartridgeF6(start);
    assert_eq!(t.get_flag(&flag), 0b0101);
    assert_eq!(t.0, start);
    t.set_flag(0b1010, &flag);
    assert_eq!(t.0 & !mask, start & !mask);
    assert_eq!(t.0, 0b1110_1010);
    t.set_on(0b0001, &flag);
    assert_eq!(t.0 & !mask, start & !mask);
    t.set_off(0b1111, &flag);
    assert_eq!(t.0 & !mask, start & !mask);
    t.reset_flag(&flag);
    assert_eq!(t.0, start & !mask);
}

#[test]
fn set_flag_does_not_narrow_its_value() {
    let mut t = NesCartridgeF6(0);
    t.set_flag(0b1_0011, &NesCartridgeF6::FOUR_SCREEN);
    assert_eq!(t.0, 0b1001_1000);
    let mut u = NesCartridgeF6(0);
    u.set_on(0b11, &NesCartridgeF6::TRAINER);
    assert_eq!(u.0, 0b0000_1100);
}

#[test]
fn set_off_clears_chosen_bits() {
    let mut t = NesCartridgeF6(0b1110_0000);
    t.set_off(0b0100, &NesCartridgeF6::LOWER_MAPPER);
    assert_eq!(t.get_flag(&NesCartridgeF6::LOWER_MAPPER), 0b1010);
    for field in 0..16u8 {
        for off in 0..16u8 {
            let mut c = NesCartridgeF6((field << 4) | 0b0000_1001);
            c.set_off(off, &NesCartridgeF6::LOWER_MAPPER);
            assert_eq!(c.get_flag(&NesCartridgeF6::LOWER_MAPPER), field & !off);
            assert_eq!(c.0 & 0b0000_1111, 0b0000_1001);
        }
    }
}

#[test]
fn reset_flag_clears_the_field() {
    let mut t = NesCartridgeF6(0b0110_0000);
    t.reset_flag(&NesCartridgeF6::LOWER_MAPPER);
    assert_eq!(t.get_flag(&NesCartridgeF6::LOWER_MAPPER), 0b0000);
    assert_eq!(t.0, 0);
}

#[test]
fn multi_field_value_uses_its_cell() {
    let middle = Flag::new(0b0000_0011_1100_0000u16);
    let mut h = Header { field: 0b0010_1010_1000_0110, count: 7 };
    assert_eq!(h.get_flag(&middle), 0b1010);
    h.set_flag(0b0001, &middle);
    assert_eq!(h.field, 0b0010_1000_0100_0110);
    assert_eq!(h.count, 7);
}

#[test]
fn wide_cells() {
    let mut w: u32 = 0xdead_beef;
    let byte2 = Flag::new(0x00ff_0000u32);
    assert_eq!(byte2.shift(), 16);
    assert_eq!(w.get_flag(&byte2), 0xad);
    w.set_flag(0x12, &byte2);
    assert_eq!(w, 0xde12_beef);
    let top = Flag::new(0xf000_0000_0000_0000u64);
    let mut x: u64 = 0x0123_4567_89ab_cdef;
    assert_eq!(x.get_flag(&top), 0);
    x.set_on(0b1010, &top);
    assert_eq!(x, 0xa123_4567_89ab_cdef);
    x.set_off(0b0010, &top);
    assert_eq!(x.get_flag(&top), 0b1000);
    x.reset_flag(&top);
    assert_eq!(x, 0x0123_4567_89ab_cdef);
}

#[test]
fn scattered_mask_uses_lowest_bit() {
    let scattered = Flag::new(0b1010_0100u8);
    let mut t: u8 = 0b1111_1111;
    assert_eq!(t.get_flag(&scattered), 0b10_1001);
    t.reset_flag(&scattered);
    assert_eq!(t, 0b0101_1011);
}

#[test]
fn read_and_write_reach_the_cell() {
    let mut t = NesCartridgeF6(3);
    assert_eq!(t.read(), 3);
    t.write(0b1001_0000);
    assert_eq!(t.0, 0b1001_0000);
    assert_eq!(t.get_flag(&NesCartridgeF6::LOWER_MAPPER), 0b1001);
}
