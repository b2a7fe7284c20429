//! Pin handles on the five GPIO ports, with their clock, mode, output and
//! input registers.

use vstd::prelude::*;

verus! {

/// Number of pins on one port.
pub const PINS_PER_PORT: u8 = 16;

/// One of the GPIO ports of the board.
#[derive(Clone, Copy, PartialEq, Eq, Structural, Debug)]
pub enum GpioBank {
    A,
    B,
    C,
    D,
    E,
}

impl GpioBank {
    /// Position of the port's enable bit in the AHB clock-enable register.
    pub open spec fn spec_clock_bit(self) -> u32 {
        match self {
            GpioBank::A => 17,
            GpioBank::B => 18,
            GpioBank::C => 19,
            GpioBank::D => 20,
            GpioBank::E => 21,
        }
    }

    pub fn clock_bit(&self) -> (r: u32)
        ensures
            r == self.spec_clock_bit(),
    {
        match self {
            GpioBank::A => 17,
            GpioBank::B => 18,
            GpioBank::C => 19,
            GpioBank::D => 20,
            GpioBank::E => 21,
        }
    }
}

/// Direction of a pin.
#[derive(Clone, Copy, PartialEq, Eq, Structural, Debug)]
pub enum GpioDirection {
    In,
    Out,
}

impl GpioDirection {
    /// The two-bit field written to the mode register.
    pub open spec fn spec_mode(self) -> u32 {
        match self {
            GpioDirection::In => 0b00,
            GpioDirection::Out => 0b01,
        }
    }

    pub fn mode(&self) -> (r: u32)
        ensures
            r == self.spec_mode(),
    {
        match self {
            GpioDirection::In => 0b00,
            GpioDirection::Out => 0b01,
        }
    }
}

/// The registers of one port.
///
/// `bsrr` holds the last word written to the set/reset register, which the
/// hardware applies to `odr` at once.
#[derive(Clone, Copy, PartialEq, Eq, Structural, Debug)]
pub struct GpioPort {
    pub moder: u32,
    pub odr: u32,
    pub idr: u32,
    pub bsrr: u32,
}

/// The clock-control registers and the five GPIO ports.
#[derive(Clone, Copy, PartialEq, Eq, Structural, Debug)]
pub struct Board {
    pub ahbenr: u32,
    pub apb2enr: u32,
    pub gpioa: GpioPort,
    pub gpiob: GpioPort,
    pub gpioc: GpioPort,
    pub gpiod: GpioPort,
    pub gpioe: GpioPort,
}

/// Mask of the two mode bits of `pin`.
pub open spec fn mode_mask(pin: u32) -> u32 {
    3u32 << ((2 * pin) as u32)
}

/// The mode field of `pin` in a mode register.
pub open spec fn mode_field(moder: u32, pin: u32) -> u32 {
    (moder >> ((2 * pin) as u32)) & 3u32
}

/// A mode register with the field of `pin` replaced by `mode`.
pub open spec fn with_mode(moder: u32, pin: u32, mode: u32) -> u32 {
    (moder & !mode_mask(pin)) | (mode << ((2 * pin) as u32))
}

/// The word that drives `pin` to `level` through the set/reset register:
/// the low half requests set, the high half requests reset.
pub open spec fn bsrr_word(pin: u32, level: bool) -> u32 {
    if level {
        1u32 << pin
    } else {
        1u32 << ((pin + 16) as u32)
    }
}

/// The output register after the set/reset register was written with `word`.
pub open spec fn apply_bsrr(odr: u32, word: u32) -> u32 {
    (odr & !(word >> 16u32)) | (word & 0xffffu32)
}

/// The level of bit `pin` in a data register.
pub open spec fn pin_level(reg: u32, pin: u32) -> bool {
    (reg >> pin) & 1u32 == 1u32
}

/// A clock-enable register with `bit` set or cleared.
pub open spec fn with_clock(reg: u32, bit: u32, enable: bool) -> u32 {
    if enable {
        reg | (1u32 << bit)
    } else {
        reg & !(1u32 << bit)
    }
}

/// The registers of port `bank`.
pub open spec fn port_of(b: Board, bank: GpioBank) -> GpioPort {
    match bank {
        GpioBank::A => b.gpioa,
        GpioBank::B => b.gpiob,
        GpioBank::C => b.gpioc,
        GpioBank::D => b.gpiod,
        GpioBank::E => b.gpioe,
    }
}

/// The board with the registers of port `bank` replaced.
pub open spec fn with_port(b: Board, bank: GpioBank, p: GpioPort) -> Board {
    match bank {
        GpioBank::A => Board { gpioa: p, ..b },
        GpioBank::B => Board { gpiob: p, ..b },
        GpioBank::C => Board { gpioc: p, ..b },
        GpioBank::D => Board { gpiod: p, ..b },
        GpioBank::E => Board { gpioe: p, ..b },
    }
}

/// The board after the clock of port `bank` was switched on or off.
pub open spec fn after_set_clock(b: Board, bank: GpioBank, enable: bool) -> Board {
    Board { ahbenr: with_clock(b.ahbenr, bank.spec_clock_bit(), enable), ..b }
}

/// The board after `pin` of port `bank` was given direction `dir`.
pub open spec fn after_set_direction(b: Board, bank: GpioBank, pin: u32, dir: GpioDirection) -> Board {
    let p = port_of(b, bank);
    with_port(b, bank, GpioPort { moder: with_mode(p.moder, pin, dir.spec_mode()), ..p })
}

/// The board after `pin` of port `bank` was driven to `level`.
pub open spec fn after_write(b: Board, bank: GpioBank, pin: u32, level: bool) -> Board {
    let p = port_of(b, bank);
    let w = bsrr_word(pin, level);
    with_port(b, bank, GpioPort { odr: apply_bsrr(p.odr, w), bsrr: w, ..p })
}

/// The level that a read of `pin` of port `bank` samples.
pub open spec fn level_of(b: Board, bank: GpioBank, pin: u32) -> bool {
    pin_level(port_of(b, bank).idr, pin)
}

/// The registers of the port that `gpio` belongs to.
pub fn get_gpio_peripheral(gpio: &Gpio, board: &Board) -> (r: GpioPort)
    ensures
        r == port_of(*board, gpio.spec_bank()),
{
    match gpio.bank {
        GpioBank::A => board.gpioa,
        GpioBank::B => board.gpiob,
        GpioBank::C => board.gpioc,
        GpioBank::D => board.gpiod,
        GpioBank::E => board.gpioe,
    }
}

fn store_port(board: &mut Board, bank: GpioBank, p: GpioPort)
    ensures
        *final(board) == with_port(*old(board), bank, p),
{
    match bank {
        GpioBank::A => board.gpioa = p,
        GpioBank::B => board.gpiob = p,
        GpioBank::C => board.gpioc = p,
        GpioBank::D => board.gpiod = p,
        GpioBank::E => board.gpioe = p,
    }
}

/// A handle on one pin of one port. Its index is always below 16.
pub struct Gpio {
    pin: u8,
    bank: GpioBank,
}

impl Gpio {
    #[verifier::type_invariant]
    spec fn inv(self) -> bool {
        self.pin < PINS_PER_PORT
    }

    /// Index of the pin within its port.
    pub closed spec fn spec_pin(self) -> u32 {
        self.pin as u32
    }

    /// Port of the pin.
    pub closed spec fn spec_bank(self) -> GpioBank {
        self.bank
    }

    /// Index of the pin within its port, always below 16.
    pub fn pin(&self) -> (r: u8)
        ensures
            r as u32 == self.spec_pin(),
            r < 16,
    {
        proof {
            use_type_invariant(self);
        }
        self.pin
    }

    pub fn bank(&self) -> (r: GpioBank)
        ensures
            r == self.spec_bank(),
    {
        self.bank
    }

    /// Takes pin `pin` of port `bank`: switches on the port's clock, then
    /// gives the pin direction `dir`. An index of 16 or more is refused and
    /// leaves the board untouched.
    pub fn new(pin: u8, bank: GpioBank, dir: GpioDirection, board: &mut Board) -> (r: Option<Gpio>)
        ensures
            pin >= 16 ==> r.is_none() && *final(board) == *old(board),
            pin < 16 ==> r.is_some() && r.unwrap().spec_pin() == pin as u32
                && r.unwrap().spec_bank() == bank
                && *final(board) == after_set_direction(
                    after_set_clock(*old(board), bank, true),
                    bank,
                    pin as u32,
                    dir,
                ),
    {
        if pin >= PINS_PER_PORT {
            return None;
        }
        let gpio = Gpio { pin, bank };
        gpio.set_clock(board, true);
        gpio.set_direction(board, dir);
        Some(gpio)
    }

    /// Sets or clears the clock-enable bit of the pin's port, and no other bit.
    pub fn set_clock(&self, board: &mut Board, enable: bool)
        ensures
            *final(board) == after_set_clock(*old(board), self.spec_bank(), enable),
    {
        let bit = self.bank.clock_bit();
        if enable {
            board.ahbenr = board.ahbenr | (1u32 << bit);
        } else {
            board.ahbenr = board.ahbenr & !(1u32 << bit);
        }
    }

    /// Writes the mode field of the pin, keeping the fields of the other pins.
    pub fn set_direction(&self, board: &mut Board, dir: GpioDirection)
        ensures
            *final(board) == after_set_direction(*old(board), self.spec_bank(), self.spec_pin(), dir),
    {
        proof {
            use_type_invariant(self);
        }
        let port = get_gpio_peripheral(self, board);
        let shift: u32 = 2 * (self.pin as u32);
        let moder = (port.moder & !(3u32 << shift)) | (dir.mode() << shift);
        store_port(board, self.bank, GpioPort { moder, ..port });
    }

    /// Drives the pin to `is_on` with one word to the set/reset register.
    pub fn write(&self, board: &mut Board, is_on: bool)
        ensures
            *final(board) == after_write(*old(board), self.spec_bank(), self.spec_pin(), is_on),
    {
        proof {
            use_type_invariant(self);
        }
        let port = get_gpio_peripheral(self, board);
        let pin = self.pin as u32;
        let word: u32 = if is_on {
            1u32 << pin
        } else {
            1u32 << (pin + 16)
        };
        let odr = (port.odr & !(word >> 16u32)) | (word & 0xffffu32);
        store_port(board, self.bank, GpioPort { odr, bsrr: word, ..port });
    }

    /// The sampled input level of the pin, whatever its direction.
    pub fn read(&self, board: &Board) -> (r: bool)
        ensures
            r == level_of(*board, self.spec_bank(), self.spec_pin()),
    {
        proof {
            use_type_invariant(self);
        }
        let port = get_gpio_peripheral(self, board);
        (port.idr >> (self.pin as u32)) & 1u32 == 1u32
    }
}

proof fn lemma_mode_bits(m: u32, pin: u32, mode: u32, j: u32)
    by (bit_vector)
    requires
        pin < 16,
        mode < 4,
        j < 16,
    ensures
        mode_field(with_mode(m, pin, mode), pin) == mode,
        with_mode(m, pin, mode) & !mode_mask(pin) == m & !mode_mask(pin),
        j != pin ==> mode_field(with_mode(m, pin, mode), j) == mode_field(m, j),
{
}

pub(crate) proof fn lemma_output_bits(odr: u32, pin: u32, level: bool, j: u32)
    by (bit_vector)
    requires
        pin < 16,
        j < 32,
    ensures
        pin_level(apply_bsrr(odr, bsrr_word(pin, level)), pin) == level,
        j != pin ==> pin_level(apply_bsrr(odr, bsrr_word(pin, level)), j) == pin_level(odr, j),
{
}

proof fn lemma_clock_bits(reg: u32, bit: u32, enable: bool, j: u32)
    by (bit_vector)
    requires
        bit < 32,
        j < 32,
    ensures
        pin_level(with_clock(reg, bit, enable), bit) == enable,
        j != bit ==> pin_level(with_clock(reg, bit, enable), j) == pin_level(reg, j),
        with_clock(with_clock(reg, bit, enable), bit, enable) == with_clock(reg, bit, enable),
{
}

/// Giving a pin a direction writes that pin's two mode bits and nothing else:
/// every other bit of its mode register, every other register of its port,
/// the other ports and the clock registers keep their values.
pub proof fn lemma_set_direction_only_touches_its_field(
    b: Board,
    bank: GpioBank,
    pin: u32,
    dir: GpioDirection,
)
    requires
        pin < 16,
    ensures
        ({
            let a = after_set_direction(b, bank, pin, dir);
            let old_moder = port_of(b, bank).moder;
            let new_moder = port_of(a, bank).moder;
            &&& mode_field(new_moder, pin) == dir.spec_mode()
            &&& new_moder & !mode_mask(pin) == old_moder & !mode_mask(pin)
            &&& forall|j: u32|
                j < 16 && j != pin ==> #[trigger] mode_field(new_moder, j) == mode_field(old_moder, j)
            &&& port_of(a, bank) == GpioPort { moder: new_moder, ..port_of(b, bank) }
            &&& forall|other: GpioBank| other != bank ==> #[trigger] port_of(a, other) == port_of(b, other)
            &&& a.ahbenr == b.ahbenr
            &&& a.apb2enr == b.apb2enr
        }),
{
    let m = port_of(b, bank).moder;
    let mode = dir.spec_mode();
    lemma_mode_bits(m, pin, mode, 0);
    assert forall|j: u32| j < 16 && j != pin implies #[trigger] mode_field(with_mode(m, pin, mode), j)
        == mode_field(m, j) by {
        lemma_mode_bits(m, pin, mode, j);
    }
}

/// Driving a pin high and then low writes two words to the set/reset
/// register. Neither asks to set and reset the same pin; the pin the first
/// one sets is the pin the second one resets, and no other pin is named.
/// The pin ends low, and the other output bits keep their values.
pub proof fn lemma_write_high_then_low(b: Board, bank: GpioBank, pin: u32)
    requires
        pin < 16,
    ensures
        ({
            let hi = after_write(b, bank, pin, true);
            let lo = after_write(hi, bank, pin, false);
            let s = port_of(hi, bank).bsrr;
            let r = port_of(lo, bank).bsrr;
            &&& (s & 0xffffu32) & (s >> 16u32) == 0
            &&& (r & 0xffffu32) & (r >> 16u32) == 0
            &&& s & 0xffffu32 == 1u32 << pin
            &&& s >> 16u32 == 0
            &&& r >> 16u32 == 1u32 << pin
            &&& r & 0xffffu32 == 0
            &&& pin_level(port_of(hi, bank).odr, pin)
            &&& !pin_level(port_of(lo, bank).odr, pin)
            &&& forall|j: u32|
                j < 32 && j != pin ==> #[trigger] pin_level(port_of(lo, bank).odr, j) == pin_level(
                    port_of(b, bank).odr,
                    j,
                )
        }),
{
    let odr0 = port_of(b, bank).odr;
    let odr1 = apply_bsrr(odr0, bsrr_word(pin, true));
    let odr2 = apply_bsrr(odr1, bsrr_word(pin, false));
    assert({
        let s = bsrr_word(pin, true);
        let r = bsrr_word(pin, false);
        &&& (s & 0xffffu32) & (s >> 16u32) == 0
        &&& (r & 0xffffu32) & (r >> 16u32) == 0
        &&& s & 0xffffu32 == 1u32 << pin
        &&& s >> 16u32 == 0
        &&& r >> 16u32 == 1u32 << pin
        &&& r & 0xffffu32 == 0
    }) by (bit_vector)
        requires
            pin < 16,
    ;
    lemma_output_bits(odr0, pin, true, 0);
    lemma_output_bits(odr1, pin, false, 0);
    assert forall|j: u32| j < 32 && j != pin implies #[trigger] pin_level(odr2, j) == pin_level(
        odr0,
        j,
    ) by {
        lemma_output_bits(odr0, pin, true, j);
        lemma_output_bits(odr1, pin, false, j);
    }
}

/// A read samples the input register only: giving any pin a direction, or
/// driving any pin, does not change what a read of any pin returns.
pub proof fn lemma_read_ignores_direction_and_output(
    b: Board,
    bank: GpioBank,
    pin: u32,
    dir: GpioDirection,
    level: bool,
    read_bank: GpioBank,
    read_pin: u32,
)
    ensures
        level_of(after_set_direction(b, bank, pin, dir), read_bank, read_pin) == level_of(
            b,
            read_bank,
            read_pin,
        ),
        level_of(after_write(b, bank, pin, level), read_bank, read_pin) == level_of(
            b,
            read_bank,
            read_pin,
        ),
{
}

/// Switching a port's clock on sets its one enable bit and leaves the other
/// bits of the register as they were; doing it twice is doing it once.
/// The same holds of switching it off, with the bit cleared.
pub proof fn lemma_clock_one_bit_idempotent(b: Board, bank: GpioBank, enable: bool)
    ensures
        ({
            let a = after_set_clock(b, bank, enable);
            let bit = bank.spec_clock_bit();
            &&& pin_level(a.ahbenr, bit) == enable
            &&& forall|j: u32| j < 32 && j != bit ==> #[trigger] pin_level(a.ahbenr, j) == pin_level(b.ahbenr, j)
            &&& after_set_clock(a, bank, enable) == a
            &&& a == Board { ahbenr: a.ahbenr, ..b }
        }),
{
    let bit = bank.spec_clock_bit();
    lemma_clock_bits(b.ahbenr, bit, enable, 0);
    assert forall|j: u32| j < 32 && j != bit implies #[trigger] pin_level(
        with_clock(b.ahbenr, bit, enable),
        j,
    ) == pin_level(b.ahbenr, j) by {
        lemma_clock_bits(b.ahbenr, bit, enable, j);
    }
}

} // verus!
