//! Configuration of one GPIO port: sixteen pins whose mode and output speed
//! live as 2-bit fields in one 32-bit register each, and whose alternate
//! function lives as a 4-bit field split across a low register (pins 0..=7)
//! and a high register (pins 8..=15). Every operation is a read-modify-write
//! of exactly one register that replaces the targeted pin's field and leaves
//! every other bit unchanged.

use vstd::prelude::*;

use crate::fields::{
    get_field2, get_field4, lemma_field2_frame, lemma_field2_idempotent, lemma_field2_read_back,
    lemma_field4_frame, lemma_field4_read_back, set_field2, set_field4,
};

verus! {

/// One of the sixteen pins of a GPIO port.
#[derive(Clone, Copy)]
pub enum PinIndex {
    Pin0,
    Pin1,
    Pin2,
    Pin3,
    Pin4,
    Pin5,
    Pin6,
    Pin7,
    Pin8,
    Pin9,
    Pin10,
    Pin11,
    Pin12,
    Pin13,
    Pin14,
    Pin15,
}

/// The 2-bit mode of a pin.
#[derive(Clone, Copy)]
pub enum PinMode {
    Input,
    Output,
    Alternate,
    Analog,
}

/// The 2-bit output speed of a pin.
#[derive(Clone, Copy)]
pub enum PinSpeed {
    LowSpeed,
    MediumSpeed,
    HighSpeed,
    VeryHighSpeed,
}

/// One of the sixteen 4-bit alternate-function selectors. The routing each
/// selector picks is device-specific; this layer only places the selector
/// into the pin's field.
#[derive(Clone, Copy)]
pub enum PinAltFunc {
    Af0,
    Af1,
    Af2,
    Af3,
    Af4,
    Af5,
    Af6,
    Af7,
    Af8,
    Af9,
    Af10,
    Af11,
    Af12,
    Af13,
    Af14,
    Af15,
}

impl PinIndex {
    /// The pin's position within the port, in 0..=15.
    pub open spec fn spec_number(self) -> u32 {
        match self {
            PinIndex::Pin0 => 0,
            PinIndex::Pin1 => 1,
            PinIndex::Pin2 => 2,
            PinIndex::Pin3 => 3,
            PinIndex::Pin4 => 4,
            PinIndex::Pin5 => 5,
            PinIndex::Pin6 => 6,
            PinIndex::Pin7 => 7,
            PinIndex::Pin8 => 8,
            PinIndex::Pin9 => 9,
            PinIndex::Pin10 => 10,
            PinIndex::Pin11 => 11,
            PinIndex::Pin12 => 12,
            PinIndex::Pin13 => 13,
            PinIndex::Pin14 => 14,
            PinIndex::Pin15 => 15,
        }
    }

    /// The pin's position within the port, in 0..=15.
    #[verifier::when_used_as_spec(spec_number)]
    pub fn number(self) -> (n: u32)
        ensures
            n == self.spec_number(),
            n <= 15,
    {
        match self {
            PinIndex::Pin0 => 0,
            PinIndex::Pin1 => 1,
            PinIndex::Pin2 => 2,
            PinIndex::Pin3 => 3,
            PinIndex::Pin4 => 4,
            PinIndex::Pin5 => 5,
            PinIndex::Pin6 => 6,
            PinIndex::Pin7 => 7,
            PinIndex::Pin8 => 8,
            PinIndex::Pin9 => 9,
            PinIndex::Pin10 => 10,
            PinIndex::Pin11 => 11,
            PinIndex::Pin12 => 12,
            PinIndex::Pin13 => 13,
            PinIndex::Pin14 => 14,
            PinIndex::Pin15 => 15,
        }
    }

    /// Bit offset of this pin's 2-bit fields (mode, speed): two bits per pin.
    pub open spec fn field2_offset(self) -> u32 {
        (self.number() * 2) as u32
    }

    /// Bit offset of this pin's 4-bit alternate-function field within the
    /// register that holds it: four bits per pin, eight pins per register.
    pub open spec fn field4_offset(self) -> u32 {
        if self.number() < 8 {
            (self.number() * 4) as u32
        } else {
            ((self.number() - 8) * 4) as u32
        }
    }
}

impl PinMode {
    /// The 2-bit encoding of the mode.
    pub open spec fn spec_bits(self) -> u32 {
        match self {
            PinMode::Input => 0b00,
            PinMode::Output => 0b01,
            PinMode::Alternate => 0b10,
            PinMode::Analog => 0b11,
        }
    }

    /// The 2-bit encoding of the mode.
    #[verifier::when_used_as_spec(spec_bits)]
    pub fn bits(self) -> (b: u32)
        ensures
            b == self.spec_bits(),
            b <= 0b11,
    {
        match self {
            PinMode::Input => 0b00,
            PinMode::Output => 0b01,
            PinMode::Alternate => 0b10,
            PinMode::Analog => 0b11,
        }
    }
}

impl PinSpeed {
    /// The 2-bit encoding of the speed.
    pub open spec fn spec_bits(self) -> u32 {
        match self {
            PinSpeed::LowSpeed => 0b00,
            PinSpeed::MediumSpeed => 0b01,
            PinSpeed::HighSpeed => 0b10,
            PinSpeed::VeryHighSpeed => 0b11,
        }
    }

    /// The 2-bit encoding of the speed.
    #[verifier::when_used_as_spec(spec_bits)]
    pub fn bits(self) -> (b: u32)
        ensures
            b == self.spec_bits(),
            b <= 0b11,
    {
        match self {
            PinSpeed::LowSpeed => 0b00,
            PinSpeed::MediumSpeed => 0b01,
            PinSpeed::HighSpeed => 0b10,
            PinSpeed::VeryHighSpeed => 0b11,
        }
    }
}

impl PinAltFunc {
    /// The 4-bit encoding of the alternate-function selector.
    pub open spec fn spec_bits(self) -> u32 {
        match self {
            PinAltFunc::Af0 => 0,
            PinAltFunc::Af1 => 1,
            PinAltFunc::Af2 => 2,
            PinAltFunc::Af3 => 3,
            PinAltFunc::Af4 => 4,
            PinAltFunc::Af5 => 5,
            PinAltFunc::Af6 => 6,
            PinAltFunc::Af7 => 7,
            PinAltFunc::Af8 => 8,
            PinAltFunc::Af9 => 9,
            PinAltFunc::Af10 => 10,
            PinAltFunc::Af11 => 11,
            PinAltFunc::Af12 => 12,
            PinAltFunc::Af13 => 13,
            PinAltFunc::Af14 => 14,
            PinAltFunc::Af15 => 15,
        }
    }

    /// The 4-bit encoding of the alternate-function selector.
    #[verifier::when_used_as_spec(spec_bits)]
    pub fn bits(self) -> (b: u32)
        ensures
            b == self.spec_bits(),
            b <= 0b1111,
    {
        match self {
            PinAltFunc::Af0 => 0,
            PinAltFunc::Af1 => 1,
            PinAltFunc::Af2 => 2,
            PinAltFunc::Af3 => 3,
            PinAltFunc::Af4 => 4,
            PinAltFunc::Af5 => 5,
            PinAltFunc::Af6 => 6,
            PinAltFunc::Af7 => 7,
            PinAltFunc::Af8 => 8,
            PinAltFunc::Af9 => 9,
            PinAltFunc::Af10 => 10,
            PinAltFunc::Af11 => 11,
            PinAltFunc::Af12 => 12,
            PinAltFunc::Af13 => 13,
            PinAltFunc::Af14 => 14,
            PinAltFunc::Af15 => 15,
        }
    }
}

/// The register words of one GPIO port that this layer configures: pin
/// modes, output speeds, and the low and high alternate-function registers.
#[derive(Clone, Copy, Debug)]
pub struct GpioRegisters {
    /// Mode register: the 2-bit mode of pin `p` at bit offset `p * 2`.
    pub moder: u32,
    /// Output-speed register: the 2-bit speed of pin `p` at bit offset `p * 2`.
    pub ospeedr: u32,
    /// Alternate-function low register: the 4-bit selector of pin `p` in
    /// 0..=7 at bit offset `p * 4`.
    pub afrl: u32,
    /// Alternate-function high register: the 4-bit selector of pin `p` in
    /// 8..=15 at bit offset `(p - 8) * 4`.
    pub afrh: u32,
}

impl GpioRegisters {
    /// The mode field of pin `p`.
    pub open spec fn mode_of(self, p: PinIndex) -> u32 {
        get_field2(self.moder, p.field2_offset())
    }

    /// The speed field of pin `p`.
    pub open spec fn speed_of(self, p: PinIndex) -> u32 {
        get_field2(self.ospeedr, p.field2_offset())
    }

    /// The alternate-function field of pin `p`, read from whichever of the
    /// two alternate-function registers holds it.
    pub open spec fn alt_func_of(self, p: PinIndex) -> u32 {
        if p.number() < 8 {
            get_field4(self.afrl, p.field4_offset())
        } else {
            get_field4(self.afrh, p.field4_offset())
        }
    }

    /// The port after writing mode `m` into pin `p`'s mode field.
    pub open spec fn with_mode(self, p: PinIndex, m: PinMode) -> GpioRegisters {
        GpioRegisters { moder: set_field2(self.moder, p.field2_offset(), m.bits()), ..self }
    }

    /// The port after writing speed `s` into pin `p`'s speed field.
    pub open spec fn with_speed(self, p: PinIndex, s: PinSpeed) -> GpioRegisters {
        GpioRegisters { ospeedr: set_field2(self.ospeedr, p.field2_offset(), s.bits()), ..self }
    }

    /// The port after writing selector `f` into pin `p`'s alternate-function
    /// field. Pins 0..=7 change only the low register; pins 8..=15 change
    /// only the high register.
    pub open spec fn with_alt_func(self, p: PinIndex, f: PinAltFunc) -> GpioRegisters {
        if p.number() < 8 {
            GpioRegisters { afrl: set_field4(self.afrl, p.field4_offset(), f.bits()), ..self }
        } else {
            GpioRegisters { afrh: set_field4(self.afrh, p.field4_offset(), f.bits()), ..self }
        }
    }
}

/// Exclusive ownership of one GPIO port's configuration registers. The
/// register block is handed in at construction, configured through the
/// methods below, and may be handed back out with [`Gpio::release`].
pub struct Gpio {
    regs: GpioRegisters,
}

impl View for Gpio {
    type V = GpioRegisters;

    closed spec fn view(&self) -> GpioRegisters {
        self.regs
    }
}

impl Gpio {
    /// Takes ownership of a port's register block.
    pub fn new(regs: GpioRegisters) -> (g: Gpio)
        ensures
            g@ == regs,
    {
        Gpio { regs }
    }

    /// Hands the register block back to the caller, ending this
    /// configurator's exclusive ownership.
    pub fn release(self) -> (regs: GpioRegisters)
        ensures
            regs == self@,
    {
        self.regs
    }

    /// Sets pin `n`'s 2-bit mode field in the mode register, leaving every
    /// other bit of the port unchanged.
    pub fn set_mode(self, n: PinIndex, mode: PinMode) -> (r: Gpio)
        ensures
            r@ == self@.with_mode(n, mode),
    {
        let offset: u32 = n.number() * 2;
        let mask: u32 = 0b11u32 << offset;
        let val: u32 = (mode.bits() << offset) & mask;
        Gpio {
            regs: GpioRegisters { moder: (self.regs.moder & !mask) | val, ..self.regs },
        }
    }

    /// Sets pin `n` to alternate-function mode; shorthand for
    /// `set_mode(n, PinMode::Alternate)`.
    pub fn set_mode_alternate(self, n: PinIndex) -> (r: Gpio)
        ensures
            r@ == self@.with_mode(n, PinMode::Alternate),
    {
        self.set_mode(n, PinMode::Alternate)
    }

    /// Sets pin `n`'s 2-bit speed field in the output-speed register,
    /// leaving every other bit of the port unchanged.
    pub fn set_speed(self, n: PinIndex, speed: PinSpeed) -> (r: Gpio)
        ensures
            r@ == self@.with_speed(n, speed),
    {
        let offset: u32 = n.number() * 2;
        let mask: u32 = 0b11u32 << offset;
        let val: u32 = (speed.bits() << offset) & mask;
        Gpio {
            regs: GpioRegisters { ospeedr: (self.regs.ospeedr & !mask) | val, ..self.regs },
        }
    }

    /// Sets pin `n`'s 4-bit alternate-function field, in the low register
    /// for pins 0..=7 and in the high register for pins 8..=15, leaving
    /// every other bit of the port unchanged.
    pub fn set_alt_func(self, n: PinIndex, func: PinAltFunc) -> (r: Gpio)
        ensures
            r@ == self@.with_alt_func(n, func),
    {
        let number: u32 = n.number();
        if number < 8 {
            let offset: u32 = number * 4;
            let mask: u32 = 0b1111u32 << offset;
            let val: u32 = (func.bits() << offset) & mask;
            Gpio {
                regs: GpioRegisters { afrl: (self.regs.afrl & !mask) | val, ..self.regs },
            }
        } else {
            let offset: u32 = (number - 8) * 4;
            let mask: u32 = 0b1111u32 << offset;
            let val: u32 = (func.bits() << offset) & mask;
            Gpio {
                regs: GpioRegisters { afrh: (self.regs.afrh & !mask) | val, ..self.regs },
            }
        }
    }
}

/// Every pin number is at most 15.
proof fn lemma_pin_number_bound(p: PinIndex)
    ensures
        p.number() <= 15,
{
}

/// Law: after writing mode `m` into pin `p`'s field, that field reads back
/// as exactly `m`'s encoding; every other pin's mode field, and every
/// register other than the mode register, is bit-for-bit unchanged.
pub proof fn lemma_set_mode_read_back(g: GpioRegisters, p: PinIndex, m: PinMode)
    ensures
        g.with_mode(p, m).mode_of(p) == m.bits(),
        forall|q: PinIndex|
            q.number() != p.number() ==> #[trigger] g.with_mode(p, m).mode_of(q) == g.mode_of(q),
        g.with_mode(p, m).ospeedr == g.ospeedr,
        g.with_mode(p, m).afrl == g.afrl,
        g.with_mode(p, m).afrh == g.afrh,
{
    lemma_pin_number_bound(p);
    lemma_field2_read_back(g.moder, p.field2_offset(), m.bits());
    assert forall|q: PinIndex|
        q.number() != p.number() implies #[trigger] g.with_mode(p, m).mode_of(q) == g.mode_of(
        q,
    ) by {
        lemma_pin_number_bound(q);
        lemma_field2_frame(g.moder, p.field2_offset(), q.field2_offset(), m.bits());
    }
}

/// Law: after writing speed `s` into pin `p`'s field, that field reads back
/// as exactly `s`'s encoding; every other pin's speed field, and every
/// register other than the speed register, is bit-for-bit unchanged.
pub proof fn lemma_set_speed_read_back(g: GpioRegisters, p: PinIndex, s: PinSpeed)
    ensures
        g.with_speed(p, s).speed_of(p) == s.bits(),
        forall|q: PinIndex|
            q.number() != p.number() ==> #[trigger] g.with_speed(p, s).speed_of(q) == g.speed_of(
                q,
            ),
        g.with_speed(p, s).moder == g.moder,
        g.with_speed(p, s).afrl == g.afrl,
        g.with_speed(p, s).afrh == g.afrh,
{
    lemma_pin_number_bound(p);
    lemma_field2_read_back(g.ospeedr, p.field2_offset(), s.bits());
    assert forall|q: PinIndex|
        q.number() != p.number() implies #[trigger] g.with_speed(p, s).speed_of(q) == g.speed_of(
        q,
    ) by {
        lemma_pin_number_bound(q);
        lemma_field2_frame(g.ospeedr, p.field2_offset(), q.field2_offset(), s.bits());
    }
}

/// Law: after writing selector `f` into pin `p`'s alternate-function field,
/// that field reads back as exactly `f`'s encoding; every other pin's
/// alternate-function field is unchanged; the mode and speed registers are
/// unchanged; and the alternate-function register not holding `p`'s field
/// (the high one for pins 0..=7, the low one for pins 8..=15) is untouched.
pub proof fn lemma_set_alt_func_read_back(g: GpioRegisters, p: PinIndex, f: PinAltFunc)
    ensures
        g.with_alt_func(p, f).alt_func_of(p) == f.bits(),
        forall|q: PinIndex|
            q.number() != p.number() ==> #[trigger] g.with_alt_func(p, f).alt_func_of(q)
                == g.alt_func_of(q),
        g.with_alt_func(p, f).moder == g.moder,
        g.with_alt_func(p, f).ospeedr == g.ospeedr,
        p.number() < 8 ==> g.with_alt_func(p, f).afrh == g.afrh,
        p.number() >= 8 ==> g.with_alt_func(p, f).afrl == g.afrl,
{
    lemma_pin_number_bound(p);
    if p.number() < 8 {
        lemma_field4_read_back(g.afrl, p.field4_offset(), f.bits());
    } else {
        lemma_field4_read_back(g.afrh, p.field4_offset(), f.bits());
    }
    assert forall|q: PinIndex|
        q.number() != p.number() implies #[trigger] g.with_alt_func(p, f).alt_func_of(q)
        == g.alt_func_of(q) by {
        lemma_pin_number_bound(q);
        if p.number() < 8 && q.number() < 8 {
            lemma_field4_frame(g.afrl, p.field4_offset(), q.field4_offset(), f.bits());
        } else if p.number() >= 8 && q.number() >= 8 {
            lemma_field4_frame(g.afrh, p.field4_offset(), q.field4_offset(), f.bits());
        }
    }
}

/// Law: writing the same mode into the same pin twice in succession yields
/// the same register block as writing it once.
pub proof fn lemma_set_mode_idempotent(g: GpioRegisters, p: PinIndex, m: PinMode)
    ensures
        g.with_mode(p, m).with_mode(p, m) == g.with_mode(p, m),
{
    lemma_pin_number_bound(p);
    lemma_field2_idempotent(g.moder, p.field2_offset(), m.bits());
}

/// Law: setting a pin's mode and setting a pin's speed touch disjoint
/// registers, so the two operations yield the same register block in
/// either order.
pub proof fn lemma_set_mode_set_speed_commute(
    g: GpioRegisters,
    p: PinIndex,
    m: PinMode,
    q: PinIndex,
    s: PinSpeed,
)
    ensures
        g.with_mode(p, m).with_speed(q, s) == g.with_speed(q, s).with_mode(p, m),
{
}

} // verus!
