//! Enabling interrupts: a controller with a bank of 32-bit enable
//! registers, each bit permitting one interrupt line. Enabling line `id`
//! sets bit `id % 32` of enable register `id / 32` by a read-modify-write
//! that leaves every other bit of the bank unchanged. A computed register
//! index outside the bank would mean the interrupt enumeration and the
//! register count have come apart; the valid range of [`InterruptId`]
//! excludes it, and the dispatch proves the stray branch unreachable.

use vstd::prelude::*;

use crate::fields::{get_bit, lemma_bit_frame, lemma_bit_read_back, set_bit};

verus! {

/// Number of 32-bit enable registers in the controller.
pub const ENABLE_REGISTER_COUNT: u16 = 4;

/// Number of interrupt lines the controller serves: 32 per enable register.
pub const INTERRUPT_LINE_COUNT: u16 = 32 * ENABLE_REGISTER_COUNT;

/// A logical interrupt line of the device, a number below
/// [`INTERRUPT_LINE_COUNT`]. Values are only handed out by
/// [`InterruptId::new`], which rejects out-of-range numbers.
#[derive(Clone, Copy)]
pub struct InterruptId {
    n: u16,
}

impl InterruptId {
    /// The line's number.
    pub closed spec fn spec_number(self) -> u16 {
        self.n
    }

    /// The line's number.
    #[verifier::when_used_as_spec(spec_number)]
    pub fn number(self) -> (n: u16)
        ensures
            n == self.spec_number(),
    {
        self.n
    }

    /// The line lies within the controller's bank of enable registers.
    pub open spec fn wf(self) -> bool {
        self.number() < INTERRUPT_LINE_COUNT
    }

    /// Wraps a line number, or returns `None` when the number is outside
    /// the controller's range.
    pub fn new(n: u16) -> (r: Option<InterruptId>)
        ensures
            n < INTERRUPT_LINE_COUNT ==> (r matches Some(id) && id.number() == n && id.wf()),
            n >= INTERRUPT_LINE_COUNT ==> r is None,
    {
        if n < INTERRUPT_LINE_COUNT {
            Some(InterruptId { n })
        } else {
            None
        }
    }
}

/// The enable-register words of the interrupt controller, one bit per line:
/// register `k` holds lines `32 * k` through `32 * k + 31`.
#[derive(Clone, Copy, Debug)]
pub struct NvicRegisters {
    /// Enable register for lines 0..=31.
    pub iser0: u32,
    /// Enable register for lines 32..=63.
    pub iser1: u32,
    /// Enable register for lines 64..=95.
    pub iser2: u32,
    /// Enable register for lines 96..=127.
    pub iser3: u32,
}

impl NvicRegisters {
    /// Enable register `k` of the bank, for `k` in 0..[`ENABLE_REGISTER_COUNT`].
    pub open spec fn iser(self, k: int) -> u32 {
        if k == 0 {
            self.iser0
        } else if k == 1 {
            self.iser1
        } else if k == 2 {
            self.iser2
        } else {
            self.iser3
        }
    }

    /// Whether line `id`'s enable bit is set: bit `id % 32` of enable
    /// register `id / 32`.
    pub open spec fn enabled(self, id: InterruptId) -> bool {
        get_bit(self.iser(id.number() as int / 32), (id.number() as int % 32) as u32)
    }

    /// The bank after setting line `id`'s enable bit in the one register
    /// that holds it.
    pub open spec fn with_enabled(self, id: InterruptId) -> NvicRegisters {
        let k = id.number() as int / 32;
        let b = (id.number() as int % 32) as u32;
        if k == 0 {
            NvicRegisters { iser0: set_bit(self.iser0, b), ..self }
        } else if k == 1 {
            NvicRegisters { iser1: set_bit(self.iser1, b), ..self }
        } else if k == 2 {
            NvicRegisters { iser2: set_bit(self.iser2, b), ..self }
        } else {
            NvicRegisters { iser3: set_bit(self.iser3, b), ..self }
        }
    }
}

/// Exclusive ownership of the interrupt controller's enable registers. The
/// register bank is handed in at construction and may be handed back out
/// with [`Nvic::release`].
pub struct Nvic {
    regs: NvicRegisters,
}

impl View for Nvic {
    type V = NvicRegisters;

    closed spec fn view(&self) -> NvicRegisters {
        self.regs
    }
}

impl Nvic {
    /// Takes ownership of the controller's register bank.
    pub fn new(regs: NvicRegisters) -> (nvic: Nvic)
        ensures
            nvic@ == regs,
    {
        Nvic { regs }
    }

    /// Hands the register bank back to the caller, ending this handle's
    /// exclusive ownership.
    pub fn release(self) -> (regs: NvicRegisters)
        ensures
            regs == self@,
    {
        self.regs
    }

    /// Sets the enable bit of line `id` — bit `id % 32` of enable register
    /// `id / 32` — leaving every other bit of the bank unchanged. The
    /// dispatch arm for a register index outside the bank is proved
    /// unreachable from the range of `id`.
    pub fn enable_interrupt(self, id: InterruptId) -> (r: Nvic)
        requires
            id.wf(),
        ensures
            r@ == self@.with_enabled(id),
    {
        let number: u16 = id.number();
        let register: u16 = number / 32;
        let bit: u32 = (number % 32) as u32;
        let regs = self.regs;
        match register {
            0 => Nvic { regs: NvicRegisters { iser0: regs.iser0 | (1u32 << bit), ..regs } },
            1 => Nvic { regs: NvicRegisters { iser1: regs.iser1 | (1u32 << bit), ..regs } },
            2 => Nvic { regs: NvicRegisters { iser2: regs.iser2 | (1u32 << bit), ..regs } },
            3 => Nvic { regs: NvicRegisters { iser3: regs.iser3 | (1u32 << bit), ..regs } },
            _ => unreached(),
        }
    }
}

/// Law: enabling line `id` makes exactly one change to the bank — bit
/// `id % 32` of enable register `id / 32` reads back as set, every other
/// line's enable bit keeps its value, and every enable register other than
/// `id / 32` is bit-for-bit unchanged.
pub proof fn lemma_enable_interrupt_effect(n: NvicRegisters, id: InterruptId)
    requires
        id.wf(),
    ensures
        n.with_enabled(id).enabled(id),
        forall|other: InterruptId|
            other.wf() && other.number() != id.number()
                ==> #[trigger] n.with_enabled(id).enabled(other) == n.enabled(other),
        forall|k: int|
            0 <= k < ENABLE_REGISTER_COUNT as int && k != id.number() as int / 32
                ==> #[trigger] n.with_enabled(id).iser(k) == n.iser(k),
{
    let reg = id.number() as int / 32;
    let bit = (id.number() as int % 32) as u32;
    lemma_bit_read_back(n.iser(reg), bit);
    assert forall|other: InterruptId|
        other.wf() && other.number() != id.number() implies #[trigger] n.with_enabled(id).enabled(
        other,
    ) == n.enabled(other) by {
        let reg2 = other.number() as int / 32;
        let bit2 = (other.number() as int % 32) as u32;
        if reg2 == reg {
            lemma_bit_frame(n.iser(reg), bit, bit2);
        }
    }
}

} // verus!
