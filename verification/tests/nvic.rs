use g474re_nucleo_ral::nvic::{InterruptId, Nvic, NvicRegisters, INTERRUPT_LINE_COUNT};

fn zero_regs() -> NvicRegisters {
    NvicRegisters { iser0: 0, iser1: 0, iser2: 0, iser3: 0 }
}

fn bank(regs: &NvicRegisters) -> [u32; 4] {
    [regs.iser0, regs.iser1, regs.iser2, regs.iser3]
}

#[test]
fn interrupt_id_accepts_exactly_the_valid_range() {
    for n in 0..INTERRUPT_LINE_COUNT {
        let id = InterruptId::new(n).expect("line number in range must be accepted");
        assert_eq!(id.number(), n);
    }
    assert!(InterruptId::new(INTERRUPT_LINE_COUNT).is_none());
    assert!(InterruptId::new(INTERRUPT_LINE_COUNT + 1).is_none());
    assert!(InterruptId::new(u16::MAX).is_none());
}

#[test]
fn enable_interrupt_35_sets_iser1_bit_3() {
    // 35 / 32 = 1 and 35 % 32 = 3: bit 3 of the second enable register.
    let id = InterruptId::new(35).unwrap();
    let after = Nvic::new(zero_regs()).enable_interrupt(id).release();
    assert_eq!(after.iser0, 0);
    assert_eq!(after.iser1, 1 << 3);
    assert_eq!(after.iser2, 0);
    assert_eq!(after.iser3, 0);
}

#[test]
fn enable_interrupt_sets_exactly_one_bit_from_zero() {
    for n in 0..INTERRUPT_LINE_COUNT {
        let id = InterruptId::new(n).unwrap();
        let after = Nvic::new(zero_regs()).enable_interrupt(id).release();
        let words = bank(&after);
        for (k, &word) in words.iter().enumerate() {
            if k == usize::from(n / 32) {
                assert_eq!(word, 1u32 << (n % 32));
            } else {
                assert_eq!(word, 0);
            }
        }
    }
}

#[test]
fn enable_interrupt_preserves_other_bits() {
    let before = NvicRegisters {
        iser0: 0xA5C3_96F0,
        iser1: 0x5A3C_690F,
        iser2: 0x0F69_3C5A,
        iser3: 0xF096_C3A5,
    };
    for n in 0..INTERRUPT_LINE_COUNT {
        let id = InterruptId::new(n).unwrap();
        let after = Nvic::new(before).enable_interrupt(id).release();
        let old_words = bank(&before);
        let new_words = bank(&after);
        for k in 0..4usize {
            if k == usize::from(n / 32) {
                // Only the enable bit of line n may change, and it is set.
                assert_eq!(new_words[k], old_words[k] | (1u32 << (n % 32)));
                assert_eq!(new_words[k] & (1u32 << (n % 32)), 1u32 << (n % 32));
            } else {
                assert_eq!(new_words[k], old_words[k]);
            }
        }
    }
}

#[test]
fn enabling_two_lines_accumulates() {
    // Enable the two lines an ADC-plus-timer application would: both bits
    // end up set in the first enable register, nothing else.
    let adc = InterruptId::new(18).unwrap();
    let tim = InterruptId::new(28).unwrap();
    let after = Nvic::new(zero_regs())
        .enable_interrupt(adc)
        .enable_interrupt(tim)
        .release();
    assert_eq!(after.iser0, (1 << 18) | (1 << 28));
    assert_eq!(after.iser1, 0);
    assert_eq!(after.iser2, 0);
    assert_eq!(after.iser3, 0);
}

#[test]
fn nvic_new_and_release_round_trip() {
    let regs = NvicRegisters { iser0: 1, iser1: 2, iser2: 3, iser3: 4 };
    let back = Nvic::new(regs).release();
    assert_eq!(back.iser0, 1);
    assert_eq!(back.iser1, 2);
    assert_eq!(back.iser2, 3);
    assert_eq!(back.iser3, 4);
}
