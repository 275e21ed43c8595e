use vstd::prelude::*;

verus! {

/// The carry flag (C).
pub const CARRY: u8 = 0x01;
/// The zero flag (Z).
pub const ZERO: u8 = 0x02;
/// The interrupt-disable flag (I).
pub const INTERRUPT_DISABLE: u8 = 0x04;
/// The decimal-mode flag (D).
pub const DECIMAL: u8 = 0x08;
/// The break bit (B), only meaningful in a pushed status byte.
pub const BREAK: u8 = 0x10;
/// The unused bit, which reads as 1.
pub const UNUSED: u8 = 0x20;
/// The overflow flag (V).
pub const OVERFLOW: u8 = 0x40;
/// The negative flag (N).
pub const NEGATIVE: u8 = 0x80;

/// Whether the flag (or flags) `mask` is set in the status byte `p`.
pub open spec fn flag_set(p: u8, mask: u8) -> bool {
    p & mask != 0
}

/// `p` with the flag `mask` set to `on`, all other bits unchanged.
pub open spec fn with_flag(p: u8, mask: u8, on: bool) -> u8 {
    if on {
        p | mask
    } else {
        p & !mask
    }
}

/// Z set iff `v` is zero, N copied from bit 7 of `v`, other bits of `p` kept.
pub open spec fn zero_neg(p: u8, v: u8) -> u8 {
    with_flag(with_flag(p, ZERO, v == 0), NEGATIVE, v & 0x80 != 0)
}

/// The flags after comparing `reg` with `operand` (CMP, CPX, CPY): as `reg - operand`,
/// Z iff equal, C iff `reg >= operand`, N from bit 7 of the 8-bit difference.
pub open spec fn compare(p: u8, reg: u8, operand: u8) -> u8 {
    with_flag(zero_neg(p, ((reg - operand + 256) % 256) as u8), CARRY, reg >= operand)
}

/// `mask` is one flag bit.
pub open spec fn single_flag(mask: u8) -> bool {
    mask == 0x01 || mask == 0x02 || mask == 0x04 || mask == 0x08 || mask == 0x10 || mask == 0x20
        || mask == 0x40 || mask == 0x80
}

/// Setting or clearing one flag makes it read as asked and leaves the bits outside it as
/// they were.
pub proof fn lemma_with_flag(p: u8, mask: u8, on: bool, other: u8)
    requires
        single_flag(mask),
        mask & other == 0,
    ensures
        flag_set(with_flag(p, mask, on), mask) == on,
        with_flag(p, mask, on) & other == p & other,
{
    assert(single_flag(mask) ==> (p | mask) & mask != 0) by (bit_vector);
    assert(single_flag(mask) ==> (p & !mask) & mask == 0) by (bit_vector);
    assert(mask & other == 0 ==> (p | mask) & other == p & other) by (bit_vector);
    assert(mask & other == 0 ==> (p & !mask) & other == p & other) by (bit_vector);
}

/// Setting a flag to the value it already has changes nothing.
pub proof fn lemma_with_flag_same(p: u8, mask: u8, on: bool)
    requires
        single_flag(mask),
        flag_set(p, mask) == on,
    ensures
        with_flag(p, mask, on) == p,
{
    assert(single_flag(mask) && p & mask != 0 ==> p | mask == p) by (bit_vector);
    assert(single_flag(mask) && p & mask == 0 ==> p & !mask == p) by (bit_vector);
}

/// The zero/negative update sets Z iff `v` is zero and N iff bit 7 of `v` is set, leaves
/// the other six bits alone, and doing it twice is doing it once.
pub proof fn lemma_zero_neg(p: u8, v: u8)
    ensures
        flag_set(zero_neg(p, v), ZERO) == (v == 0),
        flag_set(zero_neg(p, v), NEGATIVE) == (v & 0x80 != 0),
        zero_neg(p, v) & 0x7D == p & 0x7D,
        zero_neg(zero_neg(p, v), v) == zero_neg(p, v),
{
    assert(0x02u8 & 0x7Du8 == 0 && 0x02u8 & 0x80u8 == 0 && 0x80u8 & 0x7Du8 == 0 && 0x80u8 & 0x02u8
        == 0) by (bit_vector);
    let q = with_flag(p, ZERO, v == 0);
    lemma_with_flag(p, ZERO, v == 0, 0x7D);
    lemma_with_flag(p, ZERO, v == 0, NEGATIVE);
    lemma_with_flag(q, NEGATIVE, v & 0x80 != 0, 0x7D);
    lemma_with_flag(q, NEGATIVE, v & 0x80 != 0, ZERO);
    let r = zero_neg(p, v);
    lemma_with_flag_same(r, ZERO, v == 0);
    lemma_with_flag_same(r, NEGATIVE, v & 0x80 != 0);
}

/// The eight status flags of the processor, held as one byte:
/// N V - B D I Z C from bit 7 down to bit 0.
pub struct ProcessorStatus {
    byte: u8,
}

impl View for ProcessorStatus {
    type V = u8;

    closed spec fn view(&self) -> u8 {
        self.byte
    }
}

impl From<u8> for ProcessorStatus {
    fn from(b: u8) -> (r: ProcessorStatus)
        ensures
            r@ == b,
    {
        ProcessorStatus { byte: b }
    }
}

impl vstd::std_specs::convert::FromSpecImpl<u8> for ProcessorStatus {
    open spec fn obeys_from_spec() -> bool {
        true
    }

    closed spec fn from_spec(b: u8) -> ProcessorStatus {
        ProcessorStatus { byte: b }
    }
}

impl ProcessorStatus {
    /// Sets the flags as a compare of `regval` against `cmp_val` does.
    pub fn update_flags_with_compare(&mut self, regval: u8, cmp_val: u8)
        ensures
            final(self)@ == compare(old(self)@, regval, cmp_val),
    {
        self.update_zero_neg_flags(regval.wrapping_sub(cmp_val));
        if regval >= cmp_val {
            self.set_carry();
        } else {
            self.clr_carry();
        }
    }

    /// Sets Z iff `val` is zero and N iff bit 7 of `val` is set.
    pub fn update_zero_neg_flags(&mut self, val: u8)
        ensures
            final(self)@ == zero_neg(old(self)@, val),
    {
        if val == 0 {
            self.set_zero();
        } else {
            self.clr_zero();
        }
        if val & 0x80 != 0 {
            self.set_negative();
        } else {
            self.clr_negative();
        }
    }

    pub fn set_carry(&mut self)
        ensures
            final(self)@ == with_flag(old(self)@, CARRY, true),
    {
        self.byte = self.byte | CARRY;
    }

    pub fn clr_carry(&mut self)
        ensures
            final(self)@ == with_flag(old(self)@, CARRY, false),
    {
        self.byte = self.byte & !CARRY;
    }

    pub fn carry(&self) -> (r: bool)
        ensures
            r == flag_set(self@, CARRY),
    {
        self.byte & CARRY != 0
    }

    pub fn set_zero(&mut self)
        ensures
            final(self)@ == with_flag(old(self)@, ZERO, true),
    {
        self.byte = self.byte | ZERO;
    }

    pub fn clr_zero(&mut self)
        ensures
            final(self)@ == with_flag(old(self)@, ZERO, false),
    {
        self.byte = self.byte & !ZERO;
    }

    pub fn zero(&self) -> (r: bool)
        ensures
            r == flag_set(self@, ZERO),
    {
        self.byte & ZERO != 0
    }
    pub fn set_interrupt_disable(&mut self)
        ensures
            final(self)@ == with_flag(old(self)@, INTERRUPT_DISABLE, true),
    {
        self.byte = self.byte | INTERRUPT_DISABLE;
    }

    pub fn clr_interrupt_disable(&mut self)
        ensures
            final(self)@ == with_flag(old(self)@, INTERRUPT_DISABLE, false),
    {
        self.byte = self.byte & !INTERRUPT_DISABLE;
    }

    pub fn interrupt_disable(&self) -> (r: bool)
        ensures
            r == flag_set(self@, INTERRUPT_DISABLE),
    {
        self.byte & INTERRUPT_DISABLE != 0
    }

    pub fn set_decimal(&mut self)
        ensures
            final(self)@ == with_flag(old(self)@, DECIMAL, true),
    {
        self.byte = self.byte | DECIMAL;
    }

    pub fn clr_decimal(&mut self)
        ensures
            final(self)@ == with_flag(old(self)@, DECIMAL, false),
    {
        self.byte = self.byte & !DECIMAL;
    }

    pub fn decimal(&self) -> (r: bool)
        ensures
            r == flag_set(self@, DECIMAL),
    {
        self.byte & DECIMAL != 0
    }

    pub fn set_overflow(&mut self)
        ensures
            final(self)@ == with_flag(old(self)@, OVERFLOW, true),
    {
        self.byte = self.byte | OVERFLOW;
    }

    pub fn clr_overflow(&mut self)
        ensures
            final(self)@ == with_flag(old(self)@, OVERFLOW, false),
    {
        self.byte = self.byte & !OVERFLOW;
    }

    pub fn overflow(&self) -> (r: bool)
        ensures
            r == flag_set(self@, OVERFLOW),
    {
        self.byte & OVERFLOW != 0
    }

    pub fn set_negative(&mut self)
        ensures
            final(self)@ == with_flag(old(self)@, NEGATIVE, true),
    {
        self.byte = self.byte | NEGATIVE;
    }

    pub fn clr_negative(&mut self)
        ensures
            final(self)@ == with_flag(old(self)@, NEGATIVE, false),
    {
        self.byte = self.byte & !NEGATIVE;
    }

    pub fn negative(&self) -> (r: bool)
        ensures
            r == flag_set(self@, NEGATIVE),
    {
        self.byte & NEGATIVE != 0
    }

    /// The status byte itself.
    pub fn as_byte(&self) -> (r: u8)
        ensures
            r == self@,
    {
        self.byte
    }
}

} // verus!
