use vstd::prelude::*;

verus! {

/// What one 8-bit addition or subtraction yields: the wrapped result and the
/// carries out of bit 3 and out of bit 7.
#[derive(Debug)]
pub struct AluResult {
    pub result: u8,
    pub half_carry: bool,
    pub carry: bool,
}

/// A carry or borrow flag as the number it adds: 1 when set, 0 otherwise.
pub open spec fn carry_value(carry: bool) -> int {
    if carry {
        1
    } else {
        0
    }
}

impl AluResult {
    /// The sum `a + b + carry` as the hardware reports it: the result is the
    /// sum modulo 256, the half-carry says that the low nibbles with the
    /// incoming carry exceed 0xF, the carry that the whole sum exceeds 0xFF.
    pub open spec fn adc(a: u8, b: u8, carry: bool) -> AluResult {
        AluResult {
            result: ((a + b + carry_value(carry)) % 256) as u8,
            half_carry: (a & 0x0F) + (b & 0x0F) + carry_value(carry) > 0x0F,
            carry: a + b + carry_value(carry) > 0xFF,
        }
    }

    /// The difference `a - b - carry` as the hardware reports it: the result
    /// is the difference modulo 256, the half-carry says that the low nibble
    /// of `a` is less than the low nibble of `b` plus the borrow, the carry
    /// that `b` plus the borrow exceeds `a`.
    pub open spec fn sbc(a: u8, b: u8, carry: bool) -> AluResult {
        AluResult {
            result: ((a - b - carry_value(carry)) % 256) as u8,
            half_carry: (a & 0x0F) < (b & 0x0F) + carry_value(carry),
            carry: b + carry_value(carry) > a,
        }
    }

    /// Create an `AluResult` from a wrapping add.
    pub fn from_add(a: u8, b: u8) -> (r: AluResult)
        ensures
            r == Self::adc(a, b, false),
            r.result == (a + b) % 256,
            r.half_carry <==> (a & 0x0F) + (b & 0x0F) > 0x0F,
            r.carry <==> a + b > 255,
    {
        AluResult::from_adc(a, b, false)
    }

    /// Create an `AluResult` from a wrapping add with carry.
    pub fn from_adc(a: u8, b: u8, carry: bool) -> (r: AluResult)
        ensures
            r == Self::adc(a, b, carry),
    {
        let carry_in: u16 = if carry {
            1
        } else {
            0
        };
        let sum: u16 = a as u16 + b as u16 + carry_in;
        let low_a: u8 = a & 0x0F;
        let low_b: u8 = b & 0x0F;
        assert(low_a <= 0x0F && low_b <= 0x0F) by (bit_vector)
            requires
                low_a == a & 0x0F,
                low_b == b & 0x0F,
        ;
        let half_carry = low_a as u16 + low_b as u16 + carry_in > 0x0F;
        let carry_flag = sum > u8::MAX as u16;

        AluResult { result: (sum % 256) as u8, half_carry, carry: carry_flag }
    }

    /// Create an `AluResult` from a wrapping subtraction.
    pub fn from_sub(a: u8, b: u8) -> (r: AluResult)
        ensures
            r == Self::sbc(a, b, false),
            r.result == (a - b) % 256,
            r.half_carry <==> (a & 0x0F) < (b & 0x0F),
            r.carry <==> b > a,
    {
        AluResult::from_sbc(a, b, false)
    }

    /// Create an `AluResult` from a wrapping subtraction with carry.
    pub fn from_sbc(a: u8, b: u8, carry: bool) -> (r: AluResult)
        ensures
            r == Self::sbc(a, b, carry),
    {
        let borrow: i16 = if carry {
            1
        } else {
            0
        };
        let difference: i16 = a as i16 - b as i16 - borrow;
        let low_a: u8 = a & 0x0F;
        let low_b: u8 = b & 0x0F;
        assert(low_a <= 0x0F && low_b <= 0x0F) by (bit_vector)
            requires
                low_a == a & 0x0F,
                low_b == b & 0x0F,
        ;
        let half_carry = (low_a as i16) < low_b as i16 + borrow;
        let carry_flag = b as i16 + borrow > a as i16;
        let result: u8 = if difference < 0 {
            (difference + 256) as u8
        } else {
            difference as u8
        };

        AluResult { result, half_carry, carry: carry_flag }
    }
}

} // verus!
