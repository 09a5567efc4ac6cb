//! The arithmetic meaning of the instruction set: two's-complement
//! interpretation, wrapping addition, shift masking, and the
//! multiply/divide results, stated over mathematical integers.

use vstd::prelude::*;

verus! {

/// The two's-complement reading of a 32-bit word.
pub open spec fn to_signed(x: u32) -> int {
    if x < 0x8000_0000 {
        x as int
    } else {
        x as int - 0x1_0000_0000
    }
}

/// The 32-bit word that represents an integer, modulo 2^32.
pub open spec fn from_signed(v: int) -> u32 {
    (v % 0x1_0000_0000) as u32
}

/// Addition modulo 2^32.
pub open spec fn wrap_add(a: u32, b: u32) -> u32 {
    ((a + b) % 0x1_0000_0000) as u32
}

/// Subtraction modulo 2^32.
pub open spec fn wrap_sub(a: u32, b: u32) -> u32 {
    (((a - b) % 0x1_0000_0000 + 0x1_0000_0000) % 0x1_0000_0000) as u32
}

pub open spec fn iabs(x: int) -> int {
    if x < 0 {
        -x
    } else {
        x
    }
}

/// Division truncated toward zero, as the divide instructions require.
pub open spec fn trunc_div(x: int, y: int) -> int {
    if (x < 0) != (y < 0) {
        -(iabs(x) / iabs(y))
    } else {
        iabs(x) / iabs(y)
    }
}

/// The remainder matching `trunc_div`: it carries the dividend's sign.
pub open spec fn trunc_rem(x: int, y: int) -> int {
    if x < 0 {
        -(iabs(x) % iabs(y))
    } else {
        iabs(x) % iabs(y)
    }
}

/// `div`: signed division; by zero gives −1, and the one overflowing
/// quotient `INT_MIN / −1` gives `INT_MIN` back.
pub open spec fn spec_div(a: u32, b: u32) -> u32 {
    if b == 0 {
        0xffff_ffff
    } else if a == 0x8000_0000 && b == 0xffff_ffff {
        0x8000_0000
    } else {
        from_signed(trunc_div(to_signed(a), to_signed(b)))
    }
}

/// `divu`: unsigned division; by zero gives the all-ones word.
pub open spec fn spec_divu(a: u32, b: u32) -> u32 {
    if b == 0 {
        0xffff_ffff
    } else {
        (a as int / b as int) as u32
    }
}

/// `rem`: by zero gives the dividend; the overflowing case gives 0.
pub open spec fn spec_rem(a: u32, b: u32) -> u32 {
    if b == 0 {
        a
    } else if a == 0x8000_0000 && b == 0xffff_ffff {
        0
    } else {
        from_signed(trunc_rem(to_signed(a), to_signed(b)))
    }
}

/// `remu`: by zero gives the dividend.
pub open spec fn spec_remu(a: u32, b: u32) -> u32 {
    if b == 0 {
        a
    } else {
        (a as int % b as int) as u32
    }
}

/// The low 32 bits of the product.
pub open spec fn spec_mul(a: u32, b: u32) -> u32 {
    ((a * b) % 0x1_0000_0000) as u32
}

/// `mulh`: the upper 32 bits of the signed × signed product.
pub open spec fn spec_mulh(a: u32, b: u32) -> u32 {
    (((to_signed(a) * to_signed(b)) % 0x1_0000_0000_0000_0000) / 0x1_0000_0000) as u32
}

/// `mulhsu`: the upper 32 bits of the signed × unsigned product.
pub open spec fn spec_mulhsu(a: u32, b: u32) -> u32 {
    (((to_signed(a) * b) % 0x1_0000_0000_0000_0000) / 0x1_0000_0000) as u32
}

/// `mulhu`: the upper 32 bits of the unsigned × unsigned product.
pub open spec fn spec_mulhu(a: u32, b: u32) -> u32 {
    ((a * b) / 0x1_0000_0000) as u32
}

/// Shifts take only the low five bits of the shift amount.
pub open spec fn spec_sll(a: u32, sh: u32) -> u32 {
    a << (sh & 0x1f)
}

pub open spec fn spec_srl(a: u32, sh: u32) -> u32 {
    a >> (sh & 0x1f)
}

/// Arithmetic right shift: shift in copies of the sign bit.
pub open spec fn spec_sra(a: u32, sh: u32) -> u32 {
    if a < 0x8000_0000 {
        a >> (sh & 0x1f)
    } else {
        !((!a) >> (sh & 0x1f))
    }
}

/// Sign extension of a loaded byte.
pub open spec fn spec_sext8(v: u8) -> u32 {
    if v < 0x80 {
        v as u32
    } else {
        (v as u32) | 0xffff_ff00
    }
}

/// Sign extension of a loaded halfword.
pub open spec fn spec_sext16(v: u16) -> u32 {
    if v < 0x8000 {
        v as u32
    } else {
        (v as u32) | 0xffff_0000
    }
}

/// What the hardware cast `x as i32` denotes.
pub proof fn lemma_cast_signed(x: u32)
    ensures
        #[verifier::truncate] (x as i32) as int == to_signed(x),
{
    assert(x < 0x8000_0000 ==> #[verifier::truncate] (x as i32) == x as int) by (bit_vector);
    assert(x >= 0x8000_0000 ==> #[verifier::truncate] (x as i32) as int == x as int
        - 0x1_0000_0000) by (bit_vector);
}

/// The sign-extended 64-bit image of a word is its two's-complement
/// value modulo 2^64.
pub proof fn lemma_sext64(a: u32)
    ensures
        a < 0x8000_0000 ==> a as u64 == to_signed(a) % 0x1_0000_0000_0000_0000,
        a >= 0x8000_0000 ==> ((a as u64) | 0xffff_ffff_0000_0000u64) == to_signed(a)
            % 0x1_0000_0000_0000_0000,
{
    if a >= 0x8000_0000 {
        let au = a as u64;
        assert(au | 0xffff_ffff_0000_0000 == au + 0xffff_ffff_0000_0000) by (bit_vector)
            requires
                au < 0x1_0000_0000,
        ;
    }
}

/// The high half of a 64-bit word, as a shift and as a quotient.
pub proof fn lemma_u64_high_half(x: u64)
    ensures
        (x >> 32) == x as int / 0x1_0000_0000,
        (x >> 32) < 0x1_0000_0000,
{
    assert(x >> 32 == x / 0x1_0000_0000) by (bit_vector);
    assert(x >> 32 < 0x1_0000_0000) by (bit_vector);
}

/// A shift amount below 32 is unchanged by the five-bit mask.
pub proof fn lemma_mask5_id(x: u32)
    ensures
        x < 32 ==> x & 0x1f == x,
{
    assert(x < 32 ==> x & 0x1f == x) by (bit_vector);
}

/// The hardware arithmetic shift equals the sign-filling formulation.
pub proof fn lemma_sra_cast(a: u32, s: u32)
    requires
        s < 32,
    ensures
        #[verifier::truncate] (((a as i32) >> s) as u32) == if a < 0x8000_0000 {
            a >> s
        } else {
            !((!a) >> s)
        },
{
    assert(s < 32 && a < 0x8000_0000 ==> #[verifier::truncate] (((a as i32) >> s) as u32) == a
        >> s) by (bit_vector);
    assert(s < 32 && a >= 0x8000_0000 ==> #[verifier::truncate] (((a as i32) >> s) as u32) == !((!a)
        >> s)) by (bit_vector);
}

/// The 64-bit sign extension of a word, as executable code.
pub fn sext64(x: u32) -> (r: u64)
    ensures
        r == to_signed(x) % 0x1_0000_0000_0000_0000,
{
    proof {
        lemma_sext64(x);
    }
    if x < 0x8000_0000 {
        x as u64
    } else {
        (x as u64) | 0xffff_ffff_0000_0000
    }
}

} // verus!
