//! Bit widths of the leading-limb range tables.
use num_bigint::BigUint;
use vstd::arithmetic::div_mod::{lemma_add_mod_noop, lemma_fundamental_div_mod, lemma_mod_bound};
use vstd::prelude::*;

verus! {

/// Value of little-endian base-2^32 digits.
pub open spec fn digits_value(d: Seq<u32>) -> nat
    decreases d.len(),
{
    if d.len() == 0 {
        0
    } else {
        d[0] as nat + 0x1_0000_0000 * digits_value(d.drop_first())
    }
}

/// Fewest bits that express `n` (zero for zero).
pub open spec fn bit_len(n: nat) -> nat
    decreases n,
{
    if n == 0 {
        0
    } else {
        1 + bit_len(n / 2)
    }
}

/// Relies on `num_bigint::BigUint::from_slice`, which reads little-endian
/// base-2^32 digits, and `BigUint::bits`, the fewest bits that express the value.
#[verifier::external_body]
fn bit_length(digits: &Vec<u32>) -> (r: u64)
    ensures
        r as nat == bit_len(digits_value(digits@)),
{
    BigUint::from_slice(digits.as_slice()).bits()
}

/// Width in bits of the most significant limb of a `total`-bit quantity cut
/// into `common`-bit limbs: the remainder, or a full limb when it is zero.
pub open spec fn leading_bits_of(total: nat, common: nat) -> nat {
    if total % common == 0 {
        common
    } else {
        total % common
    }
}

/// Leading-limb width of a `total_bits`-bit quantity split into
/// `common_bits`-bit limbs.
pub fn leading_range_bits(total_bits: u64, common_bits: usize) -> (r: usize)
    requires
        0 < common_bits < 64,
    ensures
        r == leading_bits_of(total_bits as nat, common_bits as nat),
        0 < r <= common_bits,
{
    let rem = total_bits % (common_bits as u64);
    if rem == 0 {
        common_bits
    } else {
        rem as usize
    }
}

/// Leading-limb width of a `total_bits + 1`-bit quantity, computed without
/// forming `total_bits + 1`.
fn leading_range_bits_of_successor(total_bits: u64, common_bits: usize) -> (r: usize)
    requires
        0 < common_bits < 64,
    ensures
        r == leading_bits_of(total_bits as nat + 1, common_bits as nat),
        0 < r <= common_bits,
{
    let c = common_bits as u64;
    let rem = (total_bits % c + 1) % c;
    proof {
        lemma_add_mod_noop(total_bits as int, 1, c as int);
        if c > 1 {
            vstd::arithmetic::div_mod::lemma_small_mod(1, c as nat);
        } else {
            lemma_mod_bound(total_bits as int + 1, 1);
            lemma_mod_bound(total_bits as int % 1 + 1, 1);
        }
    }
    if rem == 0 {
        common_bits
    } else {
        rem as usize
    }
}

/// A description of a prime field by its largest element (modulus − 1), as
/// little-endian base-2^32 digits.
pub struct FieldParams {
    pub max_value: Vec<u32>,
}

impl FieldParams {
    /// The field's largest element.
    pub open spec fn max_nat(&self) -> nat {
        digits_value(self.max_value@)
    }

    /// Bits of the largest element, plus one: room for every value up to the
    /// largest element inclusive, carried into the next limb.
    pub open spec fn ceil_bits(&self) -> nat {
        bit_len(self.max_nat()) + 1
    }

    /// Bits of the largest element: the width of values that never wrap.
    pub open spec fn floor_bits(&self) -> nat {
        bit_len(self.max_nat())
    }
}

/// Widths of the three leading-limb tables.
#[derive(Clone, Copy, Debug, PartialEq, Eq, Structural)]
pub struct LeadingWidths {
    /// Leading limb of a value of the foreign field, up to its largest element.
    pub w_ceil: usize,
    /// Leading limb of a value below the native field's largest element.
    pub n_floor: usize,
    /// Leading limb of the quotient of a multiply-and-reduce.
    pub d: usize,
}

/// The widths that `plan_leading_widths` derives from its inputs.
pub open spec fn planned_widths(
    foreign: FieldParams,
    native: FieldParams,
    d_range_bits: nat,
    common: nat,
) -> LeadingWidths {
    LeadingWidths {
        w_ceil: leading_bits_of(foreign.ceil_bits(), common) as usize,
        n_floor: leading_bits_of(native.floor_bits(), common) as usize,
        d: leading_bits_of(d_range_bits, common) as usize,
    }
}

impl LeadingWidths {
    /// Every width is a whole number of bits, at least one and at most a full limb.
    pub open spec fn wf(&self, common: nat) -> bool {
        &&& 0 < self.w_ceil <= common
        &&& 0 < self.n_floor <= common
        &&& 0 < self.d <= common
    }
}

/// Leading-limb widths for a foreign field, a native field and a quotient
/// bound of `d_range_bits` bits, with `common_bits`-bit limbs.
pub fn plan_leading_widths(
    foreign: &FieldParams,
    native: &FieldParams,
    d_range_bits: u64,
    common_bits: usize,
) -> (r: LeadingWidths)
    requires
        0 < common_bits < 64,
    ensures
        r == planned_widths(*foreign, *native, d_range_bits as nat, common_bits as nat),
        r.wf(common_bits as nat),
{
    let w_bits = bit_length(&foreign.max_value);
    let n_bits = bit_length(&native.max_value);
    LeadingWidths {
        w_ceil: leading_range_bits_of_successor(w_bits, common_bits),
        n_floor: leading_range_bits(n_bits, common_bits),
        d: leading_range_bits(d_range_bits, common_bits),
    }
}

/// A `total`-bit quantity is one leading limb of `leading_bits_of(total, common)`
/// bits above whole `common`-bit limbs: the leading width is never zero, never
/// more than a limb, and what is left is a multiple of the limb width.
pub proof fn lemma_leading_bits_split(total: nat, common: nat)
    requires
        0 < common,
        0 < total,
    ensures
        0 < leading_bits_of(total, common) <= common,
        leading_bits_of(total, common) <= total,
        (total - leading_bits_of(total, common)) as int % common as int == 0,
{
    lemma_fundamental_div_mod(total as int, common as int);
    lemma_mod_bound(total as int, common as int);
    let q = total as int / common as int;
    if total % common == 0 {
        assert(q >= 1) by (nonlinear_arith)
            requires total as int == common * q, total > 0, common > 0;
        assert((total - common) as int == common * (q - 1)) by (nonlinear_arith)
            requires total as int == common * q;
        vstd::arithmetic::div_mod::lemma_mod_multiples_basic(q - 1, common as int);
        assert((common * (q - 1)) % common as int == 0) by (nonlinear_arith)
            requires ((q - 1) * common) % common as int == 0;
    } else {
        assert(q >= 0) by (nonlinear_arith)
            requires total as int == common * q + total % common, total % common < common, common > 0;
        vstd::arithmetic::div_mod::lemma_mod_multiples_basic(q, common as int);
        assert((common * q) % common as int == 0) by (nonlinear_arith)
            requires (q * common) % common as int == 0;
    }
}

} // verus!
