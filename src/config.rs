use vstd::prelude::*;
use crate::layers::is_unit_probability;

verus! {

/// Bit pattern of the binary64 value `0.5`, the dropout probability used when
/// none is given.
pub const DEFAULT_DROPOUT_BITS: u64 = 0x3fe0_0000_0000_0000;

/// Bit pattern of the binary64 value `1.0`.
pub const ONE_BITS: u64 = 0x3ff0_0000_0000_0000;

/// Bit pattern of the binary64 value `-0.0`.
pub const NEGATIVE_ZERO_BITS: u64 = 0x8000_0000_0000_0000;

/// Why a configuration was refused.
#[derive(Clone, Copy, Debug, PartialEq, Eq, Structural)]
pub enum ConfigError {
    /// The number of output classes was zero.
    NoClasses,
    /// The hidden layer width was zero.
    NoHiddenUnits,
    /// The dropout probability (given by its bit pattern) lies outside `[0, 1)`.
    DropoutOutOfRange { bits: u64 },
}

/// The hyperparameters of the classifier: number of output classes, width of
/// the hidden fully-connected layer, and dropout probability.
///
/// The probability is held as the bit pattern of an IEEE-754 binary64 value
/// (what `f64::to_bits` gives).
#[derive(Clone, Copy, Debug, PartialEq, Eq, Structural)]
pub struct ModelConfig {
    num_classes: usize,
    hidden_size: usize,
    dropout_bits: u64,
}

/// A binary64 value lies in `[0, 1)` exactly when its bit pattern is below
/// that of `1.0` or is negative zero: zero and every value just below one are
/// accepted, while one, everything above it, every negative number, the
/// infinities and NaN are refused.
pub proof fn lemma_unit_probability_bits(bits: u64)
    ensures
        is_unit_probability(bits) <==> (bits < ONE_BITS || bits == NEGATIVE_ZERO_BITS),
{
    let b = bits as int;
    let sign = b / 0x8000_0000_0000_0000;
    let high = b / 0x10_0000_0000_0000;
    let exponent = high % 0x800;
    let fraction = b % 0x10_0000_0000_0000;
    assert(0 <= b < 0x1_0000_0000_0000_0000);
    assert(high == sign * 0x800 + exponent) by (nonlinear_arith)
        requires
            0 <= b,
            sign == b / 0x8000_0000_0000_0000,
            high == b / 0x10_0000_0000_0000,
            exponent == high % 0x800,
    {
        vstd::arithmetic::div_mod::lemma_div_denominator(b, 0x10_0000_0000_0000, 0x800);
        vstd::arithmetic::div_mod::lemma_fundamental_div_mod(high, 0x800);
    }
    assert(b == high * 0x10_0000_0000_0000 + fraction) by {
        vstd::arithmetic::div_mod::lemma_fundamental_div_mod(b, 0x10_0000_0000_0000);
    }
    assert(0 <= fraction < 0x10_0000_0000_0000) by {
        vstd::arithmetic::div_mod::lemma_mod_bound(b, 0x10_0000_0000_0000);
    }
    assert(0 <= exponent < 0x800) by {
        vstd::arithmetic::div_mod::lemma_mod_bound(high, 0x800);
    }
    assert(0 <= sign < 2) by {
        vstd::arithmetic::div_mod::lemma_div_is_ordered(b, 0xffff_ffff_ffff_ffff, 0x8000_0000_0000_0000);
        vstd::arithmetic::div_mod::lemma_div_pos_is_pos(b, 0x8000_0000_0000_0000);
    }
}

/// Decides whether the binary64 value with bit pattern `bits` lies in `[0, 1)`.
pub fn is_valid_dropout(bits: u64) -> (r: bool)
    ensures
        r == is_unit_probability(bits),
{
    proof {
        lemma_unit_probability_bits(bits);
    }
    bits < ONE_BITS || bits == NEGATIVE_ZERO_BITS
}

impl ModelConfig {
    /// The number of output classes.
    pub closed spec fn spec_num_classes(&self) -> usize {
        self.num_classes
    }

    /// The width of the hidden fully-connected layer.
    pub closed spec fn spec_hidden_size(&self) -> usize {
        self.hidden_size
    }

    /// The bit pattern of the dropout probability.
    pub closed spec fn spec_dropout_bits(&self) -> u64 {
        self.dropout_bits
    }

    /// Every configuration has at least one class, at least one hidden unit,
    /// and a dropout probability in `[0, 1)`.
    #[verifier::type_invariant]
    closed spec fn inv(&self) -> bool {
        &&& self.num_classes >= 1
        &&& self.hidden_size >= 1
        &&& is_unit_probability(self.dropout_bits)
    }

    /// A configuration with the given class count and hidden width and the
    /// default dropout probability `0.5`; refused when either count is zero.
    pub fn new(num_classes: usize, hidden_size: usize) -> (r: Result<ModelConfig, ConfigError>)
        ensures
            match r {
                Ok(c) => {
                    &&& num_classes != 0
                    &&& hidden_size != 0
                    &&& c.spec_num_classes() == num_classes
                    &&& c.spec_hidden_size() == hidden_size
                    &&& c.spec_dropout_bits() == DEFAULT_DROPOUT_BITS
                },
                Err(e) => {
                    ||| num_classes == 0 && e == ConfigError::NoClasses
                    ||| num_classes != 0 && hidden_size == 0 && e == ConfigError::NoHiddenUnits
                },
            },
    {
        if num_classes == 0 {
            return Err(ConfigError::NoClasses);
        }
        if hidden_size == 0 {
            return Err(ConfigError::NoHiddenUnits);
        }
        proof {
            lemma_unit_probability_bits(DEFAULT_DROPOUT_BITS);
        }
        Ok(ModelConfig { num_classes, hidden_size, dropout_bits: DEFAULT_DROPOUT_BITS })
    }

    /// A copy of this configuration with the dropout probability whose
    /// binary64 bit pattern is `bits`; refused unless that value lies in `[0, 1)`.
    pub fn with_dropout(self, bits: u64) -> (r: Result<ModelConfig, ConfigError>)
        ensures
            match r {
                Ok(c) => {
                    &&& is_unit_probability(bits)
                    &&& c.spec_num_classes() == self.spec_num_classes()
                    &&& c.spec_hidden_size() == self.spec_hidden_size()
                    &&& c.spec_dropout_bits() == bits
                },
                Err(e) => !is_unit_probability(bits) && e == ConfigError::DropoutOutOfRange { bits },
            },
    {
        proof {
            use_type_invariant(&self);
        }
        if is_valid_dropout(bits) {
            Ok(ModelConfig { num_classes: self.num_classes, hidden_size: self.hidden_size, dropout_bits: bits })
        } else {
            Err(ConfigError::DropoutOutOfRange { bits })
        }
    }

    /// The number of output classes.
    pub fn num_classes(&self) -> (r: usize)
        ensures
            r == self.spec_num_classes(),
            r >= 1,
    {
        proof {
            use_type_invariant(self);
        }
        self.num_classes
    }

    /// The width of the hidden fully-connected layer.
    pub fn hidden_size(&self) -> (r: usize)
        ensures
            r == self.spec_hidden_size(),
            r >= 1,
    {
        proof {
            use_type_invariant(self);
        }
        self.hidden_size
    }

    /// The bit pattern of the dropout probability.
    pub fn dropout_bits(&self) -> (r: u64)
        ensures
            r == self.spec_dropout_bits(),
            is_unit_probability(r),
    {
        proof {
            use_type_invariant(self);
        }
        self.dropout_bits
    }
}

} // verus!
