//! Pixels, and the transform that turns a grey channel value into one colour
//! plane of the output.

use vstd::arithmetic::power2::{lemma2_to64, lemma_pow2_adds, pow2};
use vstd::prelude::*;

verus! {

/// One RGBA sample of eight bits per component.
#[derive(Clone, Copy, Debug, PartialEq, Eq, Structural)]
pub struct Rgba8 {
    pub r: u8,
    pub g: u8,
    pub b: u8,
    pub a: u8,
}

/// Black with alpha zero: what a canvas holds where nothing was pasted.
pub open spec fn transparent_black() -> Rgba8 {
    Rgba8 { r: 0, g: 0, b: 0, a: 0 }
}

/// Black with full alpha: what stands for a pixel or a tile that is missing.
pub open spec fn opaque_black() -> Rgba8 {
    Rgba8 { r: 0, g: 0, b: 0, a: 255 }
}

impl Rgba8 {
    pub fn transparent() -> (p: Rgba8)
        ensures
            p == transparent_black(),
    {
        Rgba8 { r: 0, g: 0, b: 0, a: 0 }
    }

    pub fn black() -> (p: Rgba8)
        ensures
            p == opaque_black(),
    {
        Rgba8 { r: 0, g: 0, b: 0, a: 255 }
    }
}

/// The colour plane of the output that a channel feeds.
#[derive(Clone, Copy, Debug, PartialEq, Eq, Structural)]
pub enum CollapseColor {
    Red,
    Green,
    Blue,
}

/// How the values of a channel are carried into its colour plane.
#[derive(Clone, Copy, Debug, PartialEq, Eq, Structural)]
pub enum CollapseMode {
    /// The value is the index of a label and becomes that label's bit flag.
    Bitmask,
    /// The value is kept.
    Heatmap,
    /// The value is kept; another name for `Heatmap`.
    PassThrough,
    /// The channel is left out: every value becomes zero.
    Skip,
}

/// The mode of each of the three channels.
#[derive(Clone, Copy, Debug, PartialEq, Eq, Structural)]
pub struct CollapseConfig {
    pub red: CollapseMode,
    pub green: CollapseMode,
    pub blue: CollapseMode,
}

/// The largest label index that has a bit flag of its own in one byte.
pub const MAX_LABEL: u8 = 8;

/// The bit flag of label `n`: nothing for label zero, and for every other
/// label the power of two `2^(n-1)`, so that flags of different labels can
/// be combined and told apart again.
pub open spec fn bit_flag(n: nat) -> nat {
    if n == 0 {
        0
    } else {
        pow2((n - 1) as nat)
    }
}

/// The flags of the labels zero to eight, written out.
pub open spec fn label_flags() -> Seq<u8> {
    seq![0u8, 1u8, 2u8, 4u8, 8u8, 16u8, 32u8, 64u8, 128u8]
}

/// The flags of the labels up to `MAX_LABEL` are 0, 1, 2, 4, 8, 16, 32, 64
/// and 128; each fits a byte.
pub proof fn lemma_bit_flags()
    ensures
        forall|n: nat| n <= MAX_LABEL ==> #[trigger] bit_flag(n) == label_flags()[n as int],
        forall|n: nat| n <= MAX_LABEL ==> #[trigger] bit_flag(n) < 256,
{
    lemma2_to64();
}

/// Gives the bit flag of a label index. Only the labels up to `MAX_LABEL`
/// have a flag that fits a byte; the others are outside the contract.
pub fn bit_ize(n: u8) -> (flag: u8)
    requires
        n <= MAX_LABEL,
    ensures
        flag == bit_flag(n as nat),
        flag == label_flags()[n as int],
{
    proof {
        lemma2_to64();
    }
    if n == 0 {
        return 0;
    }
    if n == 1 {
        return 1;
    }
    if n == 2 {
        return 2;
    }
    let shift: u8 = n - 1;
    assert(1u8 << shift == pow2(shift as nat)) by {
        assert(shift == 2 ==> 1u8 << shift == 4) by (bit_vector);
        assert(shift == 3 ==> 1u8 << shift == 8) by (bit_vector);
        assert(shift == 4 ==> 1u8 << shift == 16) by (bit_vector);
        assert(shift == 5 ==> 1u8 << shift == 32) by (bit_vector);
        assert(shift == 6 ==> 1u8 << shift == 64) by (bit_vector);
        assert(shift == 7 ==> 1u8 << shift == 128) by (bit_vector);
    }
    1u8 << shift
}

/// Like `bit_ize`, but tells a label that has no flag apart: `None` for an
/// index above `MAX_LABEL`.
pub fn checked_bit_ize(n: u8) -> (flag: Option<u8>)
    ensures
        flag == (if n <= MAX_LABEL {
            Some(bit_flag(n as nat) as u8)
        } else {
            None
        }),
        n <= MAX_LABEL ==> bit_flag(n as nat) < 256,
{
    if n <= MAX_LABEL {
        Some(bit_ize(n))
    } else {
        None
    }
}

/// What a channel value becomes under a mode. Under `Bitmask` the flag is
/// cut to its low eight bits, which leaves the flags of the labels up to
/// `MAX_LABEL` as they are and turns those of all higher labels into zero.
pub open spec fn converted_value(value: u8, mode: CollapseMode) -> u8 {
    match mode {
        CollapseMode::Bitmask => (bit_flag(value as nat) % 256) as u8,
        CollapseMode::Heatmap => value,
        CollapseMode::PassThrough => value,
        CollapseMode::Skip => 0,
    }
}

/// Every power of two from the eighth on is a multiple of 256.
proof fn lemma_high_flag_vanishes(k: nat)
    requires
        k >= 8,
    ensures
        pow2(k) % 256 == 0,
{
    lemma2_to64();
    lemma_pow2_adds((k - 8) as nat, 8);
    assert(pow2(k) == pow2((k - 8) as nat) * 256);
    vstd::arithmetic::div_mod::lemma_mod_multiples_basic(pow2((k - 8) as nat) as int, 256);
}

/// Transforms one channel value according to the channel's mode.
pub fn convert_color_value(value: u8, mode: &CollapseMode) -> (converted: u8)
    ensures
        converted == converted_value(value, *mode),
        *mode == CollapseMode::Bitmask && value <= MAX_LABEL ==> converted == bit_flag(
            value as nat,
        ),
        *mode == CollapseMode::Bitmask && value > MAX_LABEL ==> converted == 0,
{
    match mode {
        CollapseMode::Bitmask => {
            match checked_bit_ize(value) {
                Some(flag) => flag,
                None => {
                    proof {
                        lemma_high_flag_vanishes((value - 1) as nat);
                    }
                    0
                },
            }
        },
        CollapseMode::Heatmap => value,
        CollapseMode::PassThrough => value,
        CollapseMode::Skip => 0,
    }
}

/// The pixel that a grey pixel contributes to one colour plane: the
/// transformed value in that plane, zero in the two others, and full alpha.
pub open spec fn collapsed(pixel: Rgba8, color: CollapseColor, config: CollapseConfig) -> Rgba8 {
    match color {
        CollapseColor::Red => Rgba8 {
            r: converted_value(pixel.r, config.red),
            g: 0,
            b: 0,
            a: 255,
        },
        CollapseColor::Green => Rgba8 {
            r: 0,
            g: converted_value(pixel.g, config.green),
            b: 0,
            a: 255,
        },
        CollapseColor::Blue => Rgba8 {
            r: 0,
            g: 0,
            b: converted_value(pixel.b, config.blue),
            a: 255,
        },
    }
}

/// Collapses a grey pixel into the colour plane of its channel.
pub fn collapse_grey_to_color(pixel: Rgba8, color: CollapseColor, config: &CollapseConfig) -> (out:
    Rgba8)
    ensures
        out == collapsed(pixel, color, *config),
        out.a == 255,
{
    let mut result = Rgba8 { r: 0, g: 0, b: 0, a: 255 };
    match color {
        CollapseColor::Red => {
            result.r = convert_color_value(pixel.r, &config.red);
        },
        CollapseColor::Green => {
            result.g = convert_color_value(pixel.g, &config.green);
        },
        CollapseColor::Blue => {
            result.b = convert_color_value(pixel.b, &config.blue);
        },
    }
    result
}

impl CollapseMode {
    /// The modes, in the order in which they are offered.
    pub fn value_variants() -> (all: Vec<CollapseMode>)
        ensures
            all@ == seq![
                CollapseMode::Bitmask,
                CollapseMode::Heatmap,
                CollapseMode::PassThrough,
                CollapseMode::Skip,
            ],
    {
        let mut all = Vec::new();
        all.push(CollapseMode::Bitmask);
        all.push(CollapseMode::Heatmap);
        all.push(CollapseMode::PassThrough);
        all.push(CollapseMode::Skip);
        assert(all@ =~= seq![
            CollapseMode::Bitmask,
            CollapseMode::Heatmap,
            CollapseMode::PassThrough,
            CollapseMode::Skip,
        ]);
        all
    }

    /// The word that selects a mode.
    pub open spec fn name_of(self) -> Seq<char> {
        match self {
            CollapseMode::Bitmask => "bitmask"@,
            CollapseMode::Heatmap => "heatmap"@,
            CollapseMode::PassThrough => "pass-through"@,
            CollapseMode::Skip => "skip"@,
        }
    }

    /// The word by which the mode is chosen on a command line.
    pub fn to_possible_value(&self) -> (name: &'static str)
        ensures
            name@ == self.name_of(),
    {
        match self {
            CollapseMode::Bitmask => "bitmask",
            CollapseMode::Heatmap => "heatmap",
            CollapseMode::PassThrough => "pass-through",
            CollapseMode::Skip => "skip",
        }
    }
}

} // verus!
