//! What the application shell asks for: the variant of the operation, its
//! options, and the name of the file the result is written to.

use vstd::prelude::*;
use vstd::string::StringExecFns;

verus! {

/// The post-processing options of a request.
#[derive(Clone, Copy, Debug, PartialEq, Eq, Structural)]
pub struct UpscaleOptions {
    pub sharpening: bool,
    pub contrast_enhancement: bool,
    pub noise_reduction: bool,
}

/// The value of an option that may have been left out.
pub open spec fn or_default(given: Option<bool>, default: bool) -> bool {
    match given {
        Some(value) => value,
        None => default,
    }
}

impl UpscaleOptions {
    /// The options of a request that names none: sharpening and contrast
    /// enhancement on, noise reduction off.
    pub open spec fn defaults() -> UpscaleOptions {
        UpscaleOptions { sharpening: true, contrast_enhancement: true, noise_reduction: false }
    }

    /// Fills in the default for every option that the request left out.
    pub fn resolve(
        sharpening: Option<bool>,
        contrast_enhancement: Option<bool>,
        noise_reduction: Option<bool>,
    ) -> (options: UpscaleOptions)
        ensures
            options.sharpening == or_default(sharpening, true),
            options.contrast_enhancement == or_default(contrast_enhancement, true),
            options.noise_reduction == or_default(noise_reduction, false),
            sharpening is None && contrast_enhancement is None && noise_reduction is None
                ==> options == UpscaleOptions::defaults(),
    {
        UpscaleOptions {
            sharpening: match sharpening {
                Some(value) => value,
                None => true,
            },
            contrast_enhancement: match contrast_enhancement {
                Some(value) => value,
                None => true,
            },
            noise_reduction: match noise_reduction {
                Some(value) => value,
                None => false,
            },
        }
    }
}

impl Default for UpscaleOptions {
    fn default() -> (options: UpscaleOptions)
        ensures
            options == UpscaleOptions::defaults(),
    {
        UpscaleOptions { sharpening: true, contrast_enhancement: true, noise_reduction: false }
    }
}

/// The variant of the operation, which shows in the name of its result.
#[derive(Clone, Copy, Debug, PartialEq, Eq, Structural)]
pub enum Variant {
    /// The GPU kernel alone.
    Standard,
    /// The GPU kernel with post-processing options.
    Enhanced,
    /// Nearest-neighbour sampling on the CPU.
    Nearest,
}

/// The text of one decimal digit.
pub open spec fn digit_text(digit: nat) -> Seq<char> {
    if digit == 0 {
        "0"@
    } else if digit == 1 {
        "1"@
    } else if digit == 2 {
        "2"@
    } else if digit == 3 {
        "3"@
    } else if digit == 4 {
        "4"@
    } else if digit == 5 {
        "5"@
    } else if digit == 6 {
        "6"@
    } else if digit == 7 {
        "7"@
    } else if digit == 8 {
        "8"@
    } else {
        "9"@
    }
}

/// The decimal text of a number, without sign or leading zeros.
pub open spec fn decimal_text(value: nat) -> Seq<char>
    decreases value,
{
    if value < 10 {
        digit_text(value)
    } else {
        decimal_text(value / 10) + digit_text(value % 10)
    }
}

/// How the name of a variant's result begins.
pub open spec fn name_prefix(variant: Variant) -> Seq<char> {
    match variant {
        Variant::Standard => "upscaled_"@,
        Variant::Enhanced => "upscaled_enhanced_"@,
        Variant::Nearest => "upscaled_nearest_"@,
    }
}

/// The file name of a result: the variant's prefix, the factor, `x_`, the
/// time of the request in seconds, and the extension of the PNG container.
pub open spec fn file_name_text(variant: Variant, factor: u32, seconds: u64) -> Seq<char> {
    name_prefix(variant) + decimal_text(factor as nat) + "x_"@ + decimal_text(seconds as nat)
        + ".png"@
}

/// The text of one decimal digit.
fn digit_str(digit: u64) -> (text: &'static str)
    requires
        digit < 10,
    ensures
        text@ == digit_text(digit as nat),
{
    if digit == 0 {
        "0"
    } else if digit == 1 {
        "1"
    } else if digit == 2 {
        "2"
    } else if digit == 3 {
        "3"
    } else if digit == 4 {
        "4"
    } else if digit == 5 {
        "5"
    } else if digit == 6 {
        "6"
    } else if digit == 7 {
        "7"
    } else if digit == 8 {
        "8"
    } else {
        "9"
    }
}

/// Appends the decimal text of `value` to `text`.
fn append_decimal(text: &mut String, value: u64)
    ensures
        final(text)@ == old(text)@ + decimal_text(value as nat),
    decreases value,
{
    if value >= 10 {
        append_decimal(text, value / 10);
    }
    text.append(digit_str(value % 10));
    proof {
        if value >= 10 {
            assert(text@ =~= old(text)@ + (decimal_text((value / 10) as nat) + digit_text(
                (value % 10) as nat,
            )));
        }
    }
}

/// The name of the file that the result of a request is written to.
pub fn output_file_name(variant: Variant, factor: u32, seconds: u64) -> (name: String)
    ensures
        name@ == file_name_text(variant, factor, seconds),
{
    let mut name: String = match variant {
        Variant::Standard => String::from_str("upscaled_"),
        Variant::Enhanced => String::from_str("upscaled_enhanced_"),
        Variant::Nearest => String::from_str("upscaled_nearest_"),
    };
    append_decimal(&mut name, factor as u64);
    name.append("x_");
    append_decimal(&mut name, seconds);
    name.append(".png");
    name
}

} // verus!
