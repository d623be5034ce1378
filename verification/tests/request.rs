use v_upscale::request::{output_file_name, UpscaleOptions, Variant};

#[test]
fn options_default_to_sharp_and_contrasted_without_noise_reduction() {
    let options = UpscaleOptions::resolve(None, None, None);
    assert_eq!(
        options,
        UpscaleOptions { sharpening: true, contrast_enhancement: true, noise_reduction: false }
    );
    assert_eq!(options, UpscaleOptions::default());
}

#[test]
fn given_options_override_the_defaults() {
    assert_eq!(
        UpscaleOptions::resolve(Some(false), Some(false), Some(true)),
        UpscaleOptions { sharpening: false, contrast_enhancement: false, noise_reduction: true }
    );
    assert_eq!(
        UpscaleOptions::resolve(Some(true), None, Some(false)),
        UpscaleOptions { sharpening: true, contrast_enhancement: true, noise_reduction: false }
    );
    assert_eq!(
        UpscaleOptions::resolve(None, Some(false), None),
        UpscaleOptions { sharpening: true, contrast_enhancement: false, noise_reduction: false }
    );
}

#[test]
fn every_combination_of_options_resolves_field_by_field() {
    let choices = [None, Some(false), Some(true)];
    for a in choices {
        for b in choices {
            for c in choices {
                let options = UpscaleOptions::resolve(a, b, c);
                assert_eq!(options.sharpening, a.unwrap_or(true));
                assert_eq!(options.contrast_enhancement, b.unwrap_or(true));
                assert_eq!(options.noise_reduction, c.unwrap_or(false));
            }
        }
    }
}

#[test]
fn file_names_carry_variant_factor_and_time() {
    assert_eq!(output_file_name(Variant::Standard, 2, 1700000000), "upscaled_2x_1700000000.png");
    assert_eq!(
        output_file_name(Variant::Enhanced, 8, 1234567890),
        "upscaled_enhanced_8x_1234567890.png"
    );
    assert_eq!(output_file_name(Variant::Nearest, 4, 42), "upscaled_nearest_4x_42.png");
}

#[test]
fn file_names_print_zero_and_the_largest_values() {
    assert_eq!(output_file_name(Variant::Standard, 0, 0), "upscaled_0x_0.png");
    assert_eq!(
        output_file_name(Variant::Standard, u32::MAX, u64::MAX),
        "upscaled_4294967295x_18446744073709551615.png"
    );
    assert_eq!(output_file_name(Variant::Nearest, 10, 100), "upscaled_nearest_10x_100.png");
}

#[test]
fn file_names_agree_with_std_formatting() {
    let samples = [0u64, 1, 9, 10, 11, 99, 100, 101, 909, 1000, 65535, 1 << 32, 9007199254740993];
    for factor in 1..=8u32 {
        for seconds in samples {
            assert_eq!(
                output_file_name(Variant::Standard, factor, seconds),
                format!("upscaled_{}x_{}.png", factor, seconds)
            );
            assert_eq!(
                output_file_name(Variant::Enhanced, factor, seconds),
                format!("upscaled_enhanced_{}x_{}.png", factor, seconds)
            );
            assert_eq!(
                output_file_name(Variant::Nearest, factor, seconds),
                format!("upscaled_nearest_{}x_{}.png", factor, seconds)
            );
        }
    }
}
