use color_wheel::bucket::BucketDirection;
use color_wheel::color::{hsl_to_pixel, hsv_to_pixel};
use color_wheel::pixel::Pixel;
use color_wheel::pixel_generator_configuration::PixelGeneratorConfiguration;
use color_wheel::pixel_generators::PixelGenerator;
use color_wheel::ratio::Ratio;

fn degrees(d: u64) -> Ratio {
    Ratio::new(d, 1)
}

fn unit(num: u64, den: u64) -> Ratio {
    Ratio::new(num, den)
}

#[test]
fn it_should_convert_from_hsl_to_pixel() {
    assert_eq!(
        hsl_to_pixel(degrees(0), unit(1, 1), unit(1, 2)),
        Pixel::rgb(255, 0, 0)
    );
    assert_eq!(
        hsl_to_pixel(degrees(60), unit(1, 1), unit(1, 2)),
        Pixel::rgb(255, 255, 0)
    );
    assert_eq!(
        hsl_to_pixel(degrees(120), unit(1, 1), unit(1, 2)),
        Pixel::rgb(0, 255, 0)
    );
    assert_eq!(
        hsl_to_pixel(degrees(180), unit(1, 1), unit(1, 2)),
        Pixel::rgb(0, 255, 255)
    );
    assert_eq!(
        hsl_to_pixel(degrees(240), unit(1, 1), unit(1, 2)),
        Pixel::rgb(0, 0, 255)
    );
    assert_eq!(
        hsl_to_pixel(degrees(300), unit(1, 1), unit(1, 2)),
        Pixel::rgb(255, 0, 255)
    );
    assert_eq!(
        hsl_to_pixel(degrees(360), unit(1, 1), unit(1, 2)),
        Pixel::rgb(255, 0, 0)
    );

    assert_eq!(
        hsl_to_pixel(degrees(123), unit(35, 100), unit(69, 100)),
        Pixel::rgb(148, 204, 151)
    );
}

#[test]
fn it_should_convert_hsv_to_pixel() {
    assert_eq!(
        hsv_to_pixel(degrees(0), unit(1, 1), unit(1, 1)),
        Pixel::rgb(255, 0, 0)
    );
    assert_eq!(
        hsv_to_pixel(degrees(60), unit(1, 1), unit(1, 1)),
        Pixel::rgb(255, 255, 0)
    );
    assert_eq!(
        hsv_to_pixel(degrees(120), unit(1, 1), unit(1, 1)),
        Pixel::rgb(0, 255, 0)
    );
    assert_eq!(
        hsv_to_pixel(degrees(180), unit(1, 1), unit(1, 1)),
        Pixel::rgb(0, 255, 255)
    );
    assert_eq!(
        hsv_to_pixel(degrees(240), unit(1, 1), unit(1, 1)),
        Pixel::rgb(0, 0, 255)
    );
    assert_eq!(
        hsv_to_pixel(degrees(300), unit(1, 1), unit(1, 1)),
        Pixel::rgb(255, 0, 255)
    );
    assert_eq!(
        hsv_to_pixel(degrees(360), unit(1, 1), unit(1, 1)),
        Pixel::rgb(255, 0, 0)
    );

    assert_eq!(
        hsv_to_pixel(degrees(123), unit(35, 100), unit(69, 100)),
        Pixel::rgb(114, 176, 117)
    );
}

fn configuration() -> PixelGeneratorConfiguration {
    PixelGeneratorConfiguration {
        is_angle_inverted: false,
        is_varying_dimension_inverted: false,
        angle_bucket_direction: BucketDirection::Down,
        varying_dimension_bucket_direction: BucketDirection::Down,
    }
}

#[test]
fn hsl_fixed_saturation_primaries_round_trip() {
    // A fixed saturation of 1.0 with the varying dimension (lightness) at
    // one half yields the pure primaries at the primary hue angles.
    let generator = PixelGenerator::HslFixedSaturation {
        saturation: unit(1, 1),
        configuration: configuration(),
    };
    let half = unit(1, 2);
    assert_eq!(generator.get_pixel(degrees(0), half), Pixel::rgb(255, 0, 0));
    assert_eq!(generator.get_pixel(degrees(120), half), Pixel::rgb(0, 255, 0));
    assert_eq!(generator.get_pixel(degrees(240), half), Pixel::rgb(0, 0, 255));
}

#[test]
fn hsv_fixed_value_primaries_round_trip() {
    // A fixed value of 1.0 with the varying dimension (saturation) at one
    // yields the pure primaries at the primary hue angles.
    let generator = PixelGenerator::HsvFixedValue {
        value: unit(1, 1),
        configuration: configuration(),
    };
    let full = unit(1, 1);
    assert_eq!(generator.get_pixel(degrees(0), full), Pixel::rgb(255, 0, 0));
    assert_eq!(generator.get_pixel(degrees(120), full), Pixel::rgb(0, 255, 0));
    assert_eq!(generator.get_pixel(degrees(240), full), Pixel::rgb(0, 0, 255));
}

#[test]
fn oklab_extreme_lightness_is_white_and_black() {
    // With chroma zero the Oklab transform reduces to the lightness axis:
    // full lightness is white, zero lightness is black.
    let white_generator = PixelGenerator::OklabFixedChroma {
        chroma: unit(0, 1),
        configuration: configuration(),
    };
    assert_eq!(
        white_generator.get_pixel(degrees(0), unit(1, 1)),
        Pixel::rgb(255, 255, 255)
    );
    assert_eq!(
        white_generator.get_pixel(degrees(90), unit(0, 1)),
        Pixel::rgb(0, 0, 0)
    );
}

#[test]
fn oklab_chroma_shifts_the_hue_channels() {
    // A nonzero chroma at a fixed mid lightness must leave the gray axis:
    // the channels differ, so the angle-dependent terms reached the output.
    let generator = PixelGenerator::OklabFixedLightness {
        lightness: unit(1, 2),
        configuration: configuration(),
    };
    let gray = generator.get_pixel(degrees(0), unit(0, 1));
    assert_eq!(gray.red, gray.green);
    assert_eq!(gray.green, gray.blue);
    let colored = generator.get_pixel(degrees(0), unit(1, 1));
    assert!(colored.red != colored.green || colored.green != colored.blue);
}
