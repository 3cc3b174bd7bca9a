use color_wheel::bucket::BucketDirection;
use color_wheel::create_pixel_generator::{
    create_pixel_generator_configuration, default_fixed_value, ColorWheelType,
    DefaultCreatePixelGenerator,
};
use color_wheel::pixel_generators::PixelGenerator;
use color_wheel::ratio::Ratio;

#[test]
fn configuration_follows_the_radial_flags() {
    let plain = create_pixel_generator_configuration(false, false);
    assert!(!plain.is_angle_inverted);
    assert!(!plain.is_varying_dimension_inverted);
    assert_eq!(plain.angle_bucket_direction, BucketDirection::Down);
    assert_eq!(plain.varying_dimension_bucket_direction, BucketDirection::Up);

    let reversed_bucketing = create_pixel_generator_configuration(false, true);
    assert_eq!(reversed_bucketing.varying_dimension_bucket_direction, BucketDirection::Down);
    assert!(!reversed_bucketing.is_varying_dimension_inverted);

    let reversed_colors = create_pixel_generator_configuration(true, false);
    assert_eq!(reversed_colors.varying_dimension_bucket_direction, BucketDirection::Down);
    assert!(reversed_colors.is_varying_dimension_inverted);

    let both = create_pixel_generator_configuration(true, true);
    assert_eq!(both.varying_dimension_bucket_direction, BucketDirection::Up);
    assert!(both.is_varying_dimension_inverted);
}

#[test]
fn default_fixed_values_depend_on_the_variant() {
    assert_eq!(default_fixed_value(ColorWheelType::HslFixedLightness), Ratio::new(1, 2));
    assert_eq!(default_fixed_value(ColorWheelType::HslFixedSaturation), Ratio::new(1, 1));
    assert_eq!(default_fixed_value(ColorWheelType::HsvFixedValue), Ratio::new(1, 1));
    assert_eq!(default_fixed_value(ColorWheelType::OklabFixedChroma), Ratio::new(1, 1));
}

#[test]
fn create_pixel_generator_builds_the_requested_variant() {
    let create = DefaultCreatePixelGenerator {};
    let configuration = create_pixel_generator_configuration(false, false);
    let fixed = Ratio::new(7, 10);

    assert_eq!(
        create.execute(ColorWheelType::HslFixedSaturation, fixed, configuration),
        PixelGenerator::HslFixedSaturation { saturation: fixed, configuration }
    );
    assert_eq!(
        create.execute(ColorWheelType::HslFixedLightness, fixed, configuration),
        PixelGenerator::HslFixedLightness { lightness: fixed, configuration }
    );
    assert_eq!(
        create.execute(ColorWheelType::HsvFixedSaturation, fixed, configuration),
        PixelGenerator::HsvFixedSaturation { saturation: fixed, configuration }
    );
    assert_eq!(
        create.execute(ColorWheelType::HsvFixedValue, fixed, configuration),
        PixelGenerator::HsvFixedValue { value: fixed, configuration }
    );
    assert_eq!(
        create.execute(ColorWheelType::OklabFixedLightness, fixed, configuration),
        PixelGenerator::OklabFixedLightness { lightness: fixed, configuration }
    );
    assert_eq!(
        create.execute(ColorWheelType::OklabFixedChroma, fixed, configuration),
        PixelGenerator::OklabFixedChroma { chroma: fixed, configuration }
    );
}
