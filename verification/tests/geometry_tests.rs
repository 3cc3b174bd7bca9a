use color_wheel::get_angle_degrees::get_angle_degrees;
use color_wheel::get_pixel_generator_and_variable_dimension::get_pixel_generator_and_variable_dimension;
use color_wheel::ratio::Ratio;

#[test]
fn test_get_angle_degrees() {
    assert_eq!(get_angle_degrees(0, 0, 0, -100), 0);
    assert_eq!(get_angle_degrees(10, 10, 10, -100), 0);
    assert_eq!(get_angle_degrees(10, 10, 100, 10), 90_000_000);
    assert_eq!(get_angle_degrees(10, 10, 10, 50), 180_000_000);
    assert_eq!(get_angle_degrees(10, 10, -20, 10), 270_000_000);

    assert_eq!(get_angle_degrees(0, 0, 1, -1), 45_000_000);
    assert_eq!(get_angle_degrees(0, 0, 1, 1), 135_000_000);
    assert_eq!(get_angle_degrees(0, 0, -1, 1), 225_000_000);
    assert_eq!(get_angle_degrees(0, 0, -1, -1), 315_000_000);
}

#[test]
fn outside_generators() {
    // Three rings of thickness 40 fill a radius of 120; distance 121 is
    // beyond every ring.
    let result = get_pixel_generator_and_variable_dimension(3, 240, 121 * 121);

    assert!(result.is_none());
}

#[test]
fn within_inner_generator() {
    let result = get_pixel_generator_and_variable_dimension(3, 240, 38 * 38).unwrap();

    assert_eq!(result.pixel_generator_index, 0);
    // 38 / 40 exactly.
    assert_eq!(result.variable_dimension, Ratio::new(950_000, 1_000_000));
}

#[test]
fn within_middle_generator() {
    let result = get_pixel_generator_and_variable_dimension(3, 240, 75 * 75).unwrap();

    assert_eq!(result.pixel_generator_index, 1);
    // (75 - 40) / 40 exactly.
    assert_eq!(result.variable_dimension, Ratio::new(875_000, 1_000_000));
}

#[test]
fn within_outer_generator() {
    let result = get_pixel_generator_and_variable_dimension(3, 240, 119 * 119).unwrap();

    assert_eq!(result.pixel_generator_index, 2);
    // (119 - 80) / 40 exactly.
    assert_eq!(result.variable_dimension, Ratio::new(975_000, 1_000_000));
}
