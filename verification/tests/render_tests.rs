use color_wheel::bucket::BucketDirection;
use color_wheel::color::hsv_to_pixel;
use color_wheel::color_wheel_definition::ColorWheelDefinition;
use color_wheel::get_pixel::DefaultGetPixel;
use color_wheel::pixel::Pixel;
use color_wheel::pixel_generator_configuration::PixelGeneratorConfiguration;
use color_wheel::pixel_generators::PixelGenerator;
use color_wheel::ratio::Ratio;
use color_wheel::render_color_wheel_set::render_color_wheel_set;
use color_wheel::render_pixel::{render_pixel, RenderPixelData};

fn configuration(
    angle_bucket_direction: BucketDirection,
    varying_dimension_bucket_direction: BucketDirection,
    is_angle_inverted: bool,
    is_varying_dimension_inverted: bool,
) -> PixelGeneratorConfiguration {
    PixelGeneratorConfiguration {
        is_angle_inverted,
        is_varying_dimension_inverted,
        angle_bucket_direction,
        varying_dimension_bucket_direction,
    }
}

fn generator(config: PixelGeneratorConfiguration) -> PixelGenerator {
    PixelGenerator::HsvFixedSaturation {
        saturation: Ratio::new(1, 1),
        configuration: config,
    }
}

fn expected(angle: u64, varying_num: u64, varying_den: u64) -> Pixel {
    hsv_to_pixel(
        Ratio::new(angle, 1),
        Ratio::new(1, 1),
        Ratio::new(varying_num, varying_den),
    )
}

fn run(
    config: PixelGeneratorConfiguration,
    angle: u64,
    varying_num: u64,
    varying_den: u64,
    angle_buckets: u32,
    distance_buckets: u32,
) -> Pixel {
    let get_pixel = DefaultGetPixel {};
    let g = generator(config);
    get_pixel.execute(
        &g,
        Ratio::new(angle, 1),
        Ratio::new(varying_num, varying_den),
        angle_buckets,
        distance_buckets,
    )
}

#[test]
fn get_pixel_it_should_get_pixel() {
    let config = configuration(BucketDirection::Up, BucketDirection::Up, false, false);
    assert_eq!(run(config, 135, 1, 5, 0, 0), expected(135, 1, 5));
}

#[test]
fn get_pixel_it_should_bucket_angle_up() {
    let config = configuration(BucketDirection::Up, BucketDirection::Up, false, false);
    assert_eq!(run(config, 135, 1, 5, 4, 0), expected(180, 1, 5));
}

#[test]
fn get_pixel_it_should_bucket_angle_down() {
    let config = configuration(BucketDirection::Down, BucketDirection::Up, false, false);
    assert_eq!(run(config, 135, 1, 5, 4, 0), expected(90, 1, 5));
}

#[test]
fn get_pixel_it_should_bucket_variable_dimension_up() {
    let config = configuration(BucketDirection::Up, BucketDirection::Up, false, false);
    assert_eq!(run(config, 135, 1, 5, 0, 4), expected(135, 1, 4));
}

#[test]
fn get_pixel_it_should_bucket_varying_dimension_down() {
    let config = configuration(BucketDirection::Up, BucketDirection::Down, false, false);
    assert_eq!(run(config, 135, 1, 5, 0, 4), expected(135, 0, 1));
}

#[test]
fn get_pixel_it_should_invert_angle() {
    let config = configuration(BucketDirection::Up, BucketDirection::Up, true, false);
    assert_eq!(run(config, 135, 1, 5, 0, 0), expected(225, 1, 5));
}

#[test]
fn get_pixel_it_should_invert_varying_dimension() {
    let config = configuration(BucketDirection::Up, BucketDirection::Up, false, true);
    assert_eq!(run(config, 135, 1, 5, 0, 0), expected(135, 4, 5));
}

#[test]
fn get_pixel_it_should_bucket_before_inverting() {
    let config = configuration(BucketDirection::Down, BucketDirection::Up, true, true);
    assert_eq!(run(config, 135, 1, 5, 4, 4), expected(270, 3, 4));
}

fn test_definition() -> ColorWheelDefinition {
    let config = configuration(BucketDirection::Down, BucketDirection::Down, false, false);
    ColorWheelDefinition {
        image_size: 110,
        margin_size: 5,
        angle_buckets: 10,
        distance_buckets: 10,
        pixel_generators: vec![generator(config), generator(config)],
    }
}

fn test_data() -> RenderPixelData {
    RenderPixelData {
        center_x: 55,
        center_y: 55,
        wheel_diameter: 100,
        ring_count: 2,
    }
}

#[test]
fn when_outside_of_wheel_it_should_return() {
    let result = render_pixel(1, 1, &test_data(), &test_definition());

    assert!(result.is_none());
}

#[test]
fn when_no_pixel_generator_returned_it_should_return() {
    // A point exactly on the outer ring bound passes the radius test but is
    // claimed by no ring.
    let result = render_pixel(105, 55, &test_data(), &test_definition());

    assert!(result.is_none());
}

#[test]
fn when_pixel_generator_returns_pixel_it_should_write_pixel() {
    let definition = test_definition();
    let result = render_pixel(56, 54, &test_data(), &definition);

    // Distance sqrt(2) from the center at angle 45 degrees lands in the
    // innermost ring.
    let get_pixel = DefaultGetPixel {};
    let expected_pixel = get_pixel.execute(
        &definition.pixel_generators[0],
        Ratio::new(45_000_000, 1_000_000),
        Ratio::new(56_568, 1_000_000),
        10,
        10,
    );
    assert_eq!(result, Some(expected_pixel));
}

#[test]
fn render_color_wheel_when_no_pixel_generators_it_should_return() {
    // A wheel without generators renders nothing: the canvas stays fully
    // transparent.
    let definition = ColorWheelDefinition {
        image_size: 15,
        margin_size: 2,
        angle_buckets: 4,
        distance_buckets: 5,
        pixel_generators: vec![],
    };
    let writer = render_color_wheel_set(&vec![definition], 0).unwrap();
    for y in 0..15 {
        for x in 0..15 {
            assert_eq!(writer.canvas.get_pixel(x, y), Pixel::transparent());
        }
    }
}

#[test]
fn render_color_wheel_it_should_render_each_pixel() {
    // A 15-pixel wheel with margin 2 centers at (7, 7) with a renderable
    // radius of 5.5: the center area is written, the corners stay clear.
    let config = configuration(BucketDirection::Down, BucketDirection::Down, false, false);
    let definition = ColorWheelDefinition {
        image_size: 15,
        margin_size: 2,
        angle_buckets: 4,
        distance_buckets: 5,
        pixel_generators: vec![generator(config), generator(config)],
    };
    let writer = render_color_wheel_set(&vec![definition], 0).unwrap();
    assert_eq!(writer.canvas.width(), 15);
    assert_eq!(writer.canvas.height(), 15);
    assert_eq!(writer.canvas.get_pixel(7, 3).alpha, 255);
    assert_eq!(writer.canvas.get_pixel(0, 0), Pixel::transparent());
}

#[test]
fn render_color_wheel_rows_it_should_render_each_pixel() {
    // Every row inside the wheel receives writes.
    let config = configuration(BucketDirection::Down, BucketDirection::Down, false, false);
    let definition = ColorWheelDefinition {
        image_size: 9,
        margin_size: 0,
        angle_buckets: 0,
        distance_buckets: 0,
        pixel_generators: vec![generator(config)],
    };
    let writer = render_color_wheel_set(&vec![definition], 0).unwrap();
    for y in 0..9 {
        assert_eq!(writer.canvas.get_pixel(4, y).alpha, 255);
    }
}

#[test]
fn it_should_render_all_color_wheels() {
    let config = configuration(BucketDirection::Down, BucketDirection::Down, false, false);
    let wheels = vec![
        ColorWheelDefinition {
            image_size: 100,
            margin_size: 10,
            angle_buckets: 36,
            distance_buckets: 5,
            pixel_generators: vec![generator(config)],
        },
        ColorWheelDefinition {
            image_size: 200,
            margin_size: 20,
            angle_buckets: 36,
            distance_buckets: 5,
            pixel_generators: vec![generator(config)],
        },
    ];

    let writer = render_color_wheel_set(&wheels, 10).unwrap();

    assert_eq!(writer.canvas.width(), 310);
    assert_eq!(writer.canvas.height(), 200);

    // The second wheel's pixels sit offset by exactly 110 in x: rendering it
    // alone gives the same pixels at the translated coordinates.
    let config2 = configuration(BucketDirection::Down, BucketDirection::Down, false, false);
    let second = ColorWheelDefinition {
        image_size: 200,
        margin_size: 20,
        angle_buckets: 36,
        distance_buckets: 5,
        pixel_generators: vec![generator(config2)],
    };
    let solo = render_color_wheel_set(&vec![second], 10).unwrap();
    for (x, y) in [(100u32, 100u32), (55, 30), (170, 123), (20, 20)] {
        assert_eq!(writer.canvas.get_pixel(110 + x, y), solo.canvas.get_pixel(x, y));
    }
}

#[test]
fn color_wheel_set_renderer_it_should_render_all_color_wheels() {
    // The layout formula: two wheels with spacing 7 produce the summed width
    // plus one gap, and the first wheel starts at x = 0.
    let config = configuration(BucketDirection::Down, BucketDirection::Down, false, false);
    let wheels = vec![
        ColorWheelDefinition {
            image_size: 31,
            margin_size: 0,
            angle_buckets: 0,
            distance_buckets: 0,
            pixel_generators: vec![generator(config)],
        },
        ColorWheelDefinition {
            image_size: 41,
            margin_size: 0,
            angle_buckets: 0,
            distance_buckets: 0,
            pixel_generators: vec![generator(config)],
        },
    ];
    let writer = render_color_wheel_set(&wheels, 7).unwrap();
    assert_eq!(writer.canvas.width(), 31 + 7 + 41);
    assert_eq!(writer.canvas.height(), 41);
    // The gap between the wheels stays transparent.
    for y in 0..41 {
        assert_eq!(writer.canvas.get_pixel(34, y), Pixel::transparent());
    }
}
