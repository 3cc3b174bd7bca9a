use color_wheel::bucket::BucketDirection;
use color_wheel::canvas_pixel_writer::DefaultCanvasPixelWriter;
use color_wheel::color_wheel_definition::ColorWheelDefinition;
use color_wheel::downscale::downscale;
use color_wheel::offset_canvas_pixel_writer::OffsetCanvasPixelWriter;
use color_wheel::pixel::Pixel;
use color_wheel::pixel_generator_configuration::PixelGeneratorConfiguration;
use color_wheel::pixel_generators::PixelGenerator;
use color_wheel::ratio::Ratio;
use color_wheel::render_color_wheel::{render_color_wheel, RenderError};
use color_wheel::render_color_wheel_set::render_color_wheel_set;

fn micro(n: u64) -> Ratio {
    Ratio::from_micro(n)
}

#[test]
fn hsv_fixed_saturation_nested() {
    let configuration = PixelGeneratorConfiguration {
        is_angle_inverted: false,
        is_varying_dimension_inverted: false,
        angle_bucket_direction: BucketDirection::Down,
        varying_dimension_bucket_direction: BucketDirection::Down,
    };

    let definition = ColorWheelDefinition {
        image_size: 31,
        margin_size: 0,
        angle_buckets: 18,
        distance_buckets: 12,
        pixel_generators: vec![
            PixelGenerator::HsvFixedSaturation { saturation: micro(250_000), configuration },
            PixelGenerator::HsvFixedSaturation { saturation: micro(500_000), configuration },
            PixelGenerator::HsvFixedSaturation { saturation: micro(1_000_000), configuration },
        ],
    };

    let pixel_writer = render_color_wheel_set(&vec![definition], 0).unwrap();

    assert_eq!(pixel_writer.canvas.get_pixel(15, 1), Pixel::rgb(170, 0, 0));
    assert_eq!(pixel_writer.canvas.get_pixel(15, 6), Pixel::rgb(170, 85, 85));
    assert_eq!(pixel_writer.canvas.get_pixel(15, 24), Pixel::rgb(85, 170, 170));
    assert_eq!(pixel_writer.canvas.get_pixel(10, 15), Pixel::rgb(195, 175, 234));
    assert_eq!(pixel_writer.canvas.get_pixel(20, 15), Pixel::rgb(214, 234, 175));
}

#[test]
fn hsl_fixed_saturation_adjacent() {
    let configuration = PixelGeneratorConfiguration {
        is_angle_inverted: false,
        is_varying_dimension_inverted: true,
        angle_bucket_direction: BucketDirection::Down,
        varying_dimension_bucket_direction: BucketDirection::Down,
    };

    let wheel = |saturation: u64| ColorWheelDefinition {
        image_size: 31,
        margin_size: 0,
        angle_buckets: 18,
        distance_buckets: 12,
        pixel_generators: vec![PixelGenerator::HslFixedSaturation {
            saturation: micro(saturation),
            configuration,
        }],
    };

    let wheels = vec![wheel(1_000_000), wheel(500_000), wheel(250_000)];
    let pixel_writer = render_color_wheel_set(&wheels, 1).unwrap();

    assert_eq!(pixel_writer.canvas.get_pixel(15, 1), Pixel::rgb(85, 0, 0));
    assert_eq!(pixel_writer.canvas.get_pixel(47, 1), Pixel::rgb(64, 21, 21));
    assert_eq!(pixel_writer.canvas.get_pixel(79, 1), Pixel::rgb(53, 32, 32));
}

fn solid_red_canvas(size: u32) -> color_wheel::canvas::Canvas {
    let mut canvas = color_wheel::canvas::canvas(size, size);
    for y in 0..size {
        for x in 0..size {
            canvas.set_pixel(x, y, Pixel::rgb(255, 0, 0));
        }
    }
    canvas
}

#[test]
fn downscale_factor_one_is_byte_identical() {
    let configuration = PixelGeneratorConfiguration {
        is_angle_inverted: false,
        is_varying_dimension_inverted: false,
        angle_bucket_direction: BucketDirection::Down,
        varying_dimension_bucket_direction: BucketDirection::Down,
    };
    let definition = ColorWheelDefinition {
        image_size: 21,
        margin_size: 1,
        angle_buckets: 6,
        distance_buckets: 4,
        pixel_generators: vec![PixelGenerator::HsvFixedValue {
            value: micro(900_000),
            configuration,
        }],
    };
    let rendered = render_color_wheel_set(&vec![definition], 0).unwrap();
    let original_bytes = rendered.canvas.data();
    let passed_through = downscale(rendered.canvas, 1).unwrap();
    assert_eq!(passed_through.data(), original_bytes);
}

#[test]
fn downscale_halves_a_uniform_image() {
    // A uniform opaque image resamples to the same uniform color: the
    // convolution weights are normalized and dividing by full alpha leaves
    // the channels unchanged.
    let canvas = solid_red_canvas(8);
    let result = downscale(canvas, 2).unwrap();
    assert_eq!(result.width(), 4);
    assert_eq!(result.height(), 4);
    for y in 0..4 {
        for x in 0..4 {
            assert_eq!(result.get_pixel(x, y), Pixel::rgb(255, 0, 0));
        }
    }
}

#[test]
fn downscale_rejects_zero_dimensions() {
    let canvas = solid_red_canvas(3);
    assert!(matches!(
        downscale(canvas, 4),
        Err(RenderError::InvalidResampleDimensions)
    ));
    let canvas = solid_red_canvas(3);
    assert!(matches!(
        downscale(canvas, 0),
        Err(RenderError::InvalidResampleDimensions)
    ));
}

#[test]
fn empty_wheel_list_is_rejected() {
    let wheels: Vec<ColorWheelDefinition> = vec![];
    assert!(matches!(
        render_color_wheel_set(&wheels, 0),
        Err(RenderError::NoColorWheels)
    ));
}

#[test]
fn too_small_wheel_is_rejected() {
    let configuration = PixelGeneratorConfiguration {
        is_angle_inverted: false,
        is_varying_dimension_inverted: false,
        angle_bucket_direction: BucketDirection::Down,
        varying_dimension_bucket_direction: BucketDirection::Down,
    };
    // Five rings need a diameter of at least ten pixels; the margins leave
    // only six.
    let definition = ColorWheelDefinition {
        image_size: 10,
        margin_size: 2,
        angle_buckets: 0,
        distance_buckets: 0,
        pixel_generators: (0..5)
            .map(|_| PixelGenerator::HsvFixedValue {
                value: micro(1_000_000),
                configuration,
            })
            .collect(),
    };
    assert!(matches!(
        render_color_wheel_set(&vec![definition], 0),
        Err(RenderError::ImageTooSmall)
    ));
}

#[test]
fn oversized_wheel_is_rejected() {
    let configuration = PixelGeneratorConfiguration {
        is_angle_inverted: false,
        is_varying_dimension_inverted: false,
        angle_bucket_direction: BucketDirection::Down,
        varying_dimension_bucket_direction: BucketDirection::Down,
    };
    let definition = ColorWheelDefinition {
        image_size: 2_000_000,
        margin_size: 0,
        angle_buckets: 0,
        distance_buckets: 0,
        pixel_generators: vec![PixelGenerator::HsvFixedValue {
            value: micro(1_000_000),
            configuration,
        }],
    };
    assert!(matches!(
        render_color_wheel_set(&vec![definition], 0),
        Err(RenderError::ImageTooLarge)
    ));
}

#[test]
fn wheel_beyond_the_canvas_region_is_rejected() {
    let configuration = PixelGeneratorConfiguration {
        is_angle_inverted: false,
        is_varying_dimension_inverted: false,
        angle_bucket_direction: BucketDirection::Down,
        varying_dimension_bucket_direction: BucketDirection::Down,
    };
    let definition = ColorWheelDefinition {
        image_size: 31,
        margin_size: 0,
        angle_buckets: 0,
        distance_buckets: 0,
        pixel_generators: vec![PixelGenerator::HsvFixedValue {
            value: micro(1_000_000),
            configuration,
        }],
    };
    // A 31-pixel wheel at offset 10 does not fit a 20-pixel canvas.
    let mut writer = OffsetCanvasPixelWriter {
        canvas_pixel_writer: DefaultCanvasPixelWriter::new(20, 20),
        offset_x: 10,
        offset_y: 0,
    };
    assert!(matches!(
        render_color_wheel(&definition, &mut writer),
        Err(RenderError::CanvasTooSmall)
    ));
    // The canvas is untouched.
    for y in 0..20 {
        for x in 0..20 {
            assert_eq!(
                writer.canvas_pixel_writer.canvas.get_pixel(x, y),
                Pixel::transparent()
            );
        }
    }
}

#[test]
fn composite_wider_than_the_machine_limits_is_rejected() {
    let configuration = PixelGeneratorConfiguration {
        is_angle_inverted: false,
        is_varying_dimension_inverted: false,
        angle_bucket_direction: BucketDirection::Down,
        varying_dimension_bucket_direction: BucketDirection::Down,
    };
    // 4100 wheels of the maximum size sum beyond the 32-bit canvas width;
    // the error comes before any allocation.
    let wheels: Vec<ColorWheelDefinition> = (0..4100)
        .map(|_| ColorWheelDefinition {
            image_size: 1_048_576,
            margin_size: 0,
            angle_buckets: 0,
            distance_buckets: 0,
            pixel_generators: vec![PixelGenerator::HsvFixedValue {
                value: micro(1_000_000),
                configuration,
            }],
        })
        .collect();
    assert!(matches!(
        render_color_wheel_set(&wheels, 0),
        Err(RenderError::CanvasTooLarge)
    ));
}
