//! Procedural renderer for circular "color wheel" diagrams.
//!
//! Angular position encodes hue and radial position encodes a second color
//! dimension (saturation, lightness, value, or chroma).  Wheels may be split
//! into concentric rings of fixed-dimension color generators and subdivided
//! into discrete angular and radial buckets.  The result is an RGBA pixel
//! buffer ready for encoding.
//!
//! All value-level arithmetic is carried out exactly over scaled integers and
//! rational numbers, so every stage of the pipeline has a complete
//! mathematical contract.

pub mod bucket;
pub mod canvas;
pub mod canvas_pixel_writer;
pub mod canvas_pixel_writer_factory;
pub mod color;
pub mod color_wheel_definition;
pub mod create_pixel_generator;
pub mod downscale;
pub mod get_angle_degrees;
pub mod get_pixel;
pub mod get_pixel_generator_and_variable_dimension;
pub mod math;
pub mod offset_canvas_pixel_writer;
pub mod offset_row_pixel_writer;
pub mod oklab;
pub mod pixel;
pub mod pixel_writer;
pub mod pixel_generator_configuration;
pub mod pixel_generators;
pub mod ppm;
pub mod ratio;
pub mod render_color_wheel;
pub mod render_color_wheel_rows;
pub mod render_color_wheel_set;
pub mod render_pixel;
pub mod row_pixel_writer;
