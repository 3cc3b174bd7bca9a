use color_wheel::canvas::{canvas, Canvas};
use color_wheel::canvas_pixel_writer::DefaultCanvasPixelWriter;
use color_wheel::canvas_pixel_writer_factory::DefaultCanvasPixelWriterFactory;
use color_wheel::offset_canvas_pixel_writer::OffsetCanvasPixelWriter;
use color_wheel::pixel::{Pixel, BYTES_PER_PIXEL};
use color_wheel::pixel_writer::{CanvasPixelWriter, OffsetPixelWriter};
use color_wheel::row_pixel_writer::DefaultRowPixelWriter;

#[test]
fn it_should_initialize_to_transparent() {
    let result = canvas(2, 3);

    assert_eq!(result.width(), 2);
    assert_eq!(result.height(), 3);
    assert_eq!(result.data().len(), 6 * BYTES_PER_PIXEL);

    let transparent = Pixel::transparent();

    for y in 0..result.height() {
        for x in 0..result.width() {
            assert_eq!(result.get_pixel(x, y), transparent);
        }
    }
}

#[test]
fn it_should_initialize_to_black() {
    let result = canvas(2, 3);

    assert_eq!(result.width(), 2);
    assert_eq!(result.height(), 3);
    assert_eq!(result.iter_pixels().len(), 6);
    for pixel in result.iter_pixels() {
        assert_eq!(pixel.red, 0);
        assert_eq!(pixel.green, 0);
        assert_eq!(pixel.blue, 0);
    }
}

#[test]
fn it_should_iterate_pixels() {
    let mut canvas = canvas(2, 2);

    let pixels = vec![
        Pixel::rgba(0, 1, 2, 3),
        Pixel::rgba(4, 5, 6, 7),
        Pixel::rgba(7, 6, 5, 4),
        Pixel::rgba(3, 2, 1, 0),
    ];

    canvas.set_pixel(0, 0, pixels[0]);
    canvas.set_pixel(1, 0, pixels[1]);
    canvas.set_pixel(0, 1, pixels[2]);
    canvas.set_pixel(1, 1, pixels[3]);

    let result: Vec<Pixel> = canvas.iter_pixels();

    assert_eq!(result, pixels);
}

#[test]
fn it_should_update_specified_pixel() {
    let mut target = canvas(2, 3);
    let transparent = Pixel::transparent();

    assert!(target.iter_pixels().iter().all(|v| { *v == transparent }));

    target.set_pixel(1, 1, Pixel::rgb(1, 2, 3));

    assert_eq!(target.get_pixel(1, 1), Pixel::rgb(1, 2, 3));
}

#[test]
pub fn it_should_return_pixel_at_location() {
    let mut target = canvas(2, 3);

    for x in 0..2 {
        for y in 0..3 {
            target.set_pixel(x, y, Pixel::rgba(x as u8, y as u8, 100, 200));
        }
    }

    assert_eq!(target.get_pixel(0, 0), Pixel::rgba(0, 0, 100, 200));
    assert_eq!(target.get_pixel(1, 2), Pixel::rgba(1, 2, 100, 200));
    assert_eq!(target.get_pixel(1, 1), Pixel::rgba(1, 1, 100, 200));
}

#[test]
fn from_data_round_trips_the_bytes() {
    let mut source = canvas(3, 2);
    source.set_pixel(2, 1, Pixel::rgba(9, 8, 7, 6));
    let bytes = source.data();
    let rebuilt = Canvas::from_data(3, 2, bytes.clone());
    assert_eq!(rebuilt.data(), bytes);
    assert_eq!(rebuilt.get_pixel(2, 1), Pixel::rgba(9, 8, 7, 6));
}

#[test]
fn canvas_pixel_writer_it_should_write_to_correct_buffer_locations() {
    let mut pixel_writer = DefaultCanvasPixelWriter::new(3, 3);

    let mut rows = pixel_writer.take_rows();

    assert_eq!(rows.len(), 3);

    rows[0].write_pixel(0, 0, Pixel::rgb(1, 2, 3));
    rows[2].write_pixel(2, 2, Pixel::rgb(4, 5, 6));

    pixel_writer.put_rows(rows);

    assert_eq!(pixel_writer.canvas.get_pixel(0, 0), Pixel::rgb(1, 2, 3));
    assert_eq!(pixel_writer.canvas.get_pixel(2, 2), Pixel::rgb(4, 5, 6));
}

#[test]
fn it_should_return_canvas_with_correctly_sized_buffer() {
    let factory = DefaultCanvasPixelWriterFactory {};
    let canvas = factory.create(3, 4);

    assert_eq!(canvas.canvas.data().len(), 3 * 4 * BYTES_PER_PIXEL);
}

#[test]
fn row_pixel_writer_it_should_write_to_correct_buffer_locations() {
    let mut pixel_writer = DefaultRowPixelWriter {
        row_index: 2,
        data: vec![0, 0, 0, 0, 0, 0, 0, 0],
    };

    pixel_writer.write_pixel(0, 2, Pixel::rgb(1, 2, 3));
    pixel_writer.write_pixel(1, 2, Pixel::rgb(4, 5, 6));

    assert_eq!(pixel_writer.data, vec![1, 2, 3, 255, 4, 5, 6, 255]);
}

#[test]
fn offset_pixel_writer_should_return_offset_row_pixel_writers() {
    let canvas_pixel_writer = DefaultCanvasPixelWriter::new(1, 10);

    let mut offset_pixel_writer = OffsetCanvasPixelWriter {
        canvas_pixel_writer,
        offset_x: 3,
        offset_y: 4,
    };

    let rows = offset_pixel_writer.take_rows();

    assert_eq!(rows.len(), 6);
    assert!(rows.iter().all(|row| row.offset_x == 3 && row.offset_y == 4));
}

#[test]
fn offset_canvas_pixel_writer_it_should_write_to_correct_buffer_locations() {
    let canvas_pixel_writer = DefaultCanvasPixelWriter::new(4, 4);

    let mut offset_pixel_writer = OffsetCanvasPixelWriter {
        canvas_pixel_writer,
        offset_x: 1,
        offset_y: 2,
    };

    let mut rows = offset_pixel_writer.take_rows();

    assert_eq!(rows.len(), 2);

    rows[0].write_pixel(0, 0, Pixel::rgb(1, 2, 3));
    rows[1].write_pixel(2, 1, Pixel::rgb(4, 5, 6));

    offset_pixel_writer.put_rows(rows);

    assert_eq!(
        offset_pixel_writer.canvas_pixel_writer.canvas.get_pixel(1, 2),
        Pixel::rgb(1, 2, 3)
    );
    assert_eq!(
        offset_pixel_writer.canvas_pixel_writer.canvas.get_pixel(3, 3),
        Pixel::rgb(4, 5, 6)
    );
}

#[test]
fn offset_row_pixel_writer_offset_pixel_writer_should_offset_x_and_y() {
    let canvas_pixel_writer = DefaultCanvasPixelWriter::new(12, 23);

    let mut offset_pixel_writer = OffsetCanvasPixelWriter {
        canvas_pixel_writer,
        offset_x: 10,
        offset_y: 20,
    };

    let pixel = Pixel::rgb(1, 2, 3);
    let mut rows = offset_pixel_writer.take_rows();
    rows[2].write_pixel(1, 2, pixel);
    offset_pixel_writer.put_rows(rows);

    assert_eq!(
        offset_pixel_writer.canvas_pixel_writer.canvas.get_pixel(11, 22),
        pixel
    );
}

#[test]
fn offset_pixel_writer_offset_pixel_writer_should_offset_x_and_y() {
    let pixel_writer = CanvasPixelWriter::new(12, 23);

    let pixel = Pixel::rgb(1, 2, 3);

    let mut offset_pixel_writer = OffsetPixelWriter {
        pixel_writer,
        offset_x: 10,
        offset_y: 20,
    };

    offset_pixel_writer.write_pixel(1, 2, pixel);

    assert_eq!(offset_pixel_writer.pixel_writer.canvas.get_pixel(11, 22), pixel);
}
