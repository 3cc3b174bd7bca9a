use color_wheel::canvas::canvas;
use color_wheel::pixel::Pixel;

#[test]
fn it_should_write_header() {
    let target = canvas(5, 3);

    let ppm = target.get_ppm();

    let header_lines: Vec<&str> = ppm.lines().take(3).collect();

    assert_eq!(header_lines[0], "P3");
    assert_eq!(header_lines[1], "5 3");
    assert_eq!(header_lines[2], "255");
}

#[test]
fn it_should_write_pixel_data() {
    let mut canvas = canvas(5, 3);
    let c1 = Pixel::rgb(255, 0, 0);
    let c2 = Pixel::rgb(0, 128, 0);
    let c3 = Pixel::rgb(0, 0, 255);

    canvas.set_pixel(0, 0, c1);
    canvas.set_pixel(2, 1, c2);
    canvas.set_pixel(4, 2, c3);

    let ppm = canvas.get_ppm();

    let body_lines: Vec<&str> = ppm.lines().skip(3).collect();

    assert_eq!(body_lines.len(), 3);
    assert_eq!(body_lines[0], "255 0 0 0 0 0 0 0 0 0 0 0 0 0 0");
    assert_eq!(body_lines[1], "0 0 0 0 0 0 0 128 0 0 0 0 0 0 0");
    assert_eq!(body_lines[2], "0 0 0 0 0 0 0 0 0 0 0 0 0 0 255");
}

#[test]
fn it_should_split_long_lines() {
    let mut canvas = canvas(10, 2);
    for x in 0..canvas.width() {
        for y in 0..canvas.height() {
            canvas.set_pixel(x, y, Pixel::rgb(255, 204, 153));
        }
    }

    let ppm = canvas.get_ppm();

    let body_lines: Vec<&str> = ppm.lines().skip(3).collect();

    assert_eq!(body_lines.len(), 4);
    assert_eq!(
        body_lines[0],
        "255 204 153 255 204 153 255 204 153 255 204 153 255 204 153 255 204"
    );
    assert_eq!(
        body_lines[1],
        "153 255 204 153 255 204 153 255 204 153 255 204 153"
    );
    assert_eq!(
        body_lines[2],
        "255 204 153 255 204 153 255 204 153 255 204 153 255 204 153 255 204"
    );
    assert_eq!(
        body_lines[3],
        "153 255 204 153 255 204 153 255 204 153 255 204 153"
    );
}

#[test]
pub fn it_should_end_with_newline_character() {
    let canvas = canvas(5, 3);

    let ppm = canvas.get_ppm();

    assert_eq!(ppm.chars().last().unwrap(), '\n');
}
