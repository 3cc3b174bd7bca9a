//! Plain-text PPM serialization of a canvas.
//!
//! The format is bit-exact: the header `P3\n<width> <height>\n255\n`,
//! followed by space-separated decimal R, G, B values (alpha dropped) in
//! row-major order, with output lines wrapped before they would exceed 70
//! characters and a newline after each image row, so the file ends with a
//! newline.

use vstd::prelude::*;

use crate::canvas::Canvas;

verus! {

/// Longest output line the body may produce.
pub const PPM_MAX_LINE_LENGTH: u64 = 70;

/// Widest rendering of one color value, including its separator.
pub const MAX_COLOR_ELEMENT_LENGTH: u64 = 4;

/// The ASCII decimal digits of `n`, most significant first.
pub open spec fn spec_decimal_digits(n: int) -> Seq<u8>
    decreases n,
{
    if n < 10 {
        seq![(48 + n) as u8]
    } else {
        spec_decimal_digits(n / 10).push((48 + n % 10) as u8)
    }
}

/// The ASCII decimal digits of `n`.
pub fn u32_to_decimal(n: u32) -> (r: Vec<u8>)
    ensures
        r@ == spec_decimal_digits(n as int),
        1 <= r@.len(),
        forall|i: int| 0 <= i < r@.len() ==> 48 <= #[trigger] r@[i] <= 57,
    decreases n,
{
    if n < 10 {
        let digit: u8 = 48 + (n as u8);
        let mut r: Vec<u8> = Vec::new();
        r.push(digit);
        r
    } else {
        let mut r = u32_to_decimal(n / 10);
        r.push(48 + ((n % 10) as u8));
        r
    }
}

/// A byte's decimal rendering has at most three digits.
proof fn lemma_decimal_digits_len(n: int)
    requires
        0 <= n <= 255,
    ensures
        1 <= spec_decimal_digits(n).len(),
        spec_decimal_digits(n).len() <= 3,
        n <= 25 ==> spec_decimal_digits(n).len() <= 2,
        n <= 9 ==> spec_decimal_digits(n).len() <= 1,
    decreases n,
{
    if n >= 10 {
        lemma_decimal_digits_len(n / 10);
    }
}

/// The channel values of one image row, three per pixel, in column order.
pub open spec fn spec_row_values(canvas: Canvas, y: int, upto: int) -> Seq<u8>
    decreases upto,
{
    if upto <= 0 {
        Seq::empty()
    } else {
        let p = canvas.spec_pixel_at(upto - 1, y);
        spec_row_values(canvas, y, upto - 1) + seq![p.red, p.green, p.blue]
    }
}

/// The bytes emitted for the values from index `i` on, entering with the
/// given line length and first-on-line flag: a line break before any value
/// that could overflow the line, a space before any value that is not first
/// on its line, then the value's digits.
pub open spec fn spec_ppm_emit(values: Seq<u8>, i: int, line_length: int, first: bool) -> Seq<u8>
    decreases values.len() - i,
{
    if i < 0 || i >= values.len() {
        Seq::empty()
    } else {
        let digits = spec_decimal_digits(values[i] as int);
        if line_length + 4 > 70 {
            seq![10u8] + digits + spec_ppm_emit(values, i + 1, digits.len() as int, false)
        } else if first {
            digits + spec_ppm_emit(values, i + 1, line_length + digits.len(), false)
        } else {
            seq![32u8] + digits + spec_ppm_emit(
                values,
                i + 1,
                line_length + 1 + digits.len(),
                false,
            )
        }
    }
}

/// The body rows from row `y` down: each row's wrapped values followed by a
/// newline.
pub open spec fn spec_ppm_rows(canvas: Canvas, y: int) -> Seq<u8>
    decreases canvas.height - y,
{
    if y < 0 || y >= canvas.height {
        Seq::empty()
    } else {
        spec_ppm_emit(spec_row_values(canvas, y, canvas.width as int), 0, 0, true) + seq![10u8]
            + spec_ppm_rows(canvas, y + 1)
    }
}

/// The full PPM byte stream of a canvas.
pub open spec fn spec_ppm_bytes(canvas: Canvas) -> Seq<u8> {
    seq![80u8, 51u8, 10u8] + spec_decimal_digits(canvas.width as int) + seq![32u8]
        + spec_decimal_digits(canvas.height as int) + seq![10u8, 50u8, 53u8, 53u8, 10u8]
        + spec_ppm_rows(canvas, 0)
}

/// Relies on `String::from_utf8`: ASCII bytes are valid UTF-8 and decode to
/// one character per byte, each with the byte's code.
#[verifier::external_body]
fn ascii_bytes_to_string(bytes: Vec<u8>) -> (r: String)
    requires
        forall|i: int| 0 <= i < bytes@.len() ==> bytes@[i] < 128,
    ensures
        r@.len() == bytes@.len(),
        forall|i: int| 0 <= i < bytes@.len() ==> r@[i] == bytes@[i] as char,
{
    match String::from_utf8(bytes) {
        Ok(s) => s,
        Err(_) => String::new(),
    }
}

/// The channel values of one image row as a vector.
fn row_values(canvas: &Canvas, y: u32) -> (r: Vec<u8>)
    requires
        canvas.wf(),
        y < canvas.height,
    ensures
        r@ == spec_row_values(*canvas, y as int, canvas.width as int),
        r@.len() == 3 * canvas.width,
{
    let mut r: Vec<u8> = Vec::new();
    let mut x: u32 = 0;
    while x < canvas.width
        invariant
            canvas.wf(),
            y < canvas.height,
            x <= canvas.width,
            r@ == spec_row_values(*canvas, y as int, x as int),
            r@.len() == 3 * x,
        decreases canvas.width - x,
    {
        let p = canvas.get_pixel(x, y);
        r.push(p.red);
        r.push(p.green);
        r.push(p.blue);
        proof {
            assert(r@ =~= spec_row_values(*canvas, y as int, x as int + 1));
        }
        x = x + 1;
    }
    r
}

impl Canvas {
    /// Serialize the canvas as a plain-text PPM file.
    pub fn get_ppm(&self) -> (r: String)
        requires
            self.wf(),
        ensures
            r@.len() == spec_ppm_bytes(*self).len(),
            forall|i: int|
                0 <= i < r@.len() ==> r@[i] == #[trigger] spec_ppm_bytes(*self)[i] as char,
    {
        let mut content: Vec<u8> = Vec::new();
        content.push(80);
        content.push(51);
        content.push(10);
        let mut width_digits = u32_to_decimal(self.width);
        content.append(&mut width_digits);
        content.push(32);
        let mut height_digits = u32_to_decimal(self.height);
        content.append(&mut height_digits);
        content.push(10);
        content.push(50);
        content.push(53);
        content.push(53);
        content.push(10);
        let ghost header = content@;
        proof {
            assert(header =~= seq![80u8, 51u8, 10u8] + spec_decimal_digits(self.width as int)
                + seq![32u8] + spec_decimal_digits(self.height as int) + seq![
                10u8,
                50u8,
                53u8,
                53u8,
                10u8,
            ]);
        }

        let mut y: u32 = 0;
        while y < self.height
            invariant
                self.wf(),
                y <= self.height,
                content@ == header + spec_ppm_rows_upto(*self, y as int),
                forall|i: int| 0 <= i < content@.len() ==> #[trigger] content@[i] < 128,
                header == seq![80u8, 51u8, 10u8] + spec_decimal_digits(self.width as int) + seq![
                    32u8,
                ] + spec_decimal_digits(self.height as int) + seq![10u8, 50u8, 53u8, 53u8, 10u8],
            decreases self.height - y,
        {
            let values = row_values(self, y);
            let ghost vals = values@;
            let ghost row_start = content@;
            let mut line_length: u64 = 0;
            let mut is_first_value_on_line = true;
            let mut i: usize = 0;
            while i < values.len()
                invariant
                    i <= values@.len(),
                    values@ == vals,
                    forall|q: int| 0 <= q < content@.len() ==> #[trigger] content@[q] < 128,
                    line_length <= 70,
                    spec_ppm_emit(vals, 0, 0, true) == content@.skip(row_start.len() as int)
                        + spec_ppm_emit(vals, i as int, line_length as int, is_first_value_on_line),
                    content@.len() >= row_start.len(),
                    content@.subrange(0, row_start.len() as int) == row_start,
                decreases values@.len() - i,
            {
                let ghost i0 = i as int;
                let ghost l0 = line_length as int;
                let ghost f0 = is_first_value_on_line;
                let ghost before = content@;
                let value = values[i];
                let digits = u32_to_decimal(value as u32);
                proof {
                    lemma_decimal_digits_len(value as int);
                }
                if line_length + MAX_COLOR_ELEMENT_LENGTH > PPM_MAX_LINE_LENGTH {
                    content.push(10);
                    line_length = 0;
                    is_first_value_on_line = true;
                }
                if !is_first_value_on_line {
                    content.push(32);
                    line_length = line_length + 1;
                }
                is_first_value_on_line = false;
                let mut digits_to_append = digits;
                let digit_count = digits_to_append.len();
                content.append(&mut digits_to_append);
                line_length = line_length + (digit_count as u64);
                i = i + 1;
                proof {
                    let d = spec_decimal_digits(vals[i0] as int);
                    let chunk = if l0 + 4 > 70 {
                        seq![10u8] + d
                    } else if f0 {
                        d
                    } else {
                        seq![32u8] + d
                    };
                    assert(content@ =~= before + chunk);
                    assert(spec_ppm_emit(vals, i0, l0, f0) == chunk + spec_ppm_emit(
                        vals,
                        i0 + 1,
                        line_length as int,
                        false,
                    ));
                    assert(content@.subrange(0, row_start.len() as int) =~= row_start);
                    assert(content@.skip(row_start.len() as int) =~= before.skip(
                        row_start.len() as int,
                    ) + chunk);
                    assert(spec_ppm_emit(vals, 0, 0, true) =~= content@.skip(
                        row_start.len() as int,
                    ) + spec_ppm_emit(vals, i as int, line_length as int, false));
                }
            }
            proof {
                assert(spec_ppm_emit(
                    vals,
                    i as int,
                    line_length as int,
                    is_first_value_on_line,
                ) =~= Seq::<u8>::empty());
                assert(content@ =~= row_start + spec_ppm_emit(vals, 0, 0, true));
            }
            content.push(10);
            y = y + 1;
            proof {
                assert(content@ =~= header + spec_ppm_rows_upto(*self, y as int));
            }
        }
        proof {
            lemma_ppm_rows_upto_full(*self);
            assert(content@ =~= spec_ppm_bytes(*self));
        }
        ascii_bytes_to_string(content)
    }
}

/// The body rows before row `y`.
pub open spec fn spec_ppm_rows_upto(canvas: Canvas, y: int) -> Seq<u8>
    decreases y,
{
    if y <= 0 {
        Seq::empty()
    } else {
        spec_ppm_rows_upto(canvas, y - 1) + spec_ppm_emit(
            spec_row_values(canvas, y - 1, canvas.width as int),
            0,
            0,
            true,
        ) + seq![10u8]
    }
}

/// Emitting every row is the same, whether counted from the front or the
/// back.
proof fn lemma_ppm_rows_split(canvas: Canvas, y: int)
    requires
        0 <= y <= canvas.height,
    ensures
        spec_ppm_rows_upto(canvas, y) + spec_ppm_rows(canvas, y) == spec_ppm_rows_upto(
            canvas,
            canvas.height as int,
        ),
    decreases canvas.height - y,
{
    if y < canvas.height {
        lemma_ppm_rows_split(canvas, y + 1);
        assert(spec_ppm_rows_upto(canvas, y) + spec_ppm_rows(canvas, y) =~= spec_ppm_rows_upto(
            canvas,
            y + 1,
        ) + spec_ppm_rows(canvas, y + 1));
    } else {
        assert(spec_ppm_rows_upto(canvas, y) + spec_ppm_rows(canvas, y) =~= spec_ppm_rows_upto(
            canvas,
            y,
        ));
    }
}

/// The accumulated rows equal the recursive body definition.
proof fn lemma_ppm_rows_upto_full(canvas: Canvas)
    ensures
        spec_ppm_rows_upto(canvas, canvas.height as int) == spec_ppm_rows(canvas, 0),
{
    lemma_ppm_rows_split(canvas, 0);
    assert(spec_ppm_rows_upto(canvas, 0) + spec_ppm_rows(canvas, 0) =~= spec_ppm_rows(canvas, 0));
}

} // verus!
