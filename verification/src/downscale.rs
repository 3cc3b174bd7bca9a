//! Supersampling downscaler: shrink an oversampled render to its intended
//! resolution with an alpha-correct convolution resize.
//!
//! The canvas stores premultiplied colors (generators write opaque pixels
//! and unwritten pixels are fully transparent black), so the buffer can be
//! resized directly; afterwards the RGB channels are divided by alpha to
//! restore straight-alpha output.  Skipping the premultiplied handling would
//! bleed the transparent pixels' black into the wheel edges.  A
//! supersampling factor of one passes the canvas through byte-identical.

use vstd::prelude::*;

use std::num::NonZeroU32;

use crate::canvas::Canvas;
use crate::render_color_wheel::RenderError;

verus! {

/// The bytes fast_image_resize's Hamming convolution produces when resizing
/// an RGBA8 buffer from the source to the destination dimensions.  The
/// kernel weights are a pure function of the dimensions and bytes; they are
/// not restated here.
pub uninterp spec fn spec_resampled(
    bytes: Seq<u8>,
    src_width: int,
    src_height: int,
    dst_width: int,
    dst_height: int,
) -> Seq<u8>;

/// The bytes fast_image_resize's `MulDiv::divide_alpha_inplace` produces on
/// an RGBA8 buffer: each pixel's RGB channels divided by its alpha channel.
pub uninterp spec fn spec_alpha_divided(bytes: Seq<u8>, width: int, height: int) -> Seq<u8>;

/// Relies on `fast_image_resize::Resizer::resize` with
/// `ResizeAlg::Convolution(FilterType::Hamming)` on `U8x4` images: it fills
/// the destination buffer with the convolution of the source, a function of
/// the source bytes and the two dimensions alone.
#[verifier::external_body]
fn resize_convolution(
    bytes: Vec<u8>,
    src_width: u32,
    src_height: u32,
    dst_width: u32,
    dst_height: u32,
) -> (r: Vec<u8>)
    requires
        bytes@.len() == src_width * src_height * 4,
        1 <= src_width,
        1 <= src_height,
        1 <= dst_width,
        1 <= dst_height,
    ensures
        r@.len() == dst_width * dst_height * 4,
        r@ == spec_resampled(
            bytes@,
            src_width as int,
            src_height as int,
            dst_width as int,
            dst_height as int,
        ),
{
    let sw = NonZeroU32::new(src_width).expect("source width must be positive");
    let sh = NonZeroU32::new(src_height).expect("source height must be positive");
    let dw = NonZeroU32::new(dst_width).expect("destination width must be positive");
    let dh = NonZeroU32::new(dst_height).expect("destination height must be positive");
    let src = fast_image_resize::Image::from_vec_u8(sw, sh, bytes, fast_image_resize::PixelType::U8x4)
        .expect("buffer length matches the source dimensions");
    let mut dst = fast_image_resize::Image::new(dw, dh, fast_image_resize::PixelType::U8x4);
    let mut resizer = fast_image_resize::Resizer::new(
        fast_image_resize::ResizeAlg::Convolution(fast_image_resize::FilterType::Hamming),
    );
    resizer.resize(&src.view(), &mut dst.view_mut()).expect("source and destination share a pixel type");
    dst.into_vec()
}

/// Relies on `fast_image_resize::MulDiv::divide_alpha_inplace` on `U8x4`
/// images: it divides each pixel's RGB channels by its alpha, a function of
/// the buffer and dimensions alone.
#[verifier::external_body]
fn divide_alpha(bytes: Vec<u8>, width: u32, height: u32) -> (r: Vec<u8>)
    requires
        bytes@.len() == width * height * 4,
        1 <= width,
        1 <= height,
    ensures
        r@.len() == bytes@.len(),
        r@ == spec_alpha_divided(bytes@, width as int, height as int),
{
    let w = NonZeroU32::new(width).expect("width must be positive");
    let h = NonZeroU32::new(height).expect("height must be positive");
    let mut image = fast_image_resize::Image::from_vec_u8(w, h, bytes, fast_image_resize::PixelType::U8x4)
        .expect("buffer length matches the dimensions");
    let mul_div = fast_image_resize::MulDiv::default();
    mul_div.divide_alpha_inplace(&mut image.view_mut()).expect("U8x4 supports alpha division");
    image.into_vec()
}

/// The straight-alpha downscaled bytes of a canvas rendered at
/// `supersampling` times its intended resolution.
pub open spec fn spec_downscaled_bytes(canvas: Canvas, supersampling: int) -> Seq<u8> {
    let dst_width = canvas.width as int / supersampling;
    let dst_height = canvas.height as int / supersampling;
    spec_alpha_divided(
        spec_resampled(
            canvas.spec_bytes(),
            canvas.width as int,
            canvas.height as int,
            dst_width,
            dst_height,
        ),
        dst_width,
        dst_height,
    )
}

/// Shrink a supersampled canvas to its final resolution.  A factor of one
/// returns the canvas unchanged, byte for byte.  A factor of zero, or one
/// that leaves no pixels, is a resample error.
pub fn downscale(canvas: Canvas, supersampling: u32) -> (r: Result<Canvas, RenderError>)
    requires
        canvas.wf(),
    ensures
        supersampling == 1 ==> r == Ok::<Canvas, RenderError>(canvas),
        supersampling != 1 && (supersampling == 0 || canvas.width / supersampling == 0
            || canvas.height / supersampling == 0) ==> r == Err::<
            Canvas,
            RenderError,
        >(RenderError::InvalidResampleDimensions),
        supersampling > 1 && canvas.width / supersampling > 0 && canvas.height / supersampling > 0
            ==> {
            &&& r is Ok
            &&& r->Ok_0.wf()
            &&& r->Ok_0.width == canvas.width / supersampling
            &&& r->Ok_0.height == canvas.height / supersampling
            &&& forall|y: int, j: int|
                0 <= y < r->Ok_0.height && 0 <= j < r->Ok_0.width * 4
                    ==> #[trigger] r->Ok_0.rows@[y]@[j] == spec_downscaled_bytes(
                    canvas,
                    supersampling as int,
                )[y * (r->Ok_0.width * 4) + j]
        },
{
    if supersampling == 1 {
        return Ok(canvas);
    }
    if supersampling == 0 {
        return Err(RenderError::InvalidResampleDimensions);
    }
    let dst_width = canvas.width / supersampling;
    let dst_height = canvas.height / supersampling;
    if dst_width == 0 || dst_height == 0 {
        return Err(RenderError::InvalidResampleDimensions);
    }
    proof {
        vstd::arithmetic::div_mod::lemma_div_nonincreasing(
            canvas.width as int,
            supersampling as int,
        );
        vstd::arithmetic::div_mod::lemma_div_nonincreasing(
            canvas.height as int,
            supersampling as int,
        );
    }
    let source_bytes = canvas.data();
    proof {
        lemma_data_is_spec_bytes(canvas, source_bytes@);
    }
    let resized = resize_convolution(source_bytes, canvas.width, canvas.height, dst_width, dst_height);
    let divided = divide_alpha(resized, dst_width, dst_height);
    let result = Canvas::from_data(dst_width, dst_height, divided);
    Ok(result)
}

/// The byte vector `Canvas::data` returns is the canvas's flattened view.
proof fn lemma_data_is_spec_bytes(canvas: Canvas, bytes: Seq<u8>)
    requires
        canvas.wf(),
        bytes.len() == (canvas.width as int) * (canvas.height as int) * 4,
        forall|y: int, j: int|
            0 <= y < canvas.height && 0 <= j < canvas.width * 4 ==> bytes[y * (canvas.width * 4)
                + j] == canvas.rows@[y]@[j],
    ensures
        bytes == canvas.spec_bytes(),
{
    canvas.lemma_spec_bytes_index();
    let stride = canvas.width as int * 4;
    assert forall|k: int| 0 <= k < bytes.len() implies bytes[k] == canvas.spec_bytes()[k] by {
        let y = k / stride;
        let j = k % stride;
        assert(stride >= 1) by {
            if canvas.width == 0 {
                assert(bytes.len() == 0) by (nonlinear_arith)
                    requires
                        bytes.len() == (canvas.width as int) * (canvas.height as int) * 4,
                        canvas.width == 0,
                ;
            }
        };
        vstd::arithmetic::div_mod::lemma_fundamental_div_mod(k, stride);
        vstd::arithmetic::div_mod::lemma_mod_bound(k, stride);
        vstd::arithmetic::div_mod::lemma_div_pos_is_pos(k, stride);
        assert(stride * (canvas.height as int) == (canvas.width as int) * (canvas.height as int)
            * 4 && stride * y == y * stride) by (nonlinear_arith)
            requires
                stride == (canvas.width as int) * 4,
        ;
        vstd::arithmetic::div_mod::lemma_multiply_divide_lt(k, stride, canvas.height as int);
        assert(bytes[y * stride + j] == canvas.rows@[y]@[j]);
    }
    assert(bytes =~= canvas.spec_bytes());
}

} // verus!
