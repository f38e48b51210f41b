//! The image that a render fills: an RGB image buffer of `image`.

use vstd::prelude::*;

verus! {

/// An 8-bit RGB image, held in an `image::RgbImage`. The verifier sees it
/// through `canvas_size` and `canvas_bytes` alone.
#[verifier::external_body]
pub struct Canvas {
    img: image::RgbImage,
}

/// Width and height of the image, in pixels: what
/// `image::ImageBuffer::dimensions` gives.
pub uninterp spec fn canvas_size(c: Canvas) -> (nat, nat);

/// The bytes of the image, as `image::ImageBuffer::as_raw` shows them: row
/// after row from the top, pixel after pixel from the left, and red, green,
/// blue within a pixel.
pub uninterp spec fn canvas_bytes(c: Canvas) -> Seq<u8>;

/// Where the red byte of pixel `(x, y)` stands in an image `width` wide.
pub open spec fn pixel_offset(width: nat, x: nat, y: nat) -> int {
    (3 * (y * width + x)) as int
}

/// `image::ImageBuffer::new` for `Rgb<u8>` pixels: a buffer of
/// `3 * width * height` zero bytes with the given size. The outside
/// function panics where that length exceeds what a vector can hold.
#[verifier::external_body]
fn image_new(width: u32, height: u32) -> (c: Canvas)
    requires
        3 * width * height <= isize::MAX,
    ensures
        canvas_size(c) == (width as nat, height as nat),
        canvas_bytes(c) == Seq::new((3 * width * height) as nat, |i: int| 0u8),
{
    Canvas { img: image::ImageBuffer::new(width, height) }
}

/// `image::ImageBuffer::put_pixel` for `Rgb<u8>` pixels: the three bytes of
/// pixel `(x, y)` become `px`, and nothing else changes. The outside
/// function panics where `(x, y)` is out of bounds.
#[verifier::external_body]
fn image_put_pixel(c: &mut Canvas, x: u32, y: u32, px: (u8, u8, u8))
    requires
        x < canvas_size(*old(c)).0,
        y < canvas_size(*old(c)).1,
    ensures
        canvas_size(*final(c)) == canvas_size(*old(c)),
        canvas_bytes(*final(c)) == canvas_bytes(*old(c)).update(
            pixel_offset(canvas_size(*old(c)).0, x as nat, y as nat),
            px.0,
        ).update(pixel_offset(canvas_size(*old(c)).0, x as nat, y as nat) + 1, px.1).update(
            pixel_offset(canvas_size(*old(c)).0, x as nat, y as nat) + 2,
            px.2,
        ),
{
    c.img.put_pixel(x, y, image::Rgb([px.0, px.1, px.2]))
}

/// `image::ImageBuffer::into_raw`: the bytes of the image.
#[verifier::external_body]
fn image_into_raw(c: Canvas) -> (v: Vec<u8>)
    ensures
        v@ == canvas_bytes(c),
{
    c.img.into_raw()
}

impl Canvas {
    /// Whether the bytes are those of an image of the recorded size.
    pub open spec fn wf(self) -> bool {
        canvas_bytes(self).len() == 3 * canvas_size(self).0 * canvas_size(self).1
    }

    /// The three bytes of pixel `(x, y)`.
    pub open spec fn spec_pixel(self, x: nat, y: nat) -> (u8, u8, u8) {
        let at = pixel_offset(canvas_size(self).0, x, y);
        (canvas_bytes(self)[at], canvas_bytes(self)[at + 1], canvas_bytes(self)[at + 2])
    }

    /// A black image of the given size.
    pub fn new(width: u32, height: u32) -> (c: Canvas)
        requires
            3 * width * height <= isize::MAX,
        ensures
            c.wf(),
            canvas_size(c) == (width as nat, height as nat),
            forall|x: nat, y: nat| x < width && y < height ==> c.spec_pixel(x, y) == (0u8, 0u8, 0u8),
    {
        let c = image_new(width, height);
        assert forall|x: nat, y: nat| x < width && y < height implies c.spec_pixel(x, y) == (
            0u8,
            0u8,
            0u8,
        ) by {
            lemma_pixel_in_bounds(width as nat, height as nat, x, y);
        }
        c
    }

    /// Sets pixel `(x, y)` and leaves every other pixel as it was.
    pub fn put_pixel(&mut self, x: u32, y: u32, px: (u8, u8, u8))
        requires
            old(self).wf(),
            x < canvas_size(*old(self)).0,
            y < canvas_size(*old(self)).1,
        ensures
            final(self).wf(),
            canvas_size(*final(self)) == canvas_size(*old(self)),
            final(self).spec_pixel(x as nat, y as nat) == px,
            forall|x2: nat, y2: nat|
                x2 < canvas_size(*old(self)).0 && y2 < canvas_size(*old(self)).1 && (x2 != x || y2
                    != y) ==> final(self).spec_pixel(x2, y2) == old(self).spec_pixel(x2, y2),
    {
        let ghost width = canvas_size(*self).0;
        let ghost height = canvas_size(*self).1;
        proof {
            lemma_pixel_in_bounds(width, height, x as nat, y as nat);
        }
        image_put_pixel(self, x, y, px);
        assert forall|x2: nat, y2: nat|
            x2 < width && y2 < height && (x2 != x || y2 != y) implies self.spec_pixel(x2, y2)
            == old(self).spec_pixel(x2, y2) by {
            lemma_pixel_in_bounds(width, height, x2, y2);
            lemma_pixels_apart(width, x as nat, y as nat, x2, y2);
        }
    }

    /// The bytes of the image, row after row from the top.
    pub fn into_raw(self) -> (v: Vec<u8>)
        ensures
            v@ == canvas_bytes(self),
    {
        image_into_raw(self)
    }
}

/// The bytes of a pixel within the image lie within its buffer.
pub proof fn lemma_pixel_in_bounds(width: nat, height: nat, x: nat, y: nat)
    requires
        x < width,
        y < height,
    ensures
        0 <= pixel_offset(width, x, y),
        pixel_offset(width, x, y) + 3 <= 3 * width * height,
{
    assert(y * width + x < width * height) by (nonlinear_arith)
        requires
            x < width,
            y < height,
    ;
    assert(3 * (width * height) == 3 * width * height) by (nonlinear_arith);
}

/// Two different pixels of one image share no byte.
pub proof fn lemma_pixels_apart(width: nat, x: nat, y: nat, x2: nat, y2: nat)
    requires
        x < width,
        x2 < width,
        x != x2 || y != y2,
    ensures
        pixel_offset(width, x, y) + 3 <= pixel_offset(width, x2, y2) || pixel_offset(
            width,
            x2,
            y2,
        ) + 3 <= pixel_offset(width, x, y),
{
    assert(y * width + x != y2 * width + x2) by (nonlinear_arith)
        requires
            x < width,
            x2 < width,
            x != x2 || y != y2,
    {
        if y < y2 {
            assert((y + 1) * width <= y2 * width);
        } else if y2 < y {
            assert((y2 + 1) * width <= y * width);
        }
    }
}

} // verus!
