use vstd::prelude::*;

verus! {

/// A dense, row-major RGBA image with 8 bits per channel, kept in the
/// `image` crate's buffer. What it holds is seen through `rgba_bytes`,
/// `rgba_width` and `rgba_height`.
#[verifier::external_body]
pub struct PixelImage {
    inner: image::RgbaImage,
}

/// The `image` crate's error type, carried as an opaque value.
#[verifier::external_type_specification]
#[verifier::external_body]
pub struct ExImageError(image::ImageError);

/// Bytes per pixel of the 4-channel, 8-bit-per-channel layout.
pub const CHANNELS: usize = 4;

/// The samples an image holds, row-major, four bytes per pixel.
pub uninterp spec fn rgba_bytes(img: PixelImage) -> Seq<u8>;

/// The width of an image, in pixels.
pub uninterp spec fn rgba_width(img: PixelImage) -> u32;

/// The height of an image, in pixels.
pub uninterp spec fn rgba_height(img: PixelImage) -> u32;

/// The byte at column byte `j` of row `y` of a buffer whose rows are `stride`
/// bytes apart.
pub open spec fn byte_at(data: Seq<u8>, stride: int, y: int, j: int) -> u8 {
    data[y * stride + j]
}

/// The byte of an image at column byte `j` of row `y`.
pub open spec fn img_byte(img: PixelImage, y: int, j: int) -> u8 {
    byte_at(rgba_bytes(img), rgba_width(img) as int * 4, y, j)
}

/// Whether column byte `j` of row `yy` lies in the `w` by `h` pixel
/// rectangle whose top-left corner is at pixel (`x`, `y`).
pub open spec fn in_rect(x: u32, y: u32, w: u32, h: u32, yy: int, j: int) -> bool {
    &&& y <= yy < y as int + h as int
    &&& x as int * 4 <= j < (x as int + w as int) * 4
}

/// Relies on `ImageBuffer::from_raw`: an image is made iff `4 * width`
/// fits in `usize` (it is computed first, with a checked multiply) and the
/// buffer holds at least `width * height` RGBA pixels; the buffer is then
/// kept as is.
#[verifier::external_body]
fn image_from_raw(width: u32, height: u32, data: Vec<u8>) -> (r: Option<PixelImage>)
    ensures
        r is Some <==> (width as int * 4 <= usize::MAX && width as int * height as int * 4
            <= data@.len()),
        r matches Some(img) ==> rgba_width(img) == width && rgba_height(img) == height
            && rgba_bytes(img) == data@,
{
    image::RgbaImage::from_raw(width, height, data).map(|inner| PixelImage { inner })
}

/// Relies on `ImageBuffer::new`: a zeroed image of the given size. It panics
/// when `4 * width`, or the buffer length, overflows `usize`.
#[verifier::external_body]
fn image_new(width: u32, height: u32) -> (r: PixelImage)
    requires
        width as int * 4 <= usize::MAX,
        width as int * height as int * 4 <= usize::MAX,
    ensures
        rgba_width(r) == width,
        rgba_height(r) == height,
        rgba_bytes(r).len() == width as int * height as int * 4,
        forall|i: int| 0 <= i < rgba_bytes(r).len() ==> #[trigger] rgba_bytes(r)[i] == 0u8,
{
    PixelImage { inner: image::RgbaImage::new(width, height) }
}

/// Relies on `GenericImage::copy_from` (not overridden by `ImageBuffer`):
/// fails, changing nothing, unless `src` placed with its top-left corner at
/// (`x`, `y`) fits inside `dst`; otherwise overwrites exactly that rectangle
/// with `src`'s pixels. The sums `x + width` and `y + height` must not
/// overflow.
#[verifier::external_body]
fn image_copy_from(dst: &mut PixelImage, src: &PixelImage, x: u32, y: u32) -> (r: Result<
    (),
    image::ImageError,
>)
    requires
        rgba_width(*src) as int + x as int <= u32::MAX,
        rgba_height(*src) as int + y as int <= u32::MAX,
    ensures
        r is Ok <==> (rgba_width(*src) as int + x as int <= rgba_width(*old(dst))
            && rgba_height(*src) as int + y as int <= rgba_height(*old(dst))),
        r is Err ==> *final(dst) == *old(dst),
        rgba_width(*final(dst)) == rgba_width(*old(dst)),
        rgba_height(*final(dst)) == rgba_height(*old(dst)),
        rgba_bytes(*final(dst)).len() == rgba_bytes(*old(dst)).len(),
        r is Ok ==> forall|yy: int, j: int|
            0 <= yy < rgba_height(*old(dst)) && 0 <= j < rgba_width(*old(dst)) as int * 4
                ==> #[trigger] img_byte(*final(dst), yy, j) == if in_rect(
                x,
                y,
                rgba_width(*src),
                rgba_height(*src),
                yy,
                j,
            ) {
                img_byte(*src, yy - y, j - x as int * 4)
            } else {
                img_byte(*old(dst), yy, j)
            },
{
    image::GenericImage::copy_from(&mut dst.inner, &src.inner, x, y)
}

impl PixelImage {
    /// Wraps a raw RGBA buffer; fails unless a row's byte count fits in
    /// `usize` and the buffer holds at least `width * height` pixels. A
    /// longer buffer is kept whole.
    pub fn from_raw(width: u32, height: u32, data: Vec<u8>) -> (r: Option<PixelImage>)
        ensures
            r is Some <==> (width as int * 4 <= usize::MAX && width as int * height as int * 4
                <= data@.len()),
            r matches Some(img) ==> rgba_width(img) == width && rgba_height(img) == height
                && rgba_bytes(img) == data@,
    {
        image_from_raw(width, height, data)
    }

    /// The image's width, in pixels.
    pub fn width(&self) -> (r: u32)
        ensures
            r == rgba_width(*self),
    {
        image_width(self)
    }

    /// The image's height, in pixels.
    pub fn height(&self) -> (r: u32)
        ensures
            r == rgba_height(*self),
    {
        image_height(self)
    }

    /// The image's samples, row-major, four bytes per pixel.
    pub fn into_raw(self) -> (r: Vec<u8>)
        ensures
            r@ == rgba_bytes(self),
    {
        image_into_raw(self)
    }
}

/// Relies on `ImageBuffer::into_raw`: hands back the buffer the image holds.
#[verifier::external_body]
fn image_into_raw(img: PixelImage) -> (r: Vec<u8>)
    ensures
        r@ == rgba_bytes(img),
{
    img.inner.into_raw()
}

/// Relies on `ImageBuffer::width`.
#[verifier::external_body]
fn image_width(img: &PixelImage) -> (r: u32)
    ensures
        r == rgba_width(*img),
{
    img.inner.width()
}

/// Relies on `ImageBuffer::height`.
#[verifier::external_body]
fn image_height(img: &PixelImage) -> (r: u32)
    ensures
        r == rgba_height(*img),
{
    img.inner.height()
}

/// Copies the first `width * 4` bytes of each of `height` rows, laid out
/// `row_pitch` bytes apart, into a dense image.
pub fn extract_rows(data: &[u8], row_pitch: usize, width: u32, height: u32) -> (r: PixelImage)
    requires
        width as int * 4 <= row_pitch,
        data@.len() == row_pitch as int * height as int,
    ensures
        rgba_width(r) == width,
        rgba_height(r) == height,
        rgba_bytes(r).len() == width as int * height as int * 4,
        forall|y: int, j: int|
            0 <= y < height && 0 <= j < width as int * 4 ==> #[trigger] img_byte(r, y, j)
                == byte_at(data@, row_pitch as int, y, j),
{
    let w4: usize = width as usize * CHANNELS;
    let h: usize = height as usize;
    let total: usize = data.len();
    let mut out: Vec<u8> = Vec::new();
    let mut y: usize = 0;
    while y < h
        invariant
            w4 == width as int * 4,
            h == height,
            w4 <= row_pitch,
            data@.len() == row_pitch as int * h,
            total == data@.len(),
            y <= h,
            out@.len() == y as int * w4,
            forall|yy: int, j: int|
                0 <= yy < y && 0 <= j < w4 ==> #[trigger] byte_at(out@, w4 as int, yy, j)
                    == byte_at(data@, row_pitch as int, yy, j),
        decreases h - y,
    {
        assert(y * row_pitch + row_pitch <= h * row_pitch) by (nonlinear_arith)
            requires
                y < h,
        ;
        let base: usize = y * row_pitch;
        let mut j: usize = 0;
        while j < w4
            invariant
                w4 == width as int * 4,
                h == height,
                w4 <= row_pitch,
                data@.len() == row_pitch as int * h,
                y < h,
                base == y * row_pitch,
                base + row_pitch <= data@.len(),
                total == data@.len(),
                j <= w4,
                out@.len() == y as int * w4 + j,
                forall|yy: int, jj: int|
                    0 <= yy < y && 0 <= jj < w4 ==> #[trigger] byte_at(out@, w4 as int, yy, jj)
                        == byte_at(data@, row_pitch as int, yy, jj),
                forall|jj: int|
                    0 <= jj < j ==> out@[y * w4 + jj] == #[trigger] data@[base + jj],
            decreases w4 - j,
        {
            let ghost prev = out@;
            out.push(data[base + j]);
            assert forall|yy: int, jj: int|
                0 <= yy < y && 0 <= jj < w4 implies #[trigger] byte_at(out@, w4 as int, yy, jj)
                == byte_at(data@, row_pitch as int, yy, jj) by {
                assert(yy * w4 + jj < y * w4) by (nonlinear_arith)
                    requires
                        yy < y,
                        jj < w4,
                ;
                assert(byte_at(prev, w4 as int, yy, jj) == byte_at(
                    data@,
                    row_pitch as int,
                    yy,
                    jj,
                ));
            }
            j = j + 1;
        }
        assert(out@.len() == (y + 1) as int * w4) by (nonlinear_arith)
            requires
                out@.len() == y as int * w4 + w4,
        ;
        assert forall|yy: int, jj: int|
            0 <= yy < y + 1 && 0 <= jj < w4 implies #[trigger] byte_at(out@, w4 as int, yy, jj)
            == byte_at(data@, row_pitch as int, yy, jj) by {
            if yy == y {
                assert(out@[y * w4 + jj] == data@[base + jj]);
            }
        }
        y = y + 1;
    }
    assert(out@.len() == width as int * height as int * 4) by (nonlinear_arith)
        requires
            out@.len() == y as int * w4,
            y == height,
            w4 == width as int * 4,
    ;
    match image_from_raw(width, height, out) {
        Some(img) => img,
        None => {
            proof {
                assert(false);
            }
            image_new(0, 0)
        },
    }
}

/// The byte of a side-by-side composite at column byte `j` of row `y`: the
/// left image's bytes first, then the right image's, zero outside either.
pub open spec fn composite_byte(left: PixelImage, right: PixelImage, y: int, j: int) -> u8 {
    let lw = rgba_width(left) as int * 4;
    if j < lw {
        if y < rgba_height(left) as int {
            img_byte(left, y, j)
        } else {
            0
        }
    } else {
        if y < rgba_height(right) as int {
            img_byte(right, y, j - lw)
        } else {
            0
        }
    }
}

pub open spec fn max_u32(a: u32, b: u32) -> u32 {
    if a >= b {
        a
    } else {
        b
    }
}

/// Places `left` and `right` side by side in one image as wide as both
/// together and as tall as the taller one; what neither covers is zero.
pub fn compose_side_by_side(left: &PixelImage, right: &PixelImage) -> (r: PixelImage)
    requires
        rgba_width(*left) as int + rgba_width(*right) as int <= u32::MAX,
        (rgba_width(*left) as int + rgba_width(*right) as int) * 4 <= usize::MAX,
        (rgba_width(*left) as int + rgba_width(*right) as int) * max_u32(
            rgba_height(*left),
            rgba_height(*right),
        ) as int * 4 <= usize::MAX,
    ensures
        rgba_width(r) == rgba_width(*left) + rgba_width(*right),
        rgba_height(r) == max_u32(rgba_height(*left), rgba_height(*right)),
        rgba_bytes(r).len() == rgba_width(r) as int * rgba_height(r) as int * 4,
        forall|y: int, j: int|
            0 <= y < rgba_height(r) && 0 <= j < rgba_width(r) as int * 4 ==> #[trigger] img_byte(
                r,
                y,
                j,
            ) == composite_byte(*left, *right, y, j),
{
    let lw: u32 = image_width(left);
    let lh: u32 = image_height(left);
    let rw: u32 = image_width(right);
    let rh: u32 = image_height(right);
    let width: u32 = lw + rw;
    let height: u32 = if lh >= rh {
        lh
    } else {
        rh
    };
    let mut out = image_new(width, height);
    let ghost blank = out;
    assert forall|y: int, j: int| 0 <= y < height && 0 <= j < width as int * 4 implies #[trigger] img_byte(
        blank,
        y,
        j,
    ) == 0u8 by {
        assert(0 <= y * (width as int * 4) + j < width as int * height as int * 4) by (nonlinear_arith)
            requires
                0 <= y < height,
                0 <= j < width as int * 4,
        ;
    }
    let first = image_copy_from(&mut out, left, 0, 0);
    assert(first is Ok);
    let ghost mid = out;
    let second = image_copy_from(&mut out, right, lw, 0);
    assert(second is Ok);
    assert forall|y: int, j: int| 0 <= y < height && 0 <= j < width as int * 4 implies #[trigger] img_byte(
        out,
        y,
        j,
    ) == composite_byte(*left, *right, y, j) by {
        assert(img_byte(out, y, j) == if in_rect(lw, 0, rw, rh, y, j) {
            img_byte(*right, y, j - lw as int * 4)
        } else {
            img_byte(mid, y, j)
        });
        assert(img_byte(mid, y, j) == if in_rect(0, 0, lw, lh, y, j) {
            img_byte(*left, y, j)
        } else {
            img_byte(blank, y, j)
        });
    }
    out
}

/// Composes the two eyes side by side (see `compose_side_by_side`), or gives
/// `None` when the composite's width would not fit in `u32` or its buffer
/// would not fit in memory.
pub fn try_compose_side_by_side(left: &PixelImage, right: &PixelImage) -> (r: Option<PixelImage>)
    ensures
        r is Some <==> (rgba_width(*left) as int + rgba_width(*right) as int <= u32::MAX && (
        rgba_width(*left) as int + rgba_width(*right) as int) * 4 <= usize::MAX && (
        rgba_width(*left) as int + rgba_width(*right) as int) * max_u32(
            rgba_height(*left),
            rgba_height(*right),
        ) as int * 4 <= usize::MAX),
        r matches Some(img) ==> {
            &&& rgba_width(img) == rgba_width(*left) + rgba_width(*right)
            &&& rgba_height(img) == max_u32(rgba_height(*left), rgba_height(*right))
            &&& rgba_bytes(img).len() == rgba_width(img) as int * rgba_height(img) as int * 4
            &&& forall|y: int, j: int|
                0 <= y < rgba_height(img) && 0 <= j < rgba_width(img) as int * 4
                    ==> #[trigger] img_byte(img, y, j) == composite_byte(*left, *right, y, j)
        },
{
    let width: u64 = image_width(left) as u64 + image_width(right) as u64;
    let lh: u32 = image_height(left);
    let rh: u32 = image_height(right);
    let height: u64 = if lh >= rh {
        lh as u64
    } else {
        rh as u64
    };
    if width > u32::MAX as u64 {
        return None;
    }
    if width as u128 * 4 > usize::MAX as u128 {
        return None;
    }
    assert(width as int * height as int * 4 <= 0xffff_ffff_ffff_ffff_ffff_ffff_ffff_ffff)
        by (nonlinear_arith)
        requires
            width <= 0xffff_ffff,
            height <= 0xffff_ffff,
    ;
    let size: u128 = width as u128 * height as u128 * 4;
    if size > usize::MAX as u128 {
        return None;
    }
    Some(compose_side_by_side(left, right))
}

} // verus!
