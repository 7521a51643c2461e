//! The compositor: a pixel buffer, the banner fill and the label text.
//!
//! The pixel buffer is `imageproc`'s `ImageBuffer` held opaquely; what it
//! holds is named by [`pix_of`], [`width_of`] and [`height_of`], and the two
//! drawing passes are named by [`poly_filled`] and [`text_drawn`].  The
//! verified code fixes the geometry, the pass order and the colors.

use vstd::prelude::*;
use crate::color::{Color, banner_fill, spec_banner_fill};
use crate::config::Error;
use crate::layout::{BannerLayout, SizePolicy, compute_layout, spec_layout};

verus! {

/// A grid of RGBA pixels, indexed by `(x, y)`.
pub type PixGrid = Map<(int, int), (u8, u8, u8, u8)>;

/// An owned RGBA pixel buffer.
#[verifier::external_body]
pub struct Bitmap {
    buf: imageproc::image::ImageBuffer<imageproc::image::Rgba<u8>, Vec<u8>>,
}

/// The pixels a bitmap holds.
pub uninterp spec fn pix_of(b: Bitmap) -> PixGrid;

/// The width a bitmap was made with.
pub uninterp spec fn width_of(b: Bitmap) -> u32;

/// The height a bitmap was made with.
pub uninterp spec fn height_of(b: Bitmap) -> u32;

/// The data a font was parsed from.
pub uninterp spec fn font_view(f: ab_glyph::FontVec) -> Seq<u8>;

/// Whether a byte sequence parses as a font: `ab_glyph::FontVec::try_from_vec`
/// is deterministic in its input, so success is a function of the bytes.
pub uninterp spec fn font_parses(data: Seq<u8>) -> bool;

/// Whether the text pass runs to completion for this font, origin, scale
/// and text.  `imageproc`'s glyph layout asserts that the summed advances
/// are non-negative (a crafted font with zero advances and negative
/// kerning can fail it), and the glyph placement additions can overflow
/// for an extreme origin or extreme metrics, so totality of the pass is a
/// property of the font's metrics together with the origin, scale and
/// text.
pub uninterp spec fn text_pass_total(
    f: ab_glyph::FontVec,
    x: int,
    y: int,
    scale: int,
    text: Seq<char>,
) -> bool;

/// What `imageproc::drawing::draw_polygon` returns: the pixels with the
/// filled polygon over them, clipped to a canvas of the given dimensions.
pub uninterp spec fn poly_filled(
    pix: PixGrid,
    w: int,
    h: int,
    pts: Seq<(int, int)>,
    color: (u8, u8, u8, u8),
) -> PixGrid;

/// What `imageproc::drawing::draw_text` returns: the pixels with the text
/// rasterized in the font at the given scale and origin, clipped to the
/// canvas.
pub uninterp spec fn text_drawn(
    pix: PixGrid,
    w: int,
    h: int,
    color: (u8, u8, u8, u8),
    x: int,
    y: int,
    scale: int,
    font: Seq<u8>,
    text: Seq<char>,
) -> PixGrid;

#[verifier::external_type_specification]
#[verifier::external_body]
pub struct ExFontVec(ab_glyph::FontVec);

#[verifier::external_type_specification]
#[verifier::external_body]
pub struct ExInvalidFont(ab_glyph::InvalidFont);

/// Relies on `image::ImageBuffer::from_raw`: with exactly `4 * width *
/// height` bytes the buffer is accepted as row-major RGBA rows, four bytes
/// a pixel.
#[verifier::external_body]
fn bitmap_from_raw(width: u32, height: u32, data: Vec<u8>) -> (b: Bitmap)
    requires
        data@.len() == 4 * (width as int) * (height as int),
    ensures
        width_of(b) == width,
        height_of(b) == height,
        forall|x: int, y: int|
            0 <= x < width && 0 <= y < height ==> #[trigger] pix_of(b)[(x, y)] == (
            data@[4 * (y * width + x)],
            data@[4 * (y * width + x) + 1],
            data@[4 * (y * width + x) + 2],
            data@[4 * (y * width + x) + 3],
            ),
{
    Bitmap { buf: imageproc::image::ImageBuffer::from_raw(width, height, data).unwrap() }
}

/// Relies on `image::ImageBuffer::width`.
#[verifier::external_body]
fn bitmap_width(b: &Bitmap) -> (w: u32)
    ensures
        w == width_of(*b),
{
    b.buf.width()
}

/// Relies on `image::ImageBuffer::height`.
#[verifier::external_body]
fn bitmap_height(b: &Bitmap) -> (h: u32)
    ensures
        h == height_of(*b),
{
    b.buf.height()
}

/// Relies on `image::ImageBuffer::get_pixel`, which panics out of bounds,
/// hence the preconditions.
#[verifier::external_body]
fn bitmap_get_pixel(b: &Bitmap, x: u32, y: u32) -> (p: Color)
    requires
        x < width_of(*b),
        y < height_of(*b),
    ensures
        p.rgba() == pix_of(*b)[(x as int, y as int)],
{
    let q = b.buf.get_pixel(x, y);
    Color { r: q.0[0], g: q.0[1], b: q.0[2], a: q.0[3] }
}

/// Relies on `image::ImageBuffer::clone` keeping the dimensions and the
/// pixel data.
#[verifier::external_body]
fn bitmap_duplicate(b: &Bitmap) -> (r: Bitmap)
    ensures
        width_of(r) == width_of(*b),
        height_of(r) == height_of(*b),
        pix_of(r) == pix_of(*b),
{
    Bitmap { buf: b.buf.clone() }
}

/// Relies on `image::ImageBuffer::into_raw` handing back the row-major
/// RGBA bytes the buffer holds, four a pixel.
#[verifier::external_body]
fn bitmap_into_raw(b: Bitmap) -> (r: (u32, u32, Vec<u8>))
    ensures
        r.0 == width_of(b),
        r.1 == height_of(b),
        r.2@.len() == 4 * (r.0 as int) * (r.1 as int),
        forall|x: int, y: int|
            0 <= x < r.0 && 0 <= y < r.1 ==> #[trigger] pix_of(b)[(x, y)] == (
            r.2@[4 * (y * r.0 + x)],
            r.2@[4 * (y * r.0 + x) + 1],
            r.2@[4 * (y * r.0 + x) + 2],
            r.2@[4 * (y * r.0 + x) + 3],
            ),
{
    let (w, h) = (b.buf.width(), b.buf.height());
    (w, h, b.buf.into_raw())
}

/// Relies on `imageproc::drawing::draw_polygon`: returns a copy of the
/// canvas with the axis-aligned rectangle's fill drawn, so the dimensions
/// are kept.  The scanline fill and the edge lines write the fill color to
/// exactly the rectangle's rows and columns (interior rows by the scanline
/// pass between the vertical edges, the top and bottom rows by the
/// horizontal edge lines), so every pixel inside the rectangle takes the
/// color and every row outside it keeps the input's pixels.  A canvas with
/// no rows or columns reaches a clamped out-of-bounds pixel write, and
/// coordinates at the integer limits overflow the line iterator's
/// arithmetic, hence the dimension and coordinate preconditions.
#[verifier::external_body]
fn draw_quad_trusted(b: &Bitmap, left: i32, top: i32, right: i32, bottom: i32, color: Color) -> (r:
    Bitmap)
    requires
        1 <= width_of(*b) <= 0x7fff_ffff,
        1 <= height_of(*b) <= 0x7fff_ffff,
        0 <= left <= right < width_of(*b),
        0 <= top <= bottom < height_of(*b),
    ensures
        width_of(r) == width_of(*b),
        height_of(r) == height_of(*b),
        forall|x: int, y: int|
            left <= x <= right && top <= y <= bottom ==> #[trigger] pix_of(r)[(x, y)]
                == color.rgba(),
        forall|x: int, y: int|
            0 <= x < width_of(*b) && 0 <= y < height_of(*b) && !(top <= y <= bottom)
                ==> #[trigger] pix_of(r)[(x, y)] == pix_of(*b)[(x, y)],
        pix_of(r) == poly_filled(
            pix_of(*b),
            width_of(*b) as int,
            height_of(*b) as int,
            seq![
                (left as int, top as int),
                (right as int, top as int),
                (right as int, bottom as int),
                (left as int, bottom as int),
            ],
            color.rgba(),
        ),
{
    let points = [
        imageproc::point::Point::new(left, top),
        imageproc::point::Point::new(right, top),
        imageproc::point::Point::new(right, bottom),
        imageproc::point::Point::new(left, bottom),
    ];
    let fill = imageproc::image::Rgba([color.r, color.g, color.b, color.a]);
    Bitmap { buf: imageproc::drawing::draw_polygon(&b.buf, &points, fill) }
}

/// Relies on `imageproc::drawing::draw_text`: returns a copy of the canvas
/// with the text rasterized over it, clipped to the canvas, so the
/// dimensions are kept; the result depends on the canvas, color, origin,
/// scale, font data and text alone.  The pass can fail its
/// non-negative-advance assertion on a degenerate font or overflow its
/// glyph placement arithmetic at an extreme origin, so a non-empty text is
/// admitted only where [`text_pass_total`] holds.
#[verifier::external_body]
fn draw_text_trusted(
    b: &Bitmap,
    color: Color,
    x: i32,
    y: i32,
    scale: u32,
    font: &ab_glyph::FontVec,
    text: &str,
) -> (r: Bitmap)
    requires
        text@.len() == 0 || text_pass_total(*font, x as int, y as int, scale as int, text@),
    ensures
        width_of(r) == width_of(*b),
        height_of(r) == height_of(*b),
        pix_of(r) == text_drawn(
            pix_of(*b),
            width_of(*b) as int,
            height_of(*b) as int,
            color.rgba(),
            x as int,
            y as int,
            scale as int,
            font_view(*font),
            text@,
        ),
{
    let px_scale = ab_glyph::PxScale { x: scale as _, y: scale as _ };
    let fill = imageproc::image::Rgba([color.r, color.g, color.b, color.a]);
    Bitmap { buf: imageproc::drawing::draw_text(&b.buf, fill, x, y, px_scale, font, text) }
}

/// Relies on `ab_glyph::FontVec::try_from_vec`: whether the bytes parse is
/// a function of the bytes alone, and a parsed font keeps exactly the
/// bytes it was handed (`as_slice` returns them).  Empty text lays out
/// trivially whatever the font: `imageproc`'s text pass returns before
/// touching any metric.
#[verifier::external_body]
fn font_from_vec_trusted(data: Vec<u8>) -> (r: Result<ab_glyph::FontVec, ab_glyph::InvalidFont>)
    ensures
        r is Ok <==> font_parses(data@),
        r matches Ok(f) ==> font_view(f) == data@,
        r matches Ok(f) ==> forall|x: int, y: int, scale: int, text: Seq<char>|
            text.len() == 0 ==> #[trigger] text_pass_total(f, x, y, scale, text),
{
    ab_glyph::FontVec::try_from_vec(data)
}

impl Bitmap {
    /// Wrap `4 * width * height` row-major RGBA bytes as a bitmap; any
    /// other byte count is refused.
    pub fn new(width: u32, height: u32, data: Vec<u8>) -> (r: Option<Bitmap>)
        ensures
            r matches Some(b) ==> {
                &&& data@.len() == 4 * (width as int) * (height as int)
                &&& width_of(b) == width
                &&& height_of(b) == height
                &&& forall|x: int, y: int|
                    0 <= x < width && 0 <= y < height ==> #[trigger] pix_of(b)[(x, y)] == (
                    data@[4 * (y * width + x)],
                    data@[4 * (y * width + x) + 1],
                    data@[4 * (y * width + x) + 2],
                    data@[4 * (y * width + x) + 3],
                    )
            },
            r is None <==> data@.len() != 4 * (width as int) * (height as int),
    {
        proof {
            assert((width as u128) * (height as u128) <= 0xffff_ffff_ffff_ffff)
                by (nonlinear_arith)
                requires
                    width <= 0xffff_ffffu128,
                    height <= 0xffff_ffffu128,
            ;
        }
        let wh: u128 = (width as u128) * (height as u128);
        let expected: u128 = 4 * wh;
        proof {
            assert(4 * (wh as int) == 4 * (width as int) * (height as int)) by (nonlinear_arith)
                requires
                    (wh as int) == (width as int) * (height as int),
            ;
        }
        if (data.len() as u128) == expected {
            Some(bitmap_from_raw(width, height, data))
        } else {
            None
        }
    }

    /// The width of the bitmap.
    pub fn width(&self) -> (w: u32)
        ensures
            w == width_of(*self),
    {
        bitmap_width(self)
    }

    /// The height of the bitmap.
    pub fn height(&self) -> (h: u32)
        ensures
            h == height_of(*self),
    {
        bitmap_height(self)
    }

    /// The pixel at `(x, y)`.
    pub fn pixel_at(&self, x: u32, y: u32) -> (p: Color)
        requires
            x < width_of(*self),
            y < height_of(*self),
        ensures
            p.rgba() == pix_of(*self)[(x as int, y as int)],
    {
        bitmap_get_pixel(self, x, y)
    }

    /// The bitmap's dimensions and row-major RGBA bytes, four a pixel:
    /// exactly the pixels the bitmap holds, so equal pixel grids hand a
    /// deterministic encoder identical bytes.
    pub fn into_raw(self) -> (r: (u32, u32, Vec<u8>))
        ensures
            r.0 == width_of(self),
            r.1 == height_of(self),
            r.2@.len() == 4 * (r.0 as int) * (r.1 as int),
            forall|x: int, y: int|
                0 <= x < r.0 && 0 <= y < r.1 ==> #[trigger] pix_of(self)[(x, y)] == (
                r.2@[4 * (y * r.0 + x)],
                r.2@[4 * (y * r.0 + x) + 1],
                r.2@[4 * (y * r.0 + x) + 2],
                r.2@[4 * (y * r.0 + x) + 3],
                ),
    {
        bitmap_into_raw(self)
    }
}

/// Parse font bytes into a usable font.  Exactly the byte sequences that
/// parse as a font succeed; any other gives [`Error::FontParse`].
pub fn load_font(data: Vec<u8>) -> (r: Result<ab_glyph::FontVec, Error>)
    ensures
        r is Ok <==> font_parses(data@),
        r matches Ok(f) ==> font_view(f) == data@,
        r matches Ok(f) ==> forall|x: int, y: int, scale: int, text: Seq<char>|
            text.len() == 0 ==> #[trigger] text_pass_total(f, x, y, scale, text),
        r matches Err(e) ==> e is FontParse,
{
    match font_from_vec_trusted(data) {
        Ok(f) => Ok(f),
        Err(_) => Err(Error::FontParse),
    }
}

/// The corner points of a banner rectangle, in drawing order.
pub open spec fn spec_corners(l: BannerLayout) -> Seq<(int, int)> {
    seq![
        (0, l.top as int),
        (l.width - 1, l.top as int),
        (l.width - 1, l.top + l.height - 1),
        (0, l.top + l.height - 1),
    ]
}

/// The pixels after the banner pass: the rectangle's fill where it has any
/// rows and columns, the input unchanged where it has none.  The canvas is
/// `l.width` columns by `h` rows.
pub open spec fn spec_fill_banner(pix: PixGrid, h: int, l: BannerLayout, color: Color) -> PixGrid {
    if l.height >= 1 && l.width >= 1 {
        poly_filled(pix, l.width as int, h, spec_corners(l), color.rgba())
    } else {
        pix
    }
}

/// Does every pixel of the banner rectangle hold the fill color in `pix`?
pub open spec fn banner_painted(pix: PixGrid, l: BannerLayout, color: Color) -> bool {
    forall|x: int, y: int|
        0 <= x < l.width && l.top <= y < l.top + l.height ==> #[trigger] pix[(x, y)]
            == color.rgba()
}

/// Draw the banner rectangle's fill onto a copy of the image.
///
/// A rectangle with no rows or no columns (a very short image under the
/// proportional policy) is skipped rather than drawn, so no input can make
/// the pass fail.  Every pixel inside the rectangle takes the fill color,
/// and rows outside the banner span `top .. top + height` keep the
/// input's pixels.
pub fn fill_banner(img: &Bitmap, layout: &BannerLayout, color: Color) -> (r: Bitmap)
    requires
        width_of(*img) <= 0x7fff_ffff,
        height_of(*img) <= 0x7fff_ffff,
        layout.width == width_of(*img),
        layout.top + layout.height <= height_of(*img),
    ensures
        width_of(r) == width_of(*img),
        height_of(r) == height_of(*img),
        pix_of(r) == spec_fill_banner(pix_of(*img), height_of(*img) as int, *layout, color),
        banner_painted(pix_of(r), *layout, color),
        forall|x: int, y: int|
            0 <= x < width_of(*img) && 0 <= y < height_of(*img) && !(layout.top <= y
                < layout.top + layout.height) ==> #[trigger] pix_of(r)[(x, y)] == pix_of(*img)[(
            x,
            y,
            )],
{
    if layout.height >= 1 && layout.width >= 1 {
        let right: i32 = (layout.width - 1) as i32;
        let bottom: i32 = (layout.top + (layout.height - 1)) as i32;
        draw_quad_trusted(img, 0, layout.top as i32, right, bottom, color)
    } else {
        bitmap_duplicate(img)
    }
}

/// Does the policy's fixed sizes fit the drawing coordinates?  (The
/// proportional policy always does.)
pub open spec fn policy_fits(policy: SizePolicy) -> bool {
    match policy {
        SizePolicy::Proportional => true,
        SizePolicy::Fixed { size, margin } => size <= 0x7fff_ffff && margin <= 0x7fff_ffff,
    }
}

/// The whole compositor as a function of its inputs: the banner pass, then
/// the text pass, with the geometry of [`spec_layout`], the banner filled
/// with [`spec_banner_fill`] and the text drawn in `text_color`.
pub open spec fn spec_annotate(
    pix: PixGrid,
    w: int,
    h: int,
    font: Seq<u8>,
    text: Seq<char>,
    text_color: Color,
    policy: SizePolicy,
) -> PixGrid {
    let l = spec_layout(w, h, policy);
    let filled = spec_fill_banner(pix, h, l, spec_banner_fill());
    text_drawn(
        filled,
        w,
        h,
        text_color.rgba(),
        l.text_x as int,
        l.text_y as int,
        l.label_size as int,
        font,
        text,
    )
}

/// Produce a fresh image with the banner strip drawn, then the label text
/// rasterized on top of it.
///
/// The result has the input's dimensions, and its pixels are exactly
/// [`spec_annotate`] of the input's pixels, the font data, the label and
/// the configuration; the banner pass paints its whole rectangle with the
/// fill color before the text goes on top.  A non-empty label needs a
/// font whose text pass completes at the computed origin and label size
/// ([`text_pass_total`]): nothing executable can test that of a font, so
/// a caller answers for its font — the shipped font's metrics are part of
/// the application's trust.  An empty label is safe with any parsed font.
pub fn annotate(
    img: &Bitmap,
    font: &ab_glyph::FontVec,
    label: &str,
    text_color: Color,
    policy: SizePolicy,
) -> (out: Bitmap)
    requires
        width_of(*img) <= 0x7fff_ffff,
        height_of(*img) <= 0x7fff_ffff,
        policy_fits(policy),
        label@.len() == 0 || text_pass_total(
            *font,
            spec_layout(width_of(*img) as int, height_of(*img) as int, policy).text_x as int,
            spec_layout(width_of(*img) as int, height_of(*img) as int, policy).text_y as int,
            spec_layout(width_of(*img) as int, height_of(*img) as int, policy).label_size as int,
            label@,
        ),
    ensures
        width_of(out) == width_of(*img),
        height_of(out) == height_of(*img),
        pix_of(out) == spec_annotate(
            pix_of(*img),
            width_of(*img) as int,
            height_of(*img) as int,
            font_view(*font),
            label@,
            text_color,
            policy,
        ),
        banner_painted(
            spec_fill_banner(
                pix_of(*img),
                height_of(*img) as int,
                spec_layout(width_of(*img) as int, height_of(*img) as int, policy),
                spec_banner_fill(),
            ),
            spec_layout(width_of(*img) as int, height_of(*img) as int, policy),
            spec_banner_fill(),
        ),
{
    let w = img.width();
    let h = img.height();
    let layout = compute_layout(w, h, policy);
    let filled = fill_banner(img, &layout, banner_fill());
    draw_text_trusted(
        &filled,
        text_color,
        layout.text_x as i32,
        layout.text_y as i32,
        layout.label_size,
        font,
        label,
    )
}

/// The compositor is deterministic: two runs over the same pixels,
/// dimensions, font data, label and configuration produce the same pixels,
/// so with a deterministic encoder the tool's output is byte-identical
/// across runs.
pub proof fn lemma_annotate_deterministic(
    pix: PixGrid,
    w: int,
    h: int,
    font: Seq<u8>,
    text: Seq<char>,
    text_color: Color,
    policy: SizePolicy,
    out1: PixGrid,
    out2: PixGrid,
)
    requires
        out1 == spec_annotate(pix, w, h, font, text, text_color, policy),
        out2 == spec_annotate(pix, w, h, font, text, text_color, policy),
    ensures
        out1 == out2,
{
}

} // verus!
