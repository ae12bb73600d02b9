//! Cover art: which records need a thumbnail, how one is made from a
//! picture, and where it goes once made. Each record's thumbnail is its own
//! affair; one that cannot be made leaves the others as they are.
//!
//! Fetching a cover and decoding its bytes is the caller's part. The library
//! takes the decoded picture, cuts it to a square and writes the square as
//! PNG.

use vstd::prelude::*;
use crate::api::{MetadataResult, MetadataView};

verus! {

/// The side of the thumbnails shown beside search results, in pixels.
pub const RESULT_THUMBNAIL_SIDE: u32 = 50;

/// The side of the thumbnails shown in the file list, in pixels.
pub const FILE_THUMBNAIL_SIDE: u32 = 40;

/// The largest width or height, in pixels, that a picture and what it is
/// scaled to may have. The picture library reckons pixel positions in single
/// precision; up to this size they are exact with room to spare, so that
/// every pixel of the scaled picture gets its share of the old ones.
pub const MAX_EXTENT: u32 = 65535;

/// A decoded picture: rows of pixels from the top, four bytes to a pixel
/// (red, green, blue, alpha).
#[derive(Debug, Clone, PartialEq, Eq)]
pub struct Raster {
    pub width: u32,
    pub height: u32,
    pub pixels: Vec<u8>,
}

/// A picture as plain values: its width, its height and its pixels.
pub type Picture = (u32, u32, Seq<u8>);

impl View for Raster {
    type V = Picture;

    open spec fn view(&self) -> Picture {
        (self.width, self.height, self.pixels@)
    }
}

/// A picture that may be missing, as plain values.
pub open spec fn picture_of(raster: Option<Raster>) -> Option<Picture> {
    match raster {
        Some(found) => Some(found@),
        None => None,
    }
}

/// Bytes that may be missing, as plain values.
pub open spec fn bytes_of(bytes: Option<Vec<u8>>) -> Option<Seq<u8>> {
    match bytes {
        Some(found) => Some(found@),
        None => None,
    }
}

/// No less than the width a picture has once it is scaled, keeping its
/// proportions, until it covers a square of `side` pixels: the side itself
/// for a picture that is higher than wide, and the width scaled as the
/// height is, rounded up, for the others.
pub open spec fn scaled_width(width: u32, height: u32, side: u32) -> int {
    if width >= height && height > 0 {
        (width * side + height - 1) / (height as int)
    } else {
        side as int
    }
}

/// No less than the height a picture has once it is scaled until it covers
/// a square of `side` pixels.
pub open spec fn scaled_height(width: u32, height: u32, side: u32) -> int {
    if width >= height || width == 0 {
        side as int
    } else {
        (height * side + width - 1) / (width as int)
    }
}

/// Whether a picture of this size can be cut down to a square of `side`
/// pixels: nothing is empty; the picture and what it is scaled to are no
/// larger than [`MAX_EXTENT`] either way; and the scaled picture, four bytes
/// to a pixel, and the picture scaled in its height only, sixteen bytes to a
/// pixel, are no larger than the machine lets one piece of memory be.
pub open spec fn can_fill(width: u32, height: u32, side: u32) -> bool {
    &&& 0 < side <= MAX_EXTENT
    &&& 0 < width <= MAX_EXTENT
    &&& 0 < height <= MAX_EXTENT
    &&& scaled_width(width, height, side) <= MAX_EXTENT
    &&& scaled_height(width, height, side) <= MAX_EXTENT
    &&& 16 * width * scaled_height(width, height, side) <= isize::MAX
    &&& 4 * scaled_width(width, height, side) * scaled_height(width, height, side) <= isize::MAX
}

/// What `image::DynamicImage::resize_to_fill` with the triangle filter makes
/// of an eight-bit RGBA picture for a square of `side` pixels, or `None`
/// where the pixels are fewer than the picture's size asks for.
pub uninterp spec fn filled_picture(width: u32, height: u32, pixels: Seq<u8>, side: u32) -> Option<
    Picture,
>;

/// The PNG file that `image::DynamicImage::write_to` writes for an eight-bit
/// RGBA picture, or `None` where it refuses the picture or the pixels are
/// fewer than the picture's size asks for.
pub uninterp spec fn png_encoding(width: u32, height: u32, pixels: Seq<u8>) -> Option<Seq<u8>>;

/// Whether a picture is a square of `side` pixels with all its pixels there.
pub open spec fn is_square(picture: Picture, side: u32) -> bool {
    picture.0 == side && picture.1 == side && picture.2.len() == 4 * side * side
}

/// Calls `image::DynamicImage::resize_to_fill` with the triangle filter: the
/// picture is scaled, keeping its proportions, until it covers a square of
/// `side` pixels, and cut to that square around its middle. `None` where the
/// pixels handed in are fewer than the picture's size asks for. The result
/// depends on the picture and the side alone. Where [`can_fill`] holds the
/// scaled picture is no smaller than the square either way, so the cut
/// gives the whole square.
#[verifier::external_body]
fn resize_to_fill(raster: Raster, side: u32) -> (filled: Option<Raster>)
    requires
        can_fill(raster.width, raster.height, side),
    ensures
        picture_of(filled) == filled_picture(raster.width, raster.height, raster.pixels@, side),
        filled matches Some(square) ==> is_square(square@, side),
{
    let source = image::RgbaImage::from_raw(raster.width, raster.height, raster.pixels)?;
    let filled = image::DynamicImage::ImageRgba8(source).resize_to_fill(
        side,
        side,
        image::imageops::FilterType::Triangle,
    ).into_rgba8();
    Some(Raster { width: filled.width(), height: filled.height(), pixels: filled.into_raw() })
}

/// Calls `image::DynamicImage::write_to` for the PNG format. `None` where
/// the encoder refuses the picture, or the pixels handed in are fewer than
/// the picture's size asks for. The file depends on the picture alone.
#[verifier::external_body]
fn encode_png(raster: Raster) -> (png: Option<Vec<u8>>)
    requires
        raster.width > 0,
        raster.height > 0,
    ensures
        bytes_of(png) == png_encoding(raster.width, raster.height, raster.pixels@),
{
    let source = image::RgbaImage::from_raw(raster.width, raster.height, raster.pixels)?;
    let mut out = std::io::Cursor::new(Vec::new());
    image::DynamicImage::ImageRgba8(source).write_to(&mut out, image::ImageOutputFormat::Png).ok()?;
    Some(out.into_inner())
}

/// Whether a picture of this size can be cut down to a square of `side`
/// pixels.
pub fn fits(width: u32, height: u32, side: u32) -> (ok: bool)
    ensures
        ok == can_fill(width, height, side),
{
    if side == 0 || width == 0 || height == 0 {
        return false;
    }
    if side > MAX_EXTENT || width > MAX_EXTENT || height > MAX_EXTENT {
        return false;
    }
    let wide: u64 = width as u64;
    let high: u64 = height as u64;
    let edge: u64 = side as u64;
    assert(wide * edge <= 65535 * 65535 && high * edge <= 65535 * 65535) by (nonlinear_arith)
        requires
            wide <= 65535,
            high <= 65535,
            edge <= 65535,
    ;
    let scaled_wide: u64 = if wide >= high {
        (wide * edge + high - 1) / high
    } else {
        edge
    };
    let scaled_high: u64 = if wide >= high {
        edge
    } else {
        (high * edge + wide - 1) / wide
    };
    assert(scaled_wide == scaled_width(width, height, side));
    assert(scaled_high == scaled_height(width, height, side));
    if scaled_wide > MAX_EXTENT as u64 || scaled_high > MAX_EXTENT as u64 {
        return false;
    }
    assert(wide * scaled_high <= 65535 * 65535 && scaled_wide * scaled_high <= 65535 * 65535)
        by (nonlinear_arith)
        requires
            wide <= 65535,
            scaled_wide <= 65535,
            scaled_high <= 65535,
    ;
    let limit: u128 = isize::MAX as u128;
    let half_scaled: u128 = 16 * (wide * scaled_high) as u128;
    let scaled: u128 = 4 * (scaled_wide * scaled_high) as u128;
    assert(16 * width * scaled_height(width, height, side) == half_scaled) by (nonlinear_arith)
        requires
            half_scaled == 16 * (wide * scaled_high),
            wide == width,
            scaled_high == scaled_height(width, height, side),
    ;
    assert(4 * scaled_width(width, height, side) * scaled_height(width, height, side) == scaled)
        by (nonlinear_arith)
        requires
            scaled == 4 * (scaled_wide * scaled_high),
            scaled_wide == scaled_width(width, height, side),
            scaled_high == scaled_height(width, height, side),
    ;
    half_scaled <= limit && scaled <= limit
}

/// A picture cut to a square of `side` pixels: what the picture library
/// makes of it where [`can_fill`] allows the cut, and nothing elsewhere.
pub open spec fn square_of(picture: Picture, side: u32) -> Option<Picture> {
    if can_fill(picture.0, picture.1, side) {
        filled_picture(picture.0, picture.1, picture.2, side)
    } else {
        None
    }
}

/// A picture as a PNG file: what the picture library writes for it unless
/// the picture is empty.
pub open spec fn png_of(picture: Picture) -> Option<Seq<u8>> {
    if picture.0 > 0 && picture.1 > 0 {
        png_encoding(picture.0, picture.1, picture.2)
    } else {
        None
    }
}

/// The thumbnail of a decoded picture, or of none where the bytes that were
/// fetched held no picture: the picture is cut to a square of `side` pixels
/// and written as PNG. Where one of the two cannot be done, or there is no
/// picture, there is no thumbnail.
pub open spec fn thumbnail_of(decoded: Option<Picture>, side: u32) -> Option<Seq<u8>> {
    match decoded {
        Some(picture) => match square_of(picture, side) {
            Some(square) => png_of(square),
            None => None,
        },
        None => None,
    }
}

/// Cuts a decoded picture to a square of `side` pixels around its middle,
/// scaling it first so that it covers the square. `None` where
/// [`can_fill`] does not allow the cut or the picture's pixels are too few.
pub fn cut_to_square(picture: Raster, side: u32) -> (square: Option<Raster>)
    ensures
        picture_of(square) == square_of(picture@, side),
        square matches Some(cut) ==> is_square(cut@, side),
{
    if fits(picture.width, picture.height, side) {
        resize_to_fill(picture, side)
    } else {
        None
    }
}

/// Writes a decoded picture as a PNG file. `None` for an empty picture and
/// where the picture cannot be written.
pub fn write_png(picture: Raster) -> (png: Option<Vec<u8>>)
    ensures
        bytes_of(png) == png_of(picture@),
{
    if picture.width > 0 && picture.height > 0 {
        encode_png(picture)
    } else {
        None
    }
}

/// A square PNG thumbnail of `side` pixels of a decoded picture. Decoding is
/// the caller's part: it hands over the picture, or `None` where the bytes
/// it fetched are no picture. There is no thumbnail where there is no
/// picture, where the picture cannot be cut to such a square, and where the
/// thumbnail cannot be written.
pub fn thumbnail(decoded: Option<Raster>, side: u32) -> (png: Option<Vec<u8>>)
    ensures
        bytes_of(png) == thumbnail_of(picture_of(decoded), side),
{
    match decoded {
        Some(picture) => match cut_to_square(picture, side) {
            Some(square) => write_png(square),
            None => None,
        },
        None => None,
    }
}

/// The thumbnails to fetch for a list of records: for each record that names
/// a cover, its position and the cover's address, in the list's order.
pub open spec fn jobs_for(records: Seq<MetadataView>) -> Seq<(usize, Seq<char>)>
    decreases records.len(),
{
    if records.len() == 0 {
        Seq::empty()
    } else {
        let last = (records.len() - 1) as usize;
        let before = jobs_for(records.drop_last());
        match records.last().cover_url {
            Some(url) => before.push((last, url)),
            None => before,
        }
    }
}

/// One thumbnail to fetch: the record's position and its cover's address.
#[derive(Debug, Clone)]
pub struct ThumbnailJob {
    pub index: usize,
    pub url: String,
}

impl DeepView for ThumbnailJob {
    type V = (usize, Seq<char>);

    open spec fn deep_view(&self) -> (usize, Seq<char>) {
        (self.index, self.url@)
    }
}

pub fn thumbnail_jobs(records: &Vec<MetadataResult>) -> (jobs: Vec<ThumbnailJob>)
    ensures
        jobs.deep_view() == jobs_for(records.deep_view()),
{
    let n: usize = records.len();
    let mut jobs: Vec<ThumbnailJob> = Vec::new();
    let mut i: usize = 0;
    assert(records.deep_view().take(0) =~= Seq::empty());
    assert(jobs.deep_view() =~= Seq::empty());
    while i < n
        invariant
            n == records@.len(),
            i <= n,
            jobs.deep_view() == jobs_for(records.deep_view().take(i as int)),
        decreases n - i,
    {
        proof {
            let upto = records.deep_view().take(i + 1);
            assert(upto.drop_last() =~= records.deep_view().take(i as int));
            assert(upto.last() == records@[i as int]@);
        }
        let ghost before = jobs.deep_view();
        match &records[i].cover_url {
            Some(url) => {
                jobs.push(ThumbnailJob { index: i, url: url.clone() });
                assert(jobs.deep_view() =~= before.push((i, url@)));
            },
            None => {},
        }
        i += 1;
    }
    assert(records.deep_view().take(n as int) =~= records.deep_view());
    jobs
}

/// One empty place for each of `count` records.
pub fn empty_slots(count: usize) -> (slots: Vec<Option<Vec<u8>>>)
    ensures
        slots@.len() == count,
        forall|i: int| 0 <= i < count ==> slots@[i] is None,
{
    let mut slots: Vec<Option<Vec<u8>>> = Vec::new();
    let mut i: usize = 0;
    while i < count
        invariant
            i <= count,
            slots@.len() == i,
            forall|j: int| 0 <= j < i ==> slots@[j] is None,
        decreases count - i,
    {
        slots.push(None);
        i += 1;
    }
    slots
}

/// Puts a thumbnail in its record's place. A thumbnail that could not be
/// made, or one for a place that is not there, changes nothing; no other
/// place is ever touched.
pub fn store_thumbnail(slots: &mut Vec<Option<Vec<u8>>>, index: usize, made: Option<Vec<u8>>)
    ensures
        final(slots)@ == if made is Some && index < old(slots)@.len() {
            old(slots)@.update(index as int, made)
        } else {
            old(slots)@
        },
{
    if index < slots.len() {
        if made.is_some() {
            slots[index] = made;
        }
    }
}

} // verus!
