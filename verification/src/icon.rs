//! The application icon: encoded image bytes decoded to RGBA and resized to
//! a square of the requested side by the `image` crate.

use vstd::prelude::*;

verus! {

#[verifier::external_type_specification]
#[verifier::external_body]
pub struct ExImageError(image::ImageError);

/// Why the icon could not be made.
#[derive(Debug)]
pub enum IconError {
    /// The bytes are no image of a format the `image` crate decodes.
    Decode(image::ImageError),
    /// Resampling the decoded image would need more elements than `usize`
    /// counts.
    TooLarge,
}

/// `image::load_from_memory` followed by `DynamicImage::to_rgba8`: decodes
/// `encoded` and converts it to RGBA bytes, four per pixel row by row, with
/// the image's width and height. An RGBA image buffer always holds at least
/// four bytes for each pixel, which the clause states. Which pixels come out,
/// and whether decoding fails, are not stated: the decoders pick code paths
/// by the processor they run on, so the source shows no fixed result.
#[verifier::external_body]
pub(crate) fn decode_rgba(encoded: &[u8]) -> (r: Result<(Vec<u8>, u32, u32), image::ImageError>)
    ensures
        r matches Ok((v, w, h)) ==> v@.len() >= 4 * w * h,
{
    let rgba = image::load_from_memory(encoded)?.to_rgba8();
    let (w, h) = rgba.dimensions();
    Ok((rgba.into_raw(), w, h))
}

/// Whether byte `k` (red, green, blue or alpha) of each of the first `n`
/// pixels of the RGBA bytes `rgba` is `c`.
pub open spec fn channel_uniform(rgba: Seq<u8>, n: int, k: int, c: u8) -> bool {
    forall|p: int| 0 <= p < n ==> #[trigger] rgba[4 * p + k] == c
}

/// `image::imageops::resize` with `FilterType::Lanczos3` of the `w` by `h`
/// RGBA image whose bytes start `rgba`, to `size` by `size`: a new buffer of
/// exactly four bytes per pixel. An image without pixels gives a zeroed
/// buffer, and an image that already has the requested size is copied
/// unchanged. Each channel is filtered on its own, each output value being
/// the rounded, clamped sum of that channel's source values times weights
/// that are divided by their own sum: so a channel that holds one value `c`
/// in every source pixel holds `c` in every output pixel, however the
/// weights come out. Other bytes are not stated: the kernel uses `f32::sin`,
/// whose precision std leaves open. The result has `4 * size * size` elements and
/// a resampling goes through `4 * w * size` more, which must fit in `usize`;
/// the buffer must hold the image.
#[verifier::external_body]
fn resize_lanczos3(rgba: Vec<u8>, w: u32, h: u32, size: u32) -> (out: Vec<u8>)
    requires
        rgba@.len() >= 4 * w * h,
        resample_fits(w, h, size),
        4 * size * size <= usize::MAX,
    ensures
        out@.len() == 4 * size * size,
        w == 0 || h == 0 ==> forall|i: int| 0 <= i < out@.len() ==> out@[i] == 0,
        w == size && h == size ==> out@ == rgba@.subrange(0, 4 * w * h),
        w > 0 && h > 0 ==> forall|k: int, c: u8|
            0 <= k < 4 && #[trigger] channel_uniform(rgba@, w * h, k, c) ==> channel_uniform(
                out@,
                size * size,
                k,
                c,
            ),
{
    let image = image::RgbaImage::from_raw(w, h, rgba).unwrap();
    image::imageops::resize(&image, size, size, image::imageops::FilterType::Lanczos3).into_raw()
}

/// Whether resizing a `w` by `h` image to `size` by `size` fits in `usize`:
/// an image without pixels or of that size already needs no resampling, and
/// resampling needs an intermediate buffer of `4 * w * size` elements.
pub open spec fn resample_fits(w: u32, h: u32, size: u32) -> bool {
    ||| w == 0
    ||| h == 0
    ||| (w == size && h == size)
    ||| 4 * w * size <= usize::MAX
}

/// The icon of side `size` made from a decoding result: the decoding error
/// passed on; `TooLarge` where the decoded image is too wide to resample
/// within `usize`; else the image resampled to `size` by `size`, four bytes
/// per pixel: zeroed where the image has no pixels, its own bytes where it
/// already has that size.
pub fn icon_from_decoded(decoded: Result<(Vec<u8>, u32, u32), image::ImageError>, size: u32) -> (r:
    Result<(Vec<u8>, u32, u32), IconError>)
    requires
        4 * size * size <= usize::MAX,
        decoded matches Ok((v, w, h)) ==> v@.len() >= 4 * w * h,
    ensures
        decoded is Err <==> (r matches Err(IconError::Decode(_))),
        (r matches Err(IconError::TooLarge)) <==> (decoded matches Ok(d) && !resample_fits(
            d.1,
            d.2,
            size,
        )),
        r matches Ok((v, w, h)) ==> w == size && h == size && v@.len() == 4 * size * size,
        decoded matches Ok((src, w, h)) ==> {
            &&& (w == 0 || h == 0) ==> (r matches Ok((v, _, _)) && forall|i: int|
                0 <= i < v@.len() ==> v@[i] == 0)
            &&& (w == size && h == size) ==> (r matches Ok((v, _, _)) && v@ == src@.subrange(
                0,
                4 * size * size,
            ))
            &&& (w > 0 && h > 0 && resample_fits(w, h, size)) ==> (r matches Ok((v, _, _))
                && forall|k: int, c: u8|
                0 <= k < 4 && #[trigger] channel_uniform(src@, w * h, k, c) ==> channel_uniform(
                    v@,
                    size * size,
                    k,
                    c,
                ))
        },
{
    match decoded {
        Err(error) => Err(IconError::Decode(error)),
        Ok((rgba, w, h)) => {
            let wide = (w as u128) * 4;
            assert(wide * (size as u128) <= u128::MAX) by (nonlinear_arith)
                requires
                    wide <= 4 * u32::MAX,
                    size <= u32::MAX,
            ;
            assert(wide * size == 4 * w * size) by (nonlinear_arith)
                requires
                    wide == w * 4,
            ;
            assert(w == 0 ==> 4 * w * size == 0) by (nonlinear_arith);
            let resampled = w > 0 && h > 0 && !(w == size && h == size);
            if resampled && wide * (size as u128) > usize::MAX as u128 {
                return Err(IconError::TooLarge);
            }
            let resized = resize_lanczos3(rgba, w, h, size);
            Ok((resized, size, size))
        },
    }
}

/// The icon of side `size` made from the encoded image `encoded`: its RGBA
/// bytes, width and height, or why it could not be made. Whether `encoded`
/// decodes is not stated (see `decode_rgba`); `icon_from_decoded` states what
/// follows for each decoding result.
pub fn icon_rgba(encoded: &[u8], size: u32) -> (r: Result<(Vec<u8>, u32, u32), IconError>)
    requires
        4 * size * size <= usize::MAX,
    ensures
        r matches Ok((v, w, h)) ==> w == size && h == size && v@.len() == 4 * size * size,
{
    icon_from_decoded(decode_rgba(encoded), size)
}

} // verus!
