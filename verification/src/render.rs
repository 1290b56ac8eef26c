//! The overlay's frame buffer and avatar sprites: packed `0xAARRGGBB`
//! pixels, the BGRA byte layout handed to the window, pixel addressing and
//! nearest-neighbour sampling of sprites.

use vstd::prelude::*;

verus! {

/// Channel of a packed pixel that starts at bit `shift`.
pub open spec fn channel(p: u32, shift: u32) -> u8 {
    ((p >> shift) & 0xffu32) as u8
}

/// The four bytes of a packed `0xAARRGGBB` pixel in the order blue, green,
/// red, alpha.
pub open spec fn bgra_of(p: u32) -> Seq<u8> {
    seq![channel(p, 0), channel(p, 8), channel(p, 16), channel(p, 24)]
}

/// The BGRA bytes of a row-major sequence of packed pixels.
pub open spec fn bgra_bytes(pixels: Seq<u32>) -> Seq<u8>
    decreases pixels.len(),
{
    if pixels.len() == 0 {
        Seq::empty()
    } else {
        bgra_bytes(pixels.drop_last()) + bgra_of(pixels.last())
    }
}

/// A screen-sized canvas of packed `0xAARRGGBB` pixels, row by row.
pub struct FrameBuffer {
    pub width: u32,
    pub height: u32,
    pub pixels: Vec<u32>,
}

impl FrameBuffer {
    /// One pixel for each position of the `width` by `height` canvas, whose
    /// positions are numbered within `u32`.
    pub open spec fn wf(&self) -> bool {
        &&& self.pixels@.len() == self.width * self.height
        &&& self.width * self.height <= u32::MAX
    }

    /// Whether the canvas has one pixel for each of its positions, numbered
    /// within `u32`.
    pub fn is_well_formed(&self) -> (b: bool)
        ensures
            b == self.wf(),
    {
        let w = self.width as u64;
        let h = self.height as u64;
        assert(w * h <= u64::MAX) by (nonlinear_arith)
            requires
                w <= u32::MAX,
                h <= u32::MAX,
        ;
        w * h <= u32::MAX as u64 && self.pixels.len() as u64 == w * h
    }

    /// A fully transparent canvas of the given size.
    pub fn new(width: u32, height: u32) -> (fb: Self)
        requires
            width * height <= u32::MAX,
        ensures
            fb.wf(),
            fb.width == width,
            fb.height == height,
            forall|i: int| 0 <= i < fb.pixels@.len() ==> fb.pixels@[i] == 0,
    {
        let n: u32 = width * height;
        let pixels: Vec<u32> = vec![0u32; n as usize];
        FrameBuffer { width, height, pixels }
    }

    /// Makes every pixel fully transparent.
    pub fn clear(&mut self)
        ensures
            final(self).width == old(self).width,
            final(self).height == old(self).height,
            final(self).pixels@.len() == old(self).pixels@.len(),
            forall|i: int| 0 <= i < final(self).pixels@.len() ==> final(self).pixels@[i] == 0,
    {
        let n = self.pixels.len();
        let mut i: usize = 0;
        while i < n
            invariant
                i <= n,
                n == self.pixels@.len(),
                self.width == old(self).width,
                self.height == old(self).height,
                forall|j: int| 0 <= j < i ==> self.pixels@[j] == 0,
            decreases n - i,
        {
            self.pixels.set(i, 0);
            i = i + 1;
        }
    }

    /// The pixels as bytes in blue, green, red, alpha order, four per pixel.
    pub fn as_bgra_bytes(&self) -> (bytes: Vec<u8>)
        requires
            self.pixels@.len() * 4 <= usize::MAX,
        ensures
            bytes@ == bgra_bytes(self.pixels@),
    {
        let n = self.pixels.len();
        let mut bytes: Vec<u8> = Vec::with_capacity(n * 4);
        let mut i: usize = 0;
        while i < n
            invariant
                i <= n,
                n == self.pixels@.len(),
                bytes@ == bgra_bytes(self.pixels@.take(i as int)),
            decreases n - i,
        {
            let pixel = self.pixels[i];
            let a = ((pixel >> 24u32) & 0xFFu32) as u8;
            let r = ((pixel >> 16u32) & 0xFFu32) as u8;
            let g = ((pixel >> 8u32) & 0xFFu32) as u8;
            let b = (pixel & 0xFFu32) as u8;
            assert(b == channel(pixel, 0)) by (bit_vector)
                requires
                    b == (pixel & 0xFFu32) as u8,
            ;
            bytes.push(b);
            bytes.push(g);
            bytes.push(r);
            bytes.push(a);
            assert(self.pixels@.take(i + 1).drop_last() =~= self.pixels@.take(i as int));
            assert(bytes@ =~= bgra_bytes(self.pixels@.take(i + 1)));
            i = i + 1;
        }
        assert(self.pixels@.take(n as int) =~= self.pixels@);
        bytes
    }
}

impl FrameBuffer {
    /// Whether `(x, y)` lies on the canvas, the coordinates compared with
    /// the canvas size taken as `i32`.
    pub open spec fn on_canvas(&self, x: i32, y: i32) -> bool {
        0 <= x && 0 <= y && x < (self.width as i32) && y < (self.height as i32)
    }

    /// Position in `pixels` of the pixel at `(x, y)`, or `None` where the
    /// point lies off the canvas and nothing may be drawn.
    pub fn pixel_index(&self, x: i32, y: i32) -> (idx: Option<usize>)
        requires
            self.wf(),
        ensures
            idx is Some <==> self.on_canvas(x, y),
            self.width <= i32::MAX && self.height <= i32::MAX ==> (idx is Some <==> (0 <= x
                < self.width && 0 <= y < self.height)),
            idx matches Some(i) ==> {
                &&& i == y * self.width + x
                &&& i < self.pixels@.len()
                &&& x < self.width
                &&& y < self.height
            },
    {
        let w = self.width;
        let h = self.height;
        assert(w <= i32::MAX ==> (w as i32) == w);
        assert(h <= i32::MAX ==> (h as i32) == h);
        if x < 0 || y < 0 || x >= #[verifier::truncate] (self.width as i32)
            || y >= #[verifier::truncate] (self.height as i32) {
            return None;
        }
        assert(x < w) by (bit_vector)
            requires
                0 <= x,
                x < (w as i32),
        ;
        assert(y < h) by (bit_vector)
            requires
                0 <= y,
                y < (h as i32),
        ;
        let xu = x as u32;
        let yu = y as u32;
        assert(yu * w + xu < w * h) by (nonlinear_arith)
            requires
                xu < w,
                yu < h,
        ;
        Some((yu * w + xu) as usize)
    }
}

/// The packed `0xAARRGGBB` pixel of the channels `r`, `g`, `b`, `a`.
pub open spec fn argb(r: u8, g: u8, b: u8, a: u8) -> u32 {
    ((a as u32) << 24u32) | ((r as u32) << 16u32) | ((g as u32) << 8u32) | (b as u32)
}

/// Packs an RGBA color into one `0xAARRGGBB` pixel.
pub fn pack_argb(color: [u8; 4]) -> (p: u32)
    ensures
        p == argb(color@[0], color@[1], color@[2], color@[3]),
{
    ((color[3] as u32) << 24u32) | ((color[0] as u32) << 16u32) | ((color[1] as u32) << 8u32)
        | (color[2] as u32)
}

/// Splits a packed `0xAARRGGBB` pixel into its red, green, blue and alpha
/// channels.
pub fn unpack_argb(p: u32) -> (color: [u8; 4])
    ensures
        color@ == seq![channel(p, 16), channel(p, 8), channel(p, 0), channel(p, 24)],
{
    let r = ((p >> 16u32) & 0xFFu32) as u8;
    let g = ((p >> 8u32) & 0xFFu32) as u8;
    let b = (p & 0xFFu32) as u8;
    let a = ((p >> 24u32) & 0xFFu32) as u8;
    assert(b == channel(p, 0)) by (bit_vector)
        requires
            b == (p & 0xFFu32) as u8,
    ;
    let c = [r, g, b, a];
    assert(c@ =~= seq![channel(p, 16), channel(p, 8), channel(p, 0), channel(p, 24)]);
    c
}

/// A decoded avatar image, its pixels packed as `0xAARRGGBB`, row by row.
pub struct Sprite {
    pub width: u32,
    pub height: u32,
    pub pixels: Vec<u32>,
}

/// The packed pixel number `i` of RGBA bytes, four per pixel.
pub open spec fn packed_pixel(bytes: Seq<u8>, i: int) -> u32 {
    argb(bytes[4 * i], bytes[4 * i + 1], bytes[4 * i + 2], bytes[4 * i + 3])
}

impl Sprite {
    /// One pixel for each position of the `width` by `height` image.
    pub open spec fn wf(&self) -> bool {
        self.pixels@.len() == self.width * self.height
    }

    /// Whether the sprite has one pixel for each of its positions.
    pub fn is_well_formed(&self) -> (b: bool)
        ensures
            b == self.wf(),
    {
        let w = self.width as u64;
        let h = self.height as u64;
        assert(w * h <= u64::MAX) by (nonlinear_arith)
            requires
                w <= u32::MAX,
                h <= u32::MAX,
        ;
        self.pixels.len() as u64 == w * h
    }

    /// The sprite of a `width` by `height` RGBA image whose bytes, four per
    /// pixel in red, green, blue, alpha order, row by row, start `rgba`:
    /// same size, each pixel's channels packed as `0xAARRGGBB`.
    pub fn from_image(width: u32, height: u32, rgba: &[u8]) -> (sprite: Self)
        requires
            4 * width * height <= rgba@.len(),
        ensures
            sprite.wf(),
            sprite.width == width,
            sprite.height == height,
            forall|i: int|
                0 <= i < sprite.pixels@.len() ==> sprite.pixels@[i] == packed_pixel(rgba@, i),
    {
        let len = rgba.len();
        assert(4 * width * height == 4 * (width * height)) by (nonlinear_arith);
        let n: usize = (width as usize) * (height as usize);
        let mut pixels: Vec<u32> = Vec::with_capacity(n);
        let mut i: usize = 0;
        while i < n
            invariant
                i <= n,
                n == width * height,
                4 * n <= rgba@.len(),
                len == rgba@.len(),
                pixels@.len() == i,
                forall|j: int| 0 <= j < i ==> pixels@[j] == packed_pixel(rgba@, j),
            decreases n - i,
        {
            let k = 4 * i;
            let p = pack_argb([rgba[k], rgba[k + 1], rgba[k + 2], rgba[k + 3]]);
            pixels.push(p);
            i = i + 1;
        }
        Sprite { width, height, pixels }
    }

    /// Position in `pixels` of the source pixel that nearest-neighbour
    /// scaling to a `dest_w` by `dest_h` area shows at `(dx, dy)`.
    pub open spec fn sample_index(&self, dx: u32, dy: u32, dest_w: u32, dest_h: u32) -> int {
        (dy as int * self.height as int / dest_h as int) * self.width as int + (dx as int
            * self.width as int / dest_w as int)
    }

    /// The pixel that the sprite, scaled to `dest_w` by `dest_h` by nearest
    /// neighbour, shows at `(dx, dy)` of the scaled area.
    pub fn sample(&self, dx: u32, dy: u32, dest_w: u32, dest_h: u32) -> (p: u32)
        requires
            self.wf(),
            self.width > 0,
            self.height > 0,
            self.width * self.height <= u32::MAX,
            dx < dest_w,
            dy < dest_h,
            dx * self.width <= u32::MAX,
            dy * self.height <= u32::MAX,
        ensures
            0 <= self.sample_index(dx, dy, dest_w, dest_h) < self.pixels@.len(),
            p == self.pixels@[self.sample_index(dx, dy, dest_w, dest_h)],
    {
        let w = self.width;
        let h = self.height;
        let src_x = dx * w / dest_w;
        let src_y = dy * h / dest_h;
        assert(src_x < w) by (nonlinear_arith)
            requires
                src_x as int == dx as int * w as int / dest_w as int,
                dx < dest_w,
                w > 0,
        ;
        assert(src_y < h) by (nonlinear_arith)
            requires
                src_y as int == dy as int * h as int / dest_h as int,
                dy < dest_h,
                h > 0,
        ;
        assert(src_y * w + src_x < w * h) by (nonlinear_arith)
            requires
                src_x < w,
                src_y < h,
        ;
        let src_idx = (src_y * w + src_x) as usize;
        self.pixels[src_idx]
    }
}

impl Sprite {
    /// The sprite of the image that `encoded` holds, decoded by the `image`
    /// crate and packed by `from_image`, or the decoding error.
    pub fn from_encoded(encoded: &[u8]) -> (r: Result<Sprite, image::ImageError>)
        ensures
            r matches Ok(sprite) ==> sprite.wf(),
    {
        match crate::icon::decode_rgba(encoded) {
            Err(error) => Err(error),
            Ok((rgba, width, height)) => Ok(Sprite::from_image(width, height, rgba.as_slice())),
        }
    }
}

/// What drawing `sprite`, scaled to `dest_w` by `dest_h` by nearest
/// neighbour, with its top left corner at `(start_x, start_y)`, plots at the
/// first `k` positions of the scaled area, row by row: each position's
/// canvas point and source pixel, where that pixel is not fully transparent.
pub open spec fn blit_plots(
    sprite: Sprite,
    start_x: i32,
    start_y: i32,
    dest_w: u32,
    dest_h: u32,
    k: nat,
) -> Seq<(i32, i32, u32)>
    decreases k,
{
    if k == 0 || dest_w == 0 {
        Seq::empty()
    } else {
        let j = (k - 1) as nat;
        let dx = (j % (dest_w as nat)) as u32;
        let dy = (j / (dest_w as nat)) as u32;
        let p = sprite.pixels@[sprite.sample_index(dx, dy, dest_w, dest_h)];
        let before = blit_plots(sprite, start_x, start_y, dest_w, dest_h, j);
        if channel(p, 24) == 0 {
            before
        } else {
            before.push(((start_x + dx) as i32, (start_y + dy) as i32, p))
        }
    }
}

impl Sprite {
    /// The points to plot, with their source pixels, to draw the sprite
    /// scaled to `dest_w` by `dest_h` with its top left corner at
    /// `(start_x, start_y)`: row by row over the scaled area, skipping fully
    /// transparent pixels.
    pub fn blit_plan(&self, start_x: i32, start_y: i32, dest_w: u32, dest_h: u32) -> (plots: Vec<
        (i32, i32, u32),
    >)
        requires
            self.wf(),
            self.width > 0,
            self.height > 0,
            self.width * self.height <= u32::MAX,
            dest_w > 0,
            dest_h > 0,
            (dest_w - 1) * self.width <= u32::MAX,
            (dest_h - 1) * self.height <= u32::MAX,
            start_x + (dest_w - 1) <= i32::MAX,
            start_y + (dest_h - 1) <= i32::MAX,
            dest_w - 1 <= i32::MAX,
            dest_h - 1 <= i32::MAX,
        ensures
            plots@ == blit_plots(*self, start_x, start_y, dest_w, dest_h, (dest_w * dest_h) as nat),
    {
        let mut plots: Vec<(i32, i32, u32)> = Vec::new();
        let mut dy: u32 = 0;
        while dy < dest_h
            invariant
                self.wf(),
                self.width > 0,
                self.height > 0,
                self.width * self.height <= u32::MAX,
                dest_w > 0,
                (dest_w - 1) * self.width <= u32::MAX,
                (dest_h - 1) * self.height <= u32::MAX,
                start_x + (dest_w - 1) <= i32::MAX,
                start_y + (dest_h - 1) <= i32::MAX,
                dest_w - 1 <= i32::MAX,
                dest_h - 1 <= i32::MAX,
                dy <= dest_h,
                plots@ == blit_plots(*self, start_x, start_y, dest_w, dest_h, (dy * dest_w) as nat),
            decreases dest_h - dy,
        {
            let mut dx: u32 = 0;
            while dx < dest_w
                invariant
                    self.wf(),
                    self.width > 0,
                    self.height > 0,
                    self.width * self.height <= u32::MAX,
                    dest_w > 0,
                    (dest_w - 1) * self.width <= u32::MAX,
                    (dest_h - 1) * self.height <= u32::MAX,
                    start_x + (dest_w - 1) <= i32::MAX,
                    start_y + (dest_h - 1) <= i32::MAX,
                    dest_w - 1 <= i32::MAX,
                    dest_h - 1 <= i32::MAX,
                    dy < dest_h,
                    dx <= dest_w,
                    plots@ == blit_plots(
                        *self,
                        start_x,
                        start_y,
                        dest_w,
                        dest_h,
                        (dy * dest_w + dx) as nat,
                    ),
                decreases dest_w - dx,
            {
                let w = self.width;
                let h = self.height;
                assert(dx * w <= (dest_w - 1) * w && dy * h <= (dest_h - 1) * h) by (nonlinear_arith)
                    requires
                        dx < dest_w,
                        dy < dest_h,
                ;
                let src_pixel = self.sample(dx, dy, dest_w, dest_h);
                let alpha = ((src_pixel >> 24u32) & 0xFFu32) as u8;
                proof {
                    let j = dy * dest_w + dx;
                    vstd::arithmetic::div_mod::lemma_fundamental_div_mod_converse(
                        j,
                        dest_w as int,
                        dy as int,
                        dx as int,
                    );
                }
                if alpha != 0 {
                    plots.push((start_x + dx as i32, start_y + dy as i32, src_pixel));
                }
                dx = dx + 1;
            }
            assert(dy * dest_w + dest_w == (dy + 1) * dest_w) by (nonlinear_arith);
            dy = dy + 1;
        }
        assert(dest_h * dest_w == dest_w * dest_h) by (nonlinear_arith);
        plots
    }
}

/// Drawing a sprite plots only pixels that are not fully transparent, only
/// at points of the destination area, and no more plots than the area has
/// points.
pub proof fn law_blit_plots_stay_in_area(
    sprite: Sprite,
    start_x: i32,
    start_y: i32,
    dest_w: u32,
    dest_h: u32,
    k: nat,
)
    requires
        k <= dest_w * dest_h,
        start_x + dest_w <= i32::MAX + 1,
        start_y + dest_h <= i32::MAX + 1,
    ensures
        blit_plots(sprite, start_x, start_y, dest_w, dest_h, k).len() <= k,
        forall|i: int|
            0 <= i < blit_plots(sprite, start_x, start_y, dest_w, dest_h, k).len() ==> {
                let plot = #[trigger] blit_plots(sprite, start_x, start_y, dest_w, dest_h, k)[i];
                &&& channel(plot.2, 24) != 0
                &&& start_x <= plot.0 < start_x + dest_w
                &&& start_y <= plot.1 < start_y + dest_h
            },
    decreases k,
{
    if k > 0 && dest_w > 0 {
        let j = (k - 1) as nat;
        law_blit_plots_stay_in_area(sprite, start_x, start_y, dest_w, dest_h, j);
        let dx = j % (dest_w as nat);
        let dy = j / (dest_w as nat);
        assert(dy < dest_h) by (nonlinear_arith)
            requires
                dy == j / (dest_w as nat),
                j < dest_w * dest_h,
                dest_w > 0,
        ;
        let before = blit_plots(sprite, start_x, start_y, dest_w, dest_h, j);
        let all = blit_plots(sprite, start_x, start_y, dest_w, dest_h, k);
        assert forall|i: int| 0 <= i < all.len() implies {
            let plot = #[trigger] all[i];
            &&& channel(plot.2, 24) != 0
            &&& start_x <= plot.0 < start_x + dest_w
            &&& start_y <= plot.1 < start_y + dest_h
        } by {
            if i < before.len() {
                assert(all[i] == before[i]);
            }
        }
    }
}

/// Scaling a sprite by nearest neighbour shows, at `(dx, dy)` of a `dest_w`
/// by `dest_h` area, the source pixel in column `c` and row `r` whose bands
/// hold the point: `c * dest_w <= dx * width < (c + 1) * dest_w`, and
/// likewise for the row. The whole source is spread over the area, whether
/// it is larger or smaller than the area.
pub proof fn law_sample_scales_whole_sprite(
    sprite: Sprite,
    dx: u32,
    dy: u32,
    dest_w: u32,
    dest_h: u32,
    c: int,
    r: int,
)
    requires
        dest_w > 0,
        dest_h > 0,
        0 <= c,
        0 <= r,
        c * dest_w <= dx * sprite.width < (c + 1) * dest_w,
        r * dest_h <= dy * sprite.height < (r + 1) * dest_h,
    ensures
        sprite.sample_index(dx, dy, dest_w, dest_h) == r * sprite.width + c,
{
    let xw = dx as int * sprite.width as int;
    let yh = dy as int * sprite.height as int;
    assert((c + 1) * dest_w == c * dest_w + dest_w) by (nonlinear_arith);
    assert((r + 1) * dest_h == r * dest_h + dest_h) by (nonlinear_arith);
    vstd::arithmetic::div_mod::lemma_fundamental_div_mod_converse(
        xw,
        dest_w as int,
        c,
        xw - c * dest_w,
    );
    vstd::arithmetic::div_mod::lemma_fundamental_div_mod_converse(
        yh,
        dest_h as int,
        r,
        yh - r * dest_h,
    );
}

/// The sampled pixel of a scaled sprite lies in the column and row whose
/// bands hold the point, as `law_sample_scales_whole_sprite` states; in
/// particular the last point of a row of a narrower area shows a pixel of
/// the last `width / dest_w + 1` columns, not of the top left corner.
pub proof fn law_sample_last_column(sprite: Sprite, dest_w: u32, dest_h: u32)
    requires
        0 < dest_w <= sprite.width,
        dest_h > 0,
    ensures
        sprite.sample_index((dest_w - 1) as u32, 0, dest_w, dest_h) >= sprite.width as int - (
        sprite.width as int) / (dest_w as int) - 1,
{
    let w = sprite.width as int;
    let dw = dest_w as int;
    let x = (dw - 1) * w;
    assert(x / dw >= w - w / dw - 1) by (nonlinear_arith)
        requires
            x == (dw - 1) * w,
            dw > 0,
            w >= dw,
    ;
    assert(0int * sprite.height as int / dest_h as int == 0) by (nonlinear_arith)
        requires
            dest_h > 0,
    ;
}

/// Unpacking a packed pixel gives back the channels it was packed from.
pub proof fn law_unpack_after_pack(r: u8, g: u8, b: u8, a: u8)
    ensures
        channel(argb(r, g, b, a), 16) == r,
        channel(argb(r, g, b, a), 8) == g,
        channel(argb(r, g, b, a), 0) == b,
        channel(argb(r, g, b, a), 24) == a,
{
    assert(channel(argb(r, g, b, a), 16) == r) by (bit_vector);
    assert(channel(argb(r, g, b, a), 8) == g) by (bit_vector);
    assert(channel(argb(r, g, b, a), 0) == b) by (bit_vector);
    assert(channel(argb(r, g, b, a), 24) == a) by (bit_vector);
}

/// Packing the channels of a pixel gives back the pixel.
pub proof fn law_pack_after_unpack(p: u32)
    ensures
        argb(channel(p, 16), channel(p, 8), channel(p, 0), channel(p, 24)) == p,
{
    assert(argb(channel(p, 16), channel(p, 8), channel(p, 0), channel(p, 24)) == p)
        by (bit_vector);
}

/// A pixel packed from an RGBA color reaches the window as the bytes blue,
/// green, red, alpha of that color.
pub proof fn law_bgra_of_packed_color(r: u8, g: u8, b: u8, a: u8)
    ensures
        bgra_of(argb(r, g, b, a)) == seq![b, g, r, a],
{
    law_unpack_after_pack(r, g, b, a);
    assert(bgra_of(argb(r, g, b, a)) =~= seq![b, g, r, a]);
}

/// The BGRA bytes of `n` pixels are `4 * n` bytes, and the four bytes of
/// pixel `i` start at `4 * i`.
pub proof fn law_bgra_bytes_layout(pixels: Seq<u32>)
    ensures
        bgra_bytes(pixels).len() == 4 * pixels.len(),
        forall|i: int, k: int|
            0 <= i < pixels.len() && 0 <= k < 4 ==> #[trigger] bgra_bytes(pixels)[4 * i + k]
                == bgra_of(pixels[i])[k],
    decreases pixels.len(),
{
    if pixels.len() > 0 {
        let init = pixels.drop_last();
        law_bgra_bytes_layout(init);
        assert forall|i: int, k: int|
            0 <= i < pixels.len() && 0 <= k < 4 implies #[trigger] bgra_bytes(pixels)[4 * i + k]
            == bgra_of(pixels[i])[k] by {
            if i < pixels.len() - 1 {
                assert(init[i] == pixels[i]);
                assert(bgra_bytes(init)[4 * i + k] == bgra_of(init[i])[k]);
            }
        }
    }
}

/// A cleared canvas reaches the window as all-zero, fully transparent bytes.
pub proof fn law_cleared_frame_is_transparent(pixels: Seq<u32>)
    requires
        forall|i: int| 0 <= i < pixels.len() ==> pixels[i] == 0,
    ensures
        forall|j: int| 0 <= j < bgra_bytes(pixels).len() ==> bgra_bytes(pixels)[j] == 0,
{
    law_bgra_bytes_layout(pixels);
    assert(channel(0, 0) == 0 && channel(0, 8) == 0 && channel(0, 16) == 0 && channel(0, 24)
        == 0) by (bit_vector);
    assert forall|j: int| 0 <= j < bgra_bytes(pixels).len() implies bgra_bytes(pixels)[j] == 0 by {
        let i = j / 4;
        let k = j % 4;
        assert(j == 4 * i + k);
        assert(bgra_bytes(pixels)[4 * i + k] == bgra_of(pixels[i])[k]);
    }
}

/// Distinct points on the canvas have distinct pixels.
pub proof fn law_pixel_index_injective(fb: FrameBuffer, x1: i32, y1: i32, x2: i32, y2: i32)
    requires
        fb.wf(),
        0 <= x1 < fb.width,
        0 <= y1 < fb.height,
        0 <= x2 < fb.width,
        0 <= y2 < fb.height,
        x1 != x2 || y1 != y2,
    ensures
        y1 * fb.width + x1 != y2 * fb.width + x2,
{
    let w = fb.width as int;
    assert(y1 * w + x1 != y2 * w + x2) by (nonlinear_arith)
        requires
            0 <= x1 < w,
            0 <= x2 < w,
            x1 != x2 || y1 != y2,
    ;
}

/// Scaling a sprite to its own size shows each of its pixels in place.
pub proof fn law_native_size_sampling(sprite: Sprite, dx: u32, dy: u32)
    requires
        sprite.width > 0,
        sprite.height > 0,
    ensures
        sprite.sample_index(dx, dy, sprite.width, sprite.height) == dy * sprite.width + dx,
{
    let w = sprite.width as int;
    let h = sprite.height as int;
    assert(dx as int * w / w == dx) by (nonlinear_arith)
        requires
            w > 0,
    ;
    assert(dy as int * h / h == dy) by (nonlinear_arith)
        requires
            h > 0,
    ;
}

} // verus!
