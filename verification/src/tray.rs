//! The tray menu's actions and the bitmap of the tray icon.

use vstd::prelude::*;

verus! {

/// What a click on an entry of the tray menu asks for.
#[derive(Clone, Copy, Debug, PartialEq, Eq, Structural)]
pub enum TrayAction {
    OpenSettings,
    ToggleTrail,
    ToggleAvatar,
    Quit,
}

/// Side, in pixels, of the square tray icon.
pub const ICON_SIZE: usize = 32;

/// Whether pixel `(x, y)` of the tray icon lies on the disc of radius 10
/// around `(16, 16)`.
pub open spec fn icon_disc_contains(x: int, y: int) -> bool {
    (x - 16) * (x - 16) + (y - 16) * (y - 16) <= 100
}

/// Byte number `k` (red, green, blue, alpha) of the color of the icon's
/// disc.
pub open spec fn icon_color(k: int) -> u8 {
    if k == 0 {
        120u8
    } else if k == 1 {
        180u8
    } else {
        255u8
    }
}

/// Byte `j` of the tray icon's RGBA bitmap, rows of 32 pixels from the top
/// left: the disc's color on the disc, fully transparent elsewhere.
pub open spec fn icon_byte(j: int) -> u8 {
    let p = j / 4;
    if icon_disc_contains(p % 32, p / 32) {
        icon_color(j % 4)
    } else {
        0u8
    }
}

/// The tray icon: a 32 by 32 RGBA bitmap of a light blue disc of radius 10
/// on a transparent background.
pub fn build_icon_rgba() -> (pixels: Vec<u8>)
    ensures
        pixels@.len() == ICON_SIZE * ICON_SIZE * 4,
        forall|j: int| 0 <= j < pixels@.len() ==> pixels@[j] == icon_byte(j),
{
    let size = ICON_SIZE;
    let mut pixels: Vec<u8> = vec![0u8; size * size * 4];
    let center: i32 = 16;
    let radius: i32 = 10;
    let mut y: usize = 0;
    while y < size
        invariant
            size == 32,
            center == 16,
            radius == 10,
            y <= size,
            pixels@.len() == 4096,
            forall|j: int| 0 <= j < y * 128 ==> pixels@[j] == icon_byte(j),
            forall|j: int| y * 128 <= j < 4096 ==> pixels@[j] == 0,
        decreases size - y,
    {
        let mut x: usize = 0;
        while x < size
            invariant
                size == 32,
                center == 16,
                radius == 10,
                y < size,
                x <= size,
                pixels@.len() == 4096,
                forall|j: int| 0 <= j < y * 128 + x * 4 ==> pixels@[j] == icon_byte(j),
                forall|j: int| y * 128 + x * 4 <= j < 4096 ==> pixels@[j] == 0,
            decreases size - x,
        {
            let dx: i32 = x as i32 - center;
            let dy: i32 = y as i32 - center;
            let idx = (y * size + x) * 4;
            assert(0 <= dx * dx <= 256 && 0 <= dy * dy <= 256) by (nonlinear_arith)
                requires
                    -16 <= dx < 16,
                    -16 <= dy < 16,
            ;
            let inside = dx * dx + dy * dy <= radius * radius;
            assert(inside == icon_disc_contains(x as int, y as int));
            if inside {
                pixels.set(idx, 120);
                pixels.set(idx + 1, 180);
                pixels.set(idx + 2, 255);
                pixels.set(idx + 3, 255);
            }
            assert forall|j: int| idx <= j < idx + 4 implies pixels@[j] == icon_byte(j) by {
                let p = j / 4;
                assert(p == y * 32 + x);
                assert(p % 32 == x && p / 32 == y);
            }
            x = x + 1;
        }
        y = y + 1;
    }
    pixels
}

} // verus!
