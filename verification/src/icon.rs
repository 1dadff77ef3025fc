//! Pixel art of the tray icon (32 x 32 RGBA, row-major, four bytes per
//! pixel) and the ICO file that embeds the sun as the program icon.
//!
//! All geometry is done in exact integer arithmetic. The sun is centred at
//! (15.5, 15.5), so offsets are kept doubled (`2p - 31`) and squared
//! distances are four times the true ones; ray directions are scaled by
//! 1000, so ray distances are 2000 times the true ones.

use vstd::prelude::*;
use vstd::arithmetic::div_mod::lemma_fundamental_div_mod_converse;

verus! {

/// Width and height of the icon, in pixels.
pub const ICON_SIZE: u32 = 32;

/// Number of bytes of an icon's RGBA buffer.
pub const RGBA_LEN: usize = 4096;

/// Number of bytes of the ICO file.
pub const ICO_LEN: usize = 4286;

/// Offset of the XOR (colour) mask within the ICO file.
pub const ICO_PIXELS_AT: usize = 62;

/// Channel `c` (0 red, 1 green, 2 blue, 3 alpha) of a pixel.
pub open spec fn channel(p: (u8, u8, u8, u8), c: int) -> u8 {
    if c == 0 {
        p.0
    } else if c == 1 {
        p.1
    } else if c == 2 {
        p.2
    } else {
        p.3
    }
}

/// Byte `i` of a 32 x 32 row-major RGBA buffer whose pixels are `pixel`.
pub open spec fn rgba_byte(pixel: spec_fn(int, int) -> (u8, u8, u8, u8), i: int) -> u8 {
    channel(pixel((i / 4) % 32, (i / 4) / 32), i % 4)
}

// ---------------------------------------------------------------- sun ----

/// Twice the offset of a pixel coordinate from the sun's centre 15.5.
pub open spec fn off2(p: int) -> int {
    2 * p - 31
}

/// Four times the squared distance of pixel (px, py) from the centre.
pub open spec fn dist4(px: int, py: int) -> int {
    off2(px) * off2(px) + off2(py) * off2(py)
}

/// x component of ray `k` (of eight, counter-clockwise from east in image
/// coordinates), times 1000; the diagonals use 0.707.
pub open spec fn ray_x(k: int) -> int {
    if k == 0 {
        1000
    } else if k == 1 {
        707
    } else if k == 2 {
        0
    } else if k == 3 {
        -707
    } else if k == 4 {
        -1000
    } else if k == 5 {
        -707
    } else if k == 6 {
        0
    } else {
        707
    }
}

/// y component of ray `k`, times 1000.
pub open spec fn ray_y(k: int) -> int {
    if k == 0 {
        0
    } else if k == 1 {
        707
    } else if k == 2 {
        1000
    } else if k == 3 {
        707
    } else if k == 4 {
        0
    } else if k == 5 {
        -707
    } else if k == 6 {
        -1000
    } else {
        -707
    }
}

pub open spec fn abs(x: int) -> int {
    if x < 0 {
        -x
    } else {
        x
    }
}

/// 2000 times the distance of a pixel from the axis of ray `k`.
pub open spec fn ray_perp(px: int, py: int, k: int) -> int {
    abs(off2(px) * ray_y(k) - off2(py) * ray_x(k))
}

/// 2000 times the position of a pixel along ray `k`.
pub open spec fn ray_proj(px: int, py: int, k: int) -> int {
    off2(px) * ray_x(k) + off2(py) * ray_y(k)
}

/// A pixel lies on ray `k`: within 1.8 of its axis, and between 9 and 13
/// along it.
pub open spec fn on_ray(px: int, py: int, k: int) -> bool {
    ray_perp(px, py, k) <= 3600 && 18000 <= ray_proj(px, py, k) <= 26000
}

/// The first ray, from `k` on, that a pixel lies on.
pub open spec fn first_ray(px: int, py: int, k: nat) -> Option<nat>
    decreases 8 - k,
{
    if k >= 8 {
        None
    } else if on_ray(px, py, k as int) {
        Some(k)
    } else {
        first_ray(px, py, (k + 1) as nat)
    }
}

/// Alpha `a` does not exceed 255 times (8 - r), r being the distance
/// sqrt(d4) / 2.
pub open spec fn below_rim(d4: int, a: int) -> bool {
    65025 * d4 <= 4 * (2040 - a) * (2040 - a)
}

/// The largest alpha, from `a` down, that does not exceed 255 (8 - r).
pub open spec fn rim_alpha_from(d4: int, a: nat) -> nat
    decreases a,
{
    if a == 0 || below_rim(d4, a as int) {
        a
    } else {
        rim_alpha_from(d4, (a - 1) as nat)
    }
}

/// Alpha of the sun's body: opaque within radius 7, then fading to the
/// rim at radius 8 as floor(255 (8 - r)).
pub open spec fn body_alpha(d4: int) -> int {
    if d4 > 196 {
        rim_alpha_from(d4, 255) as int
    } else {
        255
    }
}

/// Alpha of a ray pixel: opaque within 1.0 of the axis, then fading as
/// floor(255 (1.8 - perp)).
pub open spec fn ray_alpha(perp2000: int) -> int {
    if perp2000 > 2000 {
        (3600 - perp2000) * 255 / 2000
    } else {
        255
    }
}

/// Alpha of a sun pixel, or `None` where the pixel stays transparent
/// black: the body is the disc of radius 8, the rays lie between radius 9
/// and 13.
pub open spec fn sun_alpha(px: int, py: int) -> Option<u8> {
    let d = dist4(px, py);
    if d <= 256 {
        Some(body_alpha(d) as u8)
    } else if 324 < d && d <= 676 {
        match first_ray(px, py, 0) {
            Some(k) => Some(ray_alpha(ray_perp(px, py, k as int)) as u8),
            None => None,
        }
    } else {
        None
    }
}

/// Pixel (px, py) of the sun drawn in colour (r, g, b).
pub open spec fn sun_pixel(r: u8, g: u8, b: u8, px: int, py: int) -> (u8, u8, u8, u8) {
    match sun_alpha(px, py) {
        Some(a) => (r, g, b, a),
        None => (0, 0, 0, 0),
    }
}

fn ray_dir(k: usize) -> (d: (i64, i64))
    requires
        k < 8,
    ensures
        d.0 == ray_x(k as int),
        d.1 == ray_y(k as int),
{
    if k == 0 {
        (1000, 0)
    } else if k == 1 {
        (707, 707)
    } else if k == 2 {
        (0, 1000)
    } else if k == 3 {
        (-707, 707)
    } else if k == 4 {
        (-1000, 0)
    } else if k == 5 {
        (-707, -707)
    } else if k == 6 {
        (0, -1000)
    } else {
        (707, -707)
    }
}

proof fn lemma_ray_bounds(dx: int, dy: int, rx: int, ry: int)
    requires
        -31 <= dx <= 31,
        -31 <= dy <= 31,
        -1000 <= rx <= 1000,
        -1000 <= ry <= 1000,
    ensures
        -31000 <= dx * ry <= 31000,
        -31000 <= dy * rx <= 31000,
        -31000 <= dx * rx <= 31000,
        -31000 <= dy * ry <= 31000,
{
    assert(-31000 <= dx * ry <= 31000) by (nonlinear_arith)
        requires
            -31 <= dx <= 31,
            -1000 <= ry <= 1000,
    ;
    assert(-31000 <= dy * rx <= 31000) by (nonlinear_arith)
        requires
            -31 <= dy <= 31,
            -1000 <= rx <= 1000,
    ;
    assert(-31000 <= dx * rx <= 31000) by (nonlinear_arith)
        requires
            -31 <= dx <= 31,
            -1000 <= rx <= 1000,
    ;
    assert(-31000 <= dy * ry <= 31000) by (nonlinear_arith)
        requires
            -31 <= dy <= 31,
            -1000 <= ry <= 1000,
    ;
}

/// The first ray the pixel lies on, with its distance from that ray's axis.
fn find_ray(px: i64, py: i64) -> (r: Option<(usize, i64)>)
    requires
        0 <= px < 32,
        0 <= py < 32,
    ensures
        match first_ray(px as int, py as int, 0) {
            Some(k) => r is Some && (r->0).0 == k && (r->0).1 == ray_perp(px as int, py as int, k as int),
            None => r is None,
        },
        r is Some ==> 0 <= (r->0).1 <= 3600,
{
    let dx = 2 * px - 31;
    let dy = 2 * py - 31;
    let mut k: usize = 0;
    while k < 8
        invariant
            0 <= px < 32,
            0 <= py < 32,
            dx == off2(px as int),
            dy == off2(py as int),
            k <= 8,
            first_ray(px as int, py as int, 0) == first_ray(px as int, py as int, k as nat),
        decreases 8 - k,
    {
        let (rx, ry) = ray_dir(k);
        proof {
            lemma_ray_bounds(dx as int, dy as int, rx as int, ry as int);
        }
        let cross = dx * ry - dy * rx;
        let perp = if cross < 0 {
            -cross
        } else {
            cross
        };
        let proj = dx * rx + dy * ry;
        if perp <= 3600 && 18000 <= proj && proj <= 26000 {
            return Some((k, perp));
        }
        k = k + 1;
    }
    None
}

/// Alpha of a pixel on the body's rim.
fn rim_alpha(d4: i64) -> (a: u8)
    requires
        196 < d4 <= 256,
    ensures
        a as int == rim_alpha_from(d4 as int, 255),
{
    let mut a: i64 = 255;
    loop
        invariant
            196 < d4 <= 256,
            0 <= a <= 255,
            rim_alpha_from(d4 as int, a as nat) == rim_alpha_from(d4 as int, 255),
        decreases a,
    {
        let m = 2040 - a;
        assert(0 <= m * m <= 2040 * 2040 && 4 * (m * m) == 4 * m * m) by (nonlinear_arith)
            requires
                1785 <= m <= 2040,
        ;
        if a == 0 || 65025 * d4 <= 4 * (m * m) {
            return a as u8;
        }
        a = a - 1;
    }
}

/// Alpha of sun pixel (px, py), `None` where it stays transparent.
fn sun_alpha_at(px: i64, py: i64) -> (a: Option<u8>)
    requires
        0 <= px < 32,
        0 <= py < 32,
    ensures
        a == sun_alpha(px as int, py as int),
{
    let dx = 2 * px - 31;
    let dy = 2 * py - 31;
    assert(0 <= dx * dx <= 961) by (nonlinear_arith)
        requires
            -31 <= dx <= 31,
    ;
    assert(0 <= dy * dy <= 961) by (nonlinear_arith)
        requires
            -31 <= dy <= 31,
    ;
    let d = dx * dx + dy * dy;
    if d <= 256 {
        if d > 196 {
            Some(rim_alpha(d))
        } else {
            Some(255)
        }
    } else if 324 < d && d <= 676 {
        match find_ray(px, py) {
            Some((_k, perp)) => {
                if perp > 2000 {
                    Some(((3600 - perp) * 255 / 2000) as u8)
                } else {
                    Some(255)
                }
            },
            None => None,
        }
    } else {
        None
    }
}

/// Byte `i` of the sun icon in colour (r, g, b).
fn sun_byte(r: u8, g: u8, b: u8, i: usize) -> (v: u8)
    requires
        i < 4096,
    ensures
        v == rgba_byte(|x: int, y: int| sun_pixel(r, g, b, x, y), i as int),
{
    let p = i / 4;
    let px = (p % 32) as i64;
    let py = (p / 32) as i64;
    let c = i % 4;
    match sun_alpha_at(px, py) {
        Some(a) => {
            if c == 0 {
                r
            } else if c == 1 {
                g
            } else if c == 2 {
                b
            } else {
                a
            }
        },
        None => 0,
    }
}

/// The RGBA pixels of the sun icon in colour (r, g, b): a disc of radius 8
/// around (15.5, 15.5) with a soft rim, and eight rays between radius 9
/// and 13, 1.8 pixels wide on each side of their axis; everything else is
/// transparent black.
pub fn sun_icon_rgba(r: u8, g: u8, b: u8) -> (v: Vec<u8>)
    ensures
        v@.len() == 4096,
        forall|i: int|
            0 <= i < 4096 ==> #[trigger] v@[i] == rgba_byte(
                |x: int, y: int| sun_pixel(r, g, b, x, y),
                i,
            ),
{
    let mut v: Vec<u8> = Vec::new();
    let mut i: usize = 0;
    while i < 4096
        invariant
            i <= 4096,
            v@.len() == i,
            forall|j: int|
                0 <= j < i ==> #[trigger] v@[j] == rgba_byte(
                    |x: int, y: int| sun_pixel(r, g, b, x, y),
                    j,
                ),
        decreases 4096 - i,
    {
        let byte = sun_byte(r, g, b, i);
        v.push(byte);
        i = i + 1;
    }
    v
}

// ---------------------------------------------------------------- ico ----

/// Byte `i` (below 62) of the ICO file's fixed head, little-endian:
/// bytes 0..6 the directory (reserved 0, type 1 = icon, one image);
/// bytes 6..22 the image entry (32 x 32, no palette, 1 plane, 32 bits per
/// pixel, 4264 bytes of image data, found at offset 22);
/// bytes 22..62 the bitmap header (size 40, width 32, height 64 for colour
/// and mask together, 1 plane, 32 bits per pixel, the rest zero).
pub open spec fn ico_head_byte(i: int) -> u8 {
    if i == 2 || i == 4 || i == 10 || i == 34 {
        1
    } else if i == 6 || i == 7 || i == 12 || i == 26 || i == 36 {
        32
    } else if i == 14 {
        0xA8
    } else if i == 15 {
        0x10
    } else if i == 18 {
        22
    } else if i == 22 {
        40
    } else if i == 30 {
        64
    } else {
        0
    }
}

/// Where, in the RGBA buffer, colour-mask byte `j` of the ICO file comes
/// from: rows run bottom-up, and each pixel is stored blue, green, red,
/// alpha.
pub open spec fn ico_source_index(j: int) -> int {
    let p = j / 4;
    let y = 31 - p / 32;
    let x = p % 32;
    let c = j % 4;
    (y * 32 + x) * 4 + bgra_slot(c)
}

/// Position, within a stored pixel, of RGBA channel `c`: pixels are stored
/// blue, green, red, alpha.
pub open spec fn bgra_slot(c: int) -> int {
    if c == 0 {
        2
    } else if c == 1 {
        1
    } else if c == 2 {
        0
    } else {
        3
    }
}

/// Byte `i` of the ICO file made from the RGBA buffer `rgba`: the head,
/// then the colour mask, then an all-zero transparency mask of 128 bytes.
pub open spec fn ico_byte(rgba: Seq<u8>, i: int) -> u8 {
    if i < 62 {
        ico_head_byte(i)
    } else if i < 62 + 4096 {
        rgba[ico_source_index(i - 62)]
    } else {
        0
    }
}

fn ico_head_at(i: usize) -> (b: u8)
    requires
        i < 62,
    ensures
        b == ico_head_byte(i as int),
{
    if i == 2 || i == 4 || i == 10 || i == 34 {
        1
    } else if i == 6 || i == 7 || i == 12 || i == 26 || i == 36 {
        32
    } else if i == 14 {
        0xA8
    } else if i == 15 {
        0x10
    } else if i == 18 {
        22
    } else if i == 22 {
        40
    } else if i == 30 {
        64
    } else {
        0
    }
}

/// Encodes a 32 x 32 RGBA buffer as a single-image ICO file with a 32-bit
/// BMP payload.
pub fn ico_from_rgba(rgba: &Vec<u8>) -> (v: Vec<u8>)
    requires
        rgba@.len() == 4096,
    ensures
        v@.len() == 4286,
        forall|i: int| 0 <= i < 4286 ==> #[trigger] v@[i] == ico_byte(rgba@, i),
{
    let mut v: Vec<u8> = Vec::new();
    let mut i: usize = 0;
    while i < 4286
        invariant
            rgba@.len() == 4096,
            i <= 4286,
            v@.len() == i,
            forall|j: int| 0 <= j < i ==> #[trigger] v@[j] == ico_byte(rgba@, j),
        decreases 4286 - i,
    {
        let byte = if i < 62 {
            ico_head_at(i)
        } else if i < 62 + 4096 {
            let j = i - 62;
            let p = j / 4;
            let y = 31 - p / 32;
            let x = p % 32;
            let c = j % 4;
            let base = (y * 32 + x) * 4;
            if c == 0 {
                rgba[base + 2]
            } else if c == 1 {
                rgba[base + 1]
            } else if c == 2 {
                rgba[base]
            } else {
                rgba[base + 3]
            }
        } else {
            0
        };
        v.push(byte);
        i = i + 1;
    }
    v
}

/// The program icon: the sun in orange (255, 183, 77), as an ICO file.
pub fn sun_ico() -> (v: Vec<u8>)
    ensures
        v@.len() == 4286,
        forall|i: int|
            0 <= i < 4286 ==> #[trigger] v@[i] == ico_byte(
                Seq::new(4096, |j: int| rgba_byte(|x: int, y: int| sun_pixel(255, 183, 77, x, y), j)),
                i,
            ),
{
    let rgba = sun_icon_rgba(255, 183, 77);
    assert(rgba@ =~= Seq::new(
        4096,
        |j: int| rgba_byte(|x: int, y: int| sun_pixel(255, 183, 77, x, y), j),
    ));
    ico_from_rgba(&rgba)
}

/// Reading the ICO file back: colour channel `c` (red, green, blue,
/// alpha) of pixel (x, y) sits in the colour mask at the pixel's
/// bottom-up position, in blue-green-red-alpha order, and equals the
/// channel of the RGBA buffer it was made from.
pub proof fn ico_pixel_roundtrip(rgba: Seq<u8>, x: int, y: int, c: int)
    requires
        rgba.len() == 4096,
        0 <= x < 32,
        0 <= y < 32,
        0 <= c < 4,
    ensures
        ico_byte(
            rgba,
            62 + ((31 - y) * 32 + x) * 4 + bgra_slot(c),
        ) == rgba[(y * 32 + x) * 4 + c],
{
    let k = bgra_slot(c);
    let p = (31 - y) * 32 + x;
    let j = p * 4 + k;
    lemma_fundamental_div_mod_converse(j, 4, p, k);
    lemma_fundamental_div_mod_converse(p, 32, 31 - y, x);
    assert(62 + ((31 - y) * 32 + x) * 4 + k - 62 == j);
}

} // verus!
