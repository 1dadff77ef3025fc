//! The sun icon's symmetry: it is centred, so mirroring it left to right,
//! top to bottom or about its main diagonal changes no pixel.

use vstd::prelude::*;
use crate::icon::{on_ray, ray_perp, ray_proj, off2, abs, first_ray, dist4, sun_alpha, sun_pixel};

verus! {

/// Ray that ray `k` becomes when the image is mirrored left to right.
pub open spec fn mirror_x_ray(k: int) -> int {
    if k == 0 { 4 } else if k == 1 { 3 } else if k == 2 { 2 } else if k == 3 { 1 }
    else if k == 4 { 0 } else if k == 5 { 7 } else if k == 6 { 6 } else { 5 }
}

/// Ray that ray `k` becomes when the image is mirrored top to bottom.
pub open spec fn mirror_y_ray(k: int) -> int {
    if k == 0 { 0 } else if k == 1 { 7 } else if k == 2 { 6 } else if k == 3 { 5 }
    else if k == 4 { 4 } else if k == 5 { 3 } else if k == 6 { 2 } else { 1 }
}

/// Ray that ray `k` becomes when the image is mirrored about its diagonal.
pub open spec fn swap_ray(k: int) -> int {
    if k == 0 { 2 } else if k == 1 { 1 } else if k == 2 { 0 } else if k == 3 { 7 }
    else if k == 4 { 6 } else if k == 5 { 5 } else if k == 6 { 4 } else { 3 }
}

/// Where pixel (px, py) goes under mirror `t`: 0 left to right, 1 top to
/// bottom, 2 about the main diagonal.
pub open spec fn mirror_pixel(t: int, px: int, py: int) -> (int, int) {
    if t == 0 { (31 - px, py) } else if t == 1 { (px, 31 - py) } else { (py, px) }
}

/// The ray that ray `k` becomes under mirror `t`.
pub open spec fn mirror_ray(t: int, k: int) -> int {
    if t == 0 { mirror_x_ray(k) } else if t == 1 { mirror_y_ray(k) } else { swap_ray(k) }
}

proof fn lemma_mirror_lr(px: int, py: int, k: int)
    requires
        0 <= px < 32,
        0 <= py < 32,
        0 <= k < 8,
    ensures
        0 <= mirror_ray(0, k) < 8,
        mirror_ray(0, mirror_ray(0, k)) == k,
        on_ray(px, py, k) == on_ray(31 - px, py, mirror_ray(0, k)),
        ray_perp(px, py, k) == ray_perp(31 - px, py, mirror_ray(0, k)),
{
    if k == 0 {
        assert(ray_perp(px, py, 0) == abs(off2(px) * 0 - off2(py) * 1000));
        assert(ray_proj(px, py, 0) == off2(px) * 1000 + off2(py) * 0);
        assert(ray_perp(31 - px, py, 4) == abs(off2(31 - px) * 0 - off2(py) * (-1000)));
        assert(ray_proj(31 - px, py, 4) == off2(31 - px) * (-1000) + off2(py) * 0);
        assert(on_ray(31 - px, py, 4) == on_ray(px, py, k));
    } else if k == 1 {
        assert(ray_perp(px, py, 1) == abs(off2(px) * 707 - off2(py) * 707));
        assert(ray_proj(px, py, 1) == off2(px) * 707 + off2(py) * 707);
        assert(ray_perp(31 - px, py, 3) == abs(off2(31 - px) * 707 - off2(py) * (-707)));
        assert(ray_proj(31 - px, py, 3) == off2(31 - px) * (-707) + off2(py) * 707);
        assert(on_ray(31 - px, py, 3) == on_ray(px, py, k));
    } else if k == 2 {
        assert(ray_perp(px, py, 2) == abs(off2(px) * 1000 - off2(py) * 0));
        assert(ray_proj(px, py, 2) == off2(px) * 0 + off2(py) * 1000);
        assert(ray_perp(31 - px, py, 2) == abs(off2(31 - px) * 1000 - off2(py) * 0));
        assert(ray_proj(31 - px, py, 2) == off2(31 - px) * 0 + off2(py) * 1000);
        assert(on_ray(31 - px, py, 2) == on_ray(px, py, k));
    } else if k == 3 {
        assert(ray_perp(px, py, 3) == abs(off2(px) * 707 - off2(py) * (-707)));
        assert(ray_proj(px, py, 3) == off2(px) * (-707) + off2(py) * 707);
        assert(ray_perp(31 - px, py, 1) == abs(off2(31 - px) * 707 - off2(py) * 707));
        assert(ray_proj(31 - px, py, 1) == off2(31 - px) * 707 + off2(py) * 707);
        assert(on_ray(31 - px, py, 1) == on_ray(px, py, k));
    } else if k == 4 {
        assert(ray_perp(px, py, 4) == abs(off2(px) * 0 - off2(py) * (-1000)));
        assert(ray_proj(px, py, 4) == off2(px) * (-1000) + off2(py) * 0);
        assert(ray_perp(31 - px, py, 0) == abs(off2(31 - px) * 0 - off2(py) * 1000));
        assert(ray_proj(31 - px, py, 0) == off2(31 - px) * 1000 + off2(py) * 0);
        assert(on_ray(31 - px, py, 0) == on_ray(px, py, k));
    } else if k == 5 {
        assert(ray_perp(px, py, 5) == abs(off2(px) * (-707) - off2(py) * (-707)));
        assert(ray_proj(px, py, 5) == off2(px) * (-707) + off2(py) * (-707));
        assert(ray_perp(31 - px, py, 7) == abs(off2(31 - px) * (-707) - off2(py) * 707));
        assert(ray_proj(31 - px, py, 7) == off2(31 - px) * 707 + off2(py) * (-707));
        assert(on_ray(31 - px, py, 7) == on_ray(px, py, k));
    } else if k == 6 {
        assert(ray_perp(px, py, 6) == abs(off2(px) * (-1000) - off2(py) * 0));
        assert(ray_proj(px, py, 6) == off2(px) * 0 + off2(py) * (-1000));
        assert(ray_perp(31 - px, py, 6) == abs(off2(31 - px) * (-1000) - off2(py) * 0));
        assert(ray_proj(31 - px, py, 6) == off2(31 - px) * 0 + off2(py) * (-1000));
        assert(on_ray(31 - px, py, 6) == on_ray(px, py, k));
    } else if k == 7 {
        assert(ray_perp(px, py, 7) == abs(off2(px) * (-707) - off2(py) * 707));
        assert(ray_proj(px, py, 7) == off2(px) * 707 + off2(py) * (-707));
        assert(ray_perp(31 - px, py, 5) == abs(off2(31 - px) * (-707) - off2(py) * (-707)));
        assert(ray_proj(31 - px, py, 5) == off2(31 - px) * (-707) + off2(py) * (-707));
        assert(on_ray(31 - px, py, 5) == on_ray(px, py, k));
    }
}

proof fn lemma_mirror_tb(px: int, py: int, k: int)
    requires
        0 <= px < 32,
        0 <= py < 32,
        0 <= k < 8,
    ensures
        0 <= mirror_ray(1, k) < 8,
        mirror_ray(1, mirror_ray(1, k)) == k,
        on_ray(px, py, k) == on_ray(px, 31 - py, mirror_ray(1, k)),
        ray_perp(px, py, k) == ray_perp(px, 31 - py, mirror_ray(1, k)),
{
    if k == 0 {
        assert(ray_perp(px, py, 0) == abs(off2(px) * 0 - off2(py) * 1000));
        assert(ray_proj(px, py, 0) == off2(px) * 1000 + off2(py) * 0);
        assert(ray_perp(px, 31 - py, 0) == abs(off2(px) * 0 - off2(31 - py) * 1000));
        assert(ray_proj(px, 31 - py, 0) == off2(px) * 1000 + off2(31 - py) * 0);
        assert(on_ray(px, 31 - py, 0) == on_ray(px, py, k));
    } else if k == 1 {
        assert(ray_perp(px, py, 1) == abs(off2(px) * 707 - off2(py) * 707));
        assert(ray_proj(px, py, 1) == off2(px) * 707 + off2(py) * 707);
        assert(ray_perp(px, 31 - py, 7) == abs(off2(px) * (-707) - off2(31 - py) * 707));
        assert(ray_proj(px, 31 - py, 7) == off2(px) * 707 + off2(31 - py) * (-707));
        assert(on_ray(px, 31 - py, 7) == on_ray(px, py, k));
    } else if k == 2 {
        assert(ray_perp(px, py, 2) == abs(off2(px) * 1000 - off2(py) * 0));
        assert(ray_proj(px, py, 2) == off2(px) * 0 + off2(py) * 1000);
        assert(ray_perp(px, 31 - py, 6) == abs(off2(px) * (-1000) - off2(31 - py) * 0));
        assert(ray_proj(px, 31 - py, 6) == off2(px) * 0 + off2(31 - py) * (-1000));
        assert(on_ray(px, 31 - py, 6) == on_ray(px, py, k));
    } else if k == 3 {
        assert(ray_perp(px, py, 3) == abs(off2(px) * 707 - off2(py) * (-707)));
        assert(ray_proj(px, py, 3) == off2(px) * (-707) + off2(py) * 707);
        assert(ray_perp(px, 31 - py, 5) == abs(off2(px) * (-707) - off2(31 - py) * (-707)));
        assert(ray_proj(px, 31 - py, 5) == off2(px) * (-707) + off2(31 - py) * (-707));
        assert(on_ray(px, 31 - py, 5) == on_ray(px, py, k));
    } else if k == 4 {
        assert(ray_perp(px, py, 4) == abs(off2(px) * 0 - off2(py) * (-1000)));
        assert(ray_proj(px, py, 4) == off2(px) * (-1000) + off2(py) * 0);
        assert(ray_perp(px, 31 - py, 4) == abs(off2(px) * 0 - off2(31 - py) * (-1000)));
        assert(ray_proj(px, 31 - py, 4) == off2(px) * (-1000) + off2(31 - py) * 0);
        assert(on_ray(px, 31 - py, 4) == on_ray(px, py, k));
    } else if k == 5 {
        assert(ray_perp(px, py, 5) == abs(off2(px) * (-707) - off2(py) * (-707)));
        assert(ray_proj(px, py, 5) == off2(px) * (-707) + off2(py) * (-707));
        assert(ray_perp(px, 31 - py, 3) == abs(off2(px) * 707 - off2(31 - py) * (-707)));
        assert(ray_proj(px, 31 - py, 3) == off2(px) * (-707) + off2(31 - py) * 707);
        assert(on_ray(px, 31 - py, 3) == on_ray(px, py, k));
    } else if k == 6 {
        assert(ray_perp(px, py, 6) == abs(off2(px) * (-1000) - off2(py) * 0));
        assert(ray_proj(px, py, 6) == off2(px) * 0 + off2(py) * (-1000));
        assert(ray_perp(px, 31 - py, 2) == abs(off2(px) * 1000 - off2(31 - py) * 0));
        assert(ray_proj(px, 31 - py, 2) == off2(px) * 0 + off2(31 - py) * 1000);
        assert(on_ray(px, 31 - py, 2) == on_ray(px, py, k));
    } else if k == 7 {
        assert(ray_perp(px, py, 7) == abs(off2(px) * (-707) - off2(py) * 707));
        assert(ray_proj(px, py, 7) == off2(px) * 707 + off2(py) * (-707));
        assert(ray_perp(px, 31 - py, 1) == abs(off2(px) * 707 - off2(31 - py) * 707));
        assert(ray_proj(px, 31 - py, 1) == off2(px) * 707 + off2(31 - py) * 707);
        assert(on_ray(px, 31 - py, 1) == on_ray(px, py, k));
    }
}

proof fn lemma_mirror_diag(px: int, py: int, k: int)
    requires
        0 <= px < 32,
        0 <= py < 32,
        0 <= k < 8,
    ensures
        0 <= mirror_ray(2, k) < 8,
        mirror_ray(2, mirror_ray(2, k)) == k,
        on_ray(px, py, k) == on_ray(py, px, mirror_ray(2, k)),
        ray_perp(px, py, k) == ray_perp(py, px, mirror_ray(2, k)),
{
    if k == 0 {
        assert(ray_perp(px, py, 0) == abs(off2(px) * 0 - off2(py) * 1000));
        assert(ray_proj(px, py, 0) == off2(px) * 1000 + off2(py) * 0);
        assert(ray_perp(py, px, 2) == abs(off2(py) * 1000 - off2(px) * 0));
        assert(ray_proj(py, px, 2) == off2(py) * 0 + off2(px) * 1000);
        assert(on_ray(py, px, 2) == on_ray(px, py, k));
    } else if k == 1 {
        assert(ray_perp(px, py, 1) == abs(off2(px) * 707 - off2(py) * 707));
        assert(ray_proj(px, py, 1) == off2(px) * 707 + off2(py) * 707);
        assert(ray_perp(py, px, 1) == abs(off2(py) * 707 - off2(px) * 707));
        assert(ray_proj(py, px, 1) == off2(py) * 707 + off2(px) * 707);
        assert(on_ray(py, px, 1) == on_ray(px, py, k));
    } else if k == 2 {
        assert(ray_perp(px, py, 2) == abs(off2(px) * 1000 - off2(py) * 0));
        assert(ray_proj(px, py, 2) == off2(px) * 0 + off2(py) * 1000);
        assert(ray_perp(py, px, 0) == abs(off2(py) * 0 - off2(px) * 1000));
        assert(ray_proj(py, px, 0) == off2(py) * 1000 + off2(px) * 0);
        assert(on_ray(py, px, 0) == on_ray(px, py, k));
    } else if k == 3 {
        assert(ray_perp(px, py, 3) == abs(off2(px) * 707 - off2(py) * (-707)));
        assert(ray_proj(px, py, 3) == off2(px) * (-707) + off2(py) * 707);
        assert(ray_perp(py, px, 7) == abs(off2(py) * (-707) - off2(px) * 707));
        assert(ray_proj(py, px, 7) == off2(py) * 707 + off2(px) * (-707));
        assert(on_ray(py, px, 7) == on_ray(px, py, k));
    } else if k == 4 {
        assert(ray_perp(px, py, 4) == abs(off2(px) * 0 - off2(py) * (-1000)));
        assert(ray_proj(px, py, 4) == off2(px) * (-1000) + off2(py) * 0);
        assert(ray_perp(py, px, 6) == abs(off2(py) * (-1000) - off2(px) * 0));
        assert(ray_proj(py, px, 6) == off2(py) * 0 + off2(px) * (-1000));
        assert(on_ray(py, px, 6) == on_ray(px, py, k));
    } else if k == 5 {
        assert(ray_perp(px, py, 5) == abs(off2(px) * (-707) - off2(py) * (-707)));
        assert(ray_proj(px, py, 5) == off2(px) * (-707) + off2(py) * (-707));
        assert(ray_perp(py, px, 5) == abs(off2(py) * (-707) - off2(px) * (-707)));
        assert(ray_proj(py, px, 5) == off2(py) * (-707) + off2(px) * (-707));
        assert(on_ray(py, px, 5) == on_ray(px, py, k));
    } else if k == 6 {
        assert(ray_perp(px, py, 6) == abs(off2(px) * (-1000) - off2(py) * 0));
        assert(ray_proj(px, py, 6) == off2(px) * 0 + off2(py) * (-1000));
        assert(ray_perp(py, px, 4) == abs(off2(py) * 0 - off2(px) * (-1000)));
        assert(ray_proj(py, px, 4) == off2(py) * (-1000) + off2(px) * 0);
        assert(on_ray(py, px, 4) == on_ray(px, py, k));
    } else if k == 7 {
        assert(ray_perp(px, py, 7) == abs(off2(px) * (-707) - off2(py) * 707));
        assert(ray_proj(px, py, 7) == off2(px) * 707 + off2(py) * (-707));
        assert(ray_perp(py, px, 3) == abs(off2(py) * 707 - off2(px) * (-707)));
        assert(ray_proj(py, px, 3) == off2(py) * (-707) + off2(px) * 707);
        assert(on_ray(py, px, 3) == on_ray(px, py, k));
    }
}

pub(crate) proof fn lemma_one_ray(px: int, py: int, k: int, j: int)
    requires
        0 <= px < 32,
        0 <= py < 32,
        0 <= k < 8,
        0 <= j < 8,
        k != j,
        on_ray(px, py, k),
    ensures
        !on_ray(px, py, j),
{
}

proof fn lemma_mirror(t: int, px: int, py: int, k: int)
    requires
        0 <= t < 3,
        0 <= px < 32,
        0 <= py < 32,
        0 <= k < 8,
    ensures
        0 <= mirror_pixel(t, px, py).0 < 32,
        0 <= mirror_pixel(t, px, py).1 < 32,
        mirror_pixel(t, mirror_pixel(t, px, py).0, mirror_pixel(t, px, py).1) == (px, py),
        0 <= mirror_ray(t, k) < 8,
        mirror_ray(t, mirror_ray(t, k)) == k,
        on_ray(px, py, k) == on_ray(mirror_pixel(t, px, py).0, mirror_pixel(t, px, py).1, mirror_ray(t, k)),
        ray_perp(px, py, k) == ray_perp(mirror_pixel(t, px, py).0, mirror_pixel(t, px, py).1, mirror_ray(t, k)),
{
    if t == 0 {
        lemma_mirror_lr(px, py, k);
    } else if t == 1 {
        lemma_mirror_tb(px, py, k);
    } else {
        lemma_mirror_diag(px, py, k);
    }
}

pub(crate) proof fn lemma_first_ray_found(px: int, py: int, k: nat, start: nat)
    requires
        0 <= px < 32,
        0 <= py < 32,
        k < 8,
        start <= k,
        on_ray(px, py, k as int),
    ensures
        first_ray(px, py, start) == Some(k),
    decreases k - start,
{
    if start < k {
        lemma_one_ray(px, py, k as int, start as int);
        lemma_first_ray_found(px, py, k, start + 1);
    }
}

pub(crate) proof fn lemma_first_ray_none(px: int, py: int, start: nat)
    requires
        forall|j: int| 0 <= j < 8 ==> !#[trigger] on_ray(px, py, j),
    ensures
        first_ray(px, py, start) is None,
    decreases 8 - start,
{
    if start < 8 {
        lemma_first_ray_none(px, py, start + 1);
    }
}

proof fn lemma_sun_alpha_mirror(t: int, px: int, py: int)
    requires
        0 <= t < 3,
        0 <= px < 32,
        0 <= py < 32,
    ensures
        sun_alpha(px, py) == sun_alpha(mirror_pixel(t, px, py).0, mirror_pixel(t, px, py).1),
{
    let qx = mirror_pixel(t, px, py).0;
    let qy = mirror_pixel(t, px, py).1;
    lemma_mirror(t, px, py, 0);
    assert(dist4(px, py) == dist4(qx, qy)) by {
        let a = off2(px);
        let b = off2(py);
        assert((-a) * (-a) == a * a) by (nonlinear_arith);
        assert((-b) * (-b) == b * b) by (nonlinear_arith);
        assert(a * a + b * b == b * b + a * a);
    }
    if exists|k: int| 0 <= k < 8 && #[trigger] on_ray(px, py, k) {
        let k = choose|k: int| 0 <= k < 8 && #[trigger] on_ray(px, py, k);
        lemma_mirror(t, px, py, k);
        lemma_first_ray_found(px, py, k as nat, 0);
        lemma_first_ray_found(qx, qy, mirror_ray(t, k) as nat, 0);
    } else {
        lemma_first_ray_none(px, py, 0);
        assert forall|j: int| 0 <= j < 8 implies !#[trigger] on_ray(qx, qy, j) by {
            lemma_mirror(t, qx, qy, j);
            lemma_mirror(t, px, py, 0);
        }
        lemma_first_ray_none(qx, qy, 0);
    }
}

/// The sun is centred: mirroring the image left to right, top to bottom,
/// or about its main diagonal leaves every pixel unchanged.
pub proof fn sun_is_symmetric(r: u8, g: u8, b: u8, px: int, py: int)
    requires
        0 <= px < 32,
        0 <= py < 32,
    ensures
        sun_pixel(r, g, b, px, py) == sun_pixel(r, g, b, 31 - px, py),
        sun_pixel(r, g, b, px, py) == sun_pixel(r, g, b, px, 31 - py),
        sun_pixel(r, g, b, px, py) == sun_pixel(r, g, b, py, px),
{
    lemma_sun_alpha_mirror(0, px, py);
    lemma_sun_alpha_mirror(1, px, py);
    lemma_sun_alpha_mirror(2, px, py);
}

} // verus!
