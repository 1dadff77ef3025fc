use keep_awake::icon::{ico_from_rgba, sun_icon_rgba, sun_ico, ICO_LEN, ICO_PIXELS_AT, RGBA_LEN};

/// The sun drawn with floating-point geometry: distance by square root,
/// diagonal rays at 0.707, alpha truncated from 255 times the distance to
/// the edge.
fn float_sun(r: u8, g: u8, b: u8) -> Vec<u8> {
    let size = 32u32;
    let cx = 15.5;
    let cy = 15.5;
    let mut rgba = vec![0u8; (size * size * 4) as usize];
    let rays: [(f64, f64); 8] = [
        (1.0, 0.0),
        (0.707, 0.707),
        (0.0, 1.0),
        (-0.707, 0.707),
        (-1.0, 0.0),
        (-0.707, -0.707),
        (0.0, -1.0),
        (0.707, -0.707),
    ];
    for py in 0..size {
        for px in 0..size {
            let dx = px as f64 - cx;
            let dy = py as f64 - cy;
            let dist = (dx * dx + dy * dy).sqrt();
            let idx = ((py * size + px) * 4) as usize;
            if dist <= 8.0 {
                let edge = dist > 7.0;
                let alpha = if edge { ((8.0 - dist).max(0.0) * 255.0) as u8 } else { 255 };
                rgba[idx] = r;
                rgba[idx + 1] = g;
                rgba[idx + 2] = b;
                rgba[idx + 3] = alpha;
                continue;
            }
            if dist > 9.0 && dist <= 13.0 {
                for (rx, ry) in &rays {
                    let perp = (dx * ry - dy * rx).abs();
                    let proj = dx * rx + dy * ry;
                    if perp <= 1.8 && proj >= 9.0 && proj <= 13.0 {
                        let edge = perp > 1.0;
                        let alpha = if edge { ((1.8 - perp).max(0.0) * 255.0) as u8 } else { 255 };
                        rgba[idx] = r;
                        rgba[idx + 1] = g;
                        rgba[idx + 2] = b;
                        rgba[idx + 3] = alpha;
                        break;
                    }
                }
            }
        }
    }
    rgba
}

/// An ICO file packed field by field.
fn packed_ico(rgba: &[u8]) -> Vec<u8> {
    const W: u32 = 32;
    const H: u32 = 32;
    let bih_size = 40u32;
    let xor_size = W * H * 4;
    let and_size = W * H / 8;
    let img_size = bih_size + xor_size + and_size;
    let mut buf = Vec::new();
    buf.extend_from_slice(&[0, 0, 1, 0, 1, 0]);
    buf.push(32);
    buf.push(32);
    buf.push(0);
    buf.push(0);
    buf.extend_from_slice(&[1, 0]);
    buf.extend_from_slice(&[32, 0]);
    buf.extend_from_slice(&img_size.to_le_bytes());
    buf.extend_from_slice(&22u32.to_le_bytes());
    buf.extend_from_slice(&bih_size.to_le_bytes());
    buf.extend_from_slice(&W.to_le_bytes());
    buf.extend_from_slice(&(H * 2).to_le_bytes());
    buf.extend_from_slice(&[1, 0]);
    buf.extend_from_slice(&[32, 0]);
    buf.extend_from_slice(&[0; 16]);
    buf.extend_from_slice(&[0; 8]);
    for y in (0..H).rev() {
        for x in 0..W {
            let src = ((y * W + x) * 4) as usize;
            buf.push(rgba[src + 2]);
            buf.push(rgba[src + 1]);
            buf.push(rgba[src]);
            buf.push(rgba[src + 3]);
        }
    }
    buf.extend(std::iter::repeat(0u8).take(and_size as usize));
    buf
}

#[test]
fn sun_matches_float_geometry_orange() {
    assert_eq!(sun_icon_rgba(255, 183, 77), float_sun(255, 183, 77));
}

#[test]
fn sun_matches_float_geometry_grey() {
    assert_eq!(sun_icon_rgba(158, 158, 158), float_sun(158, 158, 158));
}

#[test]
fn sun_matches_float_geometry_distinct_channels() {
    assert_eq!(sun_icon_rgba(1, 2, 3), float_sun(1, 2, 3));
}

#[test]
fn sun_has_expected_pixels() {
    let v = sun_icon_rgba(255, 183, 77);
    assert_eq!(v.len(), RGBA_LEN);
    // centre pixel: opaque body colour
    let c = (16 * 32 + 16) * 4;
    assert_eq!(&v[c..c + 4], &[255, 183, 77, 255]);
    // corner: transparent black
    assert_eq!(&v[0..4], &[0, 0, 0, 0]);
    // on the east ray, (27, 15): dx = 11.5, dy = -0.5
    let e = (15 * 32 + 27) * 4;
    assert_eq!(&v[e..e + 4], &[255, 183, 77, 255]);
    // rim of the body, (23, 15): dx = 7.5, dy = -0.5, distance ~7.5166
    let rim = (15 * 32 + 23) * 4;
    assert_eq!(v[rim + 3], 123);
    // edge of a ray, (27, 14): dy = -1.5, alpha floor(0.3 * 255) = 76
    let re = (14 * 32 + 27) * 4;
    assert_eq!(v[re + 3], 76);
    // gap between body and rays, (24, 15): distance ~8.51
    let gap = (15 * 32 + 24) * 4;
    assert_eq!(&v[gap..gap + 4], &[0, 0, 0, 0]);
}

#[test]
fn ico_matches_packed_layout() {
    let rgba = sun_icon_rgba(255, 183, 77);
    let ico = ico_from_rgba(&rgba);
    assert_eq!(ico.len(), ICO_LEN);
    assert_eq!(ico, packed_ico(&rgba));
}

#[test]
fn ico_of_arbitrary_pixels_matches_packed_layout() {
    let rgba: Vec<u8> = (0..4096u32).map(|i| (i * 7 % 251) as u8).collect();
    assert_eq!(ico_from_rgba(&rgba), packed_ico(&rgba));
}

#[test]
fn ico_header_fields() {
    let ico = sun_ico();
    assert_eq!(&ico[0..6], &[0, 0, 1, 0, 1, 0]);
    assert_eq!(&ico[6..10], &[32, 32, 0, 0]);
    assert_eq!(u32::from_le_bytes([ico[14], ico[15], ico[16], ico[17]]), 4264);
    assert_eq!(u32::from_le_bytes([ico[18], ico[19], ico[20], ico[21]]), 22);
    assert_eq!(u32::from_le_bytes([ico[22], ico[23], ico[24], ico[25]]), 40);
    assert_eq!(u32::from_le_bytes([ico[30], ico[31], ico[32], ico[33]]), 64);
    assert!(ico[ICO_LEN - 128..].iter().all(|&b| b == 0));
}

#[test]
fn ico_pixel_roundtrip_on_values() {
    let rgba: Vec<u8> = (0..4096u32).map(|i| (i % 256) as u8).collect();
    let ico = ico_from_rgba(&rgba);
    for (x, y) in [(0usize, 0usize), (31, 0), (0, 31), (5, 17), (31, 31)] {
        let stored = ICO_PIXELS_AT + ((31 - y) * 32 + x) * 4;
        let src = (y * 32 + x) * 4;
        assert_eq!(ico[stored], rgba[src + 2]);
        assert_eq!(ico[stored + 1], rgba[src + 1]);
        assert_eq!(ico[stored + 2], rgba[src]);
        assert_eq!(ico[stored + 3], rgba[src + 3]);
    }
}

#[test]
fn program_icon_is_orange_sun() {
    assert_eq!(sun_ico(), ico_from_rgba(&sun_icon_rgba(255, 183, 77)));
}

#[test]
fn sun_is_symmetric_on_all_pixels() {
    let v = sun_icon_rgba(10, 20, 30);
    let px = |x: usize, y: usize| &v[(y * 32 + x) * 4..(y * 32 + x) * 4 + 4];
    for y in 0..32 {
        for x in 0..32 {
            assert_eq!(px(x, y), px(31 - x, y));
            assert_eq!(px(x, y), px(x, 31 - y));
            assert_eq!(px(x, y), px(y, x));
        }
    }
}
