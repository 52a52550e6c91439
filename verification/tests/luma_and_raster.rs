use matchclick::luma::{rgba_to_luma, LUMA_SCALE};
use matchclick::raster::{rgba_to_luma_raster, RgbaRaster};

#[test]
fn transparent_pixel_is_black() {
    assert_eq!(rgba_to_luma(255, 255, 255, 0), 0);
    assert_eq!(rgba_to_luma(1, 2, 3, 0), 0);
    assert_eq!(rgba_to_luma(0, 0, 0, 0), 0);
}

#[test]
fn luma_of_opaque_white_is_full_scale() {
    assert_eq!(rgba_to_luma(255, 255, 255, 255), LUMA_SCALE);
}

#[test]
fn luma_exact_values() {
    // (299*r + 587*g + 114*b) * a
    assert_eq!(rgba_to_luma(255, 0, 0, 255), 299 * 255 * 255);
    assert_eq!(rgba_to_luma(0, 255, 0, 255), 587 * 255 * 255);
    assert_eq!(rgba_to_luma(0, 0, 255, 255), 114 * 255 * 255);
    assert_eq!(rgba_to_luma(10, 20, 30, 128), (299 * 10 + 587 * 20 + 114 * 30) * 128);
}

#[test]
fn luma_is_deterministic() {
    for _ in 0..3 {
        assert_eq!(rgba_to_luma(17, 93, 201, 64), rgba_to_luma(17, 93, 201, 64));
    }
}

#[test]
fn raster_conversion_is_pixelwise() {
    let img = RgbaRaster {
        width: 2,
        height: 2,
        pixels: vec![
            255, 0, 0, 255, // red
            0, 255, 0, 255, // green
            0, 0, 255, 255, // blue
            9, 9, 9, 0, // transparent
        ],
    };
    let luma = rgba_to_luma_raster(&img);
    assert_eq!(luma.width, 2);
    assert_eq!(luma.height, 2);
    assert_eq!(
        luma.data,
        vec![299 * 255 * 255, 587 * 255 * 255, 114 * 255 * 255, 0]
    );
}
