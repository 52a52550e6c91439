use matchclick::raster::LumaRaster;
use matchclick::templates::{template_name, LoadOutcome, TemplateLibrary};

fn png_bytes(pixels: &[(u8, u8, u8, u8)], width: u32, height: u32) -> Vec<u8> {
    let mut img = image::RgbaImage::new(width, height);
    let mut i = 0;
    for y in 0..height {
        for x in 0..width {
            let (r, g, b, a) = pixels[i];
            img.put_pixel(x, y, image::Rgba([r, g, b, a]));
            i += 1;
        }
    }
    let mut bytes: Vec<u8> = Vec::new();
    img.write_to(&mut std::io::Cursor::new(&mut bytes), image::ImageFormat::Png)
        .unwrap();
    bytes
}

#[test]
fn template_names_follow_the_extension_rule() {
    assert_eq!(template_name("a.png"), Some("a".to_string()));
    assert_eq!(template_name("button.jpg"), Some("button".to_string()));
    assert_eq!(template_name("icon.jpeg"), Some("icon".to_string()));
    assert_eq!(template_name("b.c.png"), Some("b.c".to_string()));
    // Case-sensitive, as the loader has always matched extensions.
    assert_eq!(template_name("a.PNG"), None);
    assert_eq!(template_name("notes.txt"), None);
    assert_eq!(template_name("noext"), None);
    assert_eq!(template_name(".png"), None);
    assert_eq!(template_name("a."), None);
    assert_eq!(template_name(""), None);
}

#[test]
fn loading_a_png_adds_its_luminance_raster() {
    let bytes = png_bytes(&[(255, 0, 0, 255), (9, 9, 9, 0)], 2, 1);
    let mut lib = TemplateLibrary::new();
    let outcome = lib.load_template("red.png", &bytes);
    assert!(matches!(outcome, LoadOutcome::Added));
    assert_eq!(lib.len(), 1);
    let entry = &lib.entries[0];
    assert_eq!(entry.0, "red");
    assert_eq!(entry.1.width, 2);
    assert_eq!(entry.1.height, 1);
    // Red opaque pixel and a fully transparent one.
    assert_eq!(entry.1.data, vec![299 * 255 * 255, 0]);
}

#[test]
fn undecodable_bytes_are_skipped() {
    let mut lib = TemplateLibrary::new();
    let outcome = lib.load_template("broken.png", &vec![1, 2, 3, 4, 5]);
    assert!(matches!(outcome, LoadOutcome::DecodeFailed));
    assert_eq!(lib.len(), 0);
}

#[test]
fn non_template_files_are_ignored() {
    let mut lib = TemplateLibrary::new();
    let outcome = lib.load_template("readme.md", &vec![1, 2, 3]);
    assert!(matches!(outcome, LoadOutcome::NotATemplate));
    assert_eq!(lib.len(), 0);
}

#[test]
fn same_base_name_keeps_one_entry_last_wins() {
    // Two files sharing the stem "a": exactly one entry remains, the
    // later file's image.
    let first = png_bytes(&[(255, 255, 255, 255)], 1, 1);
    let mut jpg: Vec<u8> = Vec::new();
    let mut img = image::RgbaImage::new(1, 1);
    img.put_pixel(0, 0, image::Rgba([0, 0, 0, 255]));
    image::DynamicImage::ImageRgba8(img)
        .to_rgb8()
        .write_to(&mut std::io::Cursor::new(&mut jpg), image::ImageFormat::Jpeg)
        .unwrap();
    let mut lib = TemplateLibrary::new();
    assert!(matches!(lib.load_template("a.png", &first), LoadOutcome::Added));
    assert!(matches!(lib.load_template("a.jpg", &jpg), LoadOutcome::Added));
    assert_eq!(lib.len(), 1);
    let entry = &lib.entries[0];
    assert_eq!(entry.0, "a");
    // The surviving raster is the jpg's, as a reference decode shows.
    let reference = image::load_from_memory(&jpg).unwrap().to_rgba8();
    let p = reference.get_pixel(0, 0);
    let expected =
        (299 * p[0] as u32 + 587 * p[1] as u32 + 114 * p[2] as u32) * p[3] as u32;
    assert_eq!(entry.1.data, vec![expected]);
}

#[test]
fn insert_overwrites_by_name() {
    let mut lib = TemplateLibrary::new();
    lib.insert("x".to_string(), LumaRaster { width: 1, height: 1, data: vec![7] });
    lib.insert("y".to_string(), LumaRaster { width: 1, height: 1, data: vec![8] });
    lib.insert("x".to_string(), LumaRaster { width: 1, height: 1, data: vec![9] });
    assert_eq!(lib.len(), 2);
    let x = lib.entries.iter().find(|e| e.0 == "x").unwrap();
    assert_eq!(x.1.data, vec![9]);
}
