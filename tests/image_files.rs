use cursor_shapes::{analyze_cursor_bytes, CommonCursorType};

fn png_of(img: &image::RgbaImage) -> Vec<u8> {
    let mut out = std::io::Cursor::new(Vec::new());
    img.write_to(&mut out, image::ImageFormat::Png).unwrap();
    out.into_inner()
}

#[test]
fn text_content_is_no_image() {
    assert_eq!(analyze_cursor_bytes(b"just some text, not an image\n"), None);
    assert_eq!(analyze_cursor_bytes(&[]), None);
}

#[test]
fn decoded_border_image_is_diagonal_resize() {
    let mut img = image::RgbaImage::new(32, 32);
    for y in 0..32 {
        for x in 0..32 {
            if x == 0 || y == 0 || x == 31 || y == 31 {
                img.put_pixel(x, y, image::Rgba([0, 0, 0, 255]));
            }
        }
    }
    assert_eq!(analyze_cursor_bytes(&png_of(&img)), Some(CommonCursorType::ResizeNWSE));
}

#[test]
fn decoded_top_left_block_is_arrow() {
    let mut img = image::RgbaImage::new(30, 30);
    for y in 0..10 {
        for x in 0..10 {
            img.put_pixel(x, y, image::Rgba([255, 255, 255, 255]));
        }
    }
    assert_eq!(analyze_cursor_bytes(&png_of(&img)), Some(CommonCursorType::Arrow));
}

#[test]
fn decoded_transparent_image_is_undetected() {
    let img = image::RgbaImage::new(32, 32);
    assert_eq!(analyze_cursor_bytes(&png_of(&img)), None);
}

#[test]
fn corrupt_png_is_no_image() {
    let mut img = image::RgbaImage::new(8, 8);
    img.put_pixel(0, 0, image::Rgba([1, 2, 3, 255]));
    let bytes = png_of(&img);
    assert_eq!(analyze_cursor_bytes(&bytes[..bytes.len() / 2]), None);
}

#[test]
fn decoded_jpeg_column_is_ibeam() {
    // A JPEG has no alpha channel, so every decoded pixel is opaque.
    let img = image::RgbImage::from_pixel(6, 30, image::Rgb([40, 40, 40]));
    let mut out = std::io::Cursor::new(Vec::new());
    img.write_to(&mut out, image::ImageFormat::Jpeg).unwrap();
    assert_eq!(analyze_cursor_bytes(&out.into_inner()), Some(CommonCursorType::IBeam));
}
