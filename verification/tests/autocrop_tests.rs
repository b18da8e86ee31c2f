use timg_rust::autocrop::{auto_crop, colors_similar, crop_border, detect_background_color};
use timg_rust::{Rgba, RgbaBuffer};

fn create_test_image_with_border(
    content_width: u32,
    content_height: u32,
    border: u32,
) -> RgbaBuffer {
    let total_width = content_width + 2 * border;
    let total_height = content_height + 2 * border;

    // Fill with white background
    let mut img = RgbaBuffer::from_pixel(
        total_width,
        total_height,
        Rgba { r: 255, g: 255, b: 255, a: 255 },
    );

    // Fill content area with red
    for y in border..(border + content_height) {
        for x in border..(border + content_width) {
            img.put_pixel(x, y, Rgba { r: 255, g: 0, b: 0, a: 255 });
        }
    }

    img
}

#[test]
fn test_colors_similar() {
    let c1 = Rgba { r: 100, g: 100, b: 100, a: 255 };
    let c2 = Rgba { r: 105, g: 95, b: 102, a: 255 };
    let c3 = Rgba { r: 150, g: 150, b: 150, a: 255 };

    assert!(colors_similar(c1, c2, 10));
    assert!(!colors_similar(c1, c3, 10));
}

#[test]
fn test_detect_background_color() {
    let img = create_test_image_with_border(10, 10, 5);
    let bg = detect_background_color(&img);
    assert_eq!(bg, Rgba { r: 255, g: 255, b: 255, a: 255 });
}

#[test]
fn test_auto_crop_with_border() {
    let img = create_test_image_with_border(10, 10, 5);
    let cropped = auto_crop(img);

    assert_eq!((cropped.width(), cropped.height()), (10, 10));
}

#[test]
fn test_auto_crop_no_border() {
    let img = RgbaBuffer::from_pixel(10, 10, Rgba { r: 255, g: 0, b: 0, a: 255 });
    let (w, h) = (img.width(), img.height());
    let cropped = auto_crop(img);

    assert_eq!((cropped.width(), cropped.height()), (w, h));
}

#[test]
fn test_crop_border() {
    let img = create_test_image_with_border(20, 20, 10);
    let cropped = crop_border(img, 10);

    assert_eq!((cropped.width(), cropped.height()), (20, 20));
}

#[test]
fn test_crop_border_too_large() {
    let img = create_test_image_with_border(10, 10, 5);
    let (w, h) = (img.width(), img.height());
    let cropped = crop_border(img, 50);

    // Should not crop if border is too large
    assert_eq!((cropped.width(), cropped.height()), (w, h));
}

#[test]
fn test_auto_crop_asymmetric_border() {
    // Create image with asymmetric border
    let mut img = RgbaBuffer::from_pixel(30, 20, Rgba { r: 255, g: 255, b: 255, a: 255 });
    // Content: 10x10 starting at (10, 5)
    for y in 5..15 {
        for x in 10..20 {
            img.put_pixel(x, y, Rgba { r: 0, g: 255, b: 0, a: 255 });
        }
    }

    let cropped = auto_crop(img);

    assert_eq!((cropped.width(), cropped.height()), (10, 10));
}

#[test]
fn test_auto_crop_keeps_content_pixels() {
    let img = create_test_image_with_border(3, 2, 4);
    let cropped = auto_crop(img);
    assert_eq!((cropped.width(), cropped.height()), (3, 2));
    for y in 0..2 {
        for x in 0..3 {
            assert_eq!(cropped.get_pixel(x, y), Rgba { r: 255, g: 0, b: 0, a: 255 });
        }
    }
}
