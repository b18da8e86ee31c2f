use timg_rust::color_quantize::{color_256_to_rgb, rgb_to_256};

#[test]
fn test_black_and_white() {
    assert_eq!(rgb_to_256(0, 0, 0), 16); // Black
    assert_eq!(rgb_to_256(255, 255, 255), 231); // White
}

#[test]
fn test_primary_colors() {
    let red = rgb_to_256(255, 0, 0);
    let green = rgb_to_256(0, 255, 0);
    let blue = rgb_to_256(0, 0, 255);

    // Should map to corners of RGB cube
    assert_eq!(red, 16 + 36 * 5); // (5,0,0)
    assert_eq!(green, 16 + 6 * 5); // (0,5,0)
    assert_eq!(blue, 16 + 5); // (0,0,5)
}

#[test]
fn test_grayscale() {
    let gray_dark = rgb_to_256(50, 50, 50);
    let gray_mid = rgb_to_256(128, 128, 128);
    let gray_light = rgb_to_256(200, 200, 200);

    // All should be in grayscale ramp (232-255)
    assert!(gray_dark >= 232 && gray_dark <= 255);
    assert!(gray_mid >= 232 && gray_mid <= 255);
    assert!(gray_light >= 232 && gray_light <= 255);
    assert!(gray_dark < gray_mid);
    assert!(gray_mid < gray_light);
}

#[test]
fn test_palette_index_back_to_rgb() {
    let black = color_256_to_rgb(16);
    assert_eq!((black.r, black.g, black.b), (0, 0, 0));
    let white = color_256_to_rgb(231);
    assert_eq!((white.r, white.g, white.b), (255, 255, 255));
    let red = color_256_to_rgb(196);
    assert_eq!((red.r, red.g, red.b), (255, 0, 0));
    let gray = color_256_to_rgb(232);
    assert_eq!((gray.r, gray.g, gray.b), (4, 4, 4));
}
