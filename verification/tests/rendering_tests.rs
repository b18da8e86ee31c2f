use std::str::FromStr;
use timg_rust::backend::RenderOptions;
use timg_rust::background::BackgroundStyle;
use timg_rust::quarter::{find_best_quarter_block, QuarterBlock};
use timg_rust::sizing::unicode_target;
use timg_rust::{Frame, PixelationMode, RenderSizing, Rgba, RgbaBuffer, RgbColor, RotationMode,
    TerminalSize, UnicodeBackend, WidthStretch};

fn plain_options(sizing: RenderSizing, pixelation: PixelationMode) -> RenderOptions {
    RenderOptions {
        sizing,
        terminal: TerminalSize { columns: 80, rows: 24, width_pixels: None, height_pixels: None },
        background: BackgroundStyle { color: None, pattern: None, pattern_size: 1 },
        pixelation,
        use_8bit_color: false,
        compress_level: 1,
        verbose: false,
        multiplexer: false,
    }
}

#[test]
fn test_pixelation_mode_default() {
    let mode = PixelationMode::default();
    assert_eq!(mode, PixelationMode::Quarter);
}

#[test]
fn test_pixelation_mode_from_str() {
    assert_eq!(PixelationMode::from_str("quarter").unwrap(), PixelationMode::Quarter);
    assert_eq!(PixelationMode::from_str("half").unwrap(), PixelationMode::Half);
    assert_eq!(PixelationMode::from_str("q").unwrap(), PixelationMode::Quarter);
    assert_eq!(PixelationMode::from_str("h").unwrap(), PixelationMode::Half);
    assert!(PixelationMode::from_str("invalid").is_err());
}

#[test]
fn test_render_sizing_default() {
    let sizing = RenderSizing::default();
    assert_eq!(sizing.width_cells, None);
    assert_eq!(sizing.height_cells, None);
    assert_eq!(sizing.fit_width, false);
    assert_eq!(sizing.upscale, false);
}

#[test]
fn test_render_sizing_fit_width() {
    let sizing = RenderSizing {
        width_cells: Some(100),
        height_cells: None,
        fit_width: true,
        fit_height: false,
        upscale: false,
        upscale_integer: false,
        width_stretch: WidthStretch::one(),
        antialias: true,
    };
    assert!(sizing.fit_width);
    assert_eq!(sizing.width_cells, Some(100));
}

#[test]
fn test_render_sizing_upscale() {
    let sizing = RenderSizing {
        width_cells: Some(200),
        height_cells: Some(100),
        fit_width: false,
        fit_height: false,
        upscale: true,
        upscale_integer: false,
        width_stretch: WidthStretch::one(),
        antialias: true,
    };
    assert!(sizing.upscale);
}

// Helper to create a small test image
fn create_small_image(width: u32, height: u32, color: Rgba) -> RgbaBuffer {
    let mut img = RgbaBuffer::from_pixel(width, height, Rgba { r: 0, g: 0, b: 0, a: 0 });
    for y in 0..height {
        for x in 0..width {
            img.put_pixel(x, y, color);
        }
    }
    img
}

#[test]
fn test_small_image_dimensions() {
    let img = create_small_image(10, 10, Rgba { r: 255, g: 0, b: 0, a: 255 });
    assert_eq!(img.width(), 10);
    assert_eq!(img.height(), 10);
    assert_eq!(img.get_pixel(0, 0), Rgba { r: 255, g: 0, b: 0, a: 255 });
}

#[test]
fn test_pixelation_modes_are_different() {
    assert_ne!(PixelationMode::Half, PixelationMode::Quarter);
}

#[test]
fn test_rotation_and_pixelation_independent() {
    // These should be orthogonal concerns
    let rotation = RotationMode::Exif;
    let pixelation = PixelationMode::Quarter;

    // Just verify they can coexist without compilation errors
    assert_eq!(rotation, RotationMode::Exif);
    assert_eq!(pixelation, PixelationMode::Quarter);
}

#[test]
fn half_block_red_frame_single_line() {
    let pixels = create_small_image(2, 2, Rgba { r: 255, g: 0, b: 0, a: 255 });
    let frame = Frame { pixels, delay_ms: 0 };
    let mut sizing = RenderSizing::unconstrained();
    sizing.width_cells = Some(1);
    let backend = UnicodeBackend::default();
    let rendered = backend
        .render(&frame, plain_options(sizing, PixelationMode::Half))
        .expect("render succeeds");
    assert_eq!(rendered.lines.len(), 1);
    assert_eq!(rendered.width_cells, 1);
    assert_eq!(
        rendered.lines[0],
        "\x1b[38;2;255;0;0m\x1b[48;2;255;0;0m\u{2580}\x1b[0m"
    );
}

#[test]
fn quarter_block_uniform_frame_uses_full_block() {
    let pixels = create_small_image(2, 2, Rgba { r: 10, g: 200, b: 30, a: 255 });
    let frame = Frame { pixels, delay_ms: 7 };
    let backend = UnicodeBackend::default();
    let rendered = backend
        .render(&frame, plain_options(RenderSizing::unconstrained(), PixelationMode::Quarter))
        .expect("render succeeds");
    assert_eq!(rendered.lines.len(), 1);
    assert_eq!(rendered.width_cells, 1);
    assert_eq!(rendered.height_cells, 1);
    assert_eq!(rendered.delay_ms, 7);
    assert_eq!(
        rendered.lines[0],
        "\x1b[38;2;10;200;30m\x1b[49m\u{2588}\x1b[0m"
    );
}

#[test]
fn identical_quadrants_pick_full_block() {
    let red = RgbColor { r: 200, g: 10, b: 10 };
    let (block, fg, bg) = find_best_quarter_block(Some(red), Some(red), Some(red), Some(red));
    assert_eq!(block, QuarterBlock::Full);
    assert_eq!(fg, Some(red));
    assert_eq!(bg, None);
}

#[test]
fn unicode_target_fits_both_axes() {
    let sizing = RenderSizing::unconstrained();
    let target = unicode_target(100, 100, &sizing, 80, 24, PixelationMode::Half);
    assert_eq!(target, (48, 48));
}

#[test]
fn unicode_target_never_upscales_without_flag() {
    let sizing = RenderSizing::unconstrained();
    let target = unicode_target(2, 2, &sizing, 80, 24, PixelationMode::Half);
    assert_eq!(target, (2, 2));
}

#[test]
fn unicode_target_integer_upscale() {
    let mut sizing = RenderSizing::unconstrained();
    sizing.upscale = true;
    sizing.upscale_integer = true;
    sizing.width_cells = Some(7);
    sizing.height_cells = Some(5);
    let target = unicode_target(3, 3, &sizing, 80, 24, PixelationMode::Half);
    assert_eq!(target, (6, 6));
}

#[test]
fn width_stretch_doubles_width_within_budget() {
    let mut sizing = RenderSizing::unconstrained();
    sizing.width_stretch = WidthStretch { num: 2, den: 1 };
    sizing.width_cells = Some(40);
    let target = unicode_target(10, 10, &sizing, 80, 24, PixelationMode::Half);
    assert_eq!(target, (20, 10));
}

#[test]
fn half_block_8bit_color_uses_palette_index() {
    let pixels = create_small_image(2, 2, Rgba { r: 255, g: 0, b: 0, a: 255 });
    let frame = Frame { pixels, delay_ms: 0 };
    let mut sizing = RenderSizing::unconstrained();
    sizing.width_cells = Some(1);
    let mut options = plain_options(sizing, PixelationMode::Half);
    options.use_8bit_color = true;
    let rendered = UnicodeBackend::default().render(&frame, options).expect("render");
    assert_eq!(
        rendered.lines[0],
        "\x1b[38;5;196m\x1b[48;5;196m\u{2580}\x1b[0m"
    );
}

#[test]
fn transparent_pixels_without_background_render_as_space() {
    let pixels = create_small_image(1, 1, Rgba { r: 0, g: 0, b: 0, a: 0 });
    let frame = Frame { pixels, delay_ms: 0 };
    let rendered = UnicodeBackend::default()
        .render(&frame, plain_options(RenderSizing::unconstrained(), PixelationMode::Half))
        .expect("render");
    assert_eq!(rendered.lines.len(), 1);
    assert_eq!(rendered.lines[0], "\x1b[0m \x1b[0m");
}
