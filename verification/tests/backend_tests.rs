use timg_rust::backend::{BackendFactory, RenderOptions, SelectedBackend};
use timg_rust::background::{blend_transparency, checkerboard, BackgroundStyle};
use timg_rust::sixel::{check_status, decode_sixel_output};
use timg_rust::{BackendKind, Frame, ITerm2Backend, KittyBackend, PixelationMode, RenderSizing,
    Rgba, RgbaBuffer, RgbColor, RimgError, SixelBackend, TerminalSize};

fn options() -> RenderOptions {
    RenderOptions {
        sizing: RenderSizing::unconstrained(),
        terminal: TerminalSize { columns: 80, rows: 24, width_pixels: None, height_pixels: None },
        background: BackgroundStyle { color: None, pattern: None, pattern_size: 1 },
        pixelation: PixelationMode::Quarter,
        use_8bit_color: false,
        compress_level: 1,
        verbose: false,
        multiplexer: false,
    }
}

#[test]
fn renders_single_chunk_for_small_image() {
    let mut buffer = RgbaBuffer::from_pixel(2, 2, Rgba { r: 255, g: 0, b: 0, a: 255 });
    buffer.put_pixel(1, 1, Rgba { r: 0, g: 255, b: 0, a: 255 });

    let frame = Frame { pixels: buffer, delay_ms: 0 };

    let backend = KittyBackend::default();
    let rendered = backend.render(&frame, options()).expect("render succeeds");

    assert_eq!(rendered.width_cells, 2);
    assert_eq!(rendered.height_cells, 0);
    assert_eq!(rendered.lines.len(), 1);
    assert!(rendered.lines[0].starts_with("\x1b_G"));
    assert!(rendered.lines[0].ends_with("\x1b\\"));
}

#[test]
fn kitty_payload_is_base64_png() {
    let buffer = RgbaBuffer::from_pixel(2, 2, Rgba { r: 1, g: 2, b: 3, a: 255 });
    let frame = Frame { pixels: buffer, delay_ms: 0 };
    let rendered = KittyBackend::default().render(&frame, options()).expect("render");
    let line = &rendered.lines[0];
    let payload = line
        .strip_prefix("\x1b_G").unwrap()
        .split_once(';').unwrap().1
        .strip_suffix("\x1b\\").unwrap();
    // A PNG payload always begins with the encoded PNG signature.
    assert!(payload.starts_with("iVBOR"), "payload was {payload:?}");
}

#[test]
fn kitty_wraps_for_multiplexer() {
    let buffer = RgbaBuffer::from_pixel(1, 1, Rgba { r: 0, g: 0, b: 0, a: 255 });
    let frame = Frame { pixels: buffer, delay_ms: 0 };
    let mut opts = options();
    opts.multiplexer = true;
    let rendered = KittyBackend::default().render(&frame, opts).expect("render");
    assert!(rendered.lines[0].starts_with("\x1bPtmux;\x1b\x1b_G"));
    assert!(rendered.lines[0].ends_with("\x1b\\"));
}

#[test]
fn emits_iterm_sequence() {
    let buffer = RgbaBuffer::from_pixel(1, 1, Rgba { r: 128, g: 64, b: 32, a: 255 });
    let frame = Frame { pixels: buffer, delay_ms: 0 };

    let backend = ITerm2Backend::default();
    let rendered = backend.render(&frame, options()).expect("render succeeds");

    assert_eq!(rendered.lines.len(), 1);
    assert!(rendered.lines[0].starts_with("\x1b]1337;File="));
    assert!(rendered.lines[0].ends_with('\x07'));
    assert_eq!(rendered.width_cells, 1);
    assert_eq!(rendered.height_cells, 0);
}

#[test]
fn factory_maps_kinds_to_backends() {
    let unicode = BackendFactory::build(BackendKind::Auto).expect("build");
    assert_eq!(unicode.supported_kind(), BackendKind::Unicode);
    assert_eq!(unicode.name(), "unicode");

    let kitty = BackendFactory::build(BackendKind::Kitty).expect("build");
    assert_eq!(kitty.supported_kind(), BackendKind::Kitty);

    let iterm2 = BackendFactory::auto_from_guess(BackendKind::Iterm2);
    assert_eq!(iterm2.supported_kind(), BackendKind::Iterm2);
    assert_eq!(iterm2.name(), "iterm2");

    let sixel = BackendFactory::build(BackendKind::Sixel).expect("build");
    assert_eq!(sixel.name(), "sixel");
}

#[test]
fn selected_backend_renders_unicode() {
    let backend = BackendFactory::build(BackendKind::Unicode).expect("build");
    let buffer = RgbaBuffer::from_pixel(2, 2, Rgba { r: 9, g: 9, b: 9, a: 255 });
    let frame = Frame { pixels: buffer, delay_ms: 0 };
    let rendered = backend.render(&frame, options()).expect("render");
    assert_eq!(rendered.lines.len(), 1);
    assert!(matches!(backend, SelectedBackend::Unicode(_)));
}

#[test]
fn sixel_prepare_pads_to_six_rows() {
    let buffer = RgbaBuffer::from_pixel(1, 1, Rgba { r: 5, g: 6, b: 7, a: 255 });
    let frame = Frame { pixels: buffer, delay_ms: 3 };
    let prepared = SixelBackend::default().prepare(&frame, options()).expect("prepare");
    assert_eq!(prepared.width, 1);
    assert_eq!(prepared.height, 6);
    assert_eq!(prepared.width_cells, 1);
    assert_eq!(prepared.delay_ms, 3);
    let mut expected = vec![5u8, 6, 7, 255];
    expected.extend(std::iter::repeat(0).take(20));
    assert_eq!(prepared.data, expected);
}

#[test]
fn sixel_finish_terminates_line() {
    let backend = SixelBackend::default();
    let rendered = backend.finish("\x1bPdata\x1b\\".to_string(), 4, 0);
    assert_eq!(rendered.lines, vec!["\x1bPdata\x1b\\\n".to_string()]);
    assert_eq!(rendered.width_cells, 4);
    assert_eq!(rendered.height_cells, 0);

    let kept = backend.finish("done\n".to_string(), 1, 0);
    assert_eq!(kept.lines, vec!["done\n".to_string()]);
}

#[test]
fn sixel_output_must_be_utf8() {
    let ok = decode_sixel_output(b"\x1bPq#0;2;0;0;0\x1b\\".to_vec()).expect("valid utf8");
    assert_eq!(ok, "\x1bPq#0;2;0;0;0\x1b\\");
    let err = decode_sixel_output(vec![0xff, 0xfe]).unwrap_err();
    assert_eq!(err.message(), "sixel encoder produced invalid UTF-8");
}

#[test]
fn sixel_status_checks() {
    assert!(check_status(0, "create output").is_ok());
    let err = check_status(-1, "create output").unwrap_err();
    assert_eq!(err.message(), "create output: status -1");
}

#[test]
fn error_messages_describe_variants() {
    assert_eq!(
        RimgError::MissingInput.message(),
        "no input paths provided"
    );
    assert_eq!(
        RimgError::other("boom".to_string()).message(),
        "boom"
    );
    assert_eq!(
        RimgError::StdoutNotTty.message(),
        "standard output is not a tty; refusing to emit escape sequences"
    );
}

#[test]
fn blend_resolves_partial_transparency() {
    let mut buffer = RgbaBuffer::from_pixel(1, 1, Rgba { r: 255, g: 0, b: 0, a: 128 });
    let background = BackgroundStyle {
        color: Some(RgbColor { r: 0, g: 0, b: 255 }),
        pattern: None,
        pattern_size: 1,
    };
    blend_transparency(&mut buffer, background);
    assert_eq!(buffer.get_pixel(0, 0), Rgba { r: 128, g: 0, b: 127, a: 255 });
}

#[test]
fn blend_without_background_keeps_pixels() {
    let mut buffer = RgbaBuffer::from_pixel(1, 1, Rgba { r: 255, g: 0, b: 0, a: 128 });
    let background = BackgroundStyle { color: None, pattern: None, pattern_size: 1 };
    blend_transparency(&mut buffer, background);
    assert_eq!(buffer.get_pixel(0, 0), Rgba { r: 255, g: 0, b: 0, a: 128 });
}

#[test]
fn checkerboard_alternates_by_tile() {
    assert!(checkerboard(0, 0, 1));
    assert!(!checkerboard(4, 0, 1));
    assert!(!checkerboard(0, 4, 1));
    assert!(checkerboard(4, 4, 1));
}
