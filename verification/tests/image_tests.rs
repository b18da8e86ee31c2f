use std::str::FromStr;
use timg_rust::{Frame, GridOptions, ImageSequence, Rgba, RgbaBuffer, RotationMode, VideoLoader};

#[test]
fn test_rotation_mode_default() {
    let mode = RotationMode::default();
    assert_eq!(mode, RotationMode::Exif);
}

#[test]
fn test_rotation_mode_from_str() {
    assert_eq!(RotationMode::from_str("exif").unwrap(), RotationMode::Exif);
    assert_eq!(RotationMode::from_str("off").unwrap(), RotationMode::Off);
    assert_eq!(RotationMode::from_str("EXIF").unwrap(), RotationMode::Exif);
    assert!(RotationMode::from_str("invalid").is_err());
}

#[test]
fn test_rotation_mode_parsing() {
    let modes = vec![
        ("exif", RotationMode::Exif),
        ("off", RotationMode::Off),
        ("EXIF", RotationMode::Exif),
        ("OFF", RotationMode::Off),
    ];

    for (input, expected) in modes {
        let parsed = RotationMode::from_str(input).unwrap();
        assert_eq!(parsed, expected, "Failed to parse '{}'", input);
    }
}

#[test]
fn single_frame_has_no_delay() {
    let pixels = RgbaBuffer::from_pixel(1, 1, Rgba { r: 1, g: 2, b: 3, a: 255 });
    let frame = Frame::single(pixels);
    assert_eq!(frame.delay_ms, 0);
    assert_eq!(frame.pixels.width(), 1);
}

#[test]
fn first_frame_of_sequence() {
    let pixels = RgbaBuffer::from_pixel(1, 1, Rgba { r: 9, g: 8, b: 7, a: 255 });
    let sequence = ImageSequence {
        path: "one.png".to_string(),
        frames: vec![Frame { pixels, delay_ms: 5 }],
    };
    assert_eq!(sequence.first_frame().unwrap().delay_ms, 5);

    let empty = ImageSequence { path: "none".to_string(), frames: vec![] };
    assert!(empty.first_frame().is_none());
}

#[test]
fn grid_rows_round_up_and_cap() {
    let grid = GridOptions { columns: 3, spacing: 1, rows: None };
    assert_eq!(grid.rows_for_total(7), 3);
    let capped = GridOptions { columns: 3, spacing: 1, rows: Some(2) };
    assert_eq!(capped.rows_for_total(7), 2);
}

#[test]
fn video_candidates_by_extension() {
    assert!(VideoLoader::is_video_candidate("clip.mp4"));
    assert!(VideoLoader::is_video_candidate("dir/clip.MKV"));
    assert!(VideoLoader::is_video_candidate("a/b/movie.webm"));
    assert!(!VideoLoader::is_video_candidate("picture.png"));
    assert!(!VideoLoader::is_video_candidate("noextension"));
    assert!(!VideoLoader::is_video_candidate(".mp4"));
}
