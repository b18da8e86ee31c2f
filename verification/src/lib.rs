//! Rendering engine for displaying raster images in a terminal.
//!
//! The library turns decoded RGBA pixel buffers into terminal output:
//! either colored Unicode block glyphs, or framed escape data for one of
//! the inline graphics protocols (kitty-style, iTerm2-style, sixel).
//! Decoding, capability detection and the playback loop live outside;
//! the library consumes plain pixel data and render options and produces
//! ready-to-write text lines.

pub mod ansi;
pub mod autocrop;
pub mod backend;
pub mod background;
pub mod chunk;
pub mod codec;
pub mod color_quantize;
pub mod config;
pub mod error;
pub mod frame;
pub mod iterm2;
pub mod kitty;
pub mod quarter;
pub mod resample;
pub mod sixel;
pub mod sizing;
pub mod terminal;
pub mod text;
pub mod tmux;
pub mod unicode;
pub mod video;

pub use autocrop::{auto_crop, crop_border};
pub use backend::{BackendFactory, RenderOptions, RenderedFrame, SelectedBackend};
pub use background::BackgroundStyle;
pub use color_quantize::{color_256_to_rgb, rgb_to_256};
pub use config::{BackendKind, BackgroundColor, GeometrySpec, GridOptions, PixelationMode,
    RenderSizing, RgbColor, RotationMode, WidthStretch};
pub use error::RimgError;
pub use frame::{Frame, ImageSequence, Rgba, RgbaBuffer};
pub use iterm2::ITerm2Backend;
pub use kitty::KittyBackend;
pub use sixel::{SixelBackend, SixelPrepared};
pub use terminal::TerminalSize;
pub use unicode::UnicodeBackend;
pub use video::VideoLoader;
