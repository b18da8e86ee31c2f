//! The options every render call takes, the frame every render call
//! returns, and the factory that picks a renderer for a backend kind.

use vstd::prelude::*;

use crate::background::BackgroundStyle;
use crate::config::{BackendKind, PixelationMode, RenderSizing};
use crate::error::RimgError;
use crate::frame::Frame;
use crate::iterm2::{iterm2_render_post, ITerm2Backend};
use crate::kitty::{kitty_render_post, KittyBackend};
use crate::sixel::SixelBackend;
use crate::terminal::TerminalSize;
use crate::unicode::{unicode_render_post, UnicodeBackend};

verus! {

/// Everything a backend needs to render one frame. Passed by value into
/// every render call and never mutated.
#[derive(Debug, Clone, Copy)]
pub struct RenderOptions {
    pub sizing: RenderSizing,
    pub terminal: TerminalSize,
    pub background: BackgroundStyle,
    pub pixelation: PixelationMode,
    pub use_8bit_color: bool,
    /// Compression-level hint for protocol encoders.
    pub compress_level: u8,
    /// Emit extra diagnostics; the library itself prints nothing.
    pub verbose: bool,
    /// Output will pass through a terminal multiplexer, so graphics
    /// escapes must be wrapped for passthrough.
    pub multiplexer: bool,
}

impl RenderOptions {
    /// A valid option set carries a valid sizing policy.
    pub open spec fn wf(&self) -> bool {
        self.sizing.wf()
    }
}

/// The rendered form of one frame: complete terminal lines ready to be
/// written, the cell rectangle actually used, and the frame's display
/// delay in milliseconds.
#[derive(Debug, Clone)]
pub struct RenderedFrame {
    pub lines: Vec<String>,
    pub width_cells: u32,
    pub height_cells: u32,
    pub delay_ms: u64,
}

/// The renderer chosen for a backend kind: one of a small closed set,
/// dispatched by `match`.
#[derive(Debug)]
pub enum SelectedBackend {
    Unicode(UnicodeBackend),
    Kitty(KittyBackend),
    Iterm2(ITerm2Backend),
    Sixel(SixelBackend),
}

impl SelectedBackend {
    /// The chosen renderer's name.
    pub fn name(&self) -> (r: &'static str)
        ensures
            self is Unicode ==> r@ == "unicode"@,
            self is Kitty ==> r@ == "kitty"@,
            self is Iterm2 ==> r@ == "iterm2"@,
            self is Sixel ==> r@ == "sixel"@,
    {
        match self {
            SelectedBackend::Unicode(b) => b.name(),
            SelectedBackend::Kitty(b) => b.name(),
            SelectedBackend::Iterm2(b) => b.name(),
            SelectedBackend::Sixel(b) => b.name(),
        }
    }

    /// The backend kind the chosen renderer serves.
    pub fn supported_kind(&self) -> (r: BackendKind)
        ensures
            self is Unicode ==> r == BackendKind::Unicode,
            self is Kitty ==> r == BackendKind::Kitty,
            self is Iterm2 ==> r == BackendKind::Iterm2,
            self is Sixel ==> r == BackendKind::Sixel,
    {
        match self {
            SelectedBackend::Unicode(b) => b.supported_kind(),
            SelectedBackend::Kitty(b) => b.supported_kind(),
            SelectedBackend::Iterm2(b) => b.supported_kind(),
            SelectedBackend::Sixel(b) => b.supported_kind(),
        }
    }

    /// Renders one frame with the chosen renderer. The sixel renderer's
    /// native encoder cannot be driven from here; callers run it around
    /// `SixelBackend::prepare` and `SixelBackend::finish` instead, and a
    /// direct render reports the missing encoder as an error.
    pub fn render(&self, frame: &Frame, options: RenderOptions) -> (r: Result<
        RenderedFrame,
        RimgError,
    >)
        requires
            frame.pixels.wf(),
            frame.pixels.width >= 1,
            frame.pixels.height >= 1,
            options.wf(),
        ensures
            self is Unicode ==> unicode_render_post(*frame, options, r),
            self is Kitty ==> kitty_render_post(*frame, options, r),
            self is Iterm2 ==> iterm2_render_post(*frame, options, r),
            self is Sixel ==> r is Err,
    {
        match self {
            SelectedBackend::Unicode(b) => b.render(frame, options),
            SelectedBackend::Kitty(b) => b.render(frame, options),
            SelectedBackend::Iterm2(b) => b.render(frame, options),
            SelectedBackend::Sixel(_) => Err(RimgError::other(String::from_str(
                "sixel rendering requires the native encoder"))),
        }
    }
}

/// Maps a requested backend kind to a concrete renderer.
pub struct BackendFactory;

impl BackendFactory {
    /// Builds the renderer for a backend kind; the automatic kind
    /// resolves to the Unicode compositor.
    pub fn build(kind: BackendKind) -> (r: Result<SelectedBackend, RimgError>)
        ensures
            r is Ok,
            kind is Auto || kind is Unicode ==> r->Ok_0 is Unicode,
            kind is Kitty ==> r->Ok_0 is Kitty,
            kind is Iterm2 ==> r->Ok_0 is Iterm2,
            kind is Sixel ==> r->Ok_0 is Sixel,
    {
        match kind {
            BackendKind::Unicode | BackendKind::Auto => Ok(SelectedBackend::Unicode(
                UnicodeBackend::default())),
            BackendKind::Kitty => Ok(SelectedBackend::Kitty(KittyBackend::default())),
            BackendKind::Iterm2 => Ok(SelectedBackend::Iterm2(ITerm2Backend::default())),
            BackendKind::Sixel => Ok(SelectedBackend::Sixel(SixelBackend::default())),
        }
    }

    /// Builds the renderer for a guessed kind, falling back to the
    /// Unicode compositor if the guess cannot be built.
    pub fn auto_from_guess(guess: BackendKind) -> (r: SelectedBackend)
        ensures
            guess is Auto || guess is Unicode ==> r is Unicode,
            guess is Kitty ==> r is Kitty,
            guess is Iterm2 ==> r is Iterm2,
            guess is Sixel ==> r is Sixel,
    {
        match BackendFactory::build(guess) {
            Ok(backend) => backend,
            Err(_) => SelectedBackend::Unicode(UnicodeBackend::default()),
        }
    }
}

} // verus!
