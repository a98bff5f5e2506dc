//! The fixed configuration of the render-once program: the logical screen
//! size, the margin reserved around the drawn image, and the fixed text,
//! colors and font settings, gathered in one immutable value constructed at
//! start and passed through the pipeline.

use vstd::prelude::*;
use crate::placement::MAX_DIMENSION;

verus! {

/// A color with red, green, blue and alpha channels.
#[derive(Clone, Copy, Debug, PartialEq, Eq, Structural)]
pub struct Rgba {
    pub r: u8,
    pub g: u8,
    pub b: u8,
    pub a: u8,
}

/// The program's fixed numeric configuration.
#[derive(Clone, Copy, Debug, PartialEq, Eq, Structural)]
pub struct Config {
    /// Logical width of the screen, in pixels.
    pub screen_width: u32,
    /// Logical height of the screen, in pixels.
    pub screen_height: u32,
    /// Margin subtracted from each screen dimension to form the bounding
    /// region that the image must fit.
    pub padding: u32,
    /// Point size at which the font is loaded.
    pub point_size: u16,
    /// Color the text is drawn in.
    pub text_color: Rgba,
    /// Color the screen is cleared to.
    pub background_color: Rgba,
}

impl Config {
    /// A configuration is usable when the screen fits in `i32` display
    /// coordinates and the padding leaves a positive bounding region.
    pub open spec fn wf(&self) -> bool {
        &&& 0 < self.screen_width <= MAX_DIMENSION
        &&& 0 < self.screen_height <= MAX_DIMENSION
        &&& self.padding < self.screen_width
        &&& self.padding < self.screen_height
    }

    /// The standard configuration: an 800 x 600 screen, a 64 pixel margin,
    /// red text at 60 points on a pale blue background.
    pub fn standard() -> (c: Config)
        ensures
            c.wf(),
            c.screen_width == 800,
            c.screen_height == 600,
            c.padding == 64,
            c.point_size == 60,
            c.text_color == (Rgba { r: 255, g: 0, b: 0, a: 255 }),
            c.background_color == (Rgba { r: 192, g: 217, b: 255, a: 255 }),
    {
        Config {
            screen_width: 800,
            screen_height: 600,
            padding: 64,
            point_size: 60,
            text_color: Rgba { r: 255, g: 0, b: 0, a: 255 },
            background_color: Rgba { r: 192, g: 217, b: 255, a: 255 },
        }
    }

    /// Width of the bounding region: the screen width less the margin.
    pub fn bounds_width(&self) -> (w: u32)
        requires
            self.wf(),
        ensures
            w == self.screen_width - self.padding,
            0 < w <= MAX_DIMENSION,
    {
        self.screen_width - self.padding
    }

    /// Height of the bounding region: the screen height less the margin.
    pub fn bounds_height(&self) -> (h: u32)
        requires
            self.wf(),
        ensures
            h == self.screen_height - self.padding,
            0 < h <= MAX_DIMENSION,
    {
        self.screen_height - self.padding
    }
}

/// Title of the window the program opens.
pub fn window_title() -> (t: &'static str)
    ensures
        t@ == "My first window"@,
{
    "My first window"
}

/// The one line of text the program renders.
pub fn message_text() -> (t: &'static str)
    ensures
        t@ == "Hello World!"@,
{
    "Hello World!"
}

/// Path of the font file the program loads.
pub fn font_path() -> (t: &'static str)
    ensures
        t@ == "fonts/Roboto.ttf"@,
{
    "fonts/Roboto.ttf"
}

} // verus!
