//! The settings of a window, collected before the window is opened.

use vstd::prelude::*;
use vstd::string::StringExecFns;

verus! {

/// What has been asked of a window.
pub struct Settings {
    /// The width of the drawing area.
    pub width: u32,
    /// The height of the drawing area.
    pub height: u32,
    /// The title of the window.
    pub title: Seq<char>,
    /// Whether frames wait for the display's vertical refresh.
    pub vsync: bool,
    /// The number of bits of the depth buffer.
    pub depth: u8,
    /// The number of bits of the stencil buffer.
    pub stencil: u8,
    /// Whether colours are in the sRGB colour space.
    pub srgb: bool,
}

/// Collects the settings of a window.
pub struct WindowBuilder {
    width: u32,
    height: u32,
    title: String,
    vsync: bool,
    depth: u8,
    stencil: u8,
    srgb: bool,
}

impl View for WindowBuilder {
    type V = Settings;

    /// The settings collected so far.
    closed spec fn view(&self) -> Settings {
        Settings {
            width: self.width,
            height: self.height,
            title: self.title@,
            vsync: self.vsync,
            depth: self.depth,
            stencil: self.stencil,
            srgb: self.srgb,
        }
    }
}

impl WindowBuilder {
    /// Starts from the defaults: 1024 by 768, vertical sync on, a depth
    /// buffer of 24 bits, a stencil buffer of 8 bits, sRGB colours.
    pub fn new() -> (r: Self)
        ensures
            r@ == (Settings {
                width: 1024,
                height: 768,
                title: "Oxygine Game Engine Window"@,
                vsync: true,
                depth: 24,
                stencil: 8,
                srgb: true,
            }),
    {
        WindowBuilder {
            width: 1024,
            height: 768,
            title: String::from_str("Oxygine Game Engine Window"),
            vsync: true,
            depth: 24,
            stencil: 8,
            srgb: true,
        }
    }

    /// Asks for a drawing area of the given size.
    pub fn with_size(self, width: u32, height: u32) -> (r: Self)
        ensures
            r@ == (Settings { width, height, ..self@ }),
    {
        let mut r = self;
        r.width = width;
        r.height = height;
        r
    }

    /// Asks for the given title.
    pub fn with_title(self, title: &str) -> (r: Self)
        ensures
            r@ == (Settings { title: title@, ..self@ }),
    {
        let mut r = self;
        r.title = String::from_str(title);
        r
    }

    /// Asks for vertical sync to be on or off.
    pub fn with_vsync(self, vsync: bool) -> (r: Self)
        ensures
            r@ == (Settings { vsync, ..self@ }),
    {
        let mut r = self;
        r.vsync = vsync;
        r
    }

    /// Asks for a depth buffer of the given number of bits.
    pub fn with_depth(self, depth_bits: u8) -> (r: Self)
        ensures
            r@ == (Settings { depth: depth_bits, ..self@ }),
    {
        let mut r = self;
        r.depth = depth_bits;
        r
    }

    /// Asks for a stencil buffer of the given number of bits.
    pub fn with_stencil(self, stencil_bits: u8) -> (r: Self)
        ensures
            r@ == (Settings { stencil: stencil_bits, ..self@ }),
    {
        let mut r = self;
        r.stencil = stencil_bits;
        r
    }

    /// Asks for sRGB colours or not.
    pub fn with_srgb(self, srgb: bool) -> (r: Self)
        ensures
            r@ == (Settings { srgb, ..self@ }),
    {
        let mut r = self;
        r.srgb = srgb;
        r
    }

    /// Returns the width asked for.
    pub fn width(&self) -> (r: u32)
        ensures
            r == self@.width,
    {
        self.width
    }

    /// Returns the height asked for.
    pub fn height(&self) -> (r: u32)
        ensures
            r == self@.height,
    {
        self.height
    }

    /// Returns the title asked for.
    pub fn title(&self) -> (r: &str)
        ensures
            r@ == self@.title,
    {
        self.title.as_str()
    }

    /// Returns whether vertical sync was asked for.
    pub fn vsync(&self) -> (r: bool)
        ensures
            r == self@.vsync,
    {
        self.vsync
    }

    /// Returns the number of bits asked for the depth buffer.
    pub fn depth(&self) -> (r: u8)
        ensures
            r == self@.depth,
    {
        self.depth
    }

    /// Returns the number of bits asked for the stencil buffer.
    pub fn stencil(&self) -> (r: u8)
        ensures
            r == self@.stencil,
    {
        self.stencil
    }

    /// Returns whether sRGB colours were asked for.
    pub fn srgb(&self) -> (r: bool)
        ensures
            r == self@.srgb,
    {
        self.srgb
    }
}

} // verus!
