//! The type scale: every size token is a font size and a line height in
//! whole logical pixels.

use vstd::prelude::*;

verus! {

/// Body text sizes.
#[derive(Debug, Clone, Copy, PartialEq, Eq, Hash)]
pub enum TextSize {
    /// 12 px, 18 px line height.
    Xs,
    /// 14 px, 20 px line height.
    Sm,
    /// 16 px, 24 px line height.
    Md,
    /// 18 px, 28 px line height.
    Lg,
    /// 20 px, 30 px line height.
    Xl,
}

/// Display (heading) sizes.
#[derive(Debug, Clone, Copy, PartialEq, Eq, Hash)]
pub enum DisplaySize {
    /// 24 px, 32 px line height.
    Xs,
    /// 30 px, 38 px line height.
    Sm,
    /// 36 px, 44 px line height.
    Md,
    /// 48 px, 60 px line height.
    Lg,
    /// 60 px, 72 px line height.
    Xl,
    /// 72 px, 90 px line height.
    Xxl,
}

/// `(font size, line height)` of a body size, in logical pixels.
pub open spec fn text_scale(size: TextSize) -> (u32, u32) {
    match size {
        TextSize::Xs => (12, 18),
        TextSize::Sm => (14, 20),
        TextSize::Md => (16, 24),
        TextSize::Lg => (18, 28),
        TextSize::Xl => (20, 30),
    }
}

/// `(font size, line height)` of a display size, in logical pixels.
pub open spec fn display_scale(size: DisplaySize) -> (u32, u32) {
    match size {
        DisplaySize::Xs => (24, 32),
        DisplaySize::Sm => (30, 38),
        DisplaySize::Md => (36, 44),
        DisplaySize::Lg => (48, 60),
        DisplaySize::Xl => (60, 72),
        DisplaySize::Xxl => (72, 90),
    }
}

impl TextSize {
    /// The font size and line height of this body size.
    pub fn metrics(self) -> (m: (u32, u32))
        ensures
            m == text_scale(self),
    {
        match self {
            TextSize::Xs => (12, 18),
            TextSize::Sm => (14, 20),
            TextSize::Md => (16, 24),
            TextSize::Lg => (18, 28),
            TextSize::Xl => (20, 30),
        }
    }
}

impl DisplaySize {
    /// The font size and line height of this display size.
    pub fn metrics(self) -> (m: (u32, u32))
        ensures
            m == display_scale(self),
    {
        match self {
            DisplaySize::Xs => (24, 32),
            DisplaySize::Sm => (30, 38),
            DisplaySize::Md => (36, 44),
            DisplaySize::Lg => (48, 60),
            DisplaySize::Xl => (60, 72),
            DisplaySize::Xxl => (72, 90),
        }
    }
}

/// Every step of each scale is larger than the one before it, in font size
/// and in line height, and every line is taller than its font.
pub proof fn law_scales_grow()
    ensures
        text_scale(TextSize::Xs).0 < text_scale(TextSize::Sm).0 < text_scale(TextSize::Md).0
            < text_scale(TextSize::Lg).0 < text_scale(TextSize::Xl).0,
        text_scale(TextSize::Xs).1 < text_scale(TextSize::Sm).1 < text_scale(TextSize::Md).1
            < text_scale(TextSize::Lg).1 < text_scale(TextSize::Xl).1,
        display_scale(DisplaySize::Xs).0 < display_scale(DisplaySize::Sm).0
            < display_scale(DisplaySize::Md).0 < display_scale(DisplaySize::Lg).0
            < display_scale(DisplaySize::Xl).0 < display_scale(DisplaySize::Xxl).0,
        display_scale(DisplaySize::Xs).1 < display_scale(DisplaySize::Sm).1
            < display_scale(DisplaySize::Md).1 < display_scale(DisplaySize::Lg).1
            < display_scale(DisplaySize::Xl).1 < display_scale(DisplaySize::Xxl).1,
        forall|s: TextSize| #[trigger] text_scale(s).0 < text_scale(s).1,
        forall|s: DisplaySize| #[trigger] display_scale(s).0 < display_scale(s).1,
        text_scale(TextSize::Xl).0 < display_scale(DisplaySize::Xs).0,
{
}

} // verus!
