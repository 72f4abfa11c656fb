//! The layout calculator: from a margin, a monitor's work area and a layout
//! descriptor to the rectangle a window should occupy.

use vstd::prelude::*;

verus! {

/// The usable area of a monitor in screen coordinates, edges as the
/// operating system reports them: `right` and `bottom` are exclusive.
#[derive(Clone, Copy, Debug, PartialEq, Eq, Structural)]
pub struct Rect {
    pub left: i32,
    pub top: i32,
    pub right: i32,
    pub bottom: i32,
}

impl Rect {
    pub open spec fn width(self) -> int {
        self.right - self.left
    }

    pub open spec fn height(self) -> int {
        self.bottom - self.top
    }
}

/// What is left of `extent` once `margin` is taken off both ends; never
/// negative.
pub open spec fn inner_extent(extent: int, margin: int) -> int {
    if extent - 2 * margin > 0 {
        extent - 2 * margin
    } else {
        0
    }
}

pub open spec fn fits_i32(v: int) -> bool {
    i32::MIN <= v <= i32::MAX
}

/// An absolute target rectangle chosen by the user. It is taken as it is:
/// nothing holds it to the monitor's bounds.
#[derive(Clone, Copy, Debug, PartialEq, Eq, Structural)]
pub struct CustomLayout {
    pub x: i32,
    pub y: i32,
    pub w: i32,
    pub h: i32,
}

/// The named presets. Each yields a rectangle from the margin and the work
/// area alone.
#[derive(Clone, Copy, Debug, PartialEq, Eq, Structural)]
pub enum DefaultLayout {
    LeftHalf,
    RightHalf,
    LeftThird,
    RightThird,
    LeftTwoThirds,
    RightTwoThirds,
    CenterThird,
    CenterSmall,
    CenterMedium,
    CenterLarge,
}

/// A layout descriptor: a preset or a literal rectangle.
#[derive(Clone, Copy, Debug, PartialEq, Eq, Structural)]
pub enum Layout {
    Custom(CustomLayout),
    Default(DefaultLayout),
}

/// `floor(n / 2)` for either sign of `n`.
fn half_floor(n: i64) -> (r: i64)
    requires
        -0x2_0000_0000 <= n <= 0x2_0000_0000,
    ensures
        r == n / 2,
{
    if n >= 0 {
        n / 2
    } else {
        -((1 - n) / 2)
    }
}

fn inner(extent: i64, margin: i64) -> (r: i64)
    requires
        -0x1_0000_0000 <= extent <= 0x1_0000_0000,
        0 <= margin <= 255,
    ensures
        r == inner_extent(extent as int, margin as int),
{
    if extent - 2 * margin > 0 {
        extent - 2 * margin
    } else {
        0
    }
}

impl DefaultLayout {
    /// The rectangle `(x, y, w, h)` of this preset, over the integers.
    ///
    /// The margin is taken off all four sides of the work area; what is left
    /// is `inner_w` by `inner_h`, with its corner at `(left + m, top + m)`.
    /// Every quotient is rounded down. The pixels that a quotient drops stay
    /// empty: between the two halves, and to the right of the three thirds.
    /// The three centred presets are centred in the whole work area, margin
    /// included; `CenterLarge` is centred sideways only and starts at the top
    /// margin.
    pub open spec fn spec_calc(self, margin: u8, work: Rect) -> (int, int, int, int) {
        let m = margin as int;
        let iw = inner_extent(work.width(), m);
        let ih = inner_extent(work.height(), m);
        let x0 = work.left + m;
        let y0 = work.top + m;
        match self {
            DefaultLayout::LeftHalf => (x0, y0, iw / 2, ih),
            DefaultLayout::RightHalf => (x0 + (iw - iw / 2), y0, iw / 2, ih),
            DefaultLayout::LeftThird => (x0, y0, iw / 3, ih),
            DefaultLayout::RightThird => (x0 + 2 * (iw / 3), y0, iw / 3, ih),
            DefaultLayout::LeftTwoThirds => (x0, y0, iw * 2 / 3, ih),
            DefaultLayout::RightTwoThirds => (x0 + (iw - iw * 2 / 3), y0, iw * 2 / 3, ih),
            DefaultLayout::CenterThird => (x0 + iw / 3, y0, iw / 3, ih),
            DefaultLayout::CenterSmall => {
                let w = iw * 2 / 5;
                let h = ih * 9 / 12;
                (work.left + (work.width() - w) / 2, work.top + (work.height() - h) / 2, w, h)
            },
            DefaultLayout::CenterMedium => {
                let w = iw * 2 / 3;
                let h = ih * 9 / 10;
                (work.left + (work.width() - w) / 2, work.top + (work.height() - h) / 2, w, h)
            },
            DefaultLayout::CenterLarge => (work.left + (work.width() - iw) / 2, y0, iw, ih),
        }
    }

    /// Whether the preset's rectangle can be written in 32-bit coordinates.
    pub open spec fn fits(self, margin: u8, work: Rect) -> bool {
        let r = self.spec_calc(margin, work);
        fits_i32(r.0) && fits_i32(r.1) && fits_i32(r.2) && fits_i32(r.3)
    }

    /// The preset's rectangle in 64 bits, where it always fits.
    fn calc_wide(self, margin: u8, work: &Rect) -> (r: (i64, i64, i64, i64))
        ensures
            (r.0 as int, r.1 as int, r.2 as int, r.3 as int) == self.spec_calc(margin, *work),
            -0x2_0000_0000 <= r.0 <= 0x2_0000_0000,
            -0x2_0000_0000 <= r.1 <= 0x2_0000_0000,
            0 <= r.2 <= 0x1_0000_0000,
            0 <= r.3 <= 0x1_0000_0000,
    {
        let m: i64 = margin as i64;
        let left: i64 = work.left as i64;
        let top: i64 = work.top as i64;
        let width: i64 = work.right as i64 - left;
        let height: i64 = work.bottom as i64 - top;
        let iw: i64 = inner(width, m);
        let ih: i64 = inner(height, m);
        let x0: i64 = left + m;
        let y0: i64 = top + m;
        match self {
            DefaultLayout::LeftHalf => (x0, y0, iw / 2, ih),
            DefaultLayout::RightHalf => {
                let w: i64 = iw / 2;
                (x0 + (iw - w), y0, w, ih)
            },
            DefaultLayout::LeftThird => (x0, y0, iw / 3, ih),
            DefaultLayout::RightThird => {
                let w: i64 = iw / 3;
                (x0 + 2 * w, y0, w, ih)
            },
            DefaultLayout::LeftTwoThirds => (x0, y0, iw * 2 / 3, ih),
            DefaultLayout::RightTwoThirds => {
                let w: i64 = iw * 2 / 3;
                (x0 + (iw - w), y0, w, ih)
            },
            DefaultLayout::CenterThird => {
                let w: i64 = iw / 3;
                (x0 + w, y0, w, ih)
            },
            DefaultLayout::CenterSmall => {
                let w: i64 = iw * 2 / 5;
                let h: i64 = ih * 9 / 12;
                (left + half_floor(width - w), top + half_floor(height - h), w, h)
            },
            DefaultLayout::CenterMedium => {
                let w: i64 = iw * 2 / 3;
                let h: i64 = ih * 9 / 10;
                (left + half_floor(width - w), top + half_floor(height - h), w, h)
            },
            DefaultLayout::CenterLarge => (left + half_floor(width - iw), y0, iw, ih),
        }
    }

    /// Calculate `(x, y, w, h)`.
    ///
    /// The width and the height are never negative: a margin wider than half
    /// the work area leaves an empty rectangle.
    pub fn calc(self, margin: u8, work: &Rect) -> (r: (i32, i32, i32, i32))
        requires
            self.fits(margin, *work),
        ensures
            (r.0 as int, r.1 as int, r.2 as int, r.3 as int) == self.spec_calc(margin, *work),
            r.2 >= 0,
            r.3 >= 0,
    {
        let wide = self.calc_wide(margin, work);
        (wide.0 as i32, wide.1 as i32, wide.2 as i32, wide.3 as i32)
    }

    /// As [`DefaultLayout::calc`], for a caller that cannot tell beforehand
    /// whether the rectangle fits: `None` exactly when it does not.
    pub fn try_calc(self, margin: u8, work: &Rect) -> (r: Option<(i32, i32, i32, i32)>)
        ensures
            r is Some <==> self.fits(margin, *work),
            r matches Some(p) ==> (p.0 as int, p.1 as int, p.2 as int, p.3 as int)
                == self.spec_calc(margin, *work) && p.2 >= 0 && p.3 >= 0,
    {
        let wide = self.calc_wide(margin, work);
        if in_i32(wide.0) && in_i32(wide.1) && in_i32(wide.2) && in_i32(wide.3) {
            Some((wide.0 as i32, wide.1 as i32, wide.2 as i32, wide.3 as i32))
        } else {
            None
        }
    }
}

impl Layout {
    /// The rectangle `(x, y, w, h)` of this layout, over the integers: a
    /// custom layout's own four numbers, whatever the margin and the work
    /// area are; otherwise the preset's rectangle.
    pub open spec fn spec_calc(self, margin: u8, work: Rect) -> (int, int, int, int) {
        match self {
            Layout::Custom(c) => (c.x as int, c.y as int, c.w as int, c.h as int),
            Layout::Default(d) => d.spec_calc(margin, work),
        }
    }

    /// Whether the layout's rectangle can be written in 32-bit coordinates.
    /// A custom layout's always can.
    pub open spec fn fits(self, margin: u8, work: Rect) -> bool {
        match self {
            Layout::Custom(_) => true,
            Layout::Default(d) => d.fits(margin, work),
        }
    }

    /// Calculate `(x, y, w, h)`.
    pub fn calc(self, margin: u8, work: &Rect) -> (r: (i32, i32, i32, i32))
        requires
            self.fits(margin, *work),
        ensures
            (r.0 as int, r.1 as int, r.2 as int, r.3 as int) == self.spec_calc(margin, *work),
            self matches Layout::Custom(c) ==> r == (c.x, c.y, c.w, c.h),
            self is Default ==> r.2 >= 0 && r.3 >= 0,
    {
        match self {
            Layout::Custom(layout) => (layout.x, layout.y, layout.w, layout.h),
            Layout::Default(layout) => layout.calc(margin, work),
        }
    }

    /// As [`Layout::calc`], for a caller that cannot tell beforehand whether
    /// the rectangle fits: `None` exactly when it does not.
    pub fn try_calc(self, margin: u8, work: &Rect) -> (r: Option<(i32, i32, i32, i32)>)
        ensures
            r is Some <==> self.fits(margin, *work),
            r matches Some(p) ==> (p.0 as int, p.1 as int, p.2 as int, p.3 as int)
                == self.spec_calc(margin, *work),
            self matches Layout::Custom(c) ==> r == Some((c.x, c.y, c.w, c.h)),
    {
        match self {
            Layout::Custom(layout) => Some((layout.x, layout.y, layout.w, layout.h)),
            Layout::Default(layout) => layout.try_calc(margin, work),
        }
    }
}

/// No preset has a negative width or height, whatever the margin and the
/// work area, also where twice the margin exceeds the work area.
pub proof fn lemma_size_never_negative(layout: DefaultLayout, margin: u8, work: Rect)
    ensures
        layout.spec_calc(margin, work).2 >= 0,
        layout.spec_calc(margin, work).3 >= 0,
{
}

/// A preset's rectangle fits in 32-bit coordinates whenever the work area's
/// edges are in order and its corner, moved in by the margin, is still a
/// 32-bit coordinate.
pub proof fn lemma_fits_ordered_area(layout: DefaultLayout, margin: u8, work: Rect)
    requires
        work.left <= work.right,
        work.top <= work.bottom,
        fits_i32(work.width()),
        fits_i32(work.height()),
        fits_i32(work.left + margin),
        fits_i32(work.top + margin),
    ensures
        layout.fits(margin, work),
{
}

/// The two halves share the inner width: they do not overlap, the right half
/// ends where the inner area ends, and between them lies the one pixel that
/// an odd inner width leaves over, or nothing.
pub proof fn lemma_halves_partition(margin: u8, work: Rect)
    ensures
        ({
            let iw = inner_extent(work.width(), margin as int);
            let l = DefaultLayout::LeftHalf.spec_calc(margin, work);
            let r = DefaultLayout::RightHalf.spec_calc(margin, work);
            &&& l.2 + r.2 + iw % 2 == iw
            &&& l.0 == work.left + margin
            &&& l.0 + l.2 + iw % 2 == r.0
            &&& r.0 + r.2 == work.left + margin + iw
            &&& iw % 2 == 0 ==> l.2 + r.2 == iw
        }),
{
}

/// The three thirds are equally wide and lie side by side from the left edge
/// of the inner area; the one or two pixels that the division leaves over
/// stay empty at its right edge.
pub proof fn lemma_thirds_partition(margin: u8, work: Rect)
    ensures
        ({
            let iw = inner_extent(work.width(), margin as int);
            let l = DefaultLayout::LeftThird.spec_calc(margin, work);
            let c = DefaultLayout::CenterThird.spec_calc(margin, work);
            let r = DefaultLayout::RightThird.spec_calc(margin, work);
            &&& l.2 == c.2 == r.2
            &&& l.2 + c.2 + r.2 + iw % 3 == iw
            &&& l.0 == work.left + margin
            &&& l.0 + l.2 == c.0
            &&& c.0 + c.2 == r.0
            &&& r.0 + r.2 + iw % 3 == work.left + margin + iw
        }),
{
}

/// A custom layout's rectangle is its own four numbers: neither the margin
/// nor the work area has a part in it.
pub proof fn lemma_custom_is_identity(c: CustomLayout, margin: u8, work: Rect)
    ensures
        Layout::Custom(c).spec_calc(margin, work) == (c.x as int, c.y as int, c.w as int, c.h as int),
        Layout::Custom(c).fits(margin, work),
        forall|m: u8, a: Rect|
            Layout::Custom(c).spec_calc(m, a) == Layout::Custom(c).spec_calc(margin, work),
{
}

fn in_i32(v: i64) -> (r: bool)
    ensures
        r == fits_i32(v as int),
{
    -0x8000_0000 <= v && v <= 0x7fff_ffff
}

} // verus!
