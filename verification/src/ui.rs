//! Layout and touch behaviour of small widgets for CoreS3 applications.
//!
//! Drawing the widgets onto a display is done by the caller; this module
//! decides where widgets are, what they look like, and how touches change them.

use vstd::prelude::*;
use vstd::string::StringSliceAdditionalSpecFns;

use crate::geometry::{Point, Rectangle, Rgb565, Size};
use crate::power::BatteryStatus;
use crate::touch::{TouchEvent, TouchPhase};

verus! {

#[derive(Clone, Copy, Debug, PartialEq, Eq, Structural)]
pub struct Theme {
    pub foreground: Rgb565,
    pub background: Rgb565,
    pub accent: Rgb565,
    pub disabled: Rgb565,
    pub warning: Rgb565,
}

impl Theme {
    /// White on black with a cyan accent and a yellow warning colour.
    pub fn dark() -> (r: Self)
        ensures
            r.foreground.raw == 0xFFFF,
            r.background.raw == 0x0000,
            r.accent.raw == 0x07FF,
            r.disabled.raw == 0x4208,
            r.warning.raw == 0xFFE0,
    {
        assert(((((8u8 & 0x1Fu8) as u16) << 11u16) | (((16u8 & 0x3Fu8) as u16) << 5u16) | ((8u8 & 0x1Fu8) as u16)) == 0x4208u16) by (bit_vector);
        Theme {
            foreground: Rgb565::white(),
            background: Rgb565::black(),
            accent: Rgb565::cyan(),
            disabled: Rgb565::new(8, 16, 8),
            warning: Rgb565::yellow(),
        }
    }
}

/// Something with a rectangular extent on the screen.
pub trait Widget {
    /// Whether the bounds can be computed without overflow.
    spec fn bounds_defined(&self) -> bool;

    /// The rectangle the widget covers.
    spec fn spec_bounds(&self) -> Rectangle;

    fn bounds(&self) -> (r: Rectangle)
        requires
            self.bounds_defined(),
        ensures
            r == self.spec_bounds(),
    ;

    /// Whether `point` lies on the widget.
    fn hit_test(&self, point: Point) -> (r: bool)
        requires
            self.bounds_defined(),
            self.spec_bounds().in_range(),
        ensures
            r == self.spec_bounds().spec_contains(point),
    {
        let b = self.bounds();
        b.contains(point)
    }
}

/// A widget that reacts to touches.
pub trait InteractiveWidget: Widget {
    /// Whether the widget can handle a touch without overflow.
    spec fn touch_ready(&self) -> bool;

    /// Reacts to a touch; returns whether the widget took it.
    fn handle_touch(&mut self, event: TouchEvent) -> bool
        requires
            old(self).touch_ready(),
    ;
}

/// A line of text in the 6x10 font.
pub struct Label<'a> {
    pub text: &'a str,
    pub top_left: Point,
    pub color: Rgb565,
}

impl<'a> Widget for Label<'a> {
    open spec fn bounds_defined(&self) -> bool {
        (self.text.spec_bytes().len() as usize as int % 0x1_0000_0000) * 6 <= u32::MAX
    }

    /// Six pixels per byte of text, ten pixels high.
    open spec fn spec_bounds(&self) -> Rectangle {
        Rectangle {
            top_left: self.top_left,
            size: Size {
                width: ((self.text.spec_bytes().len() as usize as int % 0x1_0000_0000) * 6) as u32,
                height: 10,
            },
        }
    }

    fn bounds(&self) -> (r: Rectangle) {
        let len: usize = self.text.len();
        let l: u32 = (len as u64 % 0x1_0000_0000u64) as u32;
        Rectangle { top_left: self.top_left, size: Size { width: l * 6, height: 10 } }
    }
}

#[derive(Clone, Copy, Debug, PartialEq, Eq)]
pub struct Button<'a> {
    pub bounds: Rectangle,
    pub label: &'a str,
    pub pressed: bool,
}

impl<'a> Button<'a> {
    /// The fill colour: the accent while pressed, the background otherwise.
    pub fn fill_color(&self, theme: Theme) -> (r: Rgb565)
        ensures
            r == (if self.pressed { theme.accent } else { theme.background }),
    {
        if self.pressed {
            theme.accent
        } else {
            theme.background
        }
    }
}

impl<'a> Widget for Button<'a> {
    open spec fn bounds_defined(&self) -> bool {
        true
    }

    open spec fn spec_bounds(&self) -> Rectangle {
        self.bounds
    }

    fn bounds(&self) -> (r: Rectangle) {
        self.bounds
    }
}

impl<'a> InteractiveWidget for Button<'a> {
    open spec fn touch_ready(&self) -> bool {
        self.bounds.in_range()
    }

    /// A touch on the button presses it, or releases it when the touch ends.
    fn handle_touch(&mut self, event: TouchEvent) -> (r: bool)
        ensures
            r == old(self).bounds.spec_contains(event.point),
            r ==> final(self).pressed == (event.phase != TouchPhase::Up),
            !r ==> final(self).pressed == old(self).pressed,
            final(self).bounds == old(self).bounds,
            final(self).label == old(self).label,
    {
        if !self.hit_test(event.point) {
            return false;
        }
        self.pressed = match event.phase {
            TouchPhase::Up => false,
            _ => true,
        };
        true
    }
}

#[derive(Clone, Copy, Debug, PartialEq, Eq)]
pub struct Toggle<'a> {
    pub bounds: Rectangle,
    pub label: &'a str,
    pub on: bool,
}

impl<'a> Toggle<'a> {
    /// The toggle is drawn as a button that is pressed while on.
    pub fn as_button(&self) -> (r: Button<'a>)
        ensures
            r == (Button { bounds: self.bounds, label: self.label, pressed: self.on }),
    {
        Button { bounds: self.bounds, label: self.label, pressed: self.on }
    }
}

impl<'a> Widget for Toggle<'a> {
    open spec fn bounds_defined(&self) -> bool {
        true
    }

    open spec fn spec_bounds(&self) -> Rectangle {
        self.bounds
    }

    fn bounds(&self) -> (r: Rectangle) {
        self.bounds
    }
}

impl<'a> InteractiveWidget for Toggle<'a> {
    open spec fn touch_ready(&self) -> bool {
        self.bounds.in_range()
    }

    /// A touch that ends on the toggle flips it.
    fn handle_touch(&mut self, event: TouchEvent) -> (r: bool)
        ensures
            r == (old(self).bounds.spec_contains(event.point) && event.phase == TouchPhase::Up),
            final(self).on == (if r { !old(self).on } else { old(self).on }),
            final(self).bounds == old(self).bounds,
            final(self).label == old(self).label,
    {
        let up = match event.phase {
            TouchPhase::Up => true,
            _ => false,
        };
        if self.hit_test(event.point) && up {
            self.on = !self.on;
            true
        } else {
            false
        }
    }
}

#[derive(Clone, Copy, Debug, PartialEq, Eq, Structural)]
pub struct Slider {
    pub bounds: Rectangle,
    pub value: u8,
}

/// The slider value at `x`: the distance from the left edge, limited to the
/// width, as a percentage of the width.
pub open spec fn spec_slider_value(bounds: Rectangle, x: i32) -> int {
    let w = bounds.size.width as int;
    let d = x - bounds.top_left.x;
    let rel = if d < 0 { 0 } else if d > w { w } else { d };
    rel * 100 / (if w >= 1 { w } else { 1 })
}

/// Whether the slider value can be computed for `x` without overflow.
pub open spec fn slider_value_defined(bounds: Rectangle, x: i32) -> bool {
    &&& bounds.size.width <= 42_949_672
    &&& i32::MIN <= x - bounds.top_left.x <= i32::MAX
}

impl Slider {
    /// The slider is drawn as a progress bar.
    pub fn as_progress_bar(&self) -> (r: ProgressBar)
        ensures
            r == (ProgressBar { bounds: self.bounds, value: self.value }),
    {
        ProgressBar { bounds: self.bounds, value: self.value }
    }

    pub fn value_from_x(&self, x: i32) -> (r: u8)
        requires
            slider_value_defined(self.bounds, x),
        ensures
            r == spec_slider_value(self.bounds, x),
            r <= 100,
    {
        let w: i32 = self.bounds.size.width as i32;
        let d: i32 = x - self.bounds.top_left.x;
        let rel: i32 = if d < 0 {
            0
        } else if d > w {
            w
        } else {
            d
        };
        let div: u32 = if self.bounds.size.width >= 1 {
            self.bounds.size.width
        } else {
            1
        };
        assert((rel as u32 as int) * 100 / (div as int) <= 100) by (nonlinear_arith)
            requires
                0 <= rel <= div || (rel == 0),
                div >= 1,
        ;
        ((rel as u32 * 100) / div) as u8
    }
}

impl Widget for Slider {
    open spec fn bounds_defined(&self) -> bool {
        true
    }

    open spec fn spec_bounds(&self) -> Rectangle {
        self.bounds
    }

    fn bounds(&self) -> (r: Rectangle) {
        self.bounds
    }
}

impl InteractiveWidget for Slider {
    open spec fn touch_ready(&self) -> bool {
        self.bounds.in_range() && self.bounds.size.width <= 42_949_672
    }

    /// A touch on the slider sets its value from the touch position.
    fn handle_touch(&mut self, event: TouchEvent) -> (r: bool)
        ensures
            r == old(self).bounds.spec_contains(event.point),
            r ==> final(self).value == spec_slider_value(old(self).bounds, event.point.x),
            !r ==> final(self).value == old(self).value,
            final(self).bounds == old(self).bounds,
    {
        if self.hit_test(event.point) {
            self.value = self.value_from_x(event.point.x);
            true
        } else {
            false
        }
    }
}

#[derive(Clone, Copy, Debug, PartialEq, Eq, Structural)]
pub struct ProgressBar {
    pub bounds: Rectangle,
    pub value: u8,
}

/// `a - b`, or 0 when `b > a`.
pub open spec fn sat_sub(a: u32, b: u32) -> u32 {
    if a >= b {
        (a - b) as u32
    } else {
        0
    }
}

impl ProgressBar {
    /// The filled part of the bar: inset by two pixels from the outline,
    /// as wide as the value's share (at most 100%) of the inner width.
    pub fn fill_area(&self) -> (r: Rectangle)
        requires
            self.bounds.top_left.x + 2 <= i32::MAX,
            self.bounds.top_left.y + 2 <= i32::MAX,
        ensures
            r.top_left == (Point { x: (self.bounds.top_left.x + 2) as i32, y: (self.bounds.top_left.y + 2) as i32 }),
            r.size.height == sat_sub(self.bounds.size.height, 4),
            r.size.width == (if sat_sub(self.bounds.size.width, 4) * (if self.value < 100 { self.value as int } else { 100 }) <= u32::MAX {
                sat_sub(self.bounds.size.width, 4) * (if self.value < 100 { self.value as int } else { 100 })
            } else {
                u32::MAX as int
            }) / 100,
    {
        let inner_w: u32 = self.bounds.size.width.saturating_sub(4);
        let inner_h: u32 = self.bounds.size.height.saturating_sub(4);
        let v: u32 = if self.value < 100 {
            self.value as u32
        } else {
            100
        };
        let product: u32 = if inner_w == 0 || v <= u32::MAX / inner_w {
            proof {
                if inner_w > 0 {
                    assert(inner_w * v <= u32::MAX) by (nonlinear_arith)
                        requires
                            inner_w > 0,
                            v <= u32::MAX / inner_w,
                    ;
                }
            }
            inner_w * v
        } else {
            assert(inner_w * v > u32::MAX) by (nonlinear_arith)
                requires
                    inner_w > 0,
                    v > u32::MAX / inner_w,
            ;
            u32::MAX
        };
        Rectangle {
            top_left: Point { x: self.bounds.top_left.x + 2, y: self.bounds.top_left.y + 2 },
            size: Size { width: product / 100, height: inner_h },
        }
    }
}

impl Widget for ProgressBar {
    open spec fn bounds_defined(&self) -> bool {
        true
    }

    open spec fn spec_bounds(&self) -> Rectangle {
        self.bounds
    }

    fn bounds(&self) -> (r: Rectangle) {
        self.bounds
    }
}

#[derive(Clone, Copy, Debug, PartialEq, Eq, Structural)]
pub struct BatteryIndicator {
    pub bounds: Rectangle,
    pub status: BatteryStatus,
}

impl BatteryIndicator {
    /// The indicator is a progress bar of the battery percentage, in the
    /// warning colour when the battery is low and the accent colour otherwise.
    pub fn bar(&self, theme: Theme) -> (r: (ProgressBar, Theme))
        ensures
            r.0 == (ProgressBar { bounds: self.bounds, value: self.status.percentage }),
            r.1 == (Theme {
                accent: if self.status.low_battery { theme.warning } else { theme.accent },
                ..theme
            }),
    {
        let color = if self.status.low_battery {
            theme.warning
        } else {
            theme.accent
        };
        (ProgressBar { bounds: self.bounds, value: self.status.percentage }, Theme { accent: color, ..theme })
    }
}

impl Widget for BatteryIndicator {
    open spec fn bounds_defined(&self) -> bool {
        true
    }

    open spec fn spec_bounds(&self) -> Rectangle {
        self.bounds
    }

    fn bounds(&self) -> (r: Rectangle) {
        self.bounds
    }
}

pub struct StatusBar<'a> {
    pub bounds: Rectangle,
    pub text: &'a str,
}

impl<'a> Widget for StatusBar<'a> {
    open spec fn bounds_defined(&self) -> bool {
        true
    }

    open spec fn spec_bounds(&self) -> Rectangle {
        self.bounds
    }

    fn bounds(&self) -> (r: Rectangle) {
        self.bounds
    }
}

pub struct Menu<'a, const N: usize> {
    pub bounds: Rectangle,
    pub items: [&'a str; N],
    pub selected: usize,
    pub row_height: u32,
}

impl<'a, const N: usize> Menu<'a, N> {
    /// The rectangle of row `index`: full width, `row_height` tall, stacked
    /// from the top of the menu.
    pub fn row_bounds(&self, index: usize) -> (r: Rectangle)
        requires
            index <= i32::MAX,
            self.row_height <= i32::MAX,
            i32::MIN <= index * self.row_height <= i32::MAX,
            i32::MIN <= self.bounds.top_left.y + index * self.row_height <= i32::MAX,
        ensures
            r == (Rectangle {
                top_left: Point {
                    x: self.bounds.top_left.x,
                    y: (self.bounds.top_left.y + index * self.row_height) as i32,
                },
                size: Size { width: self.bounds.size.width, height: self.row_height },
            }),
    {
        let i: i32 = index as i32;
        let h: i32 = self.row_height as i32;
        let offset: i32 = i * h;
        Rectangle {
            top_left: Point { x: self.bounds.top_left.x, y: self.bounds.top_left.y + offset },
            size: Size { width: self.bounds.size.width, height: self.row_height },
        }
    }
}

impl<'a, const N: usize> Widget for Menu<'a, N> {
    open spec fn bounds_defined(&self) -> bool {
        true
    }

    open spec fn spec_bounds(&self) -> Rectangle {
        self.bounds
    }

    fn bounds(&self) -> (r: Rectangle) {
        self.bounds
    }
}

/// The slider value is the touch offset from the left edge as a whole
/// percentage of the width, rounded down: on a slider of width `w` an offset
/// `d` in `0..=w` gives the `v` with `v * w <= 100 * d < (v + 1) * w`. A touch
/// left of the slider reads 0, one at or right of its right edge reads 100,
/// and a slider without width reads 0.
pub proof fn lemma_slider_value_scales(bounds: Rectangle, x: i32)
    requires
        slider_value_defined(bounds, x),
    ensures
        ({
            let w = bounds.size.width as int;
            let d = x - bounds.top_left.x;
            let v = spec_slider_value(bounds, x);
            &&& 0 <= v <= 100
            &&& (w >= 1 && 0 <= d <= w) ==> v * w <= d * 100 < (v + 1) * w
            &&& d <= 0 ==> v == 0
            &&& (w >= 1 && d >= w) ==> v == 100
            &&& w == 0 ==> v == 0
        }),
{
    let w = bounds.size.width as int;
    let d = x - bounds.top_left.x;
    let rel = if d < 0 { 0 } else if d > w { w } else { d };
    let v = spec_slider_value(bounds, x);
    if w >= 1 {
        assert(v == rel * 100 / w);
        assert(v * w <= rel * 100 < (v + 1) * w && 0 <= v <= 100) by (nonlinear_arith)
            requires
                v == rel * 100 / w,
                w >= 1,
                0 <= rel <= w,
        ;
        if d >= w {
            assert(w * 100 / w == 100) by (nonlinear_arith)
                requires
                    w >= 1,
            ;
        }
    }
}

/// Moving the touch to the right never lowers the slider value.
pub proof fn lemma_slider_value_monotone(bounds: Rectangle, x1: i32, x2: i32)
    requires
        slider_value_defined(bounds, x1),
        slider_value_defined(bounds, x2),
        x1 <= x2,
    ensures
        spec_slider_value(bounds, x1) <= spec_slider_value(bounds, x2),
{
    let w = bounds.size.width as int;
    let d1 = x1 - bounds.top_left.x;
    let d2 = x2 - bounds.top_left.x;
    let r1 = if d1 < 0 { 0 } else if d1 > w { w } else { d1 };
    let r2 = if d2 < 0 { 0 } else if d2 > w { w } else { d2 };
    let div = if w >= 1 { w } else { 1 };
    assert(r1 <= r2);
    assert(r1 * 100 / div <= r2 * 100 / div) by (nonlinear_arith)
        requires
            0 <= r1 <= r2,
            div >= 1,
    ;
}

} // verus!
