//! ILI9342C panel logic of the CoreS3 display: orientation, coordinate
//! mapping, command sequences and the grouping of pixels into bus writes.
//!
//! The SPI and GPIO transfers are performed by the caller, which executes the
//! [`PanelStep`]s and pixel runs that this module plans.

use vstd::prelude::*;

use crate::devices;
use crate::geometry::{spec_intersection, Point, Rectangle, Rgb565, Size};

verus! {

/// Native panel width in landscape orientation.
pub const WIDTH: u16 = devices::display::WIDTH;
/// Native panel height in landscape orientation.
pub const HEIGHT: u16 = devices::display::HEIGHT;

pub const CMD_SOFTWARE_RESET: u8 = 0x01;
pub const CMD_SLEEP_OUT: u8 = 0x11;
pub const CMD_DISPLAY_INVERSION_ON: u8 = 0x21;
pub const CMD_DISPLAY_ON: u8 = 0x29;
pub const CMD_IDLE_MODE_OFF: u8 = 0x38;
pub const CMD_COLUMN_ADDRESS_SET: u8 = 0x2A;
pub const CMD_ROW_ADDRESS_SET: u8 = 0x2B;
pub const CMD_MEMORY_WRITE: u8 = 0x2C;
pub const CMD_MEMORY_ACCESS_CONTROL: u8 = 0x36;
pub const CMD_PIXEL_FORMAT_SET: u8 = 0x3A;
pub const PIXEL_FORMAT_RGB565: u8 = 0x55;
pub const SOFTWARE_RESET_DELAY_NS: u32 = 150_000_000;
pub const SLEEP_OUT_DELAY_NS: u32 = 120_000_000;
pub const DISPLAY_ON_DELAY_NS: u32 = 20_000_000;
/// Pixels per bus write when streaming one repeated colour.
pub const COLOR_STREAM_PIXELS: usize = 128;
/// Pixels per bus write when streaming distinct colours.
pub const PIXEL_STREAM_PIXELS: usize = 128;
/// Pixels a row buffer of `draw_iter` holds.
pub const DRAW_ITER_PIXELS: usize = 64;

#[derive(Clone, Copy, Debug, PartialEq, Eq, Structural)]
pub enum Orientation {
    Landscape,
    Portrait,
    LandscapeInverted,
    PortraitInverted,
}

/// Failure of a display transfer: the SPI bus, a control pin, or text layout.
#[derive(Clone, Copy, Debug, PartialEq, Eq)]
pub enum DisplayError<SpiError, PinError> {
    Spi(SpiError),
    Pin(PinError),
    Text,
}

#[derive(Clone, Copy, Debug, PartialEq, Eq, Structural)]
pub enum DisplayOrientation {
    Portrait,
    PortraitInverted,
    Landscape,
    LandscapeInverted,
}

#[derive(Clone, Copy, Debug, PartialEq, Eq, Structural)]
pub struct DisplayGeometry {
    pub width: u16,
    pub height: u16,
    pub offset_x: u16,
    pub offset_y: u16,
}

#[derive(Clone, Copy, Debug, PartialEq, Eq, Structural)]
pub struct PanelConfig {
    pub geometry: DisplayGeometry,
    pub invert_colors: bool,
}

#[derive(Clone, Copy, Debug, PartialEq, Eq, Structural)]
pub struct BusConfig {
    pub write_hz: u32,
}

/// One step of a panel command sequence.
#[derive(Clone, Debug)]
pub enum PanelStep {
    /// Drive the TF-card chip select high so the card ignores the bus.
    SdCsHigh,
    /// Send `command` with D/C low, then `data` (if any) with D/C high.
    Command { command: u8, data: Vec<u8> },
    /// Wait for the given number of nanoseconds.
    DelayNs { ns: u32 },
    /// Send the memory-write command and leave D/C high for pixel data.
    MemoryWrite,
}

/// What a [`PanelStep`] stands for, with its data as a sequence.
pub enum PanelStepView {
    SdCsHigh,
    Command(u8, Seq<u8>),
    DelayNs(u32),
    MemoryWrite,
}

impl View for PanelStep {
    type V = PanelStepView;

    open spec fn view(&self) -> PanelStepView {
        match self {
            PanelStep::SdCsHigh => PanelStepView::SdCsHigh,
            PanelStep::Command { command, data } => PanelStepView::Command(*command, data@),
            PanelStep::DelayNs { ns } => PanelStepView::DelayNs(*ns),
            PanelStep::MemoryWrite => PanelStepView::MemoryWrite,
        }
    }
}

/// The views of a list of panel steps.
pub open spec fn steps_view(steps: Seq<PanelStep>) -> Seq<PanelStepView> {
    steps.map_values(|s: PanelStep| s@)
}

/// The memory-access-control value of an orientation (row/column exchange
/// and mirroring, BGR order).
pub open spec fn spec_madctl(orientation: DisplayOrientation) -> u8 {
    match orientation {
        DisplayOrientation::Landscape => 0x08,
        DisplayOrientation::LandscapeInverted => 0xC8,
        DisplayOrientation::Portrait => 0x68,
        DisplayOrientation::PortraitInverted => 0xA8,
    }
}

pub fn madctl_for_orientation(orientation: DisplayOrientation) -> (r: u8)
    ensures
        r == spec_madctl(orientation),
{
    match orientation {
        DisplayOrientation::Landscape => 0x08,
        DisplayOrientation::LandscapeInverted => 0xC8,
        DisplayOrientation::Portrait => 0x68,
        DisplayOrientation::PortraitInverted => 0xA8,
    }
}

/// The panel's vendor register set-up, as (command, data) pairs.
pub open spec fn spec_ili9342_registers() -> Seq<PanelStepView> {
    seq![
        PanelStepView::Command(0xC8, seq![0xFFu8, 0x93, 0x42]),
        PanelStepView::Command(0xC0, seq![0x12u8, 0x12]),
        PanelStepView::Command(0xC1, seq![0x03u8]),
        PanelStepView::Command(0xC5, seq![0xF2u8]),
        PanelStepView::Command(0xB0, seq![0xE0u8]),
        PanelStepView::Command(0xF6, seq![0x01u8, 0x00, 0x00]),
        PanelStepView::Command(
            0xE0,
            seq![0x00u8, 0x0C, 0x11, 0x04, 0x11, 0x08, 0x37, 0x89, 0x4C, 0x06, 0x0C, 0x0A, 0x2E, 0x34, 0x0F],
        ),
        PanelStepView::Command(
            0xE1,
            seq![0x00u8, 0x0B, 0x11, 0x05, 0x13, 0x09, 0x33, 0x67, 0x48, 0x07, 0x0E, 0x0B, 0x2E, 0x33, 0x0F],
        ),
        PanelStepView::Command(0xB6, seq![0x08u8, 0x82, 0x1D, 0x04]),
    ]
}

/// The full start-up sequence of the panel for a colour-inversion setting
/// and an orientation.
pub open spec fn spec_init_steps(invert_colors: bool, orientation: DisplayOrientation) -> Seq<
    PanelStepView,
> {
    seq![
        PanelStepView::SdCsHigh,
        PanelStepView::Command(CMD_SOFTWARE_RESET, Seq::empty()),
        PanelStepView::DelayNs(SOFTWARE_RESET_DELAY_NS),
    ] + spec_ili9342_registers() + seq![
        PanelStepView::Command(CMD_SLEEP_OUT, Seq::empty()),
        PanelStepView::DelayNs(SLEEP_OUT_DELAY_NS),
        PanelStepView::Command(CMD_PIXEL_FORMAT_SET, seq![PIXEL_FORMAT_RGB565]),
        PanelStepView::Command(CMD_MEMORY_ACCESS_CONTROL, seq![spec_madctl(orientation)]),
    ] + (if invert_colors {
        seq![PanelStepView::Command(CMD_DISPLAY_INVERSION_ON, Seq::empty())]
    } else {
        Seq::empty()
    }) + seq![
        PanelStepView::Command(CMD_IDLE_MODE_OFF, Seq::empty()),
        PanelStepView::Command(CMD_DISPLAY_ON, Seq::empty()),
        PanelStepView::DelayNs(DISPLAY_ON_DELAY_NS),
    ]
}

fn command_step(cmd: u8, data: Vec<u8>) -> (r: PanelStep)
    ensures
        r@ == PanelStepView::Command(cmd, data@),
{
    PanelStep::Command { command: cmd, data }
}

fn push_command(steps: &mut Vec<PanelStep>, cmd: u8, data: Vec<u8>)
    ensures
        steps_view(final(steps)@) == steps_view(old(steps)@).push(PanelStepView::Command(cmd, data@)),
{
    let ghost before = steps@;
    steps.push(command_step(cmd, data));
    assert(steps_view(steps@) =~= steps_view(before).push(PanelStepView::Command(cmd, data@)));
}

fn push_step(steps: &mut Vec<PanelStep>, step: PanelStep)
    ensures
        steps_view(final(steps)@) == steps_view(old(steps)@).push(step@),
{
    let ghost before = steps@;
    let ghost v = step@;
    steps.push(step);
    assert(steps_view(steps@) =~= steps_view(before).push(v));
}

/// The panel-local pixel rows and columns that a rectangle covers in
/// landscape coordinates: address-window bytes for a column or row range
/// starting at `start` (negative counts as 0) with `len` pixels, on a panel
/// whose window starts at `offset`.
pub open spec fn window_start(offset: u16, start: i32) -> int {
    offset + (if start < 0 { 0 } else { start as int }) % 65536
}

pub open spec fn window_end(offset: u16, start: i32, len: u32) -> int {
    window_start(offset, start) + (if len == 0 { 0 } else { len - 1 }) % 65536
}

/// Whether the address window of `area` fits in 16-bit panel coordinates.
pub open spec fn window_fits(geometry: DisplayGeometry, area: Rectangle) -> bool {
    &&& window_end(geometry.offset_x, area.top_left.x, area.size.width) <= u16::MAX
    &&& window_end(geometry.offset_y, area.top_left.y, area.size.height) <= u16::MAX
}

/// The four big-endian bytes of an address range.
pub open spec fn range_bytes(start: int, end: int) -> Seq<u8> {
    seq![(start / 256) as u8, (start % 256) as u8, (end / 256) as u8, (end % 256) as u8]
}

/// The steps that open the panel's address window on `area` for pixel data.
pub open spec fn spec_window_steps(geometry: DisplayGeometry, area: Rectangle) -> Seq<PanelStepView> {
    seq![
        PanelStepView::Command(
            CMD_COLUMN_ADDRESS_SET,
            range_bytes(
                window_start(geometry.offset_x, area.top_left.x),
                window_end(geometry.offset_x, area.top_left.x, area.size.width),
            ),
        ),
        PanelStepView::Command(
            CMD_ROW_ADDRESS_SET,
            range_bytes(
                window_start(geometry.offset_y, area.top_left.y),
                window_end(geometry.offset_y, area.top_left.y, area.size.height),
            ),
        ),
        PanelStepView::MemoryWrite,
    ]
}

fn address_range(offset: u16, start: i32, len: u32) -> (r: Vec<u8>)
    requires
        window_end(offset, start, len) <= u16::MAX,
    ensures
        r@ == range_bytes(window_start(offset, start), window_end(offset, start, len)),
{
    let s: i32 = if start < 0 {
        0
    } else {
        start
    };
    let s16: u16 = (s % 65536) as u16;
    let l: u32 = if len == 0 {
        0
    } else {
        len - 1
    };
    let l16: u16 = (l % 65536) as u16;
    let first: u16 = offset + s16;
    let last: u16 = first + l16;
    let mut v: Vec<u8> = Vec::new();
    v.push((first / 256) as u8);
    v.push((first % 256) as u8);
    v.push((last / 256) as u8);
    v.push((last % 256) as u8);
    v
}

/// The steps that open the panel's address window on `area` (landscape
/// panel coordinates) for a stream of pixel data.
pub fn window_steps(geometry: DisplayGeometry, area: Rectangle) -> (r: Vec<PanelStep>)
    requires
        window_fits(geometry, area),
    ensures
        steps_view(r@) == spec_window_steps(geometry, area),
{
    let mut v: Vec<PanelStep> = Vec::new();
    let cols = address_range(geometry.offset_x, area.top_left.x, area.size.width);
    let rows = address_range(geometry.offset_y, area.top_left.y, area.size.height);
    push_command(&mut v, CMD_COLUMN_ADDRESS_SET, cols);
    push_command(&mut v, CMD_ROW_ADDRESS_SET, rows);
    push_step(&mut v, PanelStep::MemoryWrite);
    assert(steps_view(v@) =~= spec_window_steps(geometry, area));
    v
}

/// The size of the drawing surface in an orientation: the native size, with
/// width and height exchanged in portrait.
pub open spec fn spec_logical_size(geometry: DisplayGeometry, orientation: DisplayOrientation) -> Size {
    match orientation {
        DisplayOrientation::Portrait | DisplayOrientation::PortraitInverted => Size {
            width: geometry.height as u32,
            height: geometry.width as u32,
        },
        _ => Size { width: geometry.width as u32, height: geometry.height as u32 },
    }
}

/// Whether the native-coordinate arithmetic of a logical rectangle stays in
/// the `i32` range.
pub open spec fn mapping_fits(geometry: DisplayGeometry, area: Rectangle) -> bool {
    &&& area.size.width <= i32::MAX
    &&& area.size.height <= i32::MAX
    &&& i32::MIN <= geometry.width - area.top_left.x <= i32::MAX
    &&& i32::MIN <= geometry.height - area.top_left.y <= i32::MAX
    &&& i32::MIN <= geometry.width - area.top_left.y <= i32::MAX
    &&& i32::MIN <= geometry.height - area.top_left.x <= i32::MAX
    &&& i32::MIN <= geometry.width - area.top_left.x - area.size.width <= i32::MAX
    &&& i32::MIN <= geometry.height - area.top_left.y - area.size.height <= i32::MAX
    &&& i32::MIN <= geometry.width - area.top_left.y - area.size.height <= i32::MAX
    &&& i32::MIN <= geometry.height - area.top_left.x - area.size.width <= i32::MAX
}

/// The native (landscape) rectangle that a logical rectangle covers in an
/// orientation: mirrored for the inverted orientations, transposed in portrait.
pub open spec fn spec_map_to_native(
    geometry: DisplayGeometry,
    orientation: DisplayOrientation,
    area: Rectangle,
) -> Rectangle {
    let x = area.top_left.x as int;
    let y = area.top_left.y as int;
    let w = area.size.width as int;
    let h = area.size.height as int;
    match orientation {
        DisplayOrientation::Landscape => area,
        DisplayOrientation::LandscapeInverted => Rectangle {
            top_left: Point { x: (geometry.width - x - w) as i32, y: (geometry.height - y - h) as i32 },
            size: area.size,
        },
        DisplayOrientation::Portrait => Rectangle {
            top_left: Point { x: y as i32, y: (geometry.height - x - w) as i32 },
            size: Size { width: area.size.height, height: area.size.width },
        },
        DisplayOrientation::PortraitInverted => Rectangle {
            top_left: Point { x: (geometry.width - y - h) as i32, y: x as i32 },
            size: Size { width: area.size.height, height: area.size.width },
        },
    }
}

/// Display state: the SPI device, the D/C pin, the TF-card chip-select guard,
/// the bus and panel configuration, and the drawing orientation.
///
/// The display plans command sequences and pixel writes; the caller performs
/// them on the bus and pins it owns (see [`Display::io_mut`]).
pub struct Display<SPI, DC, SDCS> {
    spi: SPI,
    dc: DC,
    sd_cs_guard: SDCS,
    bus: BusConfig,
    panel: PanelConfig,
    orientation: DisplayOrientation,
}

/// How a rectangle of colours reaches the panel.
#[derive(Clone, Copy, Debug, PartialEq, Eq, Structural)]
pub enum FillPlan {
    /// Nothing of the area is visible.
    Nothing,
    /// Open the address window on `window` and stream at most `max_pixels`
    /// colours in row order.
    Stream { window: Rectangle, max_pixels: usize },
    /// Walk the colours in row order over `area`, keep those inside `clipped`,
    /// and fill them as runs of equal colour (see [`contiguous_run_step`]).
    Runs { area: Rectangle, clipped: Rectangle },
}

/// `a * b` in 32 bits, or `u32::MAX` when that does not fit.
pub open spec fn saturating_area(a: u32, b: u32) -> usize {
    if a * b <= u32::MAX {
        (a * b) as usize
    } else {
        u32::MAX as usize
    }
}

fn saturating_mul_u32(a: u32, b: u32) -> (r: u32)
    ensures
        r == saturating_area(a, b),
{
    if a == 0 {
        return 0;
    }
    if b <= u32::MAX / a {
        assert(a * b <= u32::MAX) by (nonlinear_arith)
            requires
                a > 0,
                b <= u32::MAX / a,
        ;
        a * b
    } else {
        assert(a * b > u32::MAX) by (nonlinear_arith)
            requires
                a > 0,
                b > u32::MAX / a,
        ;
        u32::MAX
    }
}

impl<SPI, DC, SDCS> Display<SPI, DC, SDCS> {
    pub closed spec fn spec_bus_config(&self) -> BusConfig {
        self.bus
    }

    pub closed spec fn spec_panel(&self) -> PanelConfig {
        self.panel
    }

    pub closed spec fn spec_orientation(&self) -> DisplayOrientation {
        self.orientation
    }

    pub closed spec fn spec_io(&self) -> (SPI, DC, SDCS) {
        (self.spi, self.dc, self.sd_cs_guard)
    }

    /// The drawing surface in the current orientation, at the origin.
    pub open spec fn spec_bounding_box(&self) -> Rectangle {
        Rectangle {
            top_left: Point { x: 0, y: 0 },
            size: spec_logical_size(self.spec_panel().geometry, self.spec_orientation()),
        }
    }

    /// A display in landscape orientation.
    pub fn new(spi: SPI, dc: DC, sd_cs_guard: SDCS, bus: BusConfig, panel: PanelConfig) -> (r: Self)
        ensures
            r.spec_io() == (spi, dc, sd_cs_guard),
            r.spec_bus_config() == bus,
            r.spec_panel() == panel,
            r.spec_orientation() == DisplayOrientation::Landscape,
    {
        Display { spi, dc, sd_cs_guard, bus, panel, orientation: DisplayOrientation::Landscape }
    }

    pub fn bus_config(&self) -> (r: BusConfig)
        ensures
            r == self.spec_bus_config(),
    {
        self.bus
    }

    pub fn panel_config(&self) -> (r: PanelConfig)
        ensures
            r == self.spec_panel(),
    {
        self.panel
    }

    pub fn geometry(&self) -> (r: DisplayGeometry)
        ensures
            r == self.spec_panel().geometry,
    {
        self.panel.geometry
    }

    pub fn orientation(&self) -> (r: DisplayOrientation)
        ensures
            r == self.spec_orientation(),
    {
        self.orientation
    }

    /// Changes the drawing orientation without telling the panel.
    pub fn set_orientation(&mut self, orientation: DisplayOrientation)
        ensures
            final(self).spec_orientation() == orientation,
            final(self).spec_panel() == old(self).spec_panel(),
            final(self).spec_bus_config() == old(self).spec_bus_config(),
            final(self).spec_io() == old(self).spec_io(),
    {
        self.orientation = orientation;
    }

    /// Changes the orientation and returns the command that applies it.
    pub fn set_orientation_and_apply(&mut self, orientation: DisplayOrientation) -> (r: Vec<
        PanelStep,
    >)
        ensures
            final(self).spec_orientation() == orientation,
            final(self).spec_panel() == old(self).spec_panel(),
            final(self).spec_bus_config() == old(self).spec_bus_config(),
            final(self).spec_io() == old(self).spec_io(),
            steps_view(r@) == seq![
                PanelStepView::Command(CMD_MEMORY_ACCESS_CONTROL, seq![spec_madctl(orientation)]),
            ],
    {
        self.orientation = orientation;
        self.write_orientation()
    }

    fn write_orientation(&self) -> (r: Vec<PanelStep>)
        ensures
            steps_view(r@) == seq![
                PanelStepView::Command(
                    CMD_MEMORY_ACCESS_CONTROL,
                    seq![spec_madctl(self.spec_orientation())],
                ),
            ],
    {
        let mut v: Vec<PanelStep> = Vec::new();
        let mut data: Vec<u8> = Vec::new();
        data.push(madctl_for_orientation(self.orientation));
        push_command(&mut v, CMD_MEMORY_ACCESS_CONTROL, data);
        assert(steps_view(v@) =~= seq![
            PanelStepView::Command(CMD_MEMORY_ACCESS_CONTROL, seq![spec_madctl(self.spec_orientation())]),
        ]);
        v
    }

    /// The SPI device, D/C pin and chip-select guard back.
    pub fn release(self) -> (r: (SPI, DC, SDCS))
        ensures
            r == self.spec_io(),
    {
        (self.spi, self.dc, self.sd_cs_guard)
    }

    /// The SPI device, D/C pin and chip-select guard, for performing the
    /// transfers that this display plans.
    pub fn io_mut(&mut self) -> (r: (&mut SPI, &mut DC, &mut SDCS))
        ensures
            (*r.0, *r.1, *r.2) == old(self).spec_io(),
            final(self).spec_io() == (*final(r.0), *final(r.1), *final(r.2)),
            final(self).spec_panel() == old(self).spec_panel(),
            final(self).spec_bus_config() == old(self).spec_bus_config(),
            final(self).spec_orientation() == old(self).spec_orientation(),
    {
        (&mut self.spi, &mut self.dc, &mut self.sd_cs_guard)
    }

    /// The size of the drawing surface in the current orientation.
    pub fn logical_size(&self) -> (r: Size)
        ensures
            r == spec_logical_size(self.spec_panel().geometry, self.spec_orientation()),
    {
        let g = self.panel.geometry;
        match self.orientation {
            DisplayOrientation::Portrait | DisplayOrientation::PortraitInverted => Size {
                width: g.height as u32,
                height: g.width as u32,
            },
            _ => Size { width: g.width as u32, height: g.height as u32 },
        }
    }

    /// The drawing surface as a rectangle at the origin.
    pub fn bounding_box(&self) -> (r: Rectangle)
        ensures
            r == self.spec_bounding_box(),
    {
        Rectangle { top_left: Point { x: 0, y: 0 }, size: self.logical_size() }
    }

    /// Whether `point` lies on the drawing surface.
    pub fn on_surface(&self, point: Point) -> (r: bool)
        ensures
            r == self.spec_bounding_box().spec_contains(point),
    {
        let bb = self.bounding_box();
        bb.contains(point)
    }

    /// The part of `area` that lies on the drawing surface.
    pub fn clip_rectangle(&self, area: Rectangle) -> (r: Rectangle)
        requires
            area.in_range(),
        ensures
            r == spec_intersection(area, self.spec_bounding_box()),
    {
        let bb = self.bounding_box();
        area.intersection(&bb)
    }

    /// The native panel rectangle that a logical rectangle covers.
    pub fn map_logical_rectangle_to_native(&self, area: &Rectangle) -> (r: Rectangle)
        requires
            mapping_fits(self.spec_panel().geometry, *area),
        ensures
            r == spec_map_to_native(self.spec_panel().geometry, self.spec_orientation(), *area),
    {
        self.map_rectangle_to_native(area)
    }

    fn map_rectangle_to_native(&self, area: &Rectangle) -> (r: Rectangle)
        requires
            mapping_fits(self.spec_panel().geometry, *area),
        ensures
            r == spec_map_to_native(self.spec_panel().geometry, self.spec_orientation(), *area),
    {
        let g = self.panel.geometry;
        let native_width: i32 = g.width as i32;
        let native_height: i32 = g.height as i32;
        let x: i32 = area.top_left.x;
        let y: i32 = area.top_left.y;
        let width: i32 = area.size.width as i32;
        let height: i32 = area.size.height as i32;
        match self.orientation {
            DisplayOrientation::Landscape => *area,
            DisplayOrientation::LandscapeInverted => Rectangle {
                top_left: Point { x: native_width - x - width, y: native_height - y - height },
                size: area.size,
            },
            DisplayOrientation::Portrait => Rectangle {
                top_left: Point { x: y, y: native_height - x - width },
                size: Size { width: area.size.height, height: area.size.width },
            },
            DisplayOrientation::PortraitInverted => Rectangle {
                top_left: Point { x: native_width - y - height, y: x },
                size: Size { width: area.size.height, height: area.size.width },
            },
        }
    }

    /// The panel start-up sequence: release the TF card, reset, vendor
    /// registers, wake, RGB565 pixels, orientation, optional colour
    /// inversion, idle mode off and display on, with the required delays.
    pub fn init(&self) -> (r: Vec<PanelStep>)
        ensures
            steps_view(r@) == spec_init_steps(self.spec_panel().invert_colors, self.spec_orientation()),
    {
        let mut v: Vec<PanelStep> = Vec::new();
        push_step(&mut v, PanelStep::SdCsHigh);
        push_command(&mut v, CMD_SOFTWARE_RESET, Vec::new());
        push_step(&mut v, PanelStep::DelayNs { ns: SOFTWARE_RESET_DELAY_NS });
        assert(steps_view(v@) =~= seq![
            PanelStepView::SdCsHigh,
            PanelStepView::Command(CMD_SOFTWARE_RESET, Seq::empty()),
            PanelStepView::DelayNs(SOFTWARE_RESET_DELAY_NS),
        ]);
        let d0 = vec![0xFFu8, 0x93, 0x42];
        let d1 = vec![0x12u8, 0x12];
        let d2 = vec![0x03u8];
        let d3 = vec![0xF2u8];
        let d4 = vec![0xE0u8];
        let d5 = vec![0x01u8, 0x00, 0x00];
        let d6 = vec![0x00u8, 0x0C, 0x11, 0x04, 0x11, 0x08, 0x37, 0x89, 0x4C, 0x06, 0x0C, 0x0A, 0x2E, 0x34, 0x0F];
        let d7 = vec![0x00u8, 0x0B, 0x11, 0x05, 0x13, 0x09, 0x33, 0x67, 0x48, 0x07, 0x0E, 0x0B, 0x2E, 0x33, 0x0F];
        let d8 = vec![0x08u8, 0x82, 0x1D, 0x04];
        assert(d0@ =~= seq![0xFFu8, 0x93, 0x42]);
        assert(d1@ =~= seq![0x12u8, 0x12]);
        assert(d2@ =~= seq![0x03u8]);
        assert(d3@ =~= seq![0xF2u8]);
        assert(d4@ =~= seq![0xE0u8]);
        assert(d5@ =~= seq![0x01u8, 0x00, 0x00]);
        assert(d8@ =~= seq![0x08u8, 0x82, 0x1D, 0x04]);
        assert(d6@ =~= seq![0x00u8, 0x0C, 0x11, 0x04, 0x11, 0x08, 0x37, 0x89, 0x4C, 0x06, 0x0C, 0x0A, 0x2E, 0x34, 0x0F]);
        assert(d7@ =~= seq![0x00u8, 0x0B, 0x11, 0x05, 0x13, 0x09, 0x33, 0x67, 0x48, 0x07, 0x0E, 0x0B, 0x2E, 0x33, 0x0F]);
        push_command(&mut v, 0xC8, d0);
        push_command(&mut v, 0xC0, d1);
        push_command(&mut v, 0xC1, d2);
        push_command(&mut v, 0xC5, d3);
        push_command(&mut v, 0xB0, d4);
        push_command(&mut v, 0xF6, d5);
        push_command(&mut v, 0xE0, d6);
        push_command(&mut v, 0xE1, d7);
        push_command(&mut v, 0xB6, d8);
        let ghost prefix = seq![
            PanelStepView::SdCsHigh,
            PanelStepView::Command(CMD_SOFTWARE_RESET, Seq::empty()),
            PanelStepView::DelayNs(SOFTWARE_RESET_DELAY_NS),
        ] + spec_ili9342_registers();
        assert(steps_view(v@) =~~= prefix);
        push_command(&mut v, CMD_SLEEP_OUT, Vec::new());
        push_step(&mut v, PanelStep::DelayNs { ns: SLEEP_OUT_DELAY_NS });
        let pf = vec![PIXEL_FORMAT_RGB565];
        assert(pf@ =~= seq![PIXEL_FORMAT_RGB565]);
        push_command(&mut v, CMD_PIXEL_FORMAT_SET, pf);
        let m = vec![madctl_for_orientation(self.orientation)];
        assert(m@ =~= seq![spec_madctl(self.orientation)]);
        push_command(&mut v, CMD_MEMORY_ACCESS_CONTROL, m);
        let ghost middle = prefix + seq![
            PanelStepView::Command(CMD_SLEEP_OUT, Seq::empty()),
            PanelStepView::DelayNs(SLEEP_OUT_DELAY_NS),
            PanelStepView::Command(CMD_PIXEL_FORMAT_SET, seq![PIXEL_FORMAT_RGB565]),
            PanelStepView::Command(CMD_MEMORY_ACCESS_CONTROL, seq![spec_madctl(self.orientation)]),
        ];
        assert(steps_view(v@) =~~= middle);
        if self.panel.invert_colors {
            push_command(&mut v, CMD_DISPLAY_INVERSION_ON, Vec::new());
        }
        push_command(&mut v, CMD_IDLE_MODE_OFF, Vec::new());
        push_command(&mut v, CMD_DISPLAY_ON, Vec::new());
        push_step(&mut v, PanelStep::DelayNs { ns: DISPLAY_ON_DELAY_NS });
        assert(steps_view(v@) =~~= spec_init_steps(self.panel.invert_colors, self.orientation));
        v
    }
}

/// How a solid fill reaches the panel: the native rectangle to open as the
/// address window, and the number of pixels to send.
pub open spec fn spec_fill_solid(
    geometry: DisplayGeometry,
    orientation: DisplayOrientation,
    bounding_box: Rectangle,
    area: Rectangle,
) -> Option<(Rectangle, usize)> {
    let clipped = spec_intersection(area, bounding_box);
    if clipped.spec_zero_sized() {
        None
    } else {
        Some(
            (
                spec_map_to_native(geometry, orientation, clipped),
                saturating_area(clipped.size.width, clipped.size.height),
            ),
        )
    }
}

/// How a rectangle of colours in row order reaches the panel.
pub open spec fn spec_blit_plan(
    orientation: DisplayOrientation,
    bounding_box: Rectangle,
    area: Rectangle,
) -> FillPlan {
    let clipped = spec_intersection(area, bounding_box);
    if clipped.spec_zero_sized() {
        FillPlan::Nothing
    } else if orientation == DisplayOrientation::Landscape && clipped == area {
        FillPlan::Stream {
            window: clipped,
            max_pixels: saturating_area(clipped.size.width, clipped.size.height),
        }
    } else {
        FillPlan::Runs { area, clipped }
    }
}

impl<SPI, DC, SDCS> Display<SPI, DC, SDCS> {
    /// The plan of a solid fill of `area`: `None` when nothing of it is
    /// visible, else the native window and the pixel count to send.
    pub fn fill_solid(&self, area: &Rectangle) -> (r: Option<(Rectangle, usize)>)
        requires
            area.in_range(),
        ensures
            r == spec_fill_solid(
                self.spec_panel().geometry,
                self.spec_orientation(),
                self.spec_bounding_box(),
                *area,
            ),
    {
        let bb = self.bounding_box();
        let clipped = area.intersection(&bb);
        if clipped.is_zero_sized() {
            return None;
        }
        proof {
            crate::geometry::lemma_intersection_points(*area, bb, clipped.top_left);
        }
        let native = self.map_rectangle_to_native(&clipped);
        let pixels = saturating_mul_u32(clipped.size.width, clipped.size.height);
        Some((native, pixels as usize))
    }

    /// The plan of writing the colours of `area` in row order.
    pub fn blit_pixels(&self, area: &Rectangle) -> (r: FillPlan)
        requires
            area.in_range(),
        ensures
            r == spec_blit_plan(self.spec_orientation(), self.spec_bounding_box(), *area),
    {
        let bb = self.bounding_box();
        let clipped = area.intersection(&bb);
        if clipped.is_zero_sized() {
            return FillPlan::Nothing;
        }
        let landscape = match self.orientation {
            DisplayOrientation::Landscape => true,
            _ => false,
        };
        if landscape && clipped == *area {
            let pixels = saturating_mul_u32(clipped.size.width, clipped.size.height);
            FillPlan::Stream { window: clipped, max_pixels: pixels as usize }
        } else {
            FillPlan::Runs { area: *area, clipped }
        }
    }
}

/// A horizontal run of equally coloured pixels on row `y`, from `x_start`
/// to `x_end` inclusive.
#[derive(Clone, Copy, Debug, PartialEq, Eq, Structural)]
pub struct PixelRun {
    pub y: i32,
    pub x_start: i32,
    pub x_end: i32,
    pub color: Rgb565,
}

/// Whether `point` in `color` continues `run` on its right.
pub open spec fn run_extends(run: PixelRun, point: Point, color: Rgb565) -> bool {
    &&& run.y == point.y
    &&& (if run.x_end < i32::MAX { run.x_end + 1 } else { i32::MAX as int }) == point.x
    &&& run.color == color
}

impl PixelRun {
    /// The run of one pixel.
    pub fn new(point: Point, color: Rgb565) -> (r: Self)
        ensures
            r == (PixelRun { y: point.y, x_start: point.x, x_end: point.x, color }),
    {
        PixelRun { y: point.y, x_start: point.x, x_end: point.x, color }
    }

    /// Extends the run by `point` when it continues the run on its right in
    /// the same colour.
    pub fn try_extend(&mut self, point: Point, color: Rgb565) -> (r: bool)
        ensures
            r == run_extends(*old(self), point, color),
            r ==> *final(self) == (PixelRun { x_end: point.x, ..*old(self) }),
            !r ==> *final(self) == *old(self),
    {
        let next: i32 = if self.x_end < i32::MAX {
            self.x_end + 1
        } else {
            i32::MAX
        };
        if self.y == point.y && next == point.x && self.color == color {
            self.x_end = point.x;
            true
        } else {
            false
        }
    }

    /// The one-row rectangle the run covers.
    pub fn rectangle(self) -> (r: Rectangle)
        requires
            self.x_start <= self.x_end,
            self.x_end - self.x_start + 1 <= i32::MAX,
        ensures
            r == (Rectangle {
                top_left: Point { x: self.x_start, y: self.y },
                size: Size { width: (self.x_end - self.x_start + 1) as u32, height: 1 },
            }),
    {
        Rectangle {
            top_left: Point { x: self.x_start, y: self.y },
            size: Size { width: (self.x_end - self.x_start + 1) as u32, height: 1 },
        }
    }
}

/// The point of the `index`-th colour when the colours of `area` come in row order.
pub open spec fn spec_contiguous_point(area: Rectangle, index: int) -> Point {
    Point {
        x: (area.top_left.x + index % area.size.width as int) as i32,
        y: (area.top_left.y + index / area.size.width as int) as i32,
    }
}

/// Where the `index`-th colour of a row-order fill of `area` lands.
pub fn contiguous_point(area: &Rectangle, index: usize) -> (r: Point)
    requires
        0 < area.size.width <= i32::MAX,
        index <= i32::MAX,
        area.top_left.x + area.size.width <= i32::MAX,
        area.top_left.y + (index as int) / (area.size.width as int) <= i32::MAX,
    ensures
        r == spec_contiguous_point(*area, index as int),
{
    let w: i32 = area.size.width as i32;
    let i: i32 = index as i32;
    Point { x: area.top_left.x + i % w, y: area.top_left.y + i / w }
}

/// One step of grouping a row-order stream of colours into runs: the run
/// being built, and the run to fill now, if any. A hidden point ends the
/// current run; a visible one extends it or starts a new one.
pub open spec fn spec_run_step(run: Option<PixelRun>, point: Point, color: Rgb565, visible: bool) -> (
    Option<PixelRun>,
    Option<PixelRun>,
) {
    if !visible {
        (None, run)
    } else {
        match run {
            Some(current) => if run_extends(current, point, color) {
                (Some(PixelRun { x_end: point.x, ..current }), None)
            } else {
                (Some(PixelRun { y: point.y, x_start: point.x, x_end: point.x, color }), Some(current))
            },
            None => (Some(PixelRun { y: point.y, x_start: point.x, x_end: point.x, color }), None),
        }
    }
}

/// Feeds one colour of a row-order fill to the run grouping; returns the
/// new current run and the run to fill now.
pub fn contiguous_run_step(run: Option<PixelRun>, point: Point, color: Rgb565, visible: bool) -> (r: (
    Option<PixelRun>,
    Option<PixelRun>,
))
    ensures
        r == spec_run_step(run, point, color, visible),
{
    if !visible {
        return (None, run);
    }
    match run {
        Some(current) => {
            let mut c = current;
            if c.try_extend(point, color) {
                (Some(c), None)
            } else {
                (Some(PixelRun::new(point, color)), Some(current))
            }
        },
        None => (Some(PixelRun::new(point, color)), None),
    }
}

/// Up to 64 horizontally adjacent pixels of one row, starting at `start`.
#[derive(Clone, Debug)]
pub struct PixelRowBuffer {
    pub start: Point,
    pub colors: Vec<Rgb565>,
}

/// Whether `point` is the next pixel to the right of a row of `len` pixels
/// starting at `start`, and the row has room for it.
pub open spec fn row_accepts(start: Point, len: int, point: Point) -> bool {
    &&& len < DRAW_ITER_PIXELS
    &&& point.y == start.y
    &&& point.x == (if start.x + len <= i32::MAX { start.x + len } else { i32::MAX as int })
}

impl PixelRowBuffer {
    /// A row holding one pixel.
    pub fn new(point: Point, color: Rgb565) -> (r: Self)
        ensures
            r.start == point,
            r.colors@ == seq![color],
    {
        let mut colors: Vec<Rgb565> = Vec::new();
        colors.push(color);
        PixelRowBuffer { start: point, colors }
    }

    /// Appends `point` when it continues the row on its right and the row
    /// has room.
    pub fn try_push(&mut self, point: Point, color: Rgb565) -> (r: bool)
        requires
            old(self).colors@.len() <= DRAW_ITER_PIXELS,
        ensures
            r == row_accepts(old(self).start, old(self).colors@.len() as int, point),
            final(self).start == old(self).start,
            r ==> final(self).colors@ == old(self).colors@.push(color),
            !r ==> final(self).colors@ == old(self).colors@,
    {
        let len: usize = self.colors.len();
        if len == DRAW_ITER_PIXELS {
            return false;
        }
        let next: i32 = if self.start.x as i64 + len as i64 <= i32::MAX as i64 {
            (self.start.x as i64 + len as i64) as i32
        } else {
            i32::MAX
        };
        if point.y != self.start.y || point.x != next {
            return false;
        }
        self.colors.push(color);
        true
    }

    /// The rectangle the row covers.
    pub fn area(&self) -> (r: Rectangle)
        ensures
            r == (Rectangle {
                top_left: self.start,
                size: Size { width: self.colors@.len() as u32, height: 1 },
            }),
    {
        Rectangle { top_left: self.start, size: Size { width: self.colors.len() as u32, height: 1 } }
    }
}

/// One step of grouping drawn pixels into rows: a pixel off the surface ends
/// the current row; one on it joins the row or starts a new one. Returns the
/// new current row and the row to write now, if any.
pub fn draw_row_step(row: Option<PixelRowBuffer>, point: Point, color: Rgb565, on_surface: bool) -> (r: (
    Option<PixelRowBuffer>,
    Option<PixelRowBuffer>,
))
    requires
        row is Some ==> row->0.colors@.len() <= DRAW_ITER_PIXELS,
    ensures
        !on_surface ==> r.0 is None && r.1 == row,
        on_surface && row is None ==> r.1 is None && r.0 is Some && r.0->0.start == point
            && r.0->0.colors@ == seq![color],
        on_surface && row is Some && row_accepts(
            row->0.start,
            row->0.colors@.len() as int,
            point,
        ) ==> r.1 is None && r.0 is Some && r.0->0.start == row->0.start && r.0->0.colors@
            == row->0.colors@.push(color),
        on_surface && row is Some && !row_accepts(
            row->0.start,
            row->0.colors@.len() as int,
            point,
        ) ==> r.1 is Some && r.1->0.start == row->0.start && r.1->0.colors@ == row->0.colors@
            && r.0 is Some && r.0->0.start == point && r.0->0.colors@ == seq![color],
        r.0 is Some ==> r.0->0.colors@.len() <= DRAW_ITER_PIXELS,
{
    if !on_surface {
        return (None, row);
    }
    match row {
        Some(current) => {
            let mut c = current;
            if c.try_push(point, color) {
                (Some(c), None)
            } else {
                (Some(PixelRowBuffer::new(point, color)), Some(c))
            }
        },
        None => (Some(PixelRowBuffer::new(point, color)), None),
    }
}

/// The two big-endian bytes of a colour on the bus.
pub open spec fn spec_pixel_bytes(color: Rgb565) -> Seq<u8> {
    seq![(color.raw / 256) as u8, (color.raw % 256) as u8]
}

/// The bus bytes of the first `max_pixels` colours (all, if fewer).
pub open spec fn spec_encoded_pixels(colors: Seq<Rgb565>, max_pixels: int) -> Seq<u8>
    decreases colors.len(),
{
    if colors.len() == 0 || max_pixels <= 0 {
        Seq::empty()
    } else {
        spec_pixel_bytes(colors[0]) + spec_encoded_pixels(colors.drop_first(), max_pixels - 1)
    }
}

/// Bytes `2 i` and `2 i + 1` of an encoding are the bytes of colour `i`.
proof fn lemma_encoded_prefix(colors: Seq<Rgb565>, n: int)
    requires
        0 <= n < colors.len(),
    ensures
        spec_encoded_pixels(colors, n + 1) == spec_encoded_pixels(colors, n) + spec_pixel_bytes(
            colors[n],
        ),
    decreases n,
{
    if n > 0 {
        lemma_encoded_prefix(colors.drop_first(), n - 1);
        assert(colors.drop_first()[n - 1] == colors[n]);
        assert(spec_pixel_bytes(colors[0]) + (spec_encoded_pixels(colors.drop_first(), n - 1)
            + spec_pixel_bytes(colors[n])) =~= (spec_pixel_bytes(colors[0]) + spec_encoded_pixels(
            colors.drop_first(),
            n - 1,
        )) + spec_pixel_bytes(colors[n]));
    } else {
        assert(spec_encoded_pixels(colors.drop_first(), 0) =~= Seq::<u8>::empty());
        assert(spec_encoded_pixels(colors, 0) =~= Seq::<u8>::empty());
        assert(spec_pixel_bytes(colors[0]) + Seq::<u8>::empty() =~= Seq::<u8>::empty()
            + spec_pixel_bytes(colors[0]));
    }
}

/// The bus bytes of a colour stream cut off after `max_pixels` colours.
pub fn encode_pixels(colors: &[Rgb565], max_pixels: usize) -> (r: Vec<u8>)
    ensures
        r@ == spec_encoded_pixels(colors@, max_pixels as int),
{
    let n: usize = if colors.len() < max_pixels {
        colors.len()
    } else {
        max_pixels
    };
    let mut out: Vec<u8> = Vec::new();
    let mut i: usize = 0;
    proof {
        assert(spec_encoded_pixels(colors@, 0) =~= Seq::<u8>::empty()) by {
            if colors@.len() > 0 {
            }
        }
    }
    while i < n
        invariant
            i <= n,
            n <= colors@.len(),
            n <= max_pixels,
            out@ == spec_encoded_pixels(colors@, i as int),
        decreases n - i,
    {
        let raw: u16 = colors[i].raw;
        proof {
            lemma_encoded_prefix(colors@, i as int);
        }
        out.push((raw / 256) as u8);
        out.push((raw % 256) as u8);
        assert(out@ =~= spec_encoded_pixels(colors@, i as int) + spec_pixel_bytes(colors@[i as int]));
        i = i + 1;
    }
    proof {
        lemma_encoded_saturates(colors@, n as int, max_pixels as int);
    }
    out
}

/// Allowing more pixels than the stream has changes nothing.
proof fn lemma_encoded_saturates(colors: Seq<Rgb565>, n: int, max_pixels: int)
    requires
        0 <= n,
        n == (if colors.len() < max_pixels { colors.len() as int } else { max_pixels }),
    ensures
        spec_encoded_pixels(colors, n) == spec_encoded_pixels(colors, max_pixels),
    decreases colors.len(),
{
    if colors.len() > 0 && n > 0 {
        lemma_encoded_saturates(colors.drop_first(), n - 1, max_pixels - 1);
    }
}

/// The pixel counts of the bus writes that send `pixels` pixels of one
/// colour, at most 128 per write.
pub open spec fn spec_repeated_chunks(pixels: nat) -> Seq<usize>
    decreases pixels,
{
    if pixels == 0 {
        Seq::empty()
    } else if pixels <= COLOR_STREAM_PIXELS {
        seq![pixels as usize]
    } else {
        seq![COLOR_STREAM_PIXELS] + spec_repeated_chunks((pixels - COLOR_STREAM_PIXELS) as nat)
    }
}

/// The pixel counts of the bus writes that send `pixels` pixels of one colour.
pub fn repeated_color_chunks(pixels: usize) -> (r: Vec<usize>)
    ensures
        r@ == spec_repeated_chunks(pixels as nat),
{
    let mut out: Vec<usize> = Vec::new();
    let mut remaining: usize = pixels;
    while remaining > 0
        invariant
            out@ + spec_repeated_chunks(remaining as nat) == spec_repeated_chunks(pixels as nat),
        decreases remaining,
    {
        let n: usize = if remaining < COLOR_STREAM_PIXELS {
            remaining
        } else {
            COLOR_STREAM_PIXELS
        };
        let ghost before = out@;
        out.push(n);
        assert(before + spec_repeated_chunks(remaining as nat) =~= out@ + spec_repeated_chunks(
            (remaining - n) as nat,
        ));
        remaining = remaining - n;
    }
    assert(out@ + spec_repeated_chunks(0) =~= out@);
    out
}

/// `r` lies inside the `w` x `h` area at the origin.
pub open spec fn inside_area(r: Rectangle, w: int, h: int) -> bool {
    &&& 0 <= r.top_left.x
    &&& 0 <= r.top_left.y
    &&& r.top_left.x + r.size.width <= w
    &&& r.top_left.y + r.size.height <= h
}

/// A rectangle on the drawing surface of any orientation maps onto the
/// native panel: the coordinate mapping never leaves the panel.
pub proof fn lemma_map_stays_on_panel(
    geometry: DisplayGeometry,
    orientation: DisplayOrientation,
    area: Rectangle,
)
    requires
        inside_area(
            area,
            spec_logical_size(geometry, orientation).width as int,
            spec_logical_size(geometry, orientation).height as int,
        ),
    ensures
        inside_area(
            spec_map_to_native(geometry, orientation, area),
            geometry.width as int,
            geometry.height as int,
        ),
        spec_map_to_native(geometry, orientation, area).size.width as int
            * spec_map_to_native(geometry, orientation, area).size.height as int
            == area.size.width as int * area.size.height as int,
{
    assert(area.size.height as int * area.size.width as int == area.size.width as int
        * area.size.height as int) by (nonlinear_arith);
}

/// Where the logical pixel `(x, y)` of an orientation lands on the native
/// panel.
pub open spec fn native_pixel(
    geometry: DisplayGeometry,
    orientation: DisplayOrientation,
    x: int,
    y: int,
) -> Point {
    spec_map_to_native(
        geometry,
        orientation,
        Rectangle { top_left: Point { x: x as i32, y: y as i32 }, size: Size { width: 1, height: 1 } },
    ).top_left
}

/// The memory-access-control byte of an orientation agrees with the way the
/// orientation maps logical pixels onto the native panel: the row/column
/// exchange bit (`0x20`) is set exactly when a step along logical `x` moves
/// along the native `y` axis, the column mirror bit (`0x40`) exactly when a
/// step along logical `x` moves backwards on the panel, the row mirror bit
/// (`0x80`) exactly when a step along logical `y` moves backwards, and the
/// BGR colour order bit (`0x08`) is always set.
pub proof fn lemma_madctl_matches_mapping(
    geometry: DisplayGeometry,
    orientation: DisplayOrientation,
    x: int,
    y: int,
)
    requires
        0 <= x < 0x8000,
        0 <= y < 0x8000,
    ensures
        ({
            let m = spec_madctl(orientation) as int;
            let p = native_pixel(geometry, orientation, x, y);
            let px = native_pixel(geometry, orientation, x + 1, y);
            let py = native_pixel(geometry, orientation, x, y + 1);
            &&& ((m / 0x20) % 2 == 1) <==> (px.x == p.x)
            &&& ((m / 0x40) % 2 == 1) <==> (px.x + px.y < p.x + p.y)
            &&& ((m / 0x80) % 2 == 1) <==> (py.x + py.y < p.x + p.y)
            &&& (m / 0x08) % 2 == 1
        }),
{
}

/// Different orientations write different memory-access-control bytes.
pub proof fn lemma_madctl_distinct(a: DisplayOrientation, b: DisplayOrientation)
    ensures
        a != b ==> spec_madctl(a) != spec_madctl(b),
{
}

} // verus!
