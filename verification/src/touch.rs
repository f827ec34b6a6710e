//! FT6336U capacitive touch logic for the CoreS3.

use vstd::prelude::*;

use crate::bus::RegisterStep;
use crate::devices;
use crate::display::DisplayOrientation;
use crate::geometry::{Point, Rectangle};

verus! {

pub const REG_DEVICE_MODE: u8 = 0x00;
pub const REG_GESTURE_ID: u8 = 0x01;

#[derive(Clone, Copy, Debug, PartialEq, Eq, Structural)]
pub enum TouchPhase {
    Down,
    Move,
    Up,
}

#[derive(Clone, Copy, Debug, PartialEq, Eq, Structural)]
pub enum Gesture {
    NoGesture,
    MoveUp,
    MoveRight,
    MoveDown,
    MoveLeft,
    ZoomIn,
    ZoomOut,
    Unknown(u8),
}

#[derive(Clone, Copy, Debug, PartialEq, Eq, Structural)]
pub struct TouchEvent {
    pub id: u8,
    pub point: Point,
    pub phase: TouchPhase,
}

impl TouchEvent {
    /// Whether the touch point lies inside `area`.
    pub fn hits(self, area: Rectangle) -> (r: bool)
        requires
            area.in_range(),
        ensures
            r == area.spec_contains(self.point),
    {
        area.contains(self.point)
    }
}

/// A gesture and up to two touch points.
#[derive(Clone, Copy, Debug, PartialEq, Eq)]
pub struct TouchReport {
    pub gesture: Gesture,
    pub events: [Option<TouchEvent>; 2],
}

impl TouchReport {
    /// No gesture and no touch.
    pub fn empty() -> (r: Self)
        ensures
            r.gesture == Gesture::NoGesture,
            r.events@ == seq![None::<TouchEvent>, None::<TouchEvent>],
    {
        TouchReport { gesture: Gesture::NoGesture, events: [None, None] }
    }
}

/// The gesture encoded in the gesture-id register.
pub open spec fn spec_gesture(value: u8) -> Gesture {
    if value == 0x00 {
        Gesture::NoGesture
    } else if value == 0x10 {
        Gesture::MoveUp
    } else if value == 0x14 {
        Gesture::MoveRight
    } else if value == 0x18 {
        Gesture::MoveDown
    } else if value == 0x1C {
        Gesture::MoveLeft
    } else if value == 0x48 {
        Gesture::ZoomIn
    } else if value == 0x49 {
        Gesture::ZoomOut
    } else {
        Gesture::Unknown(value)
    }
}

pub fn decode_gesture(value: u8) -> (r: Gesture)
    ensures
        r == spec_gesture(value),
{
    match value {
        0x00 => Gesture::NoGesture,
        0x10 => Gesture::MoveUp,
        0x14 => Gesture::MoveRight,
        0x18 => Gesture::MoveDown,
        0x1C => Gesture::MoveLeft,
        0x48 => Gesture::ZoomIn,
        0x49 => Gesture::ZoomOut,
        other => Gesture::Unknown(other),
    }
}

/// Whether the mapped coordinates of a raw point stay in the `i32` range.
pub open spec fn map_fits(point: Point, width: u16, height: u16) -> bool {
    &&& i32::MIN <= width - 1 - point.x <= i32::MAX
    &&& i32::MIN <= height - 1 - point.y <= i32::MAX
}

/// A raw panel point in the coordinates of an orientation: mirrored for the
/// inverted orientations, rotated in portrait.
pub open spec fn spec_map_touch_point(
    point: Point,
    orientation: DisplayOrientation,
    width: u16,
    height: u16,
) -> Point {
    let w = width as int;
    let h = height as int;
    match orientation {
        DisplayOrientation::Landscape => point,
        DisplayOrientation::LandscapeInverted => Point {
            x: (w - 1 - point.x) as i32,
            y: (h - 1 - point.y) as i32,
        },
        DisplayOrientation::Portrait => Point { x: point.y, y: (w - 1 - point.x) as i32 },
        DisplayOrientation::PortraitInverted => Point { x: (h - 1 - point.y) as i32, y: point.x },
    }
}

/// Maps a raw touch point into the coordinates of a display orientation.
pub fn map_touch_point(point: Point, orientation: DisplayOrientation, width: u16, height: u16) -> (r:
    Point)
    requires
        map_fits(point, width, height),
    ensures
        r == spec_map_touch_point(point, orientation, width, height),
{
    let w: i32 = width as i32;
    let h: i32 = height as i32;
    match orientation {
        DisplayOrientation::Landscape => point,
        DisplayOrientation::LandscapeInverted => Point { x: w - 1 - point.x, y: h - 1 - point.y },
        DisplayOrientation::Portrait => Point { x: point.y, y: w - 1 - point.x },
        DisplayOrientation::PortraitInverted => Point { x: h - 1 - point.y, y: point.x },
    }
}

/// The 12-bit coordinate held in a high byte (low nibble) and a low byte.
pub open spec fn spec_coordinate(high: u8, low: u8) -> int {
    (high as int % 16) * 256 + low as int
}

/// The touch phase of an event flag: down, up, or contact (move).
pub open spec fn spec_phase(flag: int) -> TouchPhase {
    if flag == 0 {
        TouchPhase::Down
    } else if flag == 1 {
        TouchPhase::Up
    } else {
        TouchPhase::Move
    }
}

/// The touch point of one point record (event flag and X in the first two
/// bytes, touch id and Y in the next two), mapped to the orientation; `None`
/// for a record shorter than four bytes.
pub open spec fn spec_decode_touch(
    data: Seq<u8>,
    orientation: DisplayOrientation,
    width: u16,
    height: u16,
) -> Option<TouchEvent> {
    if data.len() < 4 {
        None
    } else {
        Some(
            TouchEvent {
                id: (data[2] as int / 16) as u8,
                point: spec_map_touch_point(
                    Point {
                        x: spec_coordinate(data[0], data[1]) as i32,
                        y: spec_coordinate(data[2], data[3]) as i32,
                    },
                    orientation,
                    width,
                    height,
                ),
                phase: spec_phase(data[0] as int / 64),
            },
        )
    }
}

pub fn decode_touch(data: &[u8], orientation: DisplayOrientation, width: u16, height: u16) -> (r:
    Option<TouchEvent>)
    ensures
        r == spec_decode_touch(data@, orientation, width, height),
{
    if data.len() < 4 {
        return None;
    }
    let d0: u8 = data[0];
    let d1: u8 = data[1];
    let d2: u8 = data[2];
    let d3: u8 = data[3];
    let event: u8 = (d0 >> 6u8) & 0x03;
    assert((d0 >> 6u8) & 0x03u8 == d0 / 64) by (bit_vector);
    let x: u16 = ((d0 & 0x0F) as u16) << 8u16 | d1 as u16;
    let y: u16 = ((d2 & 0x0F) as u16) << 8u16 | d3 as u16;
    assert((((d0 & 0x0F) as u16) << 8u16 | d1 as u16) == (d0 % 16) as u16 * 256 + d1 as u16)
        by (bit_vector);
    assert((((d2 & 0x0F) as u16) << 8u16 | d3 as u16) == (d2 % 16) as u16 * 256 + d3 as u16)
        by (bit_vector);
    let id: u8 = d2 >> 4u8;
    assert(d2 >> 4u8 == d2 / 16) by (bit_vector);
    let phase = if event == 0 {
        TouchPhase::Down
    } else if event == 1 {
        TouchPhase::Up
    } else {
        TouchPhase::Move
    };
    let raw = Point { x: x as i32, y: y as i32 };
    Some(TouchEvent { id, point: map_touch_point(raw, orientation, width, height), phase })
}

/// The report held in the twelve registers read from `0x01` on: the
/// gesture, the number of touches (at most two), and two point records.
pub open spec fn spec_report(
    data: Seq<u8>,
    orientation: DisplayOrientation,
    width: u16,
    height: u16,
) -> (Gesture, Seq<Option<TouchEvent>>) {
    let count = if data[1] % 16 < 2 { data[1] % 16 } else { 2 };
    (
        spec_gesture(data[0]),
        seq![
            if count >= 1 { spec_decode_touch(data.subrange(2, 8), orientation, width, height) } else { None },
            if count >= 2 { spec_decode_touch(data.subrange(8, 12), orientation, width, height) } else { None },
        ],
    )
}

/// FT6336U driver state: the I2C bus it owns, the device address, and the
/// orientation and native size used to map touch points.
pub struct Ft6336u<I2C> {
    i2c: I2C,
    address: u8,
    orientation: DisplayOrientation,
    width: u16,
    height: u16,
}

impl<I2C> Ft6336u<I2C> {
    pub closed spec fn spec_bus(&self) -> I2C {
        self.i2c
    }

    pub closed spec fn spec_address(&self) -> u8 {
        self.address
    }

    pub closed spec fn spec_orientation(&self) -> DisplayOrientation {
        self.orientation
    }

    pub closed spec fn spec_width(&self) -> u16 {
        self.width
    }

    pub closed spec fn spec_height(&self) -> u16 {
        self.height
    }

    /// A driver for the 320x240 panel in landscape orientation.
    pub fn new(i2c: I2C) -> (r: Self)
        ensures
            r.spec_bus() == i2c,
            r.spec_address() == devices::i2c::FT6336U_TOUCH,
            r.spec_orientation() == DisplayOrientation::Landscape,
            r.spec_width() == devices::display::WIDTH,
            r.spec_height() == devices::display::HEIGHT,
    {
        Ft6336u {
            i2c,
            address: devices::i2c::FT6336U_TOUCH,
            orientation: DisplayOrientation::Landscape,
            width: devices::display::WIDTH,
            height: devices::display::HEIGHT,
        }
    }

    pub fn set_orientation(&mut self, orientation: DisplayOrientation)
        ensures
            final(self).spec_orientation() == orientation,
            final(self).spec_bus() == old(self).spec_bus(),
            final(self).spec_address() == old(self).spec_address(),
            final(self).spec_width() == old(self).spec_width(),
            final(self).spec_height() == old(self).spec_height(),
    {
        self.orientation = orientation;
    }

    pub fn release(self) -> (r: I2C)
        ensures
            r == self.spec_bus(),
    {
        self.i2c
    }

    /// The bus, for performing the transfers this driver plans.
    pub fn bus_mut(&mut self) -> (r: &mut I2C)
        ensures
            *r == old(self).spec_bus(),
            final(self).spec_bus() == *final(r),
            final(self).spec_address() == old(self).spec_address(),
            final(self).spec_orientation() == old(self).spec_orientation(),
            final(self).spec_width() == old(self).spec_width(),
            final(self).spec_height() == old(self).spec_height(),
    {
        &mut self.i2c
    }

    pub fn address(&self) -> (r: u8)
        ensures
            r == self.spec_address(),
    {
        self.address
    }

    /// The step that writes `value` to `register`.
    pub fn write_register(&self, register: u8, value: u8) -> (r: Vec<RegisterStep>)
        ensures
            r@ == seq![RegisterStep::Write { register, value }],
    {
        let mut v: Vec<RegisterStep> = Vec::new();
        v.push(RegisterStep::Write { register, value });
        v
    }

    /// Start-up: normal operating mode.
    pub fn init(&self) -> (r: Vec<RegisterStep>)
        ensures
            r@ == seq![RegisterStep::Write { register: REG_DEVICE_MODE, value: 0x00 }],
    {
        let mut v: Vec<RegisterStep> = Vec::new();
        v.push(RegisterStep::Write { register: REG_DEVICE_MODE, value: 0x00 });
        v
    }

    /// The report decoded from the twelve registers read from `0x01` on.
    pub fn read_report(&self, data: [u8; 12]) -> (r: TouchReport)
        ensures
            (r.gesture, r.events@) == spec_report(data@, self.spec_orientation(), self.spec_width(), self.spec_height()),
    {
        let gesture = decode_gesture(data[0]);
        let d1: u8 = data[1];
        let low: u8 = d1 & 0x0F;
        assert(d1 & 0x0Fu8 == d1 % 16) by (bit_vector);
        let count: u8 = if low < 2 {
            low
        } else {
            2
        };
        let mut report = TouchReport { gesture, events: [None, None] };
        if count >= 1 {
            let first: [u8; 6] = [data[2], data[3], data[4], data[5], data[6], data[7]];
            assert(first@ =~= data@.subrange(2, 8));
            report.events[0] = decode_touch(&first, self.orientation, self.width, self.height);
        }
        if count >= 2 {
            let second: [u8; 4] = [data[8], data[9], data[10], data[11]];
            assert(second@ =~= data@.subrange(8, 12));
            report.events[1] = decode_touch(&second, self.orientation, self.width, self.height);
        }
        assert(report.events@ =~= spec_report(data@, self.orientation, self.width, self.height).1);
        report
    }
}

/// A point on the native panel maps onto the drawing surface of the
/// orientation: width and height exchange places in portrait.
pub proof fn lemma_touch_stays_on_surface(
    point: Point,
    orientation: DisplayOrientation,
    width: u16,
    height: u16,
)
    requires
        0 <= point.x < width,
        0 <= point.y < height,
    ensures
        ({
            let p = spec_map_touch_point(point, orientation, width, height);
            match orientation {
                DisplayOrientation::Portrait | DisplayOrientation::PortraitInverted => 0 <= p.x
                    < height && 0 <= p.y < width,
                _ => 0 <= p.x < width && 0 <= p.y < height,
            }
        }),
{
}

/// How many of the two events of a report hold a touch point.
pub open spec fn touch_count(events: Seq<Option<TouchEvent>>) -> int {
    (if events[0] is Some { 1int } else { 0int }) + (if events[1] is Some { 1int } else { 0int })
}

/// A report holds exactly as many touch points as the controller counts in
/// the low nibble of its status byte, at most two, filled from the first
/// record on: no finger gives no event. Each event takes its touch id from
/// the high nibble of its record's Y byte and its phase from the two top
/// bits of its record's X byte (0 down, 1 up, otherwise contact).
pub proof fn lemma_report_touch_count(
    data: Seq<u8>,
    orientation: DisplayOrientation,
    width: u16,
    height: u16,
)
    requires
        data.len() == 12,
    ensures
        ({
            let events = spec_report(data, orientation, width, height).1;
            let status = data[1] & 0x0Fu8;
            &&& events.len() == 2
            &&& touch_count(events) == (if status < 2 { status as int } else { 2 })
            &&& status == 0 ==> events[0] is None && events[1] is None
            &&& events[1] is Some ==> events[0] is Some
            &&& events[0] matches Some(e) ==> e.id == data[4] / 16 && e.phase == (if data[2] / 64
                == 0 {
                TouchPhase::Down
            } else if data[2] / 64 == 1 {
                TouchPhase::Up
            } else {
                TouchPhase::Move
            })
            &&& events[1] matches Some(e) ==> e.id == data[10] / 16 && e.phase == (if data[8] / 64
                == 0 {
                TouchPhase::Down
            } else if data[8] / 64 == 1 {
                TouchPhase::Up
            } else {
                TouchPhase::Move
            })
        }),
{
    let d1 = data[1];
    assert(d1 & 0x0Fu8 == d1 % 16) by (bit_vector);
    assert(data.subrange(2, 8)[2] == data[4]);
    assert(data.subrange(2, 8)[0] == data[2]);
    assert(data.subrange(8, 12)[2] == data[10]);
    assert(data.subrange(8, 12)[0] == data[8]);
}

} // verus!
