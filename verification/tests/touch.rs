use core_s3::bus::RegisterStep;
use core_s3::display::DisplayOrientation;
use core_s3::geometry::{Point, Rectangle, Size};
use core_s3::touch::{
    decode_gesture, decode_touch, map_touch_point, Ft6336u, Gesture, TouchEvent, TouchPhase,
    TouchReport,
};

#[test]
fn maps_touch_for_all_rotations() {
    let p = Point::new(10, 20);
    assert_eq!(map_touch_point(p, DisplayOrientation::Landscape, 320, 240), p);
    assert_eq!(
        map_touch_point(p, DisplayOrientation::LandscapeInverted, 320, 240),
        Point::new(309, 219)
    );
    assert_eq!(map_touch_point(p, DisplayOrientation::Portrait, 320, 240), Point::new(20, 309));
    assert_eq!(
        map_touch_point(p, DisplayOrientation::PortraitInverted, 320, 240),
        Point::new(219, 10)
    );
}

#[test]
fn hit_tests_event() {
    let event = TouchEvent { id: 0, point: Point::new(12, 14), phase: TouchPhase::Down };
    assert!(event.hits(Rectangle::new(Point::new(10, 10), Size::new(20, 20))));
}

#[test]
fn misses_outside_and_on_empty_areas() {
    let event = TouchEvent { id: 0, point: Point::new(30, 14), phase: TouchPhase::Down };
    assert!(!event.hits(Rectangle::new(Point::new(10, 10), Size::new(20, 20))));
    let corner = TouchEvent { id: 0, point: Point::new(29, 29), phase: TouchPhase::Up };
    assert!(corner.hits(Rectangle::new(Point::new(10, 10), Size::new(20, 20))));
    assert!(!corner.hits(Rectangle::new(Point::new(29, 29), Size::new(0, 0))));
}

#[test]
fn decodes_touch_records_and_gestures() {
    assert_eq!(decode_gesture(0x00), Gesture::NoGesture);
    assert_eq!(decode_gesture(0x48), Gesture::ZoomIn);
    assert_eq!(decode_gesture(0x33), Gesture::Unknown(0x33));
    let event = decode_touch(&[0x81, 0x2C, 0x30, 0xF0], DisplayOrientation::Landscape, 320, 240).unwrap();
    assert_eq!(event, TouchEvent { id: 3, point: Point::new(0x12C, 0xF0), phase: TouchPhase::Move });
    assert_eq!(decode_touch(&[0x81, 0x2C, 0x30], DisplayOrientation::Landscape, 320, 240), None);
    let up = decode_touch(&[0x40, 10, 0x00, 20], DisplayOrientation::Portrait, 320, 240).unwrap();
    assert_eq!(up.phase, TouchPhase::Up);
    assert_eq!(up.point, Point::new(20, 309));
}

#[test]
fn reads_reports_with_up_to_two_points() {
    let mut touch = Ft6336u::new(());
    assert_eq!(touch.address(), 0x38);
    assert_eq!(touch.init(), vec![RegisterStep::Write { register: 0x00, value: 0x00 }]);
    let data = [0x10, 0x02, 0x00, 10, 0x10, 20, 0, 0, 0x40, 5, 0x20, 6];
    let report = touch.read_report(data);
    assert_eq!(report.gesture, Gesture::MoveUp);
    assert_eq!(report.events[0], Some(TouchEvent { id: 1, point: Point::new(10, 20), phase: TouchPhase::Down }));
    assert_eq!(report.events[1], Some(TouchEvent { id: 2, point: Point::new(5, 6), phase: TouchPhase::Up }));
    let one = touch.read_report([0, 0x01, 0x00, 10, 0x10, 20, 0, 0, 0, 0, 0, 0]);
    assert!(one.events[0].is_some() && one.events[1].is_none());
    touch.set_orientation(DisplayOrientation::LandscapeInverted);
    let inverted = touch.read_report([0, 0x0F, 0x00, 10, 0x10, 20, 0, 0, 0, 0, 0, 0]);
    assert_eq!(inverted.events[0].unwrap().point, Point::new(309, 219));
    assert_eq!(TouchReport::empty().events, [None, None]);
}
