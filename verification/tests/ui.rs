use core_s3::geometry::{Point, Rectangle, Rgb565, Size};
use core_s3::power::{BatteryStatus, ChargeState};
use core_s3::touch::{TouchEvent, TouchPhase};
use core_s3::ui::{
    BatteryIndicator, Button, InteractiveWidget, Label, Menu, ProgressBar, Slider, Theme, Toggle,
    Widget,
};

#[test]
fn slider_maps_touch_to_value() {
    let mut slider = Slider { bounds: Rectangle::new(Point::new(10, 0), Size::new(100, 20)), value: 0 };
    assert!(slider.handle_touch(TouchEvent { id: 0, point: Point::new(60, 10), phase: TouchPhase::Move }));
    assert_eq!(slider.value, 50);
}

#[test]
fn toggle_flips_on_touch_up() {
    let mut toggle = Toggle { bounds: Rectangle::new(Point::zero(), Size::new(50, 20)), label: "x", on: false };
    assert!(toggle.handle_touch(TouchEvent { id: 0, point: Point::new(2, 2), phase: TouchPhase::Up }));
    assert!(toggle.on);
}

#[test]
fn toggle_ignores_touch_down_and_misses() {
    let mut toggle = Toggle { bounds: Rectangle::new(Point::zero(), Size::new(50, 20)), label: "x", on: false };
    assert!(!toggle.handle_touch(TouchEvent { id: 0, point: Point::new(2, 2), phase: TouchPhase::Down }));
    assert!(!toggle.handle_touch(TouchEvent { id: 0, point: Point::new(60, 2), phase: TouchPhase::Up }));
    assert!(!toggle.on);
}

#[test]
fn button_presses_until_release() {
    let mut button = Button { bounds: Rectangle::new(Point::new(5, 5), Size::new(10, 10)), label: "ok", pressed: false };
    assert!(button.handle_touch(TouchEvent { id: 0, point: Point::new(6, 6), phase: TouchPhase::Down }));
    assert!(button.pressed);
    assert_eq!(button.fill_color(Theme::dark()), Rgb565::cyan());
    assert!(button.handle_touch(TouchEvent { id: 0, point: Point::new(6, 6), phase: TouchPhase::Up }));
    assert!(!button.pressed);
    assert!(!button.handle_touch(TouchEvent { id: 0, point: Point::new(0, 0), phase: TouchPhase::Down }));
    assert!(button.hit_test(Point::new(14, 14)));
    assert!(!button.hit_test(Point::new(15, 14)));
}

#[test]
fn slider_clamps_to_its_edges() {
    let slider = Slider { bounds: Rectangle::new(Point::new(10, 0), Size::new(100, 20)), value: 0 };
    assert_eq!(slider.value_from_x(0), 0);
    assert_eq!(slider.value_from_x(500), 100);
    assert_eq!(slider.value_from_x(35), 25);
}

#[test]
fn progress_bar_fill_and_layout() {
    let bar = ProgressBar { bounds: Rectangle::new(Point::new(0, 0), Size::new(104, 14)), value: 50 };
    assert_eq!(bar.fill_area(), Rectangle::new(Point::new(2, 2), Size::new(50, 10)));
    let full = ProgressBar { value: 200, ..bar };
    assert_eq!(full.fill_area().size.width, 100);
    let tiny = ProgressBar { bounds: Rectangle::new(Point::new(0, 0), Size::new(3, 3)), value: 100 };
    assert_eq!(tiny.fill_area().size, Size::new(0, 0));
    let label = Label { text: "hello", top_left: Point::new(1, 2), color: Rgb565::white() };
    assert_eq!(label.bounds(), Rectangle::new(Point::new(1, 2), Size::new(30, 10)));
    let menu = Menu { bounds: Rectangle::new(Point::new(0, 10), Size::new(80, 60)), items: ["a", "b", "c"], selected: 1, row_height: 20 };
    assert_eq!(menu.row_bounds(2), Rectangle::new(Point::new(0, 50), Size::new(80, 20)));
}

#[test]
fn battery_indicator_warns_when_low() {
    let theme = Theme::dark();
    let low = BatteryIndicator { bounds: Rectangle::new(Point::zero(), Size::new(40, 10)), status: BatteryStatus::new(3400, ChargeState::Discharging) };
    let (bar, colors) = low.bar(theme);
    assert_eq!(bar.value, 5);
    assert_eq!(colors.accent, theme.warning);
    let ok = BatteryIndicator { status: BatteryStatus::new(4100, ChargeState::Discharging), ..low };
    assert_eq!(ok.bar(theme).1.accent, theme.accent);
}
