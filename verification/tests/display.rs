use core_s3::display::{
    contiguous_point, contiguous_run_step, draw_row_step, encode_pixels, madctl_for_orientation,
    repeated_color_chunks, window_steps, BusConfig, Display, DisplayGeometry, DisplayOrientation,
    FillPlan, PanelConfig, PanelStep, PixelRowBuffer, PixelRun,
};
use core_s3::geometry::{Point, Rectangle, Rgb565, Size};

fn panel() -> PanelConfig {
    PanelConfig {
        geometry: DisplayGeometry { width: 320, height: 240, offset_x: 0, offset_y: 0 },
        invert_colors: true,
    }
}

fn display() -> Display<(), (), ()> {
    Display::new((), (), (), BusConfig { write_hz: 40_000_000 }, panel())
}

fn command(step: &PanelStep) -> Option<(u8, Vec<u8>)> {
    match step {
        PanelStep::Command { command, data } => Some((*command, data.clone())),
        _ => None,
    }
}

#[test]
fn init_sequence_resets_configures_and_turns_on() {
    let d = display();
    let steps = d.init();
    assert!(matches!(steps[0], PanelStep::SdCsHigh));
    assert_eq!(command(&steps[1]), Some((0x01, vec![])));
    assert!(matches!(steps[2], PanelStep::DelayNs { ns: 150_000_000 }));
    assert_eq!(command(&steps[3]), Some((0xC8, vec![0xFF, 0x93, 0x42])));
    assert_eq!(command(&steps[14]), Some((0x3A, vec![0x55])));
    assert_eq!(command(&steps[15]), Some((0x36, vec![0x08])));
    assert_eq!(command(&steps[16]), Some((0x21, vec![])));
    assert_eq!(steps.len(), 20);
    assert!(matches!(steps[19], PanelStep::DelayNs { ns: 20_000_000 }));
}

#[test]
fn orientation_changes_logical_size_and_mapping() {
    let mut d = display();
    assert_eq!(d.logical_size(), Size::new(320, 240));
    let steps = d.set_orientation_and_apply(DisplayOrientation::Portrait);
    assert_eq!(command(&steps[0]), Some((0x36, vec![0x68])));
    assert_eq!(d.logical_size(), Size::new(240, 320));
    let area = Rectangle::new(Point::new(10, 20), Size::new(30, 40));
    assert_eq!(d.map_logical_rectangle_to_native(&area), Rectangle::new(Point::new(20, 200), Size::new(40, 30)));
    d.set_orientation(DisplayOrientation::LandscapeInverted);
    assert_eq!(d.map_logical_rectangle_to_native(&area), Rectangle::new(Point::new(280, 180), Size::new(30, 40)));
    d.set_orientation(DisplayOrientation::PortraitInverted);
    assert_eq!(d.map_logical_rectangle_to_native(&area), Rectangle::new(Point::new(260, 10), Size::new(40, 30)));
    assert_eq!(madctl_for_orientation(DisplayOrientation::LandscapeInverted), 0xC8);
}

#[test]
fn clipping_and_fill_plans() {
    let d = display();
    let area = Rectangle::new(Point::new(300, 230), Size::new(40, 40));
    assert_eq!(d.clip_rectangle(area), Rectangle::new(Point::new(300, 230), Size::new(20, 10)));
    assert_eq!(d.fill_solid(&area), Some((Rectangle::new(Point::new(300, 230), Size::new(20, 10)), 200)));
    assert_eq!(d.fill_solid(&Rectangle::new(Point::new(400, 0), Size::new(5, 5))), None);
    let inside = Rectangle::new(Point::new(0, 0), Size::new(4, 2));
    assert_eq!(d.blit_pixels(&inside), FillPlan::Stream { window: inside, max_pixels: 8 });
    assert_eq!(
        d.blit_pixels(&area),
        FillPlan::Runs { area, clipped: Rectangle::new(Point::new(300, 230), Size::new(20, 10)) }
    );
}

#[test]
fn address_window_bytes() {
    let geometry = DisplayGeometry { width: 320, height: 240, offset_x: 0, offset_y: 0 };
    let steps = window_steps(geometry, Rectangle::new(Point::new(256, -5), Size::new(10, 2)));
    assert_eq!(command(&steps[0]), Some((0x2A, vec![0x01, 0x00, 0x01, 0x09])));
    assert_eq!(command(&steps[1]), Some((0x2B, vec![0x00, 0x00, 0x00, 0x01])));
    assert!(matches!(steps[2], PanelStep::MemoryWrite));
}

#[test]
fn runs_group_equal_colours() {
    let red = Rgb565::new(31, 0, 0);
    let blue = Rgb565::new(0, 0, 31);
    let area = Rectangle::new(Point::new(0, 0), Size::new(3, 2));
    assert_eq!(contiguous_point(&area, 4), Point::new(1, 1));
    let (run, flush) = contiguous_run_step(None, Point::new(0, 0), red, true);
    assert_eq!(flush, None);
    let (run, flush) = contiguous_run_step(run, Point::new(1, 0), red, true);
    assert_eq!(flush, None);
    assert_eq!(run, Some(PixelRun { y: 0, x_start: 0, x_end: 1, color: red }));
    let (run, flush) = contiguous_run_step(run, Point::new(2, 0), blue, true);
    assert_eq!(flush, Some(PixelRun { y: 0, x_start: 0, x_end: 1, color: red }));
    let (run, flush) = contiguous_run_step(run, Point::new(0, 1), blue, false);
    assert_eq!(run, None);
    assert_eq!(flush.unwrap().rectangle(), Rectangle::new(Point::new(2, 0), Size::new(1, 1)));
}

#[test]
fn rows_group_adjacent_pixels() {
    let c = Rgb565::white();
    let (row, flush) = draw_row_step(None, Point::new(5, 5), c, true);
    assert!(flush.is_none());
    let (row, flush) = draw_row_step(row, Point::new(6, 5), c, true);
    assert!(flush.is_none());
    assert_eq!(row.as_ref().unwrap().area(), Rectangle::new(Point::new(5, 5), Size::new(2, 1)));
    let (row, flush) = draw_row_step(row, Point::new(9, 5), c, true);
    assert_eq!(flush.unwrap().colors.len(), 2);
    let (row, flush) = draw_row_step(row, Point::new(0, 0), c, false);
    assert!(row.is_none());
    assert_eq!(flush.unwrap().start, Point::new(9, 5));
    let mut full = PixelRowBuffer::new(Point::new(0, 0), c);
    for x in 1..64 {
        assert!(full.try_push(Point::new(x, 0), c));
    }
    assert!(!full.try_push(Point::new(64, 0), c));
}

#[test]
fn pixel_encoding_and_chunks() {
    let colors = [Rgb565 { raw: 0x1234 }, Rgb565 { raw: 0xABCD }, Rgb565 { raw: 0x0001 }];
    assert_eq!(encode_pixels(&colors, 2), vec![0x12, 0x34, 0xAB, 0xCD]);
    assert_eq!(encode_pixels(&colors, 10), vec![0x12, 0x34, 0xAB, 0xCD, 0x00, 0x01]);
    assert_eq!(repeated_color_chunks(300), vec![128, 128, 44]);
    assert_eq!(repeated_color_chunks(0), Vec::<usize>::new());
}

#[test]
fn surface_membership_follows_orientation() {
    let mut d = display();
    assert!(d.on_surface(Point::new(0, 0)));
    assert!(d.on_surface(Point::new(319, 239)));
    assert!(!d.on_surface(Point::new(320, 0)));
    assert!(!d.on_surface(Point::new(-1, 5)));
    d.set_orientation(DisplayOrientation::Portrait);
    assert!(d.on_surface(Point::new(239, 319)));
    assert!(!d.on_surface(Point::new(300, 0)));
}
