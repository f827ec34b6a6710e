use core::convert::Infallible;

use core_s3::geometry::{Point, Rectangle, Rgb565, Size};
use core_s3::sprite::{DirtySprite, DirtySpriteError, RegionSet};
use embedded_graphics::draw_target::DrawTarget;
use embedded_graphics::geometry::OriginDimensions;
use embedded_graphics::prelude::RgbColor;
use embedded_graphics::prelude::{Drawable, IntoStorage, Pixel, Primitive};
use embedded_graphics::primitives::PrimitiveStyle;

/// Draw target over a sprite: each drawn pixel goes through `set_pixel`.
struct SpriteTarget<'a>(&'a mut DirtySprite<8, 8, 64, 8>);

impl OriginDimensions for SpriteTarget<'_> {
    fn size(&self) -> embedded_graphics::geometry::Size {
        embedded_graphics::geometry::Size::new(8, 8)
    }
}

impl DrawTarget for SpriteTarget<'_> {
    type Color = embedded_graphics::pixelcolor::Rgb565;
    type Error = Infallible;

    fn draw_iter<I>(&mut self, pixels: I) -> Result<(), Self::Error>
    where
        I: IntoIterator<Item = Pixel<Self::Color>>,
    {
        for Pixel(point, color) in pixels {
            let _ = self.0.set_pixel(Point::new(point.x, point.y), Rgb565 { raw: color.into_storage() });
        }
        Ok(())
    }
}

#[test]
fn tracks_dirty_regions_for_drawn_shapes() {
    let mut sprite = DirtySprite::<8, 8, 64, 8>::new(Rgb565::black()).unwrap();
    embedded_graphics::primitives::Rectangle::new(
        embedded_graphics::geometry::Point::new(1, 2),
        embedded_graphics::geometry::Size::new(3, 4),
    )
    .into_styled(PrimitiveStyle::with_fill(embedded_graphics::pixelcolor::Rgb565::WHITE))
    .draw(&mut SpriteTarget(&mut sprite))
    .unwrap();

    let regions = sprite.dirty_regions();
    assert_eq!(regions, vec![Rectangle::new(Point::new(1, 2), Size::new(3, 4))]);
}

#[test]
fn rejects_too_small_buffer() {
    let err = match DirtySprite::<8, 8, 63, 8>::new(Rgb565::black()) {
        Ok(_) => panic!("expected buffer validation to fail"),
        Err(err) => err,
    };
    assert_eq!(err, DirtySpriteError::BufferTooSmall);
}

#[test]
fn region_set_merges_touching_rectangles() {
    let mut set = RegionSet::<2>::new();
    assert!(set.is_empty());
    set.add(Rectangle::new(Point::new(0, 0), Size::new(2, 2))).unwrap();
    set.add(Rectangle::new(Point::new(2, 0), Size::new(2, 2))).unwrap();
    assert_eq!(set.iter(), vec![Rectangle::new(Point::new(0, 0), Size::new(4, 2))]);
    set.add(Rectangle::new(Point::new(10, 10), Size::new(1, 1))).unwrap();
    assert_eq!(set.add(Rectangle::new(Point::new(20, 20), Size::new(1, 1))), Err(DirtySpriteError::TooManyRegions));
    set.add(Rectangle::new(Point::new(0, 0), Size::new(0, 5))).unwrap();
    assert_eq!(set.iter().len(), 2);
    set.clear();
    assert!(set.is_empty());
}

#[test]
fn unchanged_pixels_stay_clean_and_regions_read_back() {
    let mut sprite = DirtySprite::<4, 4, 16, 4>::new(Rgb565::black()).unwrap();
    sprite.set_pixel(Point::new(1, 1), Rgb565::black()).unwrap();
    assert!(sprite.dirty_regions().is_empty());
    sprite.set_pixel(Point::new(1, 1), Rgb565::white()).unwrap();
    sprite.set_pixel(Point::new(9, 9), Rgb565::white()).unwrap();
    assert_eq!(sprite.pixel(Point::new(1, 1)), Some(Rgb565::white()));
    assert_eq!(sprite.pixel(Point::new(9, 9)), None);
    assert_eq!(
        sprite.region_pixels(Rectangle::new(Point::new(0, 1), Size::new(3, 1))),
        vec![Rgb565::black(), Rgb565::white(), Rgb565::black()]
    );
    assert!(sprite.region_pixels(Rectangle::new(Point::new(5, 5), Size::new(3, 3))).is_empty());
    sprite.clear_dirty();
    assert!(sprite.dirty_regions().is_empty());
    sprite.clear(Rgb565::cyan());
    assert_eq!(sprite.dirty_regions(), vec![Rectangle::new(Point::new(0, 0), Size::new(4, 4))]);
}

#[test]
fn add_merges_into_first_touching_region_and_compacts_in_place() {
    let mut set = RegionSet::<4>::new();
    set.add(Rectangle::new(Point::new(0, 0), Size::new(1, 1))).unwrap();
    set.add(Rectangle::new(Point::new(20, 20), Size::new(1, 1))).unwrap();
    set.add(Rectangle::new(Point::new(3, 0), Size::new(1, 1))).unwrap();
    set.add(Rectangle::new(Point::new(40, 40), Size::new(1, 1))).unwrap();
    set.add(Rectangle::new(Point::new(1, 0), Size::new(2, 1))).unwrap();
    assert_eq!(
        set.iter(),
        vec![
            Rectangle::new(Point::new(0, 0), Size::new(4, 1)),
            Rectangle::new(Point::new(20, 20), Size::new(1, 1)),
            Rectangle::new(Point::new(40, 40), Size::new(1, 1)),
        ]
    );
    set.add(Rectangle::new(Point::new(21, 21), Size::new(1, 1))).unwrap();
    assert_eq!(set.iter()[1], Rectangle::new(Point::new(20, 20), Size::new(2, 2)));
    set.add(Rectangle::new(Point::new(30, 0), Size::new(1, 1))).unwrap();
    assert_eq!(set.iter().len(), 4);
    assert_eq!(set.iter()[3], Rectangle::new(Point::new(30, 0), Size::new(1, 1)));
}

#[test]
fn adjacent_pixels_merge_into_one_region() {
    let mut sprite = DirtySprite::<8, 8, 64, 4>::new(Rgb565::black()).unwrap();
    sprite.set_pixel(Point::new(1, 1), Rgb565::white()).unwrap();
    sprite.set_pixel(Point::new(2, 1), Rgb565::white()).unwrap();
    sprite.set_pixel(Point::new(3, 2), Rgb565::white()).unwrap();
    assert_eq!(sprite.dirty_regions(), vec![Rectangle::new(Point::new(1, 1), Size::new(3, 2))]);
}

#[test]
fn rectangle_range_check() {
    assert!(Rectangle::new(Point::new(0, 0), Size::new(10, 10)).is_in_range());
    assert!(Rectangle::new(Point::new(i32::MAX, 0), Size::new(0, 10)).is_in_range());
    assert!(!Rectangle::new(Point::new(i32::MAX, 0), Size::new(2, 1)).is_in_range());
    assert!(!Rectangle::new(Point::new(0, 0), Size::new(u32::MAX, 1)).is_in_range());
}
