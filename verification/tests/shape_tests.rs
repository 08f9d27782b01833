use waow::CHANNEL_ONE;
use waow::Color;
use waow::shapes::Circle;
use waow::shapes::Image;
use waow::shapes::Rectangle;
use waow::shapes::Shape;
use waow::shapes::Square;

fn red() -> Color {
    Color::from_rgba_int(255, 0, 0, 255, false)
}

fn blue() -> Color {
    Color::from_rgba_int(0, 0, 255, 255, false)
}

fn green() -> Color {
    Color::from_rgba_int(0, 255, 0, 255, false)
}

fn opaque_black() -> Color {
    Color::from_rgba(0, 0, 0, CHANNEL_ONE, false)
}

#[test]
fn rectangle_fill_inside() {
    let rect = Rectangle::new(10, 10, 30, 50).with_fill(red());
    assert_eq!(rect.get_color(25, 30), Some(red()));
    assert_eq!(rect.get_color(10, 10), Some(red()));
    assert_eq!(rect.get_color(39, 59), Some(red()));
}

#[test]
fn rectangle_misses_outside() {
    let rect = Rectangle::new(10, 10, 30, 50).with_fill(red());
    assert_eq!(rect.get_color(9, 10), None);
    assert_eq!(rect.get_color(10, 9), None);
    assert_eq!(rect.get_color(40, 30), None);
    assert_eq!(rect.get_color(25, 60), None);
}

#[test]
fn rectangle_border_band_beats_fill() {
    let rect = Rectangle::new(10, 10, 30, 50).with_fill(red()).with_border(blue(), 4);
    // Within 4 pixels of an edge the border wins.
    assert_eq!(rect.get_color(12, 30), Some(blue()));
    assert_eq!(rect.get_color(25, 12), Some(blue()));
    assert_eq!(rect.get_color(36, 30), Some(blue()));
    assert_eq!(rect.get_color(25, 57), Some(blue()));
    assert_eq!(rect.get_color(10, 10), Some(blue()));
    // Strictly inside the band the fill shows.
    assert_eq!(rect.get_color(14, 14), Some(red()));
    assert_eq!(rect.get_color(25, 30), Some(red()));
    assert_eq!(rect.get_color(35, 55), Some(red()));
}

#[test]
fn rectangle_border_without_fill_is_transparent_inside() {
    let rect = Rectangle::new(10, 10, 30, 50).with_border(blue(), 4);
    assert_eq!(rect.get_color(12, 30), Some(blue()));
    assert_eq!(rect.get_color(25, 30), None);
}

#[test]
fn rectangle_without_fill_or_border_contributes_nothing() {
    let rect = Rectangle::new(10, 10, 30, 50);
    assert_eq!(rect.get_color(25, 30), None);
}

#[test]
fn rectangle_degenerate_size_is_empty() {
    let rect = Rectangle::new(10, 10, 0, 50).with_fill(red());
    assert_eq!(rect.get_color(10, 10), None);
    let rect = Rectangle::new(10, 10, -5, -5).with_fill(red());
    assert_eq!(rect.get_color(10, 10), None);
}

#[test]
fn circle_outside_radius_misses() {
    let circle = Circle::new(50, 50, 30).with_fill(red());
    assert_eq!(circle.get_color(81, 50), None);
    assert_eq!(circle.get_color(50, 81), None);
    assert_eq!(circle.get_color(72, 72), None);
}

#[test]
fn circle_center_and_rim_take_fill() {
    let circle = Circle::new(50, 50, 30).with_fill(red());
    assert_eq!(circle.get_color(50, 50), Some(red()));
    // Exactly on the rim: squared distance equals the squared radius.
    assert_eq!(circle.get_color(80, 50), Some(red()));
}

#[test]
fn circle_border_band_beats_fill() {
    let circle = Circle::new(50, 50, 30).with_fill(red()).with_border(blue(), 5);
    // Inside the annular band: squared distance 26^2 > 25^2.
    assert_eq!(circle.get_color(76, 50), Some(blue()));
    assert_eq!(circle.get_color(80, 50), Some(blue()));
    // On the inner disk the fill shows: 25^2 is not greater than 25^2.
    assert_eq!(circle.get_color(75, 50), Some(red()));
    assert_eq!(circle.get_color(50, 50), Some(red()));
}

#[test]
fn circle_border_wider_than_radius_is_all_border() {
    // A border at least as wide as the radius leaves no inner disk: the
    // whole disk, center included, becomes border.
    let circle = Circle::new(50, 50, 30).with_fill(red()).with_border(blue(), 40);
    assert_eq!(circle.get_color(61, 50), Some(blue()));
    assert_eq!(circle.get_color(60, 50), Some(blue()));
    assert_eq!(circle.get_color(50, 50), Some(blue()));
    assert_eq!(circle.get_color(81, 50), None);
}

#[test]
fn circle_border_exactly_the_radius_is_all_border() {
    let circle = Circle::new(50, 50, 30).with_fill(red()).with_border(blue(), 30);
    assert_eq!(circle.get_color(50, 50), Some(blue()));
    assert_eq!(circle.get_color(80, 50), Some(blue()));
}

#[test]
fn circle_without_fill_or_border_contributes_nothing() {
    let circle = Circle::new(50, 50, 30);
    assert_eq!(circle.get_color(50, 50), None);
}

#[test]
fn image_starts_opaque_black() {
    let img = Image::new(0, 0, 10, 10);
    assert_eq!(img.get_color(0, 0), Some(opaque_black()));
    assert_eq!(img.get_color(9, 9), Some(opaque_black()));
    assert_eq!(img.get_color(10, 10), None);
    assert_eq!(img.get_color(-1, 0), None);
}

#[test]
fn image_set_pixel_reads_back() {
    let mut img = Image::new(0, 0, 10, 10);
    img.set_pixel(5, 5, green());
    assert_eq!(img.get_color(5, 5), Some(green()));
    assert_eq!(img.get_color(5, 4), Some(opaque_black()));
    assert_eq!(img.get_color(4, 5), Some(opaque_black()));
}

#[test]
fn image_coordinates_are_absolute() {
    let mut img = Image::new(30, 30, 100, 100);
    img.set_pixel(35, 40, red());
    assert_eq!(img.get_color(35, 40), Some(red()));
    assert_eq!(img.get_color(30, 30), Some(opaque_black()));
    assert_eq!(img.get_color(129, 129), Some(opaque_black()));
    assert_eq!(img.get_color(130, 130), None);
    assert_eq!(img.get_color(29, 30), None);
}

#[test]
fn image_degenerate_size_is_empty() {
    let img = Image::new(0, 0, 0, 10);
    assert_eq!(img.get_color(0, 0), None);
    let img = Image::new(0, 0, -3, -3);
    assert_eq!(img.get_color(0, 0), None);
}

#[test]
fn shape_dispatch_matches_primitives() {
    let rect = Rectangle::new(0, 0, 4, 4).with_fill(red());
    let shape = Shape::Rectangle(rect);
    assert_eq!(shape.get_color(1, 1), Some(red()));
    assert_eq!(shape.get_color(4, 4), None);

    let circle = Circle::new(10, 10, 2).with_fill(blue());
    let shape = Shape::Circle(circle);
    assert_eq!(shape.get_color(10, 10), Some(blue()));
    assert_eq!(shape.get_color(13, 10), None);

    let img = Image::new(20, 20, 2, 2);
    let shape = Shape::Image(img);
    assert_eq!(shape.get_color(20, 21), Some(opaque_black()));
    assert_eq!(shape.get_color(22, 21), None);
}

#[test]
fn square_hits_inside_its_extent() {
    let square = Square::new(10, 10, 5, [1, 2, 3, 4]);
    assert_eq!(square.get_color(10, 10), Some([1, 2, 3, 4]));
    assert_eq!(square.get_color(14, 14), Some([1, 2, 3, 4]));
    assert_eq!(square.get_color(15, 10), None);
    assert_eq!(square.get_color(9, 10), None);
}
