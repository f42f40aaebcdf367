use etherdream::points::expand;
use etherdream::protocol::Point;
use point::SimplePoint;

#[test]
fn simple_point_color_expansion() {
    let p = Point::from_simple(&SimplePoint::xy_rgb(-5, 7, 0, 255, 16));
    assert_eq!(p.x, -5);
    assert_eq!(p.y, 7);
    assert_eq!(p.r, 0);
    assert_eq!(p.g, 65535);
    assert_eq!(p.b, 16 * 257);
    assert_eq!(p.i, 65535);
    assert_eq!((p.control, p.u1, p.u2), (0, 0, 0));
}

#[test]
fn simple_point_intensity_is_brightest_channel() {
    let p = Point::from_simple(&SimplePoint::xy_rgb(0, 0, 10, 3, 200));
    assert_eq!(p.i, 200 * 257);
    let p = Point::from_simple(&SimplePoint::xy_rgb(0, 0, 90, 3, 20));
    assert_eq!(p.i, 90 * 257);
    let p = Point::from_simple(&SimplePoint::xy_blank(1, 2));
    assert_eq!((p.r, p.g, p.b, p.i), (0, 0, 0, 0));
}

#[test]
fn channel_expansion_values() {
    assert_eq!(expand(0), 0);
    assert_eq!(expand(1), 257);
    assert_eq!(expand(128), 32896);
    assert_eq!(expand(255), 65535);
}
