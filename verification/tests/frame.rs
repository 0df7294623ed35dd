use raytrace::frame::{Frame, Rgb};
use raytrace::Axis;

#[test]
fn new_frame_is_black() {
    let f = Frame::new(4, 3);
    assert_eq!(f.width(), 4);
    assert_eq!(f.height(), 3);
    for y in 0..3 {
        for x in 0..4 {
            assert_eq!(f.get(x, y), Rgb { r: 0, g: 0, b: 0 });
        }
    }
}

#[test]
fn set_then_get_returns_the_pixel() {
    let mut f = Frame::new(4, 3);
    let p = Rgb { r: 10, g: 20, b: 30 };
    f.set(2, 1, p);
    assert_eq!(f.get(2, 1), p);
}

#[test]
fn set_leaves_other_pixels_alone() {
    let mut f = Frame::new(4, 3);
    f.set(2, 1, Rgb { r: 255, g: 255, b: 255 });
    for y in 0..3 {
        for x in 0..4 {
            if (x, y) != (2, 1) {
                assert_eq!(f.get(x, y), Rgb { r: 0, g: 0, b: 0 });
            }
        }
    }
}

#[test]
fn second_write_overwrites_the_first() {
    let mut f = Frame::new(2, 2);
    f.set(0, 0, Rgb { r: 1, g: 2, b: 3 });
    f.set(0, 0, Rgb { r: 4, g: 5, b: 6 });
    assert_eq!(f.get(0, 0), Rgb { r: 4, g: 5, b: 6 });
}

#[test]
fn single_pixel_frame() {
    let mut f = Frame::new(1, 1);
    f.set(0, 0, Rgb { r: 9, g: 9, b: 9 });
    assert_eq!(f.get(0, 0), Rgb { r: 9, g: 9, b: 9 });
}

#[test]
fn cells_with_matching_coordinates_stay_apart() {
    // column 1 of row 0 and column 0 of row 1 are distinct cells
    let mut f = Frame::new(2, 2);
    f.set(1, 0, Rgb { r: 7, g: 0, b: 0 });
    f.set(0, 1, Rgb { r: 0, g: 7, b: 0 });
    assert_eq!(f.get(1, 0), Rgb { r: 7, g: 0, b: 0 });
    assert_eq!(f.get(0, 1), Rgb { r: 0, g: 7, b: 0 });
}

#[test]
fn axis_components_index_in_order() {
    assert_eq!(Axis::X.index(), 0);
    assert_eq!(Axis::Y.index(), 1);
    assert_eq!(Axis::Z.index(), 2);
}
