use sandstorm::tui::types::{HorizontalLine, Point, Rectangle};

#[test]
fn test_rectangle_intersection1() {
    assert_eq!(
        Rectangle::from_borders(10, 10, 20, 20),
        Rectangle::from_borders(0, 0, 20, 20)
            .unwrap()
            .intersection_with(Rectangle::from_borders(10, 10, 30, 30).unwrap())
    );

    assert_eq!(
        Rectangle::from_borders(10, 10, 20, 20),
        Rectangle::from_borders(10, 10, 30, 30)
            .unwrap()
            .intersection_with(Rectangle::from_borders(0, 0, 20, 20).unwrap())
    );
}

#[test]
fn test_rectangle_intersection2() {
    assert_eq!(
        Rectangle::from_borders(10, 10, 20, 20),
        Rectangle::from_borders(10, 10, 20, 20)
            .unwrap()
            .intersection_with(Rectangle::from_borders(0, 0, 50, 50).unwrap())
    );

    assert_eq!(
        Rectangle::from_borders(10, 10, 20, 20),
        Rectangle::from_borders(0, 0, 50, 50)
            .unwrap()
            .intersection_with(Rectangle::from_borders(10, 10, 20, 20).unwrap())
    );
}

#[test]
fn rectangle_disjoint_intersection_is_none() {
    let a = Rectangle::from_borders(0, 0, 5, 5).unwrap();
    let b = Rectangle::from_borders(6, 0, 10, 5).unwrap();
    assert_eq!(a.intersection_with(b), None);
    assert_eq!(b.intersection_with(a), None);
}

#[test]
fn rectangle_from_borders_rejects_inverted() {
    assert_eq!(Rectangle::from_borders(5, 0, 4, 3), None);
    assert_eq!(Rectangle::from_borders(0, 5, 4, 3), None);
}

#[test]
fn rectangle_geometry() {
    let r = Rectangle::new(Point::new(3, 4), 10, 5);
    assert_eq!(r.left(), 3);
    assert_eq!(r.top(), 4);
    assert_eq!(r.right(), 12);
    assert_eq!(r.bottom(), 8);
    assert_eq!(r.width(), 10);
    assert_eq!(r.height(), 5);
    assert_eq!(r.area(), 50);
    assert_eq!(r.bottom_left(), Point::new(3, 8));
    assert_eq!(r.top_right(), Point::new(12, 4));
    assert_eq!(r.bottom_right(), Point::new(12, 8));
    let inner = r.inside().unwrap();
    assert_eq!((inner.left(), inner.top(), inner.right(), inner.bottom()), (4, 5, 11, 7));
    let top = r.top_as_line();
    assert_eq!((top.y(), top.left(), top.right()), (4, 3, 12));
}

#[test]
fn rectangle_inside_of_thin_is_none() {
    let r = Rectangle::new(Point::new(0, 0), 2, 10);
    assert_eq!(r.inside(), None);
}

#[test]
fn horizontal_line_intersections() {
    let line = HorizontalLine::new(5, 2, 10);
    assert_eq!((line.left(), line.right(), line.width()), (2, 11, 10));
    let rect = Rectangle::from_borders(5, 0, 20, 10).unwrap();
    let cut = line.intersection_with_rect(rect).unwrap();
    assert_eq!((cut.left(), cut.right(), cut.y()), (5, 11, 5));
    let above = Rectangle::from_borders(0, 0, 20, 4).unwrap();
    assert!(line.intersection_with_rect(above).is_none());
    let other = HorizontalLine::new(5, 8, 10);
    let both = line.intersection_with_line(other).unwrap();
    assert_eq!((both.left(), both.right()), (8, 11));
    let elsewhere = HorizontalLine::new(6, 2, 10);
    assert!(line.intersection_with_line(elsewhere).is_none());
}

#[test]
fn single_pixel_shapes() {
    let r = Rectangle::get_single_pixel_rect();
    assert_eq!((r.width(), r.height()), (1, 1));
    let l = HorizontalLine::get_single_pixel_line();
    assert_eq!(l.width(), 1);
    let from_line = Rectangle::from_line(HorizontalLine::new(7, 1, 4));
    assert_eq!((from_line.left(), from_line.top(), from_line.width(), from_line.height()), (1, 7, 4, 1));
}
