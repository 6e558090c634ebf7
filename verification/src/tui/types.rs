use vstd::prelude::*;

verus! {

/// A point in a 2D grid of pixels with `u16` coordinates.
#[derive(Debug, Clone, Copy, PartialEq, Eq, Structural)]
pub struct Point {
    pub x: u16,
    pub y: u16,
}

impl Point {
    pub fn new(x: u16, y: u16) -> (p: Self)
        ensures
            p.x == x,
            p.y == y,
    {
        Self { x, y }
    }
}

/// An axis-aligned rectangle in a 2D grid of pixels with u16 coordinates. Guaranteed to not be
/// empty (contains at least 1 pixel), and every pixel of it has coordinates that fit in `u16`.
#[derive(Debug, Clone, Copy, PartialEq, Eq, Structural)]
pub struct Rectangle {
    top_left: Point,
    width: u16,
    height: u16,
}

/// The conditions under which a rectangle with the given corner and size is valid: it is not
/// empty and its last column and row still have coordinates that fit in `u16`.
pub open spec fn rect_dims_ok(top_left: Point, width: int, height: int) -> bool {
    &&& 1 <= width
    &&& 1 <= height
    &&& top_left.x + width - 1 <= u16::MAX
    &&& top_left.y + height - 1 <= u16::MAX
}

impl Rectangle {
    #[verifier::type_invariant]
    spec fn inv(self) -> bool {
        rect_dims_ok(self.top_left, self.width as int, self.height as int)
    }

    /// The lowest inclusive X coordinate.
    pub closed spec fn spec_left(self) -> int {
        self.top_left.x as int
    }

    /// The lowest inclusive Y coordinate.
    pub closed spec fn spec_top(self) -> int {
        self.top_left.y as int
    }

    /// The amount of columns.
    pub closed spec fn spec_width(self) -> int {
        self.width as int
    }

    /// The amount of rows.
    pub closed spec fn spec_height(self) -> int {
        self.height as int
    }

    /// The highest inclusive X coordinate.
    pub open spec fn spec_right(self) -> int {
        self.spec_left() + self.spec_width() - 1
    }

    /// The highest inclusive Y coordinate.
    pub open spec fn spec_bottom(self) -> int {
        self.spec_top() + self.spec_height() - 1
    }

    /// Whether the pixel `(x, y)` lies inside this rectangle.
    pub open spec fn contains(self, x: int, y: int) -> bool {
        self.spec_left() <= x <= self.spec_right() && self.spec_top() <= y <= self.spec_bottom()
    }

    pub fn new(top_left: Point, width: u16, height: u16) -> (r: Self)
        requires
            rect_dims_ok(top_left, width as int, height as int),
        ensures
            r.spec_left() == top_left.x,
            r.spec_top() == top_left.y,
            r.spec_width() == width,
            r.spec_height() == height,
    {
        Self { top_left, width, height }
    }

    /// Creates a new rectangle from the desired borders (included). Returns `None` if
    /// `right < left` or `bottom < top`. The size is computed as `right + 1 - left`, so a
    /// non-empty rectangle cannot reach the last coordinate.
    pub fn from_borders(left: u16, top: u16, right: u16, bottom: u16) -> (r: Option<Self>)
        requires
            left <= right && top <= bottom ==> right < u16::MAX && bottom < u16::MAX,
        ensures
            r is Some <==> (left <= right && top <= bottom),
            r matches Some(rect) ==> {
                &&& rect.spec_left() == left
                &&& rect.spec_top() == top
                &&& rect.spec_right() == right
                &&& rect.spec_bottom() == bottom
            },
    {
        if right >= left && bottom >= top {
            let top_left = Point::new(left, top);
            let width = right + 1 - left;
            let height = bottom + 1 - top;
            Some(Self { top_left, width, height })
        } else {
            None
        }
    }

    /// Gets this rectangle's width. Guaranteed to not be zero.
    pub fn width(&self) -> (w: u16)
        ensures
            w == self.spec_width(),
            w >= 1,
    {
        proof {
            use_type_invariant(self);
        }
        self.width
    }

    /// Gets this rectangle's height. Guaranteed to not be zero.
    pub fn height(&self) -> (h: u16)
        ensures
            h == self.spec_height(),
            h >= 1,
    {
        proof {
            use_type_invariant(self);
        }
        self.height
    }

    /// Gets this rectangle's lowest inclusive X coordinate.
    pub fn left(&self) -> (l: u16)
        ensures
            l == self.spec_left(),
    {
        self.top_left.x
    }

    /// Gets this rectangle's highest inclusive X coordinate. Guaranteed to be `>= left()`.
    pub fn right(&self) -> (r: u16)
        ensures
            r == self.spec_right(),
            r >= self.spec_left(),
    {
        proof {
            use_type_invariant(self);
        }
        self.top_left.x + (self.width - 1)
    }

    /// Gets this rectangle's lowest inclusive Y coordinate.
    pub fn top(&self) -> (t: u16)
        ensures
            t == self.spec_top(),
    {
        self.top_left.y
    }

    /// Gets this rectangle's highest inclusive Y coordinate. Guaranteed to be `>= top()`.
    pub fn bottom(&self) -> (b: u16)
        ensures
            b == self.spec_bottom(),
            b >= self.spec_top(),
    {
        proof {
            use_type_invariant(self);
        }
        self.top_left.y + (self.height - 1)
    }

    pub fn bottom_left(&self) -> (p: Point)
        ensures
            p.x == self.spec_left(),
            p.y == self.spec_bottom(),
    {
        Point { x: self.left(), y: self.bottom() }
    }

    pub fn top_right(&self) -> (p: Point)
        ensures
            p.x == self.spec_right(),
            p.y == self.spec_top(),
    {
        Point { x: self.right(), y: self.top() }
    }

    pub fn bottom_right(&self) -> (p: Point)
        ensures
            p.x == self.spec_right(),
            p.y == self.spec_bottom(),
    {
        Point { x: self.right(), y: self.bottom() }
    }

    /// Gets this rectangle's area. The area must fit in a `u16`.
    pub fn area(&self) -> (a: u16)
        requires
            self.spec_width() * self.spec_height() <= u16::MAX,
        ensures
            a == self.spec_width() * self.spec_height(),
    {
        self.width * self.height
    }

    /// Calculates the intersection between this rectangle and another: the pixels that lie in
    /// both, or `None` if there are none.
    pub fn intersection_with(&self, other: Self) -> (r: Option<Self>)
        requires
            intersection_fits(*self, other),
        ensures
            r is Some <==> (exists|x: int, y: int| self.contains(x, y) && other.contains(x, y)),
            r matches Some(rect) ==> forall|x: int, y: int|
                rect.contains(x, y) <==> (self.contains(x, y) && other.contains(x, y)),
    {
        let left = max_u16(self.left(), other.left());
        let right = min_u16(self.right(), other.right());
        let top = max_u16(self.top(), other.top());
        let bottom = min_u16(self.bottom(), other.bottom());
        proof {
            if left <= right && top <= bottom {
                assert(self.contains(left as int, top as int) && other.contains(left as int, top as int));
            }
        }
        let r = Self::from_borders(left, top, right, bottom);
        proof {
            if r is Some {
                assert(self.contains(left as int, top as int) && other.contains(left as int, top as int));
            }
        }
        r
    }

    /// Calculates the inside of this rectangle by pushing each border inwards by 1 unit, or
    /// `None` if nothing would be left.
    pub fn inside(&self) -> (r: Option<Self>)
        ensures
            r is Some <==> (self.spec_width() > 2 && self.spec_height() > 2),
            r matches Some(rect) ==> {
                &&& rect.spec_left() == self.spec_left() + 1
                &&& rect.spec_top() == self.spec_top() + 1
                &&& rect.spec_width() == self.spec_width() - 2
                &&& rect.spec_height() == self.spec_height() - 2
            },
    {
        proof {
            use_type_invariant(self);
        }
        if self.width > 2 && self.height > 2 {
            let top_left = Point { x: self.top_left.x + 1, y: self.top_left.y + 1 };
            Some(Self { top_left, width: self.width - 2, height: self.height - 2 })
        } else {
            None
        }
    }

    /// The top row of this rectangle, as a line.
    pub fn top_as_line(&self) -> (l: HorizontalLine)
        ensures
            l.spec_y() == self.spec_top(),
            l.spec_left() == self.spec_left(),
            l.spec_width() == self.spec_width(),
    {
        proof {
            use_type_invariant(self);
        }
        HorizontalLine::new(self.top(), self.left(), self.width)
    }

    /// A rectangle holding the single pixel at the origin.
    pub fn get_single_pixel_rect() -> (r: Self)
        ensures
            r.spec_left() == 0,
            r.spec_top() == 0,
            r.spec_width() == 1,
            r.spec_height() == 1,
    {
        Rectangle::new(Point::new(0, 0), 1, 1)
    }

    /// The rectangle one pixel tall covering exactly the given line.
    pub fn from_line(line: HorizontalLine) -> (r: Self)
        ensures
            r.spec_left() == line.spec_left(),
            r.spec_top() == line.spec_y(),
            r.spec_width() == line.spec_width(),
            r.spec_height() == 1,
    {
        proof {
            use_type_invariant(line);
        }
        Rectangle::new(Point::new(line.left, line.y), line.width, 1)
    }
}

/// A Horizontal line of pixels in a 2D grid. Guaranteed to not be empty (contains at least 1
/// pixel), and its rightmost pixel has a coordinate that fits in `u16`.
#[derive(Debug, Clone, Copy, PartialEq, Eq, Structural)]
pub struct HorizontalLine {
    y: u16,
    left: u16,
    width: u16,
}

/// The conditions under which a line starting at `left` with `width` pixels is valid.
pub open spec fn line_dims_ok(left: int, width: int) -> bool {
    1 <= width && left + width - 1 <= u16::MAX
}

impl HorizontalLine {
    #[verifier::type_invariant]
    spec fn inv(self) -> bool {
        line_dims_ok(self.left as int, self.width as int)
    }

    pub closed spec fn spec_y(self) -> int {
        self.y as int
    }

    pub closed spec fn spec_left(self) -> int {
        self.left as int
    }

    pub closed spec fn spec_width(self) -> int {
        self.width as int
    }

    pub open spec fn spec_right(self) -> int {
        self.spec_left() + self.spec_width() - 1
    }

    /// Whether the pixel `(x, y)` lies on this line.
    pub open spec fn contains(self, x: int, y: int) -> bool {
        y == self.spec_y() && self.spec_left() <= x <= self.spec_right()
    }

    pub fn new(y: u16, left: u16, width: u16) -> (l: Self)
        requires
            line_dims_ok(left as int, width as int),
        ensures
            l.spec_y() == y,
            l.spec_left() == left,
            l.spec_width() == width,
    {
        Self { y, left, width }
    }

    /// Creates a new line from the desired borders (included). Returns None if `left > right`.
    /// The width `right - left + 1` must fit in a `u16`.
    pub fn from_borders(y: u16, left: u16, right: u16) -> (l: Option<Self>)
        requires
            left <= right ==> right - left < u16::MAX,
        ensures
            l is Some <==> left <= right,
            l matches Some(line) ==> {
                &&& line.spec_y() == y
                &&& line.spec_left() == left
                &&& line.spec_right() == right
            },
    {
        if left <= right {
            Some(HorizontalLine { y, left, width: right - left + 1 })
        } else {
            None
        }
    }

    /// Gets this line's lowest inclusive X coordinate.
    pub fn left(&self) -> (l: u16)
        ensures
            l == self.spec_left(),
    {
        self.left
    }

    /// Gets this line's highest inclusive X coordinate. Guaranteed to be `>= left()`.
    pub fn right(&self) -> (r: u16)
        ensures
            r == self.spec_right(),
            r >= self.spec_left(),
    {
        proof {
            use_type_invariant(self);
        }
        self.left + (self.width - 1)
    }

    /// Gets this line's width. Guaranteed to not be zero.
    pub fn width(&self) -> (w: u16)
        ensures
            w == self.spec_width(),
            w >= 1,
    {
        proof {
            use_type_invariant(self);
        }
        self.width
    }

    /// Gets this line's Y coordinate.
    pub fn y(&self) -> (y: u16)
        ensures
            y == self.spec_y(),
    {
        self.y
    }

    /// Calculates the intersection between this line and a rectangle: the pixels of the line
    /// that lie inside the rectangle, or `None` if there are none.
    pub fn intersection_with_rect(&self, rect: Rectangle) -> (r: Option<Self>)
        ensures
            r is Some <==> (exists|x: int, y: int| self.contains(x, y) && rect.contains(x, y)),
            r matches Some(line) ==> forall|x: int, y: int|
                line.contains(x, y) <==> (self.contains(x, y) && rect.contains(x, y)),
    {
        let left = max_u16(self.left(), rect.left());
        let right = min_u16(self.right(), rect.right());

        if self.y >= rect.top() && self.y <= rect.bottom() {
            let r = Self::from_borders(self.y, left, right);
            proof {
                if r is Some {
                    assert(self.contains(left as int, self.y as int) && rect.contains(left as int, self.y as int));
                }
            }
            r
        } else {
            None
        }
    }

    /// Calculates the intersection between this line and another line: the pixels that lie on
    /// both, or `None` if there are none.
    pub fn intersection_with_line(&self, line: Self) -> (r: Option<Self>)
        ensures
            r is Some <==> (exists|x: int, y: int| self.contains(x, y) && line.contains(x, y)),
            r matches Some(l) ==> forall|x: int, y: int|
                l.contains(x, y) <==> (self.contains(x, y) && line.contains(x, y)),
    {
        if self.y == line.y {
            let left = max_u16(self.left(), line.left());
            let right = min_u16(self.right(), line.right());
            let r = Self::from_borders(self.y, left, right);
            proof {
                if r is Some {
                    assert(self.contains(left as int, self.y as int) && line.contains(left as int, self.y as int));
                }
            }
            r
        } else {
            None
        }
    }

    /// Calculates the inside of this line by pushing the horizontal borders inwards by 1 unit,
    /// or `None` if nothing would be left.
    pub fn inside(&self) -> (r: Option<Self>)
        ensures
            r is Some <==> self.spec_width() > 2,
            r matches Some(l) ==> {
                &&& l.spec_y() == self.spec_y()
                &&& l.spec_left() == self.spec_left() + 1
                &&& l.spec_width() == self.spec_width() - 2
            },
    {
        proof {
            use_type_invariant(self);
        }
        if self.width > 2 {
            Some(Self { y: self.y, left: self.left + 1, width: self.width - 2 })
        } else {
            None
        }
    }

    /// A line holding the single pixel at the origin.
    pub fn get_single_pixel_line() -> (l: Self)
        ensures
            l.spec_y() == 0,
            l.spec_left() == 0,
            l.spec_width() == 1,
    {
        Self::new(0, 0, 1)
    }
}

/// The borders of the intersection of two rectangles, as computed by
/// `Rectangle::intersection_with`, can be turned into a rectangle: when they enclose a pixel,
/// the right and bottom borders are below the last coordinate.
pub open spec fn intersection_fits(a: Rectangle, b: Rectangle) -> bool {
    let right = if a.spec_right() <= b.spec_right() { a.spec_right() } else { b.spec_right() };
    let bottom = if a.spec_bottom() <= b.spec_bottom() { a.spec_bottom() } else { b.spec_bottom() };
    (exists|x: int, y: int| a.contains(x, y) && b.contains(x, y)) ==> right < u16::MAX && bottom < u16::MAX
}

fn max_u16(a: u16, b: u16) -> (r: u16)
    ensures
        r == if a >= b { a } else { b },
{
    if a >= b {
        a
    } else {
        b
    }
}

fn min_u16(a: u16, b: u16) -> (r: u16)
    ensures
        r == if a <= b { a } else { b },
{
    if a <= b {
        a
    } else {
        b
    }
}

} // verus!
