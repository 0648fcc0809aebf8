//! Points on the integer plane and the textual equation of the line
//! through two of them.

use vstd::prelude::*;
use vstd::string::StringExecFns;

use crate::decimal::{dec_rep, int_rep, u64_to_string, i64_to_string};

verus! {

/// A point on the plane.
#[derive(Debug)]
pub struct Point {
    pub x: i32,
    pub y: i32,
}

/// A point as a bare coordinate pair.
#[derive(Debug, Clone, Copy)]
pub struct SimplePoint(pub i32, pub i32);

/// The intermediate differences and the constant term of the line through
/// `(x1, y1)` and `(x2, y2)` all stay within machine range, negation
/// included.
pub open spec fn line_req(x1: int, y1: int, x2: int, y2: int) -> bool {
    let cx = y1 - y2;
    let cy = x1 - x2;
    &&& i32::MIN < cx <= i32::MAX
    &&& i32::MIN < cy <= i32::MAX
    &&& i32::MIN <= x1 * cy <= i32::MAX
    &&& i32::MIN <= y2 * cx <= i32::MAX
    &&& i32::MIN < x1 * cy + y2 * cx <= i32::MAX
}

/// The equation of the line through two points, as rendered: an `x` term
/// with its coefficient (normalized to be non-negative), a `y` term, and
/// the constant, each omitted when zero; two equal points give an empty
/// rendering, and so does a zero constant give no `= 0` tail.
pub open spec fn line_rep(x1: int, y1: int, x2: int, y2: int) -> Seq<char> {
    let cx0 = y1 - y2;
    let cy0 = x1 - x2;
    let cc0 = x1 * cy0 + y2 * cx0;
    if cx0 == 0 && cy0 == 0 {
        Seq::empty()
    } else {
        let cx = if cx0 < 0 {
            -cx0
        } else {
            cx0
        };
        let cy = if cx0 < 0 {
            -cy0
        } else {
            cy0
        };
        let cc = if cx0 < 0 {
            -cc0
        } else {
            cc0
        };
        let sx = if cx == 1 {
            "x"@
        } else if cx != 0 {
            dec_rep(cx) + "x"@
        } else {
            Seq::<char>::empty()
        };
        let sy = if cx == 0 {
            if cy == 1 {
                "y"@
            } else if cy == -1 {
                "-y"@
            } else if cy != 0 {
                int_rep(cy) + "y"@
            } else {
                sx
            }
        } else if cy == 1 {
            sx + " + y"@
        } else if cy == -1 {
            sx + " - y"@
        } else if cy < 0 {
            sx + " - "@ + dec_rep(-cy) + "y"@
        } else if cy > 0 {
            sx + " + "@ + dec_rep(cy) + "y"@
        } else {
            sx
        };
        if cc < 0 {
            sy + " - "@ + dec_rep(-cc) + " = 0"@
        } else if cc > 0 {
            sy + " + "@ + dec_rep(cc) + " = 0"@
        } else {
            sy
        }
    }
}

impl Point {
    pub fn new(x: i32, y: i32) -> (p: Point)
        ensures
            p.x == x,
            p.y == y,
    {
        Point { x, y }
    }

    /// The equation of the line through `self` and `other`, derived from
    /// `(y1 - y2) x - (x1 - x2) y + (y1 - y2) x1 + (x1 - x2) y1 = 0` and
    /// rendered term by term.
    pub fn line(&self, other: &Point) -> (s: String)
        requires
            line_req(self.x as int, self.y as int, other.x as int, other.y as int),
        ensures
            s@ == line_rep(self.x as int, self.y as int, other.x as int, other.y as int),
    {
        let mut cx = self.y - other.y;
        let mut cy = self.x - other.x;
        let mut cc = self.x * cy + other.y * cx;
        let mut s = String::new();
        if cx == 0 && cy == 0 {
            return s;
        }
        if cx < 0 {
            cx = -cx;
            cy = -cy;
            cc = -cc;
        }
        if cx == 1 {
            s = String::from_str("x");
        } else if cx != 0 {
            s = u64_to_string(cx as u64);
            s.append("x");
        }
        if cx == 0 {
            if cy == 1 {
                s = String::from_str("y");
            } else if cy == -1 {
                s = String::from_str("-y");
            } else if cy != 0 {
                s = i64_to_string(cy as i64);
                s.append("y");
            }
        } else if cy == 1 {
            s.append(" + y");
        } else if cy == -1 {
            s.append(" - y");
        } else if cy < 0 {
            s.append(" - ");
            let m = u64_to_string((-cy) as u64);
            s.append(m.as_str());
            s.append("y");
        } else if cy > 0 {
            s.append(" + ");
            let m = u64_to_string(cy as u64);
            s.append(m.as_str());
            s.append("y");
        }
        if cc < 0 {
            s.append(" - ");
            let m = u64_to_string((-cc) as u64);
            s.append(m.as_str());
            s.append(" = 0");
        } else if cc > 0 {
            s.append(" + ");
            let m = u64_to_string(cc as u64);
            s.append(m.as_str());
            s.append(" = 0");
        }
        s
    }
}

impl vstd::std_specs::convert::FromSpecImpl<SimplePoint> for Point {
    open spec fn obeys_from_spec() -> bool {
        true
    }

    open spec fn from_spec(item: SimplePoint) -> Point {
        Point { x: item.0, y: item.1 }
    }
}

impl core::convert::From<SimplePoint> for Point {
    /// The first coordinate becomes `x`, the second `y`.
    fn from(item: SimplePoint) -> Point {
        Point { x: item.0, y: item.1 }
    }
}

} // verus!
