use vstd::prelude::*;

verus! {

/// A location on the global screen coordinate plane.
///
/// The window server reports coordinates in device-independent units; the
/// selection logic only ever compares them, so this crate carries them as
/// integers.
#[derive(Clone, Copy, Debug, PartialEq, Eq, Structural)]
pub struct Point {
    pub x: i64,
    pub y: i64,
}

/// The extent of a window or screen frame.
#[derive(Clone, Copy, Debug, PartialEq, Eq, Structural)]
pub struct Size {
    pub width: i64,
    pub height: i64,
}

/// An axis-aligned rectangle, given by the corner the coordinate system grows
/// away from and its size.
#[derive(Clone, Copy, Debug, PartialEq, Eq, Structural)]
pub struct Rect {
    pub origin: Point,
    pub size: Size,
}

impl Size {
    /// A size is well formed when neither extent is negative.
    pub open spec fn wf(self) -> bool {
        0 <= self.width && 0 <= self.height
    }
}

impl Rect {
    /// A rectangle is well formed when its size is and its far corner still
    /// fits in the coordinate type.
    pub open spec fn wf(self) -> bool {
        &&& self.size.wf()
        &&& self.origin.x + self.size.width <= i64::MAX
        &&& self.origin.y + self.size.height <= i64::MAX
    }

    pub open spec fn max_x(self) -> int {
        self.origin.x + self.size.width
    }

    pub open spec fn max_y(self) -> int {
        self.origin.y + self.size.height
    }
}

/// Whether the mouse location `p` counts as inside the rectangle `r`.
///
/// This is the window system's convention for hit-testing the mouse against an
/// unflipped rectangle: on the x axis the minimum edge belongs to the
/// rectangle and the maximum edge does not, while on the y axis it is the
/// other way around.
pub open spec fn mouse_in_rect_spec(p: Point, r: Rect) -> bool {
    &&& r.origin.x <= p.x < r.max_x()
    &&& r.origin.y < p.y <= r.max_y()
}

/// Hit-test the mouse location `p` against the rectangle `r`.
pub fn mouse_in_rect(p: Point, r: Rect) -> (b: bool)
    requires
        r.wf(),
    ensures
        b == mouse_in_rect_spec(p, r),
{
    r.origin.x <= p.x && p.x < r.origin.x + r.size.width && r.origin.y < p.y
        && p.y <= r.origin.y + r.size.height
}

/// Two rectangles are disjoint when no mouse location hits both.
pub open spec fn disjoint(a: Rect, b: Rect) -> bool {
    forall|p: Point| !(mouse_in_rect_spec(p, a) && #[trigger] mouse_in_rect_spec(p, b))
}

/// A family of rectangles is pairwise disjoint when no two of them overlap.
pub open spec fn pairwise_disjoint(rects: Seq<Rect>) -> bool {
    forall|i: int, j: int|
        0 <= i < rects.len() && 0 <= j < rects.len() && i != j ==> disjoint(
            #[trigger] rects[i],
            #[trigger] rects[j],
        )
}

/// Over pairwise disjoint rectangles a hit determines its rectangle: at most
/// one member of the family contains any given mouse location. Screen frames
/// are disjoint, so the first frame a scan finds under the cursor is the only
/// one, and the order of the scan cannot matter.
pub proof fn lemma_disjoint_unique_hit(rects: Seq<Rect>, p: Point, i: int, j: int)
    requires
        pairwise_disjoint(rects),
        0 <= i < rects.len(),
        0 <= j < rects.len(),
        mouse_in_rect_spec(p, rects[i]),
        mouse_in_rect_spec(p, rects[j]),
    ensures
        i == j,
{
    if i != j {
        assert(disjoint(rects[i], rects[j]));
        assert(!(mouse_in_rect_spec(p, rects[i]) && mouse_in_rect_spec(p, rects[j])));
    }
}

} // verus!
