use crate::geometry::Rect;
use vstd::prelude::*;

verus! {

/// The logical grid: `width × height` points, each drawn as a square of
/// `point_size × point_size` pixels.
#[derive(Clone, Copy, Debug)]
pub struct Dimensions {
    point_size: u32,
    width: u32,
    height: u32,
}

/// A grid is valid when its points are at least one pixel wide and its
/// pixel extent fits in a `u32`.
pub open spec fn valid_grid(point_size: int, width: int, height: int) -> bool {
    &&& 1 <= point_size
    &&& 0 <= width * point_size <= u32::MAX
    &&& 0 <= height * point_size <= u32::MAX
}

/// The pixel rectangle `(x·p, y·p, w·p, h·p)` is expressible with `i32`
/// coordinates and `u32` extents.
pub open spec fn rect_fits(p: int, x: int, y: int, w: int, h: int) -> bool {
    &&& i32::MIN <= x * p <= i32::MAX
    &&& i32::MIN <= y * p <= i32::MAX
    &&& 0 <= w * p <= u32::MAX
    &&& 0 <= h * p <= u32::MAX
}

/// The logical rectangle at `(x, y)` of `w × h` points, scaled to pixels.
pub open spec fn scaled_rect(p: int, x: int, y: int, w: int, h: int) -> Rect {
    Rect { x: (x * p) as i32, y: (y * p) as i32, width: (w * p) as u32, height: (h * p) as u32 }
}

/// The pixel square of the single point at `(x, y)`.
pub open spec fn point_rect(p: int, x: int, y: int) -> Rect {
    Rect { x: (x * p) as i32, y: (y * p) as i32, width: p as u32, height: p as u32 }
}

impl Dimensions {
    pub closed spec fn spec_point_size(&self) -> u32 {
        self.point_size
    }

    pub closed spec fn spec_point_width(&self) -> u32 {
        self.width
    }

    pub closed spec fn spec_point_height(&self) -> u32 {
        self.height
    }

    pub open spec fn wf(&self) -> bool {
        valid_grid(self.point_size() as int, self.point_width() as int, self.point_height() as int)
    }

    pub fn new(point_size: u32, width: u32, height: u32) -> (d: Dimensions)
        requires
            valid_grid(point_size as int, width as int, height as int),
        ensures
            d.point_size() == point_size,
            d.point_width() == width,
            d.point_height() == height,
            d.wf(),
    {
        Dimensions { width, height, point_size }
    }

    /// 800 × 600 points of one pixel each.
    pub fn default() -> (d: Dimensions)
        ensures
            d.point_size() == 1,
            d.point_width() == 800,
            d.point_height() == 600,
            d.wf(),
    {
        Dimensions::new(1, 800, 600)
    }

    /// Size of a point in pixels
    #[verifier::when_used_as_spec(spec_point_size)]
    pub fn point_size(&self) -> (r: u32)
        ensures
            r == self.point_size(),
    {
        self.point_size
    }

    /// Width in points
    #[verifier::when_used_as_spec(spec_point_width)]
    pub fn point_width(&self) -> (r: u32)
        ensures
            r == self.point_width(),
    {
        self.width
    }

    /// Height in points
    #[verifier::when_used_as_spec(spec_point_height)]
    pub fn point_height(&self) -> (r: u32)
        ensures
            r == self.point_height(),
    {
        self.height
    }

    /// Width in pixels
    pub fn pixel_width(&self) -> (r: u32)
        requires
            self.wf(),
        ensures
            r == self.point_width() * self.point_size(),
    {
        self.width * self.point_size
    }

    /// Height in pixels
    pub fn pixel_height(&self) -> (r: u32)
        requires
            self.wf(),
        ensures
            r == self.point_height() * self.point_size(),
    {
        self.height * self.point_size
    }
}

/// `v · p` computed exactly, or `None` when it leaves the range of `i32`.
fn scale_position(v: i32, p: u32) -> (r: Option<i32>)
    ensures
        r matches Some(s) ==> s == v * p,
        r is None <==> !(i32::MIN <= v * p <= i32::MAX),
{
    proof {
        let (a, b) = (v as int, p as int);
        assert(-0x8000_0000 * 0xFFFF_FFFF <= a * b <= 0x7FFF_FFFF * 0xFFFF_FFFF) by (nonlinear_arith)
            requires
                -0x8000_0000 <= a <= 0x7FFF_FFFF,
                0 <= b <= 0xFFFF_FFFF,
        ;
    }
    let s: i64 = (v as i64) * (p as i64);
    if i32::MIN as i64 <= s && s <= i32::MAX as i64 {
        Some(s as i32)
    } else {
        None
    }
}

/// `v · p` computed exactly, or `None` when it leaves the range of `u32`.
fn scale_extent(v: u32, p: u32) -> (r: Option<u32>)
    ensures
        r matches Some(s) ==> s == v * p,
        r is None <==> v * p > u32::MAX,
{
    v.checked_mul(p)
}

/// The pixel rectangle of the logical rectangle at `(x, y)` of
/// `width × height` points, or `None` when it cannot be expressed in pixel
/// coordinates.
pub(crate) fn try_rect_at(dimensions: &Dimensions, x: i32, y: i32, width: u32, height: u32) -> (r:
    Option<Rect>)
    ensures
        r is Some <==> rect_fits(
            dimensions.point_size() as int,
            x as int,
            y as int,
            width as int,
            height as int,
        ),
        r matches Some(rect) ==> rect == scaled_rect(
            dimensions.point_size() as int,
            x as int,
            y as int,
            width as int,
            height as int,
        ),
{
    let p = dimensions.point_size();
    match (scale_position(x, p), scale_position(y, p), scale_extent(width, p), scale_extent(height, p)) {
        (Some(px), Some(py), Some(pw), Some(ph)) => Some(Rect::new(px, py, pw, ph)),
        _ => None,
    }
}

/// The pixel square of the point at `(x, y)`.
pub fn point_at(dimensions: &Dimensions, x: i32, y: i32) -> (r: Rect)
    requires
        rect_fits(dimensions.point_size() as int, x as int, y as int, 1, 1),
    ensures
        r == point_rect(dimensions.point_size() as int, x as int, y as int),
{
    let p = dimensions.point_size();
    let px = scale_position(x, p);
    let py = scale_position(y, p);
    Rect::new(px.unwrap(), py.unwrap(), p, p)
}

/// The pixel rectangle of the logical rectangle at `(x, y)` of
/// `width × height` points: every coordinate and extent scaled by the point
/// size.
pub fn rect_at(dimensions: &Dimensions, x: i32, y: i32, width: u32, height: u32) -> (r: Rect)
    requires
        rect_fits(dimensions.point_size() as int, x as int, y as int, width as int, height as int),
    ensures
        r == scaled_rect(dimensions.point_size() as int, x as int, y as int, width as int, height as int),
{
    try_rect_at(dimensions, x, y, width, height).unwrap()
}

/// A point is the logical rectangle of one point by one point.
pub proof fn point_is_unit_rect(p: int, x: int, y: int)
    requires
        rect_fits(p, x, y, 1, 1),
    ensures
        point_rect(p, x, y) == scaled_rect(p, x, y, 1, 1),
{
}

} // verus!
