use vstd::prelude::*;

use crate::error::Error;

verus! {

/// Largest representable longitude, in microdegrees (180 degrees).
pub const LONGITUDE_LIMIT: i64 = 180_000_000;

/// Largest representable latitude, in microdegrees (90 degrees).
pub const LATITUDE_LIMIT: i64 = 90_000_000;

/// A longitude is valid when it lies in [-180, 180] degrees.
pub open spec fn valid_longitude(v: i64) -> bool {
    -LONGITUDE_LIMIT <= v <= LONGITUDE_LIMIT
}

/// A latitude is valid when it lies in [-90, 90] degrees.
pub open spec fn valid_latitude(v: i64) -> bool {
    -LATITUDE_LIMIT <= v <= LATITUDE_LIMIT
}

/// Whether `v` is a latitude in range.
pub fn is_lat(v: i64) -> (r: bool)
    ensures
        r == valid_latitude(v),
{
    -LATITUDE_LIMIT <= v && v <= LATITUDE_LIMIT
}

/// Whether `v` is a longitude in range.
pub fn is_long(v: i64) -> (r: bool)
    ensures
        r == valid_longitude(v),
{
    -LONGITUDE_LIMIT <= v && v <= LONGITUDE_LIMIT
}

/// Rejects a latitude outside [-90, 90] degrees.
pub fn assert_lat_range(v: i64) -> (r: Result<(), Error>)
    ensures
        r == if valid_latitude(v) {
            Ok::<(), Error>(())
        } else {
            Err::<(), Error>(Error::InvalidLatitudeRange)
        },
{
    if !is_lat(v) {
        return Err(Error::InvalidLatitudeRange);
    }
    Ok(())
}

/// Rejects a longitude outside [-180, 180] degrees.
pub fn assert_long_range(v: i64) -> (r: Result<(), Error>)
    ensures
        r == if valid_longitude(v) {
            Ok::<(), Error>(())
        } else {
            Err::<(), Error>(Error::InvalidLongitudeRange)
        },
{
    if !is_long(v) {
        return Err(Error::InvalidLongitudeRange);
    }
    Ok(())
}

/// A geographic point: longitude `x` and latitude `y`, both in
/// microdegrees.  Values are range-checked at construction and
/// immutable afterwards.
#[derive(Clone, Copy, Debug, PartialEq, Eq, Structural)]
pub struct Coords {
    pub x: i64,
    pub y: i64,
}

impl Coords {
    /// Both components lie in their geographic range.
    pub open spec fn wf(self) -> bool {
        valid_longitude(self.x) && valid_latitude(self.y)
    }

    /// Builds a range-checked point; the longitude is checked first.
    pub fn new(x: i64, y: i64) -> (r: Result<Coords, Error>)
        ensures
            r == if !valid_longitude(x) {
                Err::<Coords, Error>(Error::InvalidLongitudeRange)
            } else if !valid_latitude(y) {
                Err::<Coords, Error>(Error::InvalidLatitudeRange)
            } else {
                Ok::<Coords, Error>(Coords { x, y })
            },
            r is Ok ==> r->Ok_0.wf(),
    {
        assert_long_range(x)?;
        assert_lat_range(y)?;
        Ok(Coords { x, y })
    }

    /// Whether `self` lies strictly south-west of `other` on both axes.
    pub fn at_south_west_from(&self, other: &Coords) -> (r: bool)
        ensures
            r == (self.x < other.x && self.y < other.y),
    {
        self.x < other.x && self.y < other.y
    }
}

/// A rectangular search region: a south-west and a north-east corner,
/// strictly ordered on both axes.  A point belongs to the region under
/// the half-open reading [`BoundingBox::contains_point`], so that the
/// two halves of a bisection tile their whole exactly.
#[derive(Clone, Copy, Debug, PartialEq, Eq, Structural)]
pub struct BoundingBox {
    pub sw: Coords,
    pub ne: Coords,
}

impl BoundingBox {
    /// Corners in range, strictly ordered on both axes.
    pub open spec fn wf(self) -> bool {
        &&& self.sw.wf()
        &&& self.ne.wf()
        &&& self.sw.x < self.ne.x
        &&& self.sw.y < self.ne.y
    }

    /// Longitude span, in microdegrees.
    pub open spec fn spec_width(self) -> int {
        self.ne.x - self.sw.x
    }

    /// Latitude span, in microdegrees.
    pub open spec fn spec_height(self) -> int {
        self.ne.y - self.sw.y
    }

    /// Area, in square microdegrees; the traversal's termination measure.
    pub open spec fn area(self) -> int {
        self.spec_width() * self.spec_height()
    }

    /// Half-open membership: the south and west edges belong to the
    /// region, the north and east edges do not.
    pub open spec fn contains_point(self, x: int, y: int) -> bool {
        &&& self.sw.x <= x < self.ne.x
        &&& self.sw.y <= y < self.ne.y
    }

    /// The corner pair a caller supplied, normalized per axis.
    pub open spec fn spec_corners(a: Coords, b: Coords) -> BoundingBox {
        BoundingBox {
            sw: Coords {
                x: if a.x <= b.x { a.x } else { b.x },
                y: if a.y <= b.y { a.y } else { b.y },
            },
            ne: Coords {
                x: if a.x <= b.x { b.x } else { a.x },
                y: if a.y <= b.y { b.y } else { a.y },
            },
        }
    }

    /// Builds a region from two opposite corners, swapping components
    /// so that the south-west corner comes first on each axis.  Corners
    /// that coincide on some axis enclose no area and are rejected.
    pub fn new(a: Coords, b: Coords) -> (r: Result<BoundingBox, Error>)
        requires
            a.wf(),
            b.wf(),
        ensures
            r == if a.x == b.x || a.y == b.y {
                Err::<BoundingBox, Error>(Error::DegenerateRegion)
            } else {
                Ok::<BoundingBox, Error>(Self::spec_corners(a, b))
            },
            r is Ok ==> r->Ok_0.wf(),
    {
        if a.x == b.x || a.y == b.y {
            return Err(Error::DegenerateRegion);
        }
        let sw = Coords {
            x: if a.x <= b.x { a.x } else { b.x },
            y: if a.y <= b.y { a.y } else { b.y },
        };
        let ne = Coords {
            x: if a.x <= b.x { b.x } else { a.x },
            y: if a.y <= b.y { b.y } else { a.y },
        };
        Ok(BoundingBox { sw, ne })
    }

    /// Whether bisecting along the longer axis still yields two
    /// regions with corners strictly ordered: the longer span must be
    /// at least two microdegrees.
    pub open spec fn splittable(self) -> bool {
        self.spec_width() >= 2 || self.spec_height() >= 2
    }

    /// The two halves of the bisection along the longer axis (the
    /// latitude axis on a tie), at the midpoint of that axis's span.
    pub open spec fn split_spec(self) -> (BoundingBox, BoundingBox) {
        if self.spec_width() > self.spec_height() {
            let mid = (self.sw.x + self.spec_width() / 2) as i64;
            (
                BoundingBox { sw: self.sw, ne: Coords { x: mid, y: self.ne.y } },
                BoundingBox { sw: Coords { x: mid, y: self.sw.y }, ne: self.ne },
            )
        } else {
            let mid = (self.sw.y + self.spec_height() / 2) as i64;
            (
                BoundingBox { sw: self.sw, ne: Coords { x: self.ne.x, y: mid } },
                BoundingBox { sw: Coords { x: self.sw.x, y: mid }, ne: self.ne },
            )
        }
    }

    /// Executable bisection; see [`BoundingBox::split_spec`].
    pub fn split(&self) -> (r: (BoundingBox, BoundingBox))
        requires
            self.wf(),
            self.splittable(),
        ensures
            r == self.split_spec(),
            r.0.wf(),
            r.1.wf(),
            r.0.area() < self.area(),
            r.1.area() < self.area(),
    {
        proof {
            lemma_split_shrinks(*self);
        }
        let w = self.ne.x - self.sw.x;
        let h = self.ne.y - self.sw.y;
        if w > h {
            let mid = self.sw.x + w / 2;
            (
                BoundingBox { sw: self.sw, ne: Coords { x: mid, y: self.ne.y } },
                BoundingBox { sw: Coords { x: mid, y: self.sw.y }, ne: self.ne },
            )
        } else {
            let mid = self.sw.y + h / 2;
            (
                BoundingBox { sw: self.sw, ne: Coords { x: self.ne.x, y: mid } },
                BoundingBox { sw: Coords { x: self.sw.x, y: mid }, ne: self.ne },
            )
        }
    }
}

/// Both halves of a bisection are themselves valid regions, and each
/// has strictly smaller area than the whole: subdividing a saturated
/// region always makes progress.
pub proof fn lemma_split_shrinks(b: BoundingBox)
    requires
        b.wf(),
        b.splittable(),
    ensures
        b.split_spec().0.wf(),
        b.split_spec().1.wf(),
        b.split_spec().0.area() < b.area(),
        b.split_spec().1.area() < b.area(),
{
    let w = b.spec_width();
    let h = b.spec_height();
    let (p, q) = b.split_spec();
    if w > h {
        let wl = w / 2;
        assert(1 <= wl < w);
        assert(p.spec_width() == wl && p.spec_height() == h);
        assert(q.spec_width() == w - wl && q.spec_height() == h);
        lemma_area_monotone(wl, w, h);
        lemma_area_monotone(w - wl, w, h);
    } else {
        let hl = h / 2;
        assert(1 <= hl < h);
        assert(p.spec_height() == hl && p.spec_width() == w);
        assert(q.spec_height() == h - hl && q.spec_width() == w);
        lemma_area_monotone(hl, h, w);
        lemma_area_monotone(h - hl, h, w);
    }
}

/// A rectangle with the same second side and a strictly shorter first
/// side has strictly smaller area.
proof fn lemma_area_monotone(a: int, b: int, c: int)
    requires
        a < b,
        c >= 1,
    ensures
        a * c < b * c,
{
    vstd::arithmetic::mul::lemma_mul_strict_inequality(a, b, c);
}

/// No gap and no overlap: every point of a region falls in exactly one
/// of the two halves its bisection produces.
pub proof fn lemma_split_tiles(b: BoundingBox, x: int, y: int)
    requires
        b.wf(),
        b.splittable(),
    ensures
        b.contains_point(x, y) <==> (b.split_spec().0.contains_point(x, y)
            || b.split_spec().1.contains_point(x, y)),
        !(b.split_spec().0.contains_point(x, y) && b.split_spec().1.contains_point(x, y)),
{
}

} // verus!
