use vstd::prelude::*;

verus! {

/// A two-dimensional scroll-speed vector in fixed-point milliunits:
/// the pair `(x, y)` stands for `(x / 1000, y / 1000)` texture units per
/// second. Any pair of components is a valid speed; there is no range
/// constraint beyond what the component type itself imposes.
#[derive(Clone, Copy, Debug, PartialEq, Eq, Structural)]
pub struct ScrollSpeed {
    /// Horizontal texture-coordinate displacement rate, in milliunits.
    pub x: i64,
    /// Vertical texture-coordinate displacement rate, in milliunits.
    pub y: i64,
}

impl View for ScrollSpeed {
    type V = (int, int);

    open spec fn view(&self) -> (int, int) {
        (self.x as int, self.y as int)
    }
}

/// Componentwise sum of two 2D vectors.
pub open spec fn vec_add(a: (int, int), b: (int, int)) -> (int, int) {
    (a.0 + b.0, a.1 + b.1)
}

impl ScrollSpeed {
    /// A speed with the given components.
    pub fn new(x: i64, y: i64) -> (s: ScrollSpeed)
        ensures
            s@ == ((x as int, y as int)),
    {
        ScrollSpeed { x, y }
    }

    /// The zero speed: no displacement in either direction.
    pub fn zero() -> (s: ScrollSpeed)
        ensures
            s@ == ((0int, 0int)),
    {
        ScrollSpeed { x: 0, y: 0 }
    }

    /// Adds a delta vector to the speed, componentwise.
    pub fn add_delta(&mut self, d: ScrollSpeed)
        requires
            i64::MIN <= old(self).x + d.x <= i64::MAX,
            i64::MIN <= old(self).y + d.y <= i64::MAX,
        ensures
            final(self)@ == vec_add(old(self)@, d@),
    {
        self.x = self.x + d.x;
        self.y = self.y + d.y;
    }
}

/// The texture-coordinate displacement accumulated after `t` time units at
/// speed `s`, in milliunit-scaled coordinates: the speed times the time,
/// componentwise. The shader performs this arithmetic each frame; the
/// library only states it.
pub open spec fn displacement(s: ScrollSpeed, t: int) -> (int, int) {
    (s.x * t, s.y * t)
}

/// A material whose scroll speed is the zero vector is visually static:
/// it displaces nothing at any instant.
pub proof fn lemma_zero_speed_static(s: ScrollSpeed, t: int)
    requires
        s@ == ((0int, 0int)),
    ensures
        displacement(s, t) == ((0int, 0int)),
{
    assert(s.x as int == 0);
    assert(s.y as int == 0);
    assert(s.x as int * t == 0) by (nonlinear_arith)
        requires
            s.x as int == 0,
    ;
    assert(s.y as int * t == 0) by (nonlinear_arith)
        requires
            s.y as int == 0,
    ;
}

/// Applying two deltas in sequence to a starting vector yields the sum of
/// all three, and the two deltas may be applied in either order.
pub proof fn lemma_delta_composition(s0: (int, int), d1: (int, int), d2: (int, int))
    ensures
        vec_add(vec_add(s0, d1), d2) == vec_add(s0, vec_add(d1, d2)),
        vec_add(vec_add(s0, d1), d2) == vec_add(vec_add(s0, d2), d1),
{
}

} // verus!
