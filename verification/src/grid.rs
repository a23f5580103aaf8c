//! Integer grid vectors and the lattice points of a ball around the origin.

use vstd::prelude::*;

verus! {

/// A vector of the integer grid.
#[derive(Debug, Clone, Copy, PartialEq, Eq, Hash, Structural)]
pub struct IVec3 {
    pub x: i32,
    pub y: i32,
    pub z: i32,
}

/// Squared euclidean length of `(x, y, z)`.
pub open spec fn norm2(x: int, y: int, z: int) -> int {
    x * x + y * y + z * z
}

/// Whether `p` lies in the closed ball of radius `r` around the origin.
pub open spec fn in_ball(p: IVec3, r: int) -> bool {
    norm2(p.x as int, p.y as int, p.z as int) <= r * r
}

/// Whether `p` comes before the cursor `(x, y, z)` in the order that compares
/// `x` first, then `y`, then `z`.
pub open spec fn before(p: IVec3, x: int, y: int, z: int) -> bool {
    ||| p.x < x
    ||| (p.x == x && p.y < y)
    ||| (p.x == x && p.y == y && p.z < z)
}

/// Whether `a` comes strictly before `b` in the order that compares `x` first,
/// then `y`, then `z`.
pub open spec fn lex_lt(a: IVec3, b: IVec3) -> bool {
    before(a, b.x as int, b.y as int, b.z as int)
}

/// The exact contract of a lattice-ball enumeration: every element lies in the
/// ball, every lattice point of the ball occurs, and the elements are strictly
/// increasing (so none occurs twice).
pub open spec fn is_ball_enumeration(s: Seq<IVec3>, r: int) -> bool {
    &&& forall|i: int| 0 <= i < s.len() ==> in_ball(#[trigger] s[i], r)
    &&& forall|p: IVec3| in_ball(p, r) ==> s.contains(p)
    &&& forall|i: int, j: int| 0 <= i < j < s.len() ==> lex_lt(#[trigger] s[i], #[trigger] s[j])
}

/// A coordinate of a point of the ball is bounded by the radius.
pub proof fn lemma_ball_coordinates_bounded(p: IVec3, r: int)
    requires
        r >= 0,
        in_ball(p, r),
    ensures
        -r <= p.x <= r,
        -r <= p.y <= r,
        -r <= p.z <= r,
{
    let (x, y, z) = (p.x as int, p.y as int, p.z as int);
    assert(x * x >= 0 && y * y >= 0 && z * z >= 0) by (nonlinear_arith);
    lemma_square_bound(x, r);
    lemma_square_bound(y, r);
    lemma_square_bound(z, r);
}

proof fn lemma_square_bound(a: int, r: int)
    requires
        r >= 0,
        a * a <= r * r,
    ensures
        -r <= a <= r,
{
    if a > r {
        assert(a * a > r * r) by (nonlinear_arith)
            requires
                a > r,
                r >= 0,
        ;
    }
    if a < -r {
        assert(a * a > r * r) by (nonlinear_arith)
            requires
                a < -r,
                r >= 0,
        ;
    }
}

proof fn lemma_small_square(a: int)
    requires
        -255 <= a <= 255,
    ensures
        0 <= a * a <= 65025,
{
    assert(0 <= a * a <= 65025) by (nonlinear_arith)
        requires
            -255 <= a <= 255,
    ;
}

/// Every lattice point of the closed ball of the given radius around the
/// origin, in increasing order of `x`, then `y`, then `z`.
pub fn lattice_ball(radius: u8) -> (res: Vec<IVec3>)
    ensures
        is_ball_enumeration(res@, radius as int),
{
    let r: i32 = radius as i32;
    let ghost rr: int = r as int;
    let mut res: Vec<IVec3> = Vec::new();
    let mut x: i32 = -r;
    let mut y: i32 = -r;
    let mut z: i32 = -r;
    proof {
        assert forall|p: IVec3|
            in_ball(p, rr) && before(p, x as int, y as int, z as int) implies res@.contains(p) by {
            lemma_ball_coordinates_bounded(p, rr);
        }
    }
    while x <= r
        invariant
            rr == radius as int,
            x == rr + 1 ==> y == -rr && z == -rr,
            r == rr,
            -rr <= x <= rr + 1,
            -rr <= y <= rr,
            -rr <= z <= rr,
            forall|i: int|
                0 <= i < res.len() ==> in_ball(#[trigger] res@[i], rr) && before(
                    res@[i],
                    x as int,
                    y as int,
                    z as int,
                ),
            forall|p: IVec3|
                in_ball(p, rr) && before(p, x as int, y as int, z as int) ==> res@.contains(p),
            forall|i: int, j: int|
                0 <= i < j < res.len() ==> lex_lt(#[trigger] res@[i], #[trigger] res@[j]),
        decreases rr + 1 - x, rr - y, rr - z,
    {
        proof {
            lemma_small_square(x as int);
            lemma_small_square(y as int);
            lemma_small_square(z as int);
            lemma_small_square(rr);
        }
        let here = IVec3 { x, y, z };
        let ghost old_res = res@;
        if x * x + y * y + z * z <= r * r {
            res.push(here);
            proof {
                assert(res@[res.len() - 1] == here);
                assert forall|p: IVec3|
                    in_ball(p, rr) && before(p, x as int, y as int, z as int) implies res@.contains(
                    p,
                ) by {
                    assert(old_res.contains(p));
                    let k = choose|k: int| 0 <= k < old_res.len() && old_res[k] == p;
                    assert(res@[k] == p);
                }
            }
        }
        proof {
            assert(res@.contains(here) || !in_ball(here, rr));
        }
        let ghost (ox, oy, oz) = (x as int, y as int, z as int);
        if z < r {
            z = z + 1;
        } else if y < r {
            y = y + 1;
            z = -r;
        } else {
            x = x + 1;
            y = -r;
            z = -r;
        }
        proof {
            assert forall|p: IVec3|
                in_ball(p, rr) && before(p, x as int, y as int, z as int) implies res@.contains(
                p,
            ) by {
                lemma_ball_coordinates_bounded(p, rr);
                if p.x == ox && p.y == oy && p.z == oz {
                    assert(p == here);
                } else {
                    assert(before(p, ox, oy, oz));
                }
            }
        }
    }
    proof {
        assert forall|p: IVec3| in_ball(p, rr) implies res@.contains(p) by {
            lemma_ball_coordinates_bounded(p, rr);
            assert(before(p, x as int, y as int, z as int));
        }
    }
    res
}

} // verus!

verus! {

/// Whether the elements of `s` are strictly increasing.
pub open spec fn strictly_increasing(s: Seq<IVec3>) -> bool {
    forall|i: int, j: int| 0 <= i < j < s.len() ==> lex_lt(#[trigger] s[i], #[trigger] s[j])
}

proof fn lemma_lex_lt_asymmetric(a: IVec3, b: IVec3)
    ensures
        !(lex_lt(a, b) && lex_lt(b, a)),
        !lex_lt(a, a),
{
}

/// Two strictly increasing sequences with the same elements are equal.
pub proof fn lemma_sorted_unique(s1: Seq<IVec3>, s2: Seq<IVec3>)
    requires
        strictly_increasing(s1),
        strictly_increasing(s2),
        forall|p: IVec3| s1.contains(p) <==> s2.contains(p),
    ensures
        s1 == s2,
    decreases s1.len(),
{
    if s1.len() == 0 {
        if s2.len() > 0 {
            assert(s2.contains(s2[0]));
        }
        assert(s1 =~= s2);
    } else {
        assert(s1.contains(s1[0]));
        let j = choose|j: int| 0 <= j < s2.len() && s2[j] == s1[0];
        assert(s2.contains(s2[0]));
        let i = choose|i: int| 0 <= i < s1.len() && s1[i] == s2[0];
        if j > 0 {
            assert(lex_lt(s2[0], s2[j]));
            if i > 0 {
                assert(lex_lt(s1[0], s1[i]));
                lemma_lex_lt_asymmetric(s1[0], s1[i]);
            } else {
                lemma_lex_lt_asymmetric(s1[0], s1[0]);
            }
        }
        assert(s1[0] == s2[0]);
        let t1 = s1.drop_first();
        let t2 = s2.drop_first();
        assert forall|p: IVec3| t1.contains(p) <==> t2.contains(p) by {
            if t1.contains(p) {
                let k = choose|k: int| 0 <= k < t1.len() && t1[k] == p;
                assert(s1[k + 1] == p);
                assert(lex_lt(s1[0], s1[k + 1]));
                lemma_lex_lt_asymmetric(s1[0], s1[0]);
                assert(p != s1[0]);
                assert(s1.contains(p));
                let m = choose|m: int| 0 <= m < s2.len() && s2[m] == p;
                assert(m != 0);
                assert(t2[m - 1] == p);
            }
            if t2.contains(p) {
                let k = choose|k: int| 0 <= k < t2.len() && t2[k] == p;
                assert(s2[k + 1] == p);
                assert(lex_lt(s2[0], s2[k + 1]));
                lemma_lex_lt_asymmetric(s2[0], s2[0]);
                assert(p != s2[0]);
                assert(s2.contains(p));
                let m = choose|m: int| 0 <= m < s1.len() && s1[m] == p;
                assert(m != 0);
                assert(t1[m - 1] == p);
            }
        }
        assert(strictly_increasing(t1)) by {
            assert forall|a: int, b: int| 0 <= a < b < t1.len() implies lex_lt(#[trigger] t1[a], #[trigger] t1[b]) by {
                assert(t1[a] == s1[a + 1] && t1[b] == s1[b + 1]);
            }
        }
        assert(strictly_increasing(t2)) by {
            assert forall|a: int, b: int| 0 <= a < b < t2.len() implies lex_lt(#[trigger] t2[a], #[trigger] t2[b]) by {
                assert(t2[a] == s2[a + 1] && t2[b] == s2[b + 1]);
            }
        }
        lemma_sorted_unique(t1, t2);
        assert(s1 =~= s2) by {
            assert(s1.len() == s2.len());
            assert forall|k: int| 0 <= k < s1.len() implies s1[k] == s2[k] by {
                if k > 0 {
                    assert(s1[k] == t1[k - 1]);
                    assert(s2[k] == t2[k - 1]);
                }
            }
        }
    }
}

/// There is exactly one enumeration of the lattice points of a ball: any two
/// are equal, element for element.
pub proof fn lemma_ball_enumeration_unique(s1: Seq<IVec3>, s2: Seq<IVec3>, r: int)
    requires
        is_ball_enumeration(s1, r),
        is_ball_enumeration(s2, r),
    ensures
        s1 == s2,
{
    assert forall|p: IVec3| s1.contains(p) <==> s2.contains(p) by {
        if s1.contains(p) {
            let k = choose|k: int| 0 <= k < s1.len() && s1[k] == p;
            assert(in_ball(s1[k], r));
        }
        if s2.contains(p) {
            let k = choose|k: int| 0 <= k < s2.len() && s2[k] == p;
            assert(in_ball(s2[k], r));
        }
    }
    lemma_sorted_unique(s1, s2);
}

/// The centre lies in every ball, and a ball's lattice points come in
/// mirrored pairs: negating any coordinate of one gives another.
pub proof fn lemma_ball_symmetric(p: IVec3, r: int)
    requires
        r >= 0,
        in_ball(p, r),
        p.x > i32::MIN,
        p.y > i32::MIN,
        p.z > i32::MIN,
    ensures
        in_ball(IVec3 { x: 0, y: 0, z: 0 }, r),
        in_ball(IVec3 { x: (-p.x) as i32, y: p.y, z: p.z }, r),
        in_ball(IVec3 { x: p.x, y: (-p.y) as i32, z: p.z }, r),
        in_ball(IVec3 { x: p.x, y: p.y, z: (-p.z) as i32 }, r),
{
    assert(r * r >= 0) by (nonlinear_arith);
    assert((-p.x) * (-p.x) == p.x * p.x) by (nonlinear_arith);
    assert((-p.y) * (-p.y) == p.y * p.y) by (nonlinear_arith);
    assert((-p.z) * (-p.z) == p.z * p.z) by (nonlinear_arith);
}

/// Dot product of two grid vectors.
pub open spec fn dot(a: IVec3, b: IVec3) -> int {
    a.x * b.x + a.y * b.y + a.z * b.z
}

/// The cross product `a × b`, as mathematical integers.
pub open spec fn cross(a: IVec3, b: IVec3) -> (int, int, int) {
    (a.y * b.z - a.z * b.y, a.z * b.x - a.x * b.z, a.x * b.y - a.y * b.x)
}

/// Whether `v` is a unit vector along an axis (one component is ±1, the others 0).
pub open spec fn is_axis(v: IVec3) -> bool {
    ||| (v.x == 1 || v.x == -1) && v.y == 0 && v.z == 0
    ||| v.x == 0 && (v.y == 1 || v.y == -1) && v.z == 0
    ||| v.x == 0 && v.y == 0 && (v.z == 1 || v.z == -1)
}

impl IVec3 {
    pub fn new(x: i32, y: i32, z: i32) -> (v: IVec3)
        ensures
            v == (IVec3 { x, y, z }),
    {
        IVec3 { x, y, z }
    }

    /// The zero vector.
    pub fn zero() -> (v: IVec3)
        ensures
            v == (IVec3 { x: 0, y: 0, z: 0 }),
    {
        IVec3 { x: 0, y: 0, z: 0 }
    }
}

/// A rotation of the grid by a whole number of quarter turns about the axes,
/// held as the images of the three unit axes (the columns of its matrix).
#[derive(Debug, Clone, Copy, PartialEq, Eq, Structural)]
pub struct Rotation {
    pub x_axis: IVec3,
    pub y_axis: IVec3,
    pub z_axis: IVec3,
}

/// How far one rotation is from another, as a fraction of a full turn.
#[derive(Debug, Clone, Copy, PartialEq, Eq, Structural)]
pub enum TurnAngle {
    Zero,
    QuarterTurn,
    ThirdTurn,
    HalfTurn,
}

/// The angle of a rotation of the grid whose matrix has trace `t`
/// (`cos θ = (t − 1) / 2`).
pub open spec fn angle_of_trace(t: int) -> TurnAngle {
    if t >= 2 {
        TurnAngle::Zero
    } else if t == 1 {
        TurnAngle::QuarterTurn
    } else if t == 0 {
        TurnAngle::ThirdTurn
    } else {
        TurnAngle::HalfTurn
    }
}

/// The trace of `aᵀ · b`, which is the trace of the rotation taking `a` to `b`.
pub open spec fn relative_trace(a: Rotation, b: Rotation) -> int {
    dot(a.x_axis, b.x_axis) + dot(a.y_axis, b.y_axis) + dot(a.z_axis, b.z_axis)
}

/// `v` rotated by `q`, as mathematical integers.
pub open spec fn rotate(q: Rotation, v: IVec3) -> (int, int, int) {
    (
        q.x_axis.x * v.x + q.y_axis.x * v.y + q.z_axis.x * v.z,
        q.x_axis.y * v.x + q.y_axis.y * v.y + q.z_axis.y * v.z,
        q.x_axis.z * v.x + q.y_axis.z * v.y + q.z_axis.z * v.z,
    )
}

/// The absolute value of an integer.
pub open spec fn abs(a: int) -> int {
    if a < 0 {
        -a
    } else {
        a
    }
}

/// Multiplying by an entry of a rotation matrix (`-1`, `0` or `1`) negates,
/// zeroes or keeps the other factor.
pub proof fn lemma_unit_mul(m: int, v: int)
    requires
        -1 <= m <= 1,
    ensures
        m * v == (if m == 1 {
            v
        } else if m == -1 {
            -v
        } else {
            0
        }),
{
    if m == 0 {
        assert(m * v == 0);
    } else if m == 1 {
        assert(m * v == v);
    } else {
        assert(m * v == -v) by (nonlinear_arith)
            requires
                m == -1,
        ;
    }
}

impl Rotation {
    /// A proper rotation of the grid: the columns are unit axis vectors,
    /// pairwise orthogonal, and right-handed (`z = x × y`).
    pub open spec fn wf(self) -> bool {
        &&& is_axis(self.x_axis)
        &&& is_axis(self.y_axis)
        &&& is_axis(self.z_axis)
        &&& dot(self.x_axis, self.y_axis) == 0
        &&& cross(self.x_axis, self.y_axis) == (
            self.z_axis.x as int,
            self.z_axis.y as int,
            self.z_axis.z as int,
        )
    }

    /// The rotation that leaves everything in place.
    pub fn identity() -> (q: Rotation)
        ensures
            q == (Rotation {
                x_axis: IVec3 { x: 1, y: 0, z: 0 },
                y_axis: IVec3 { x: 0, y: 1, z: 0 },
                z_axis: IVec3 { x: 0, y: 0, z: 1 },
            }),
            q.wf(),
    {
        Rotation {
            x_axis: IVec3 { x: 1, y: 0, z: 0 },
            y_axis: IVec3 { x: 0, y: 1, z: 0 },
            z_axis: IVec3 { x: 0, y: 0, z: 1 },
        }
    }

    /// `v` rotated by this rotation.
    pub fn mul_vec3(&self, v: IVec3) -> (res: IVec3)
        requires
            self.wf(),
            abs(v.x as int) + abs(v.y as int) + abs(v.z as int) <= i32::MAX,
        ensures
            (res.x as int, res.y as int, res.z as int) == rotate(*self, v),
    {
        proof {
            lemma_unit_mul(self.x_axis.x as int, v.x as int);
            lemma_unit_mul(self.y_axis.x as int, v.y as int);
            lemma_unit_mul(self.z_axis.x as int, v.z as int);
            lemma_unit_mul(self.x_axis.y as int, v.x as int);
            lemma_unit_mul(self.y_axis.y as int, v.y as int);
            lemma_unit_mul(self.z_axis.y as int, v.z as int);
            lemma_unit_mul(self.x_axis.z as int, v.x as int);
            lemma_unit_mul(self.y_axis.z as int, v.y as int);
            lemma_unit_mul(self.z_axis.z as int, v.z as int);
        }
        let x = self.x_axis.x * v.x + self.y_axis.x * v.y + self.z_axis.x * v.z;
        let y = self.x_axis.y * v.x + self.y_axis.y * v.y + self.z_axis.y * v.z;
        let z = self.x_axis.z * v.x + self.y_axis.z * v.y + self.z_axis.z * v.z;
        IVec3 { x, y, z }
    }

    /// The direction the rotated frame looks at: the image of `-Z`.
    pub fn forward(&self) -> (res: IVec3)
        requires
            self.wf(),
        ensures
            res.x == -self.z_axis.x,
            res.y == -self.z_axis.y,
            res.z == -self.z_axis.z,
    {
        IVec3 { x: -self.z_axis.x, y: -self.z_axis.y, z: -self.z_axis.z }
    }

    /// The angle of the rotation that takes this rotation to `other`.
    pub fn angle_between(&self, other: &Rotation) -> (res: TurnAngle)
        requires
            self.wf(),
            other.wf(),
        ensures
            res == angle_of_trace(relative_trace(*self, *other)),
    {
        let t = self.x_axis.x * other.x_axis.x + self.x_axis.y * other.x_axis.y + self.x_axis.z
            * other.x_axis.z + self.y_axis.x * other.y_axis.x + self.y_axis.y * other.y_axis.y
            + self.y_axis.z * other.y_axis.z + self.z_axis.x * other.z_axis.x + self.z_axis.y
            * other.z_axis.y + self.z_axis.z * other.z_axis.z;
        if t >= 2 {
            TurnAngle::Zero
        } else if t == 1 {
            TurnAngle::QuarterTurn
        } else if t == 0 {
            TurnAngle::ThirdTurn
        } else {
            TurnAngle::HalfTurn
        }
    }
}

/// A rotation is no angle away from itself, and the angle between two
/// rotations does not depend on which is taken first.
pub proof fn lemma_angle_between_laws(a: Rotation, b: Rotation)
    requires
        a.wf(),
        b.wf(),
    ensures
        angle_of_trace(relative_trace(a, a)) == TurnAngle::Zero,
        relative_trace(a, b) == relative_trace(b, a),
{
    assert(dot(a.x_axis, a.x_axis) == 1);
    assert(dot(a.y_axis, a.y_axis) == 1);
    assert(dot(a.z_axis, a.z_axis) == 1);
    assert(dot(a.x_axis, b.x_axis) == dot(b.x_axis, a.x_axis)) by (nonlinear_arith);
    assert(dot(a.y_axis, b.y_axis) == dot(b.y_axis, a.y_axis)) by (nonlinear_arith);
    assert(dot(a.z_axis, b.z_axis) == dot(b.z_axis, a.z_axis)) by (nonlinear_arith);
}

} // verus!
