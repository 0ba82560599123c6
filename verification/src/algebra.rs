//! Vectors and quaternions over fixed-point scalars, with the exact algebraic
//! facts the layout proofs rest on: bounds for every operation, identity and
//! zero laws, and the mirror symmetry of the whole algebra across the plane
//! that flips the lateral axis.

use vstd::prelude::*;
use crate::fixed::{FX_ONE, FX_FACTOR_LIMIT, FX_PRODUCT_LIMIT, fm, fx_mul, lemma_fm_bound, lemma_fm_neg, lemma_fm_one};

verus! {

/// Mathematical model of a 3D vector: unbounded fixed-point components.
pub struct Vec3Spec {
    pub x: int,
    pub y: int,
    pub z: int,
}

/// Mathematical model of a 2D vector.
pub struct Vec2Spec {
    pub x: int,
    pub y: int,
}

/// Mathematical model of a quaternion, vector part `x, y, z` and scalar `w`.
pub struct QuatSpec {
    pub x: int,
    pub y: int,
    pub z: int,
    pub w: int,
}

/// A 3D vector in fixed-point millionths.
#[derive(Clone, Copy, PartialEq, Eq, Structural, Debug)]
pub struct Vec3 {
    pub x: i64,
    pub y: i64,
    pub z: i64,
}

/// A 2D vector in fixed-point millionths.
#[derive(Clone, Copy, PartialEq, Eq, Structural, Debug)]
pub struct Vec2 {
    pub x: i64,
    pub y: i64,
}

/// A quaternion in fixed-point millionths; the identity is `(0, 0, 0, FX_ONE)`.
#[derive(Clone, Copy, PartialEq, Eq, Structural, Debug)]
pub struct Quat {
    pub x: i64,
    pub y: i64,
    pub z: i64,
    pub w: i64,
}

impl View for Vec3 {
    type V = Vec3Spec;

    open spec fn view(&self) -> Vec3Spec {
        Vec3Spec { x: self.x as int, y: self.y as int, z: self.z as int }
    }
}

impl View for Vec2 {
    type V = Vec2Spec;

    open spec fn view(&self) -> Vec2Spec {
        Vec2Spec { x: self.x as int, y: self.y as int }
    }
}

impl View for Quat {
    type V = QuatSpec;

    open spec fn view(&self) -> QuatSpec {
        QuatSpec { x: self.x as int, y: self.y as int, z: self.z as int, w: self.w as int }
    }
}

/// Every component of `v` lies within `m` of zero.
pub open spec fn vec3_in(v: Vec3Spec, m: int) -> bool {
    &&& -m <= v.x <= m
    &&& -m <= v.y <= m
    &&& -m <= v.z <= m
}

/// Every component of `q` lies within `m` of zero.
pub open spec fn quat_in(q: QuatSpec, m: int) -> bool {
    &&& -m <= q.x <= m
    &&& -m <= q.y <= m
    &&& -m <= q.z <= m
    &&& -m <= q.w <= m
}

/// Componentwise vector sum.
pub open spec fn vadd(a: Vec3Spec, b: Vec3Spec) -> Vec3Spec {
    Vec3Spec { x: a.x + b.x, y: a.y + b.y, z: a.z + b.z }
}

/// Componentwise scaling by a fixed-point factor.
pub open spec fn vscale(v: Vec3Spec, k: int) -> Vec3Spec {
    Vec3Spec { x: fm(v.x, k), y: fm(v.y, k), z: fm(v.z, k) }
}

/// Hamilton product of two quaternions, each scalar product rescaled.
pub open spec fn qmul(a: QuatSpec, b: QuatSpec) -> QuatSpec {
    QuatSpec {
        x: fm(a.w, b.x) + fm(a.x, b.w) + fm(a.y, b.z) - fm(a.z, b.y),
        y: fm(a.w, b.y) - fm(a.x, b.z) + fm(a.y, b.w) + fm(a.z, b.x),
        z: fm(a.w, b.z) + fm(a.x, b.y) - fm(a.y, b.x) + fm(a.z, b.w),
        w: fm(a.w, b.w) - fm(a.x, b.x) - fm(a.y, b.y) - fm(a.z, b.z),
    }
}

/// Quaternion conjugate.
pub open spec fn qconj(q: QuatSpec) -> QuatSpec {
    QuatSpec { x: -q.x, y: -q.y, z: -q.z, w: q.w }
}

/// The quaternion with vector part `v` and zero scalar part.
pub open spec fn qpure(v: Vec3Spec) -> QuatSpec {
    QuatSpec { x: v.x, y: v.y, z: v.z, w: 0 }
}

/// Rotation of `v` by `q`: the vector part of `q * v * conj(q)`.
pub open spec fn qrotate(q: QuatSpec, v: Vec3Spec) -> Vec3Spec {
    let r = qmul(qmul(q, qpure(v)), qconj(q));
    Vec3Spec { x: r.x, y: r.y, z: r.z }
}

/// The identity rotation.
pub open spec fn quat_identity_spec() -> QuatSpec {
    QuatSpec { x: 0, y: 0, z: 0, w: FX_ONE as int }
}

/// Positions stay within this bound (a machine limit on world coordinates).
pub const COORD_LIMIT: i64 = 1_000_000_000_000;

/// Vector addition limit: sums of a position and rotated offsets stay far
/// below this.
pub const VADD_LIMIT: i64 = 1_000_000_000_000_000;

/// Quaternions fed to `quat_rotate` stay within this component bound.
pub const QROT_LIMIT: i64 = 100_000_000;

/// Componentwise vector addition.
pub fn vec3_add(a: Vec3, b: Vec3) -> (r: Vec3)
    requires
        vec3_in(a@, VADD_LIMIT as int),
        vec3_in(b@, VADD_LIMIT as int),
    ensures
        r@ == vadd(a@, b@),
{
    Vec3 { x: a.x + b.x, y: a.y + b.y, z: a.z + b.z }
}

/// Componentwise scaling by a fixed-point factor.
pub fn vec3_scale(v: Vec3, k: i64) -> (r: Vec3)
    requires
        vec3_in(v@, FX_FACTOR_LIMIT as int),
        -FX_FACTOR_LIMIT <= k <= FX_FACTOR_LIMIT,
    ensures
        r@ == vscale(v@, k as int),
        vec3_in(r@, FX_PRODUCT_LIMIT as int),
{
    Vec3 { x: fx_mul(v.x, k), y: fx_mul(v.y, k), z: fx_mul(v.z, k) }
}

/// Hamilton product of two quaternions.
pub fn quat_mul(a: Quat, b: Quat) -> (r: Quat)
    requires
        quat_in(a@, FX_FACTOR_LIMIT as int),
        quat_in(b@, FX_FACTOR_LIMIT as int),
    ensures
        r@ == qmul(a@, b@),
        quat_in(r@, 4 * FX_PRODUCT_LIMIT as int),
{
    let x = fx_mul(a.w, b.x) + fx_mul(a.x, b.w) + fx_mul(a.y, b.z) - fx_mul(a.z, b.y);
    let y = fx_mul(a.w, b.y) - fx_mul(a.x, b.z) + fx_mul(a.y, b.w) + fx_mul(a.z, b.x);
    let z = fx_mul(a.w, b.z) + fx_mul(a.x, b.y) - fx_mul(a.y, b.x) + fx_mul(a.z, b.w);
    let w = fx_mul(a.w, b.w) - fx_mul(a.x, b.x) - fx_mul(a.y, b.y) - fx_mul(a.z, b.z);
    Quat { x, y, z, w }
}

/// Quaternion conjugate.
pub fn quat_conj(q: Quat) -> (r: Quat)
    requires
        quat_in(q@, FX_FACTOR_LIMIT as int),
    ensures
        r@ == qconj(q@),
        quat_in(r@, FX_FACTOR_LIMIT as int),
{
    Quat { x: -q.x, y: -q.y, z: -q.z, w: q.w }
}

/// Bound on the components of a quaternion product, from bounds on its
/// factors.
pub proof fn lemma_qmul_in(a: QuatSpec, b: QuatSpec, ba: int, bb: int)
    requires
        quat_in(a, ba),
        quat_in(b, bb),
        0 <= ba,
        0 <= bb,
    ensures
        quat_in(qmul(a, b), 4 * ((ba * bb) / (FX_ONE as int))),
{
    lemma_fm_bound(a.w, b.x, ba, bb);
    lemma_fm_bound(a.x, b.w, ba, bb);
    lemma_fm_bound(a.y, b.z, ba, bb);
    lemma_fm_bound(a.z, b.y, ba, bb);
    lemma_fm_bound(a.w, b.y, ba, bb);
    lemma_fm_bound(a.x, b.z, ba, bb);
    lemma_fm_bound(a.y, b.w, ba, bb);
    lemma_fm_bound(a.z, b.x, ba, bb);
    lemma_fm_bound(a.w, b.z, ba, bb);
    lemma_fm_bound(a.x, b.y, ba, bb);
    lemma_fm_bound(a.y, b.x, ba, bb);
    lemma_fm_bound(a.z, b.w, ba, bb);
    lemma_fm_bound(a.w, b.w, ba, bb);
    lemma_fm_bound(a.x, b.x, ba, bb);
    lemma_fm_bound(a.y, b.y, ba, bb);
    lemma_fm_bound(a.z, b.z, ba, bb);
}

/// Rotation of a vector by a quaternion.
pub fn quat_rotate(q: Quat, v: Vec3) -> (r: Vec3)
    requires
        quat_in(q@, QROT_LIMIT as int),
        vec3_in(v@, FX_ONE as int),
    ensures
        r@ == qrotate(q@, v@),
        vec3_in(r@, 4 * FX_PRODUCT_LIMIT as int),
{
    let p = Quat { x: v.x, y: v.y, z: v.z, w: 0 };
    let t = quat_mul(q, p);
    proof {
        lemma_qmul_in(q@, p@, QROT_LIMIT as int, FX_ONE as int);
    }
    let c = quat_conj(q);
    let r = quat_mul(t, c);
    Vec3 { x: r.x, y: r.y, z: r.z }
}

/// Multiplying by the identity rotation on the right changes nothing.
pub proof fn lemma_qmul_identity(q: QuatSpec)
    ensures
        qmul(q, quat_identity_spec()) == q,
{
    lemma_fm_one(q.x);
    lemma_fm_one(q.y);
    lemma_fm_one(q.z);
    lemma_fm_one(q.w);
}

/// Rotating the zero vector gives the zero vector.
pub proof fn lemma_qrotate_zero(q: QuatSpec)
    ensures
        qrotate(q, Vec3Spec { x: 0, y: 0, z: 0 }) == (Vec3Spec { x: 0, y: 0, z: 0 }),
{
    let z = Vec3Spec { x: 0, y: 0, z: 0 };
    crate::fixed::lemma_fm_zero(q.x);
    crate::fixed::lemma_fm_zero(q.y);
    crate::fixed::lemma_fm_zero(q.z);
    crate::fixed::lemma_fm_zero(q.w);
    let t = qmul(q, qpure(z));
    assert(t == QuatSpec { x: 0, y: 0, z: 0, w: 0 });
    crate::fixed::lemma_fm_zero(qconj(q).x);
    crate::fixed::lemma_fm_zero(qconj(q).y);
    crate::fixed::lemma_fm_zero(qconj(q).z);
    crate::fixed::lemma_fm_zero(qconj(q).w);
    assert(qmul(t, qconj(q)) == QuatSpec { x: 0, y: 0, z: 0, w: 0 });
}

/// Rotation about the local X axis by `angle` (fixed-point radians), as a
/// quaternion: cosine and sine of the half angle by their cubic and quartic
/// fixed-point polynomials, exact for this model.
pub open spec fn rotor_x_spec(angle: int) -> QuatSpec {
    let half = fm(angle, 500_000);
    let h2 = fm(half, half);
    let h4 = fm(h2, h2);
    let h3 = fm(h2, half);
    QuatSpec {
        x: half - fm(h3, 166_667),
        y: 0,
        z: 0,
        w: (FX_ONE as int) - fm(h2, 500_000) + fm(h4, 41_667),
    }
}

/// Build the rotation about X by `angle`, at most one fixed-point radian in
/// magnitude.
pub fn rotor_x(angle: i64) -> (r: Quat)
    requires
        -FX_ONE <= angle <= FX_ONE,
    ensures
        r@ == rotor_x_spec(angle as int),
        quat_in(r@, 2_000_000),
{
    let half = fx_mul(angle, 500_000);
    proof {
        lemma_fm_bound(angle as int, 500_000, FX_ONE as int, 500_000);
    }
    let h2 = fx_mul(half, half);
    proof {
        lemma_fm_bound(half as int, half as int, 500_000, 500_000);
    }
    let h4 = fx_mul(h2, h2);
    proof {
        lemma_fm_bound(h2 as int, h2 as int, 250_000, 250_000);
    }
    let h3 = fx_mul(h2, half);
    proof {
        lemma_fm_bound(h2 as int, half as int, 250_000, 500_000);
    }
    let c2 = fx_mul(h2, 500_000);
    proof {
        lemma_fm_bound(h2 as int, 500_000, 250_000, 500_000);
    }
    let c4 = fx_mul(h4, 41_667);
    proof {
        lemma_fm_bound(h4 as int, 41_667, 62_500, 41_667);
    }
    let s3 = fx_mul(h3, 166_667);
    proof {
        lemma_fm_bound(h3 as int, 166_667, 125_000, 166_667);
    }
    Quat { x: half - s3, y: 0, z: 0, w: FX_ONE - c2 + c4 }
}

/// A zero angle gives the identity rotation.
pub proof fn lemma_rotor_zero()
    ensures
        rotor_x_spec(0) == quat_identity_spec(),
{
    crate::fixed::lemma_fm_zero(500_000);
    crate::fixed::lemma_fm_zero(0);
    crate::fixed::lemma_fm_zero(166_667);
    crate::fixed::lemma_fm_zero(41_667);
}

/// Reflection of a vector across the vertical plane: the lateral axis flips.
pub open spec fn mirror_vec(v: Vec3Spec) -> Vec3Spec {
    Vec3Spec { x: -v.x, y: v.y, z: v.z }
}

/// Reflection of a rotation across the vertical plane.
pub open spec fn mirror_quat(q: QuatSpec) -> QuatSpec {
    QuatSpec { x: q.x, y: -q.y, z: -q.z, w: q.w }
}

/// Componentwise quaternion negation (the same rotation, opposite sign).
pub open spec fn qneg(q: QuatSpec) -> QuatSpec {
    QuatSpec { x: -q.x, y: -q.y, z: -q.z, w: -q.w }
}

/// Reflection distributes over the quaternion product.
pub proof fn lemma_qmul_mirror(a: QuatSpec, b: QuatSpec)
    ensures
        qmul(mirror_quat(a), mirror_quat(b)) == mirror_quat(qmul(a, b)),
{
    lemma_fm_neg(a.w, b.x);
    lemma_fm_neg(a.x, b.w);
    lemma_fm_neg(a.y, b.z);
    lemma_fm_neg(a.z, b.y);
    lemma_fm_neg(a.w, b.y);
    lemma_fm_neg(a.x, b.z);
    lemma_fm_neg(a.y, b.w);
    lemma_fm_neg(a.z, b.x);
    lemma_fm_neg(a.w, b.z);
    lemma_fm_neg(a.x, b.y);
    lemma_fm_neg(a.y, b.x);
    lemma_fm_neg(a.z, b.w);
    lemma_fm_neg(a.w, b.w);
    lemma_fm_neg(a.x, b.x);
    lemma_fm_neg(a.y, b.y);
    lemma_fm_neg(a.z, b.z);
}

/// Negating the left factor negates the product.
pub proof fn lemma_qmul_neg_left(a: QuatSpec, b: QuatSpec)
    ensures
        qmul(qneg(a), b) == qneg(qmul(a, b)),
{
    lemma_fm_neg(a.w, b.x);
    lemma_fm_neg(a.x, b.w);
    lemma_fm_neg(a.y, b.z);
    lemma_fm_neg(a.z, b.y);
    lemma_fm_neg(a.w, b.y);
    lemma_fm_neg(a.x, b.z);
    lemma_fm_neg(a.y, b.w);
    lemma_fm_neg(a.z, b.x);
    lemma_fm_neg(a.w, b.z);
    lemma_fm_neg(a.x, b.y);
    lemma_fm_neg(a.y, b.x);
    lemma_fm_neg(a.z, b.w);
    lemma_fm_neg(a.w, b.w);
    lemma_fm_neg(a.x, b.x);
    lemma_fm_neg(a.y, b.y);
    lemma_fm_neg(a.z, b.z);
}

/// Negating the right factor negates the product.
pub proof fn lemma_qmul_neg_right(a: QuatSpec, b: QuatSpec)
    ensures
        qmul(a, qneg(b)) == qneg(qmul(a, b)),
{
    lemma_fm_neg(a.w, b.x);
    lemma_fm_neg(a.x, b.w);
    lemma_fm_neg(a.y, b.z);
    lemma_fm_neg(a.z, b.y);
    lemma_fm_neg(a.w, b.y);
    lemma_fm_neg(a.x, b.z);
    lemma_fm_neg(a.y, b.w);
    lemma_fm_neg(a.z, b.x);
    lemma_fm_neg(a.w, b.z);
    lemma_fm_neg(a.x, b.y);
    lemma_fm_neg(a.y, b.x);
    lemma_fm_neg(a.z, b.w);
    lemma_fm_neg(a.w, b.w);
    lemma_fm_neg(a.x, b.x);
    lemma_fm_neg(a.y, b.y);
    lemma_fm_neg(a.z, b.z);
}

/// Reflection commutes with rotation: rotating the reflected vector by the
/// reflected quaternion reflects the rotated vector.
pub proof fn lemma_qrotate_mirror(q: QuatSpec, v: Vec3Spec)
    ensures
        qrotate(mirror_quat(q), mirror_vec(v)) == mirror_vec(qrotate(q, v)),
{
    let pv = qpure(v);
    let t = qmul(q, pv);
    assert(qpure(mirror_vec(v)) == qneg(mirror_quat(pv)));
    lemma_qmul_neg_right(mirror_quat(q), mirror_quat(pv));
    lemma_qmul_mirror(q, pv);
    assert(qmul(mirror_quat(q), qpure(mirror_vec(v))) == qneg(mirror_quat(t)));
    assert(qconj(mirror_quat(q)) == mirror_quat(qconj(q)));
    lemma_qmul_neg_left(mirror_quat(t), mirror_quat(qconj(q)));
    lemma_qmul_mirror(t, qconj(q));
}

} // verus!
