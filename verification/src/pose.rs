//! The pose compositor.
//!
//! Given the sine and cosine of each orientation angle (declination,
//! right ascension, celestial-north clock angle, sub-observer longitude
//! and latitude) and the target-position vector, all as fixed-point
//! scalars, it derives a unit, right-handed camera basis aligned to
//! celestial coordinates, rotates the in-plane axes by the negated clock
//! angle
//! about the boresight, re-expresses everything in the body-fixed frame,
//! and returns the rigid transform together with the annotation vectors.
//!
//! Every step is stated exactly over the integer model; the trigonometric
//! evaluation itself (degrees to radians, sine, cosine) is the caller's
//! edge, outside this crate.

use vstd::prelude::*;
use crate::fx::SCALE;
use crate::fx::FX_BOUND;
use crate::fx::fxm;
use crate::fx::fx_mul;
use crate::fx::lemma_fxm_bound;
use crate::geom::Vec3;
use crate::geom::Mat3;
use crate::geom::sv;
use crate::geom::sm;
use crate::geom::vec_bounded;
use crate::geom::mat_bounded;
use crate::geom::smul3;
use crate::geom::cross3;
use crate::geom::matvec3;
use crate::geom::matmul3;
use crate::geom::transpose3;
use crate::geom::cross;
use crate::geom::v_smul;
use crate::geom::mat_vec;
use crate::geom::mat_mul;
use crate::geom::transpose;
use crate::geom::lemma_smul3_bound;
use crate::geom::lemma_cross3_bound;
use crate::geom::lemma_matvec3_bound;
use crate::geom::lemma_matmul3_bound;

verus! {

/// Scale applied to the target-position vector to obtain the translation:
/// minus one tenth, in fixed point. The negation points the plane along
/// the negative target direction; the tenth keeps it a short distance out.
pub const LOS_SCALE: i64 = -100_000;

/// Sine and cosine of one angle, as fixed-point scalars.
#[derive(Clone, Copy, PartialEq, Eq, Structural, Debug)]
pub struct AngleTrig {
    pub sin: i64,
    pub cos: i64,
}

/// The trigonometric inputs of one observation.
#[derive(Clone, Copy, PartialEq, Eq, Structural, Debug)]
pub struct PoseTrig {
    pub declination: AngleTrig,
    pub right_ascension: AngleTrig,
    pub clock_angle: AngleTrig,
    pub sub_lon: AngleTrig,
    pub sub_lat: AngleTrig,
}

/// The composed pose: a camera basis (columns right, up, boresight) with
/// its translation, plus the rotated direction vectors kept for
/// annotation.
#[derive(Clone, Copy, PartialEq, Eq, Structural, Debug)]
pub struct PoseResult {
    pub rotation: Mat3,
    pub translation: Vec3,
    pub boresight: Vec3,
    pub in_plane_north: Vec3,
    pub in_plane_up: Vec3,
}

/// A sine or cosine scaled by `SCALE` has magnitude at most `SCALE`.
pub open spec fn trig_ok(t: AngleTrig) -> bool {
    &&& -SCALE <= t.sin <= SCALE
    &&& -SCALE <= t.cos <= SCALE
}

pub open spec fn pose_trig_ok(t: PoseTrig) -> bool {
    &&& trig_ok(t.declination)
    &&& trig_ok(t.right_ascension)
    &&& trig_ok(t.clock_angle)
    &&& trig_ok(t.sub_lon)
    &&& trig_ok(t.sub_lat)
}

/// Slack allowed on a supplied sine/cosine pair: the sum of the scaled
/// squares must come within this of the scaled square of one. Rounding a
/// real angle's sine and cosine to `SCALE`-ths always lands well inside.
pub const PYTH_TOL: i64 = 2_000_000;

/// The pair really is a sine and cosine of one angle, up to rounding.
pub open spec fn pyth_ok(a: AngleTrig) -> bool {
    -(PYTH_TOL as int) <= (a.sin as int) * (a.sin as int) + (a.cos as int) * (a.cos as int)
        - (SCALE as int) * (SCALE as int) <= PYTH_TOL as int
}

pub open spec fn pose_pyth_ok(t: PoseTrig) -> bool {
    &&& pyth_ok(t.declination)
    &&& pyth_ok(t.right_ascension)
    &&& pyth_ok(t.clock_angle)
    &&& pyth_ok(t.sub_lon)
    &&& pyth_ok(t.sub_lat)
}

/// The boresight direction: the spherical-to-Cartesian conversion of
/// (declination, right ascension).
pub open spec fn boresight3(t: PoseTrig) -> (int, int, int) {
    (
        fxm(t.declination.cos as int, t.right_ascension.cos as int),
        fxm(t.declination.cos as int, t.right_ascension.sin as int),
        t.declination.sin as int,
    )
}

/// The in-plane north axis before the clock rotation: celestial north
/// `(0, 0, 1)` with its component along the boresight removed, scaled to
/// unit length. The Gram-Schmidt residual is
/// `(-sin dec cos dec cos ra, -sin dec cos dec sin ra, cos^2 dec)`, of
/// length `|cos dec|`; dividing that length out gives this closed form.
/// It stays unit and well-defined at the celestial poles, where it is
/// the limiting in-plane frame along the given right ascension.
pub open spec fn north_in_plane3(t: PoseTrig) -> (int, int, int) {
    (
        -fxm(t.declination.sin as int, t.right_ascension.cos as int),
        -fxm(t.declination.sin as int, t.right_ascension.sin as int),
        t.declination.cos as int,
    )
}

/// The in-plane right axis: the cross product of the in-plane north with
/// the boresight. The triple (right, north-in-plane, boresight) is
/// right-handed: right x north-in-plane = boresight in exact arithmetic.
pub open spec fn right_in_plane3(t: PoseTrig) -> (int, int, int) {
    cross3(north_in_plane3(t), boresight3(t))
}

/// Rotation about the unit axis `u` by the angle whose sine is `s` and
/// cosine is `c`, as a matrix of columns.
pub open spec fn axis_angle3(u: (int, int, int), s: int, c: int) -> (
    (int, int, int),
    (int, int, int),
    (int, int, int),
) {
    let t = SCALE as int - c;
    (
        (
            c + fxm(fxm(u.0, u.0), t),
            fxm(fxm(u.0, u.1), t) + fxm(s, u.2),
            fxm(fxm(u.0, u.2), t) - fxm(s, u.1),
        ),
        (
            fxm(fxm(u.0, u.1), t) - fxm(s, u.2),
            c + fxm(fxm(u.1, u.1), t),
            fxm(fxm(u.1, u.2), t) + fxm(s, u.0),
        ),
        (
            fxm(fxm(u.0, u.2), t) + fxm(s, u.1),
            fxm(fxm(u.1, u.2), t) - fxm(s, u.0),
            c + fxm(fxm(u.2, u.2), t),
        ),
    )
}

/// Rotation about the x axis, right-handed, by columns.
pub open spec fn rot_x3(s: int, c: int) -> ((int, int, int), (int, int, int), (int, int, int)) {
    ((SCALE as int, 0, 0), (0, c, s), (0, -s, c))
}

/// Rotation about the z axis, right-handed, by columns.
pub open spec fn rot_z3(s: int, c: int) -> ((int, int, int), (int, int, int), (int, int, int)) {
    ((c, s, 0), (-s, c, 0), (0, 0, SCALE as int))
}

/// The clock rotation: about the boresight, by the negated clock angle.
pub open spec fn clock_mat3(t: PoseTrig) -> ((int, int, int), (int, int, int), (int, int, int)) {
    axis_angle3(boresight3(t), -(t.clock_angle.sin as int), t.clock_angle.cos as int)
}

/// The body-fixed alignment: the inverse (for a rotation, the transpose)
/// of the longitude rotation composed with the latitude rotation.
pub open spec fn body_mat3(t: PoseTrig) -> ((int, int, int), (int, int, int), (int, int, int)) {
    transpose3(
        matmul3(
            rot_z3(t.sub_lon.sin as int, t.sub_lon.cos as int),
            rot_x3(t.sub_lat.sin as int, t.sub_lat.cos as int),
        ),
    )
}

/// The right column of the final basis.
pub open spec fn pose_right3(t: PoseTrig) -> (int, int, int) {
    matvec3(body_mat3(t), matvec3(clock_mat3(t), right_in_plane3(t)))
}

/// The up column of the final basis.
pub open spec fn pose_up3(t: PoseTrig) -> (int, int, int) {
    matvec3(body_mat3(t), matvec3(clock_mat3(t), north_in_plane3(t)))
}

/// The boresight column of the final basis.
pub open spec fn pose_dir3(t: PoseTrig) -> (int, int, int) {
    matvec3(body_mat3(t), boresight3(t))
}

/// The in-plane north, before the clock rotation, in the body-fixed frame.
pub open spec fn pose_north3(t: PoseTrig) -> (int, int, int) {
    matvec3(body_mat3(t), north_in_plane3(t))
}

/// The translation: the target vector scaled by `LOS_SCALE`, re-expressed
/// in the body-fixed frame.
pub open spec fn translation3(t: PoseTrig, g: (int, int, int)) -> (int, int, int) {
    matvec3(body_mat3(t), smul3(LOS_SCALE as int, g))
}

/// Rotation about the unit axis `u` by the angle with sine `s`, cosine `c`.
pub fn axis_angle(u: &Vec3, s: i64, c: i64) -> (r: Mat3)
    requires
        vec_bounded(*u, SCALE as int),
        -SCALE <= s <= SCALE,
        -SCALE <= c <= SCALE,
    ensures
        sm(r) == axis_angle3(sv(*u), s as int, c as int),
        mat_bounded(r, 3 * SCALE as int),
{
    let t: i64 = SCALE - c;
    let uxx = fx_mul(u.x, u.x);
    let uyy = fx_mul(u.y, u.y);
    let uzz = fx_mul(u.z, u.z);
    let uxy = fx_mul(u.x, u.y);
    let uxz = fx_mul(u.x, u.z);
    let uyz = fx_mul(u.y, u.z);
    proof {
        lemma_fxm_bound(u.x as int, u.x as int, SCALE as int, SCALE as int);
        lemma_fxm_bound(u.y as int, u.y as int, SCALE as int, SCALE as int);
        lemma_fxm_bound(u.z as int, u.z as int, SCALE as int, SCALE as int);
        lemma_fxm_bound(u.x as int, u.y as int, SCALE as int, SCALE as int);
        lemma_fxm_bound(u.x as int, u.z as int, SCALE as int, SCALE as int);
        lemma_fxm_bound(u.y as int, u.z as int, SCALE as int, SCALE as int);
        lemma_fxm_bound(uxx as int, t as int, SCALE as int, 2 * SCALE as int);
        lemma_fxm_bound(uyy as int, t as int, SCALE as int, 2 * SCALE as int);
        lemma_fxm_bound(uzz as int, t as int, SCALE as int, 2 * SCALE as int);
        lemma_fxm_bound(uxy as int, t as int, SCALE as int, 2 * SCALE as int);
        lemma_fxm_bound(uxz as int, t as int, SCALE as int, 2 * SCALE as int);
        lemma_fxm_bound(uyz as int, t as int, SCALE as int, 2 * SCALE as int);
        lemma_fxm_bound(s as int, u.x as int, SCALE as int, SCALE as int);
        lemma_fxm_bound(s as int, u.y as int, SCALE as int, SCALE as int);
        lemma_fxm_bound(s as int, u.z as int, SCALE as int, SCALE as int);
    }
    Mat3 {
        cx: Vec3 {
            x: c + fx_mul(uxx, t),
            y: fx_mul(uxy, t) + fx_mul(s, u.z),
            z: fx_mul(uxz, t) - fx_mul(s, u.y),
        },
        cy: Vec3 {
            x: fx_mul(uxy, t) - fx_mul(s, u.z),
            y: c + fx_mul(uyy, t),
            z: fx_mul(uyz, t) + fx_mul(s, u.x),
        },
        cz: Vec3 {
            x: fx_mul(uxz, t) + fx_mul(s, u.y),
            y: fx_mul(uyz, t) - fx_mul(s, u.x),
            z: c + fx_mul(uzz, t),
        },
    }
}

/// Rotation about the x axis.
pub fn rot_x(s: i64, c: i64) -> (r: Mat3)
    requires
        -SCALE <= s <= SCALE,
        -SCALE <= c <= SCALE,
    ensures
        sm(r) == rot_x3(s as int, c as int),
        mat_bounded(r, SCALE as int),
{
    Mat3 {
        cx: Vec3 { x: SCALE, y: 0, z: 0 },
        cy: Vec3 { x: 0, y: c, z: s },
        cz: Vec3 { x: 0, y: -s, z: c },
    }
}

/// Rotation about the z axis.
pub fn rot_z(s: i64, c: i64) -> (r: Mat3)
    requires
        -SCALE <= s <= SCALE,
        -SCALE <= c <= SCALE,
    ensures
        sm(r) == rot_z3(s as int, c as int),
        mat_bounded(r, SCALE as int),
{
    Mat3 {
        cx: Vec3 { x: c, y: s, z: 0 },
        cy: Vec3 { x: -s, y: c, z: 0 },
        cz: Vec3 { x: 0, y: 0, z: SCALE },
    }
}

/// Compose the pose of one observation from its trigonometric inputs and
/// its target-position vector.
///
/// The result is pinned exactly: each basis column, the translation and
/// each annotation vector equals its integer-model formula.
pub fn compose_pose(trig: &PoseTrig, target: &Vec3) -> (r: PoseResult)
    requires
        pose_trig_ok(*trig),
        pose_pyth_ok(*trig),
        vec_bounded(*target, FX_BOUND as int),
    ensures
        sv(r.rotation.cx) == pose_right3(*trig),
        sv(r.rotation.cy) == pose_up3(*trig),
        sv(r.rotation.cz) == pose_dir3(*trig),
        sv(r.translation) == translation3(*trig, sv(*target)),
        sv(r.boresight) == pose_dir3(*trig),
        sv(r.in_plane_north) == pose_north3(*trig),
        sv(r.in_plane_up) == pose_up3(*trig),
{
    // Boresight from declination and right ascension.
    let v = Vec3 {
        x: fx_mul(trig.declination.cos, trig.right_ascension.cos),
        y: fx_mul(trig.declination.cos, trig.right_ascension.sin),
        z: trig.declination.sin,
    };
    proof {
        lemma_fxm_bound(
            trig.declination.cos as int,
            trig.right_ascension.cos as int,
            SCALE as int,
            SCALE as int,
        );
        lemma_fxm_bound(
            trig.declination.cos as int,
            trig.right_ascension.sin as int,
            SCALE as int,
            SCALE as int,
        );
        assert(vec_bounded(v, SCALE as int));
        assert(sv(v) == boresight3(*trig));
    }
    // The unit in-plane north: the normalized residual of celestial
    // north against the boresight, in closed form.
    let nx = fx_mul(trig.declination.sin, trig.right_ascension.cos);
    let ny = fx_mul(trig.declination.sin, trig.right_ascension.sin);
    proof {
        lemma_fxm_bound(
            trig.declination.sin as int,
            trig.right_ascension.cos as int,
            SCALE as int,
            SCALE as int,
        );
        lemma_fxm_bound(
            trig.declination.sin as int,
            trig.right_ascension.sin as int,
            SCALE as int,
            SCALE as int,
        );
    }
    let ncp = Vec3 { x: -nx, y: -ny, z: trig.declination.cos };
    proof {
        assert(vec_bounded(ncp, SCALE as int));
        assert(sv(ncp) == north_in_plane3(*trig));
    }
    // The right axis completes the right-handed in-plane triple.
    let rip = cross(&ncp, &v);
    proof {
        lemma_cross3_bound(sv(ncp), sv(v), SCALE as int, SCALE as int);
        assert(vec_bounded(rip, 2 * SCALE as int));
        assert(sv(rip) == right_in_plane3(*trig));
    }
    // Clock rotation about the boresight, by the negated clock angle.
    let cs = -trig.clock_angle.sin;
    let cm = axis_angle(&v, cs, trig.clock_angle.cos);
    proof {
        assert(sm(cm) == clock_mat3(*trig));
    }
    let up0 = mat_vec(&cm, &ncp);
    proof {
        lemma_matvec3_bound(sm(cm), sv(ncp), 3 * SCALE as int, SCALE as int);
    }
    let right0 = mat_vec(&cm, &rip);
    proof {
        lemma_matvec3_bound(sm(cm), sv(rip), 3 * SCALE as int, 2 * SCALE as int);
    }
    // Body-fixed alignment: inverse of longitude-then-latitude rotation.
    let rx = rot_x(trig.sub_lat.sin, trig.sub_lat.cos);
    let rz = rot_z(trig.sub_lon.sin, trig.sub_lon.cos);
    let rp = mat_mul(&rz, &rx);
    proof {
        lemma_matmul3_bound(sm(rz), sm(rx), SCALE as int, SCALE as int);
    }
    let rb = transpose(&rp);
    proof {
        assert(mat_bounded(rb, 3 * SCALE as int));
        assert(sm(rb) == body_mat3(*trig));
    }
    // Everything re-expressed in the body-fixed frame.
    let right1 = mat_vec(&rb, &right0);
    proof {
        lemma_matvec3_bound(sm(rb), sv(right0), 3 * SCALE as int, 18 * SCALE as int);
    }
    let up1 = mat_vec(&rb, &up0);
    proof {
        lemma_matvec3_bound(sm(rb), sv(up0), 3 * SCALE as int, 9 * SCALE as int);
    }
    let dir1 = mat_vec(&rb, &v);
    let ncp1 = mat_vec(&rb, &ncp);
    // The translation: the scaled, negated target vector, rotated too.
    let ray = v_smul(LOS_SCALE, target);
    proof {
        lemma_smul3_bound(LOS_SCALE as int, sv(*target), 100_000, FX_BOUND as int);
    }
    let ray1 = mat_vec(&rb, &ray);
    PoseResult {
        rotation: Mat3 { cx: right1, cy: up1, cz: dir1 },
        translation: ray1,
        boresight: dir1,
        in_plane_north: ncp1,
        in_plane_up: up1,
    }
}

} // verus!
