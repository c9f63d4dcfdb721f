//! Laws of the accessor and the compositor, proved once and for all.

use vstd::prelude::*;
use crate::fx::SCALE;
use crate::fx::fxm;
use crate::fx::tdiv;
use crate::fx::lemma_tdiv_rem;
use crate::fx::lemma_fxm_scale;
use crate::fx::lemma_fxm_zero;
use crate::geom::Vec3;
use crate::geom::sv;
use crate::geom::matvec3;
use crate::geom::dot3;
use crate::geom::cross3;
use crate::geom::smul3;
use crate::geom::id3;
use crate::geom::lemma_matvec3_id;
use crate::geom::lemma_matmul3_id_left;
use crate::pose::PoseTrig;
use crate::pose::PYTH_TOL;
use crate::pose::trig_ok;
use crate::pose::pyth_ok;
use crate::pose::LOS_SCALE;
use crate::pose::boresight3;
use crate::pose::north_in_plane3;
use crate::pose::right_in_plane3;
use crate::pose::clock_mat3;
use crate::pose::body_mat3;
use crate::pose::rot_x3;
use crate::pose::rot_z3;
use crate::pose::pose_right3;
use crate::pose::pose_up3;
use crate::pose::pose_dir3;
use crate::pose::pose_north3;
use crate::pose::translation3;
use crate::meta::ObservationRecord;
use crate::meta::extract_spec;

verus! {

/// Composition is deterministic: observations with equal trigonometric
/// inputs and equal target vectors compose to equal poses. There is no
/// hidden state — every column of the result is a function of the
/// arguments alone.
pub proof fn lemma_pose_deterministic(a: PoseTrig, b: PoseTrig, ga: Vec3, gb: Vec3)
    requires
        a == b,
        ga == gb,
    ensures
        pose_right3(a) == pose_right3(b),
        pose_up3(a) == pose_up3(b),
        pose_dir3(a) == pose_dir3(b),
        pose_north3(a) == pose_north3(b),
        translation3(a, sv(ga)) == translation3(b, sv(gb)),
{
}

/// Extraction is deterministic: records with equal fields extract to the
/// same outcome, value or error alike.
pub proof fn lemma_extract_deterministic(a: ObservationRecord, b: ObservationRecord)
    requires
        a.fields@ == b.fields@,
    ensures
        extract_spec(a.fields@) == extract_spec(b.fields@),
{
}

/// A clock angle of zero (sine zero, cosine one) contributes the
/// identity: the clock rotation is exactly the identity matrix, and the
/// in-plane axes pass through it unchanged.
pub proof fn lemma_zero_clock_angle_identity(t: PoseTrig)
    requires
        t.clock_angle.sin == 0,
        t.clock_angle.cos == SCALE,
    ensures
        clock_mat3(t) == id3(),
        matvec3(clock_mat3(t), north_in_plane3(t)) == north_in_plane3(t),
        matvec3(clock_mat3(t), right_in_plane3(t)) == right_in_plane3(t),
{
    let u = boresight3(t);
    lemma_fxm_zero(fxm(u.0, u.0));
    lemma_fxm_zero(fxm(u.1, u.1));
    lemma_fxm_zero(fxm(u.2, u.2));
    lemma_fxm_zero(fxm(u.0, u.1));
    lemma_fxm_zero(fxm(u.0, u.2));
    lemma_fxm_zero(fxm(u.1, u.2));
    lemma_fxm_zero(u.0);
    lemma_fxm_zero(u.1);
    lemma_fxm_zero(u.2);
    assert(clock_mat3(t) == id3());
    lemma_matvec3_id(north_in_plane3(t));
    lemma_matvec3_id(right_in_plane3(t));
}

/// Sub-observer longitude and latitude of zero contribute the identity:
/// the body-fixed alignment is exactly the identity matrix, so the
/// boresight and the in-plane north come out as computed in the camera
/// frame.
pub proof fn lemma_zero_body_rotation_identity(t: PoseTrig)
    requires
        t.sub_lon.sin == 0,
        t.sub_lon.cos == SCALE,
        t.sub_lat.sin == 0,
        t.sub_lat.cos == SCALE,
    ensures
        body_mat3(t) == id3(),
        pose_dir3(t) == boresight3(t),
        pose_north3(t) == north_in_plane3(t),
{
    assert(rot_x3(0int, SCALE as int) == id3());
    assert(rot_z3(0int, SCALE as int) == id3());
    lemma_matmul3_id_left(id3());
    assert(body_mat3(t) == id3());
    lemma_matvec3_id(boresight3(t));
    lemma_matvec3_id(north_in_plane3(t));
}

/// Declination and right ascension of zero point the boresight exactly
/// along the reference x axis: the spherical-to-Cartesian conversion
/// contributes no rotation.
pub proof fn lemma_zero_angles_boresight(t: PoseTrig)
    requires
        t.declination.sin == 0,
        t.declination.cos == SCALE,
        t.right_ascension.sin == 0,
        t.right_ascension.cos == SCALE,
    ensures
        boresight3(t) == (SCALE as int, 0int, 0int),
{
    lemma_fxm_scale(SCALE as int);
    lemma_fxm_zero(SCALE as int);
}

/// With every angle at zero the whole composition is exact: the basis is
/// the reference frame itself (right = y, up = z, boresight = x), each
/// column has unit length, the columns are mutually orthogonal in the
/// fixed-point dot product and form a right-handed triple, and a target
/// of (-10, 0, 0) units translates to exactly (1, 0, 0) — the scale of
/// minus one tenth applied with no rounding.
pub proof fn lemma_reference_pose(t: PoseTrig)
    requires
        t.declination.sin == 0,
        t.declination.cos == SCALE,
        t.right_ascension.sin == 0,
        t.right_ascension.cos == SCALE,
        t.clock_angle.sin == 0,
        t.clock_angle.cos == SCALE,
        t.sub_lon.sin == 0,
        t.sub_lon.cos == SCALE,
        t.sub_lat.sin == 0,
        t.sub_lat.cos == SCALE,
    ensures
        pose_dir3(t) == (SCALE as int, 0int, 0int),
        pose_up3(t) == (0int, 0int, SCALE as int),
        pose_right3(t) == (0int, SCALE as int, 0int),
        translation3(t, (-10 * SCALE as int, 0int, 0int)) == (SCALE as int, 0int, 0int),
        dot3(pose_right3(t), pose_up3(t)) == 0,
        dot3(pose_right3(t), pose_dir3(t)) == 0,
        dot3(pose_up3(t), pose_dir3(t)) == 0,
        dot3(pose_right3(t), pose_right3(t)) == SCALE as int,
        dot3(pose_up3(t), pose_up3(t)) == SCALE as int,
        dot3(pose_dir3(t), pose_dir3(t)) == SCALE as int,
        dot3(cross3(pose_right3(t), pose_up3(t)), pose_dir3(t)) == SCALE as int,
{
    lemma_zero_angles_boresight(t);
    lemma_zero_clock_angle_identity(t);
    lemma_zero_body_rotation_identity(t);
    let s = SCALE as int;
    lemma_fxm_scale(s);
    lemma_fxm_zero(s);
    lemma_fxm_zero(0int);
    // With the boresight on the x axis the unit in-plane north is
    // celestial north itself, and the right axis is their cross product.
    assert(north_in_plane3(t) == (0int, 0int, s));
    assert(right_in_plane3(t) == (0int, s, 0int));
    lemma_matvec3_id((0int, s, 0int));
    lemma_matvec3_id((0int, 0int, s));
    lemma_matvec3_id((s, 0int, 0int));
    // The translation: -0.1 of (-10, 0, 0) is exactly (1, 0, 0).
    lemma_fxm_zero(-100_000);
    assert(fxm(-100_000, -10 * s) == s);
    // Orthonormality of the reference basis, in the fixed-point dot
    // product: the nonzero products are exactly one (that is, SCALE).
    lemma_fxm_zero(-s);
    assert(fxm(-s, -s) == s);
    assert(fxm(s, s) == s);
    // Right-handedness at the reference: right x up is the boresight.
    assert(cross3((0int, s, 0int), (0int, 0int, s)) == (s, 0int, 0int));
    lemma_matvec3_id((fxm(-100_000, -10 * s), fxm(-100_000, 0int), fxm(-100_000, 0int)));
}

/// With the body-fixed rotation at zero, the translation is exactly the
/// target vector scaled by minus one tenth: the scale and the negation
/// come from the one named constant and nothing else moves the vector.
pub proof fn lemma_zero_body_translation(t: PoseTrig, g: (int, int, int))
    requires
        t.sub_lon.sin == 0,
        t.sub_lon.cos == SCALE,
        t.sub_lat.sin == 0,
        t.sub_lat.cos == SCALE,
    ensures
        translation3(t, g) == smul3(LOS_SCALE as int, g),
{
    lemma_zero_body_rotation_identity(t);
    lemma_matvec3_id(smul3(LOS_SCALE as int, g));
}

/// Tolerance, in millionths, within which the derived basis axes are
/// unit length in the fixed-point dot product.
pub const BASIS_TOL: i64 = 32;

/// Core of the unit-length laws. A vector `(p*cr, p*sr, q)` scaled down
/// by `SCALE`, where `(p, q)` and `(sr, cr)` are both sine/cosine pairs
/// up to `PYTH_TOL`, has a fixed-point self-dot within `BASIS_TOL` of
/// one (that is, of `SCALE`): its real length is the product of the two
/// pair norms, and each rounding moves the dot by at most a millionth.
#[verifier::rlimit(60)]
proof fn lemma_spherical_unit(p: int, q: int, sr: int, cr: int)
    requires
        -(SCALE as int) <= p <= SCALE as int,
        -(SCALE as int) <= q <= SCALE as int,
        -(SCALE as int) <= sr <= SCALE as int,
        -(SCALE as int) <= cr <= SCALE as int,
        -(PYTH_TOL as int) <= p * p + q * q - (SCALE as int) * (SCALE as int) <= PYTH_TOL as int,
        -(PYTH_TOL as int) <= sr * sr + cr * cr - (SCALE as int) * (SCALE as int)
            <= PYTH_TOL as int,
    ensures
        SCALE as int - BASIS_TOL as int <= fxm(fxm(p, cr), fxm(p, cr)) + fxm(fxm(p, sr), fxm(
            p,
            sr,
        )) + fxm(q, q) <= SCALE as int + BASIS_TOL as int,
{
    let s = SCALE as int;
    let pt = PYTH_TOL as int;
    let a = p * cr;
    let b = p * sr;
    let x = fxm(p, cr);
    let y = fxm(p, sr);
    assert(-(s * s) <= a <= s * s && -(s * s) <= b <= s * s && 0 <= p * p <= s * s) by (
    nonlinear_arith)
        requires
            s == 1_000_000,
            a == p * cr,
            b == p * sr,
            -s <= p <= s,
            -s <= cr <= s,
            -s <= sr <= s,
    ;
    lemma_tdiv_rem(a, s);
    lemma_tdiv_rem(b, s);
    let ex = s * x - a;
    let ey = s * y - b;
    // The square of a once-rounded value is near the exact square.
    let dx = s * s * (x * x) - a * a;
    let dy = s * s * (y * y) - b * b;
    assert(-2_000_001_000_000_000_000 <= dx <= 2_000_001_000_000_000_000) by (nonlinear_arith)
        requires
            s == 1_000_000,
            dx == s * s * (x * x) - a * a,
            ex == s * x - a,
            -s <= ex <= s,
            -(s * s) <= a <= s * s,
    ;
    assert(-2_000_001_000_000_000_000 <= dy <= 2_000_001_000_000_000_000) by (nonlinear_arith)
        requires
            s == 1_000_000,
            dy == s * s * (y * y) - b * b,
            ey == s * y - b,
            -s <= ey <= s,
            -(s * s) <= b <= s * s,
    ;
    // The exact squares sum to the product of the two pair norms, each
    // of which is one within the Pythagorean slack.
    let e1 = p * p + q * q - s * s;
    let e2 = sr * sr + cr * cr - s * s;
    let dm = a * a + b * b + s * s * (q * q) - s * s * (s * s);
    assert(a * a == p * p * (cr * cr)) by (nonlinear_arith)
        requires
            a == p * cr,
    ;
    assert(b * b == p * p * (sr * sr)) by (nonlinear_arith)
        requires
            b == p * sr,
    ;
    assert(dm == s * s * e1 + p * p * e2) by (nonlinear_arith)
        requires
            dm == p * p * (cr * cr) + p * p * (sr * sr) + s * s * (q * q) - s * s * (s * s),
            e1 == p * p + q * q - s * s,
            e2 == sr * sr + cr * cr - s * s,
    ;
    assert(-4_000_000_000_000_000_000 <= dm <= 4_000_000_000_000_000_000) by (nonlinear_arith)
        requires
            s == 1_000_000,
            pt == 2_000_000,
            dm == s * s * e1 + p * p * e2,
            -pt <= e1 <= pt,
            -pt <= e2 <= pt,
            0 <= p * p <= s * s,
    ;
    // The raw square sum is within nine scales of the square of one.
    let qsum = x * x + y * y + q * q;
    let dq = s * s * qsum - s * s * (s * s);
    assert(dq == dx + dy + dm) by (nonlinear_arith)
        requires
            dq == s * s * qsum - s * s * (s * s),
            dx == s * s * (x * x) - a * a,
            dy == s * s * (y * y) - b * b,
            dm == a * a + b * b + s * s * (q * q) - s * s * (s * s),
            qsum == x * x + y * y + q * q,
    ;
    assert(-9_000_000 <= qsum - 1_000_000_000_000 <= 9_000_000) by (nonlinear_arith)
        requires
            s == 1_000_000,
            dq == s * s * qsum - s * s * (s * s),
            -8_000_002_000_000_000_000 <= dq <= 8_000_002_000_000_000_000,
    ;
    // The three final roundings move the dot by at most three more.
    lemma_tdiv_rem(x * x, s);
    lemma_tdiv_rem(y * y, s);
    lemma_tdiv_rem(q * q, s);
    let tx = tdiv(x * x, s);
    let ty = tdiv(y * y, s);
    let tz = tdiv(q * q, s);
    let d = tx + ty + tz;
    let rs = s * d - qsum;
    assert(rs == (s * tx - x * x) + (s * ty - y * y) + (s * tz - q * q)) by (nonlinear_arith)
        requires
            rs == s * d - qsum,
            d == tx + ty + tz,
            qsum == x * x + y * y + q * q,
    ;
    assert(-(BASIS_TOL as int) <= d - s <= BASIS_TOL as int) by (nonlinear_arith)
        requires
            s == 1_000_000,
            rs == s * d - qsum,
            -3_000_000 <= rs <= 3_000_000,
            -9_000_000 <= qsum - 1_000_000_000_000 <= 9_000_000,
            BASIS_TOL as int == 32,
    ;
    assert(fxm(x, x) == tdiv(x * x, s));
    assert(fxm(y, y) == tdiv(y * y, s));
    assert(fxm(q, q) == tdiv(q * q, s));
}

/// For any genuine trigonometric inputs (each supplied pair a sine and
/// cosine of one angle, up to `PYTH_TOL`), the boresight has unit length
/// in the fixed-point dot product, within `BASIS_TOL` millionths of one:
/// the spherical-to-Cartesian conversion preserves magnitude.
pub proof fn lemma_boresight_unit(t: PoseTrig)
    requires
        trig_ok(t.declination),
        trig_ok(t.right_ascension),
        pyth_ok(t.declination),
        pyth_ok(t.right_ascension),
    ensures
        SCALE as int - BASIS_TOL as int <= dot3(boresight3(t), boresight3(t)) <= SCALE as int
            + BASIS_TOL as int,
{
    lemma_spherical_unit(
        t.declination.cos as int,
        t.declination.sin as int,
        t.right_ascension.sin as int,
        t.right_ascension.cos as int,
    );
}

/// For any genuine trigonometric inputs, the in-plane north has unit
/// length in the fixed-point dot product, within `BASIS_TOL` millionths
/// of one — at every declination, the poles included.
pub proof fn lemma_north_in_plane_unit(t: PoseTrig)
    requires
        trig_ok(t.declination),
        trig_ok(t.right_ascension),
        pyth_ok(t.declination),
        pyth_ok(t.right_ascension),
    ensures
        SCALE as int - BASIS_TOL as int <= dot3(north_in_plane3(t), north_in_plane3(t))
            <= SCALE as int + BASIS_TOL as int,
{
    let sd = t.declination.sin as int;
    let cd = t.declination.cos as int;
    let sr = t.right_ascension.sin as int;
    let cr = t.right_ascension.cos as int;
    lemma_spherical_unit(sd, cd, sr, cr);
    // The first two components are negated, which leaves every square
    // unchanged.
    let x = fxm(sd, cr);
    let y = fxm(sd, sr);
    assert((-x) * (-x) == x * x) by (nonlinear_arith);
    assert((-y) * (-y) == y * y) by (nonlinear_arith);
    assert(fxm(-x, -x) == fxm(x, x));
    assert(fxm(-y, -y) == fxm(y, y));
}

} // verus!