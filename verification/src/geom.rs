//! Fixed-point 3-vectors and 3-by-3 matrices.
//!
//! A matrix is stored by columns. Every executable operation states its
//! result exactly, over an integer-triple model of the vectors; companion
//! lemmas bound the magnitude of each result so that callers can chain
//! operations without overflow.

use vstd::prelude::*;
use crate::fx::SCALE;
use crate::fx::FX_BOUND;
use crate::fx::FX_PROD_BOUND;
use crate::fx::fxm;
use crate::fx::fx_mul;
use crate::fx::lemma_fxm_bound;
use crate::fx::lemma_fxm_scale;
use crate::fx::lemma_fxm_zero;

verus! {

/// A fixed-point vector: each component counts `SCALE`-ths of a unit.
#[derive(Clone, Copy, PartialEq, Eq, Structural, Debug)]
pub struct Vec3 {
    pub x: i64,
    pub y: i64,
    pub z: i64,
}

/// A fixed-point matrix, stored as three columns.
#[derive(Clone, Copy, PartialEq, Eq, Structural, Debug)]
pub struct Mat3 {
    pub cx: Vec3,
    pub cy: Vec3,
    pub cz: Vec3,
}

/// The integer-triple model of a vector.
pub open spec fn sv(v: Vec3) -> (int, int, int) {
    (v.x as int, v.y as int, v.z as int)
}

/// The model of a matrix: its three columns.
pub open spec fn sm(m: Mat3) -> ((int, int, int), (int, int, int), (int, int, int)) {
    (sv(m.cx), sv(m.cy), sv(m.cz))
}

/// Every component of the triple has magnitude at most `b`.
pub open spec fn bounded3(v: (int, int, int), b: int) -> bool {
    &&& -b <= v.0 <= b
    &&& -b <= v.1 <= b
    &&& -b <= v.2 <= b
}

/// Every entry of the matrix model has magnitude at most `b`.
pub open spec fn mbounded3(m: ((int, int, int), (int, int, int), (int, int, int)), b: int) -> bool {
    &&& bounded3(m.0, b)
    &&& bounded3(m.1, b)
    &&& bounded3(m.2, b)
}

/// Every component of the vector has magnitude at most `b`.
pub open spec fn vec_bounded(v: Vec3, b: int) -> bool {
    bounded3(sv(v), b)
}

/// Every entry of the matrix has magnitude at most `b`.
pub open spec fn mat_bounded(m: Mat3, b: int) -> bool {
    mbounded3(sm(m), b)
}

pub open spec fn add3(a: (int, int, int), b: (int, int, int)) -> (int, int, int) {
    (a.0 + b.0, a.1 + b.1, a.2 + b.2)
}

pub open spec fn sub3(a: (int, int, int), b: (int, int, int)) -> (int, int, int) {
    (a.0 - b.0, a.1 - b.1, a.2 - b.2)
}

/// Every component scaled by the fixed-point factor `k`.
pub open spec fn smul3(k: int, v: (int, int, int)) -> (int, int, int) {
    (fxm(k, v.0), fxm(k, v.1), fxm(k, v.2))
}

/// Fixed-point dot product.
pub open spec fn dot3(a: (int, int, int), b: (int, int, int)) -> int {
    fxm(a.0, b.0) + fxm(a.1, b.1) + fxm(a.2, b.2)
}

/// Fixed-point cross product, right-handed.
pub open spec fn cross3(a: (int, int, int), b: (int, int, int)) -> (int, int, int) {
    (
        fxm(a.1, b.2) - fxm(a.2, b.1),
        fxm(a.2, b.0) - fxm(a.0, b.2),
        fxm(a.0, b.1) - fxm(a.1, b.0),
    )
}

/// Matrix-vector product: the columns weighted by the components.
pub open spec fn matvec3(
    m: ((int, int, int), (int, int, int), (int, int, int)),
    v: (int, int, int),
) -> (int, int, int) {
    (
        fxm(m.0.0, v.0) + fxm(m.1.0, v.1) + fxm(m.2.0, v.2),
        fxm(m.0.1, v.0) + fxm(m.1.1, v.1) + fxm(m.2.1, v.2),
        fxm(m.0.2, v.0) + fxm(m.1.2, v.1) + fxm(m.2.2, v.2),
    )
}

/// Matrix product, column by column.
pub open spec fn matmul3(
    a: ((int, int, int), (int, int, int), (int, int, int)),
    b: ((int, int, int), (int, int, int), (int, int, int)),
) -> ((int, int, int), (int, int, int), (int, int, int)) {
    (matvec3(a, b.0), matvec3(a, b.1), matvec3(a, b.2))
}

pub open spec fn transpose3(
    m: ((int, int, int), (int, int, int), (int, int, int)),
) -> ((int, int, int), (int, int, int), (int, int, int)) {
    (
        (m.0.0, m.1.0, m.2.0),
        (m.0.1, m.1.1, m.2.1),
        (m.0.2, m.1.2, m.2.2),
    )
}

/// The identity: ones (that is, `SCALE`) on the diagonal.
pub open spec fn id3() -> ((int, int, int), (int, int, int), (int, int, int)) {
    (
        (SCALE as int, 0, 0),
        (0, SCALE as int, 0),
        (0, 0, SCALE as int),
    )
}

/// A scaled product of bounded triples stays within the scaled product
/// of the bounds.
pub proof fn lemma_smul3_bound(k: int, v: (int, int, int), kb: int, vb: int)
    requires
        0 <= kb,
        0 <= vb,
        -kb <= k <= kb,
        bounded3(v, vb),
    ensures
        bounded3(smul3(k, v), (kb * vb) / (SCALE as int)),
{
    lemma_fxm_bound(k, v.0, kb, vb);
    lemma_fxm_bound(k, v.1, kb, vb);
    lemma_fxm_bound(k, v.2, kb, vb);
}

/// The dot product of bounded triples is at most three scaled bound
/// products.
pub proof fn lemma_dot3_bound(a: (int, int, int), b: (int, int, int), ab: int, bb: int)
    requires
        0 <= ab,
        0 <= bb,
        bounded3(a, ab),
        bounded3(b, bb),
    ensures
        -3 * ((ab * bb) / (SCALE as int)) <= dot3(a, b) <= 3 * ((ab * bb) / (SCALE as int)),
{
    lemma_fxm_bound(a.0, b.0, ab, bb);
    lemma_fxm_bound(a.1, b.1, ab, bb);
    lemma_fxm_bound(a.2, b.2, ab, bb);
}

/// Each cross-product component is at most two scaled bound products.
pub proof fn lemma_cross3_bound(a: (int, int, int), b: (int, int, int), ab: int, bb: int)
    requires
        0 <= ab,
        0 <= bb,
        bounded3(a, ab),
        bounded3(b, bb),
    ensures
        bounded3(cross3(a, b), 2 * ((ab * bb) / (SCALE as int))),
{
    lemma_fxm_bound(a.1, b.2, ab, bb);
    lemma_fxm_bound(a.2, b.1, ab, bb);
    lemma_fxm_bound(a.2, b.0, ab, bb);
    lemma_fxm_bound(a.0, b.2, ab, bb);
    lemma_fxm_bound(a.0, b.1, ab, bb);
    lemma_fxm_bound(a.1, b.0, ab, bb);
}

/// Each matrix-vector component is at most three scaled bound products.
pub proof fn lemma_matvec3_bound(
    m: ((int, int, int), (int, int, int), (int, int, int)),
    v: (int, int, int),
    mb: int,
    vb: int,
)
    requires
        0 <= mb,
        0 <= vb,
        mbounded3(m, mb),
        bounded3(v, vb),
    ensures
        bounded3(matvec3(m, v), 3 * ((mb * vb) / (SCALE as int))),
{
    lemma_fxm_bound(m.0.0, v.0, mb, vb);
    lemma_fxm_bound(m.1.0, v.1, mb, vb);
    lemma_fxm_bound(m.2.0, v.2, mb, vb);
    lemma_fxm_bound(m.0.1, v.0, mb, vb);
    lemma_fxm_bound(m.1.1, v.1, mb, vb);
    lemma_fxm_bound(m.2.1, v.2, mb, vb);
    lemma_fxm_bound(m.0.2, v.0, mb, vb);
    lemma_fxm_bound(m.1.2, v.1, mb, vb);
    lemma_fxm_bound(m.2.2, v.2, mb, vb);
}

/// Each entry of a matrix product is at most three scaled bound products.
pub proof fn lemma_matmul3_bound(
    a: ((int, int, int), (int, int, int), (int, int, int)),
    b: ((int, int, int), (int, int, int), (int, int, int)),
    ab: int,
    bb: int,
)
    requires
        0 <= ab,
        0 <= bb,
        mbounded3(a, ab),
        mbounded3(b, bb),
    ensures
        mbounded3(matmul3(a, b), 3 * ((ab * bb) / (SCALE as int))),
{
    lemma_matvec3_bound(a, b.0, ab, bb);
    lemma_matvec3_bound(a, b.1, ab, bb);
    lemma_matvec3_bound(a, b.2, ab, bb);
}

/// The identity matrix leaves every vector unchanged.
pub proof fn lemma_matvec3_id(v: (int, int, int))
    ensures
        matvec3(id3(), v) == v,
{
    lemma_fxm_scale(v.0);
    lemma_fxm_scale(v.1);
    lemma_fxm_scale(v.2);
    lemma_fxm_zero(v.0);
    lemma_fxm_zero(v.1);
    lemma_fxm_zero(v.2);
    assert(fxm(SCALE as int, v.0) == fxm(v.0, SCALE as int));
    assert(fxm(SCALE as int, v.1) == fxm(v.1, SCALE as int));
    assert(fxm(SCALE as int, v.2) == fxm(v.2, SCALE as int));
}

/// The identity matrix leaves every matrix unchanged on the left.
pub proof fn lemma_matmul3_id_left(m: ((int, int, int), (int, int, int), (int, int, int)))
    ensures
        matmul3(id3(), m) == m,
{
    lemma_matvec3_id(m.0);
    lemma_matvec3_id(m.1);
    lemma_matvec3_id(m.2);
}

pub fn v_add(a: &Vec3, b: &Vec3) -> (r: Vec3)
    requires
        vec_bounded(*a, FX_PROD_BOUND as int),
        vec_bounded(*b, FX_PROD_BOUND as int),
    ensures
        sv(r) == add3(sv(*a), sv(*b)),
{
    Vec3 { x: a.x + b.x, y: a.y + b.y, z: a.z + b.z }
}

pub fn v_sub(a: &Vec3, b: &Vec3) -> (r: Vec3)
    requires
        vec_bounded(*a, FX_PROD_BOUND as int),
        vec_bounded(*b, FX_PROD_BOUND as int),
    ensures
        sv(r) == sub3(sv(*a), sv(*b)),
{
    Vec3 { x: a.x - b.x, y: a.y - b.y, z: a.z - b.z }
}

pub fn v_smul(k: i64, v: &Vec3) -> (r: Vec3)
    requires
        -FX_BOUND <= k <= FX_BOUND,
        vec_bounded(*v, FX_BOUND as int),
    ensures
        sv(r) == smul3(k as int, sv(*v)),
{
    Vec3 { x: fx_mul(k, v.x), y: fx_mul(k, v.y), z: fx_mul(k, v.z) }
}

pub fn dot(a: &Vec3, b: &Vec3) -> (r: i64)
    requires
        vec_bounded(*a, FX_BOUND as int),
        vec_bounded(*b, FX_BOUND as int),
    ensures
        r as int == dot3(sv(*a), sv(*b)),
{
    fx_mul(a.x, b.x) + fx_mul(a.y, b.y) + fx_mul(a.z, b.z)
}

pub fn cross(a: &Vec3, b: &Vec3) -> (r: Vec3)
    requires
        vec_bounded(*a, FX_BOUND as int),
        vec_bounded(*b, FX_BOUND as int),
    ensures
        sv(r) == cross3(sv(*a), sv(*b)),
{
    Vec3 {
        x: fx_mul(a.y, b.z) - fx_mul(a.z, b.y),
        y: fx_mul(a.z, b.x) - fx_mul(a.x, b.z),
        z: fx_mul(a.x, b.y) - fx_mul(a.y, b.x),
    }
}

pub fn mat_vec(m: &Mat3, v: &Vec3) -> (r: Vec3)
    requires
        mat_bounded(*m, FX_BOUND as int),
        vec_bounded(*v, FX_BOUND as int),
    ensures
        sv(r) == matvec3(sm(*m), sv(*v)),
{
    Vec3 {
        x: fx_mul(m.cx.x, v.x) + fx_mul(m.cy.x, v.y) + fx_mul(m.cz.x, v.z),
        y: fx_mul(m.cx.y, v.x) + fx_mul(m.cy.y, v.y) + fx_mul(m.cz.y, v.z),
        z: fx_mul(m.cx.z, v.x) + fx_mul(m.cy.z, v.y) + fx_mul(m.cz.z, v.z),
    }
}

pub fn mat_mul(a: &Mat3, b: &Mat3) -> (r: Mat3)
    requires
        mat_bounded(*a, FX_BOUND as int),
        mat_bounded(*b, FX_BOUND as int),
    ensures
        sm(r) == matmul3(sm(*a), sm(*b)),
{
    Mat3 { cx: mat_vec(a, &b.cx), cy: mat_vec(a, &b.cy), cz: mat_vec(a, &b.cz) }
}

pub fn transpose(m: &Mat3) -> (r: Mat3)
    ensures
        sm(r) == transpose3(sm(*m)),
{
    Mat3 {
        cx: Vec3 { x: m.cx.x, y: m.cy.x, z: m.cz.x },
        cy: Vec3 { x: m.cx.y, y: m.cy.y, z: m.cz.y },
        cz: Vec3 { x: m.cx.z, y: m.cy.z, z: m.cz.z },
    }
}

pub fn mat_id() -> (r: Mat3)
    ensures
        sm(r) == id3(),
{
    Mat3 {
        cx: Vec3 { x: SCALE, y: 0, z: 0 },
        cy: Vec3 { x: 0, y: SCALE, z: 0 },
        cz: Vec3 { x: 0, y: 0, z: SCALE },
    }
}

} // verus!
