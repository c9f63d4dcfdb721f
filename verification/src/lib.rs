//! Camera-frame reconstruction for per-observation astrometric metadata.
//!
//! The crate has two parts, used in sequence for each observation:
//! a typed accessor that extracts scalar and 3-vector fields from a
//! loosely structured metadata record, and a pose compositor that turns
//! the extracted quantities into a rigid transform (an orthonormal camera
//! basis plus a translation) expressed in the body-fixed frame.
//!
//! All geometry is carried in fixed-point arithmetic: an `i64` counts
//! steps of one millionth of a unit, so every operation is exact integer
//! arithmetic with a stated rounding rule.

pub mod fx;

pub mod geom;

pub mod meta;

pub mod pose;

pub mod laws;
