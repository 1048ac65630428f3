//! A small fixed-point geometry core for 3-D graphics work: homogeneous
//! tuples, points and vectors, RGB colors, 4x4 transformation matrices, and
//! a pixel canvas that serializes to a plain-text image.
//!
//! Every quantity is a [`scalar::Scalar`], a fixed-point number counting
//! multiples of `1 / SCALE`.  All arithmetic is integer arithmetic with
//! rounding to the nearest unit, so every operation carries an exact,
//! machine-checked contract.  Equality of composite values is approximate,
//! within the fixed tolerance [`scalar::EPSILON`], which absorbs the rounding
//! error of the arithmetic.

pub mod canvas;
pub mod color;
pub mod matrix;
pub mod point;
pub mod scalar;
pub mod sim;
pub mod tuple;
pub mod vector;
