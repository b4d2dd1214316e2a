//! A small geometric-algebra kernel: homogeneous four-component tuples and
//! row-major matrices with the affine transforms built from them.
//!
//! The kernel is generic over its scalar type (see [`helper::Number`]). A
//! call is allowed where the operators of the scalar are defined everywhere,
//! as those of floating-point numbers are, or where they are exact and each
//! operation the call performs is defined (see [`helper::allowed`]). For exact
//! scalars every contract states the value computed, operation by operation
//! (see [`helper::exact`]), and [`laws`] proves what holds of those values
//! for scalars that behave as real numbers.

pub mod canvas;
pub mod color;
pub mod grid;
pub mod helper;
pub mod laws;
pub mod matrix;
pub mod ppm;
pub mod projectile;
mod reals;
pub mod tuple;
