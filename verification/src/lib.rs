//! A small 3D geometry toolkit: vectors, 4x4 matrices, and rotors
//! (even-grade geometric-algebra elements that represent rotations).
//!
//! All numeric state is kept in signed fixed-point form: a raw `i64`
//! value stands for `raw / SCALE`.  Every operation's result is pinned
//! exactly, and the geometric-algebra laws are proved over an exact
//! integer model of the even subalgebra.

pub mod fixed;

pub mod algebra;

pub mod vec3;

pub mod mat4;

pub mod rotor3;

pub mod laws;
