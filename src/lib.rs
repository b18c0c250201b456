//! LaTeX serialization of matrices and linear systems.
//!
//! Matrices are `nalgebra`'s dynamically sized matrices of `i64` ([`matrix`]),
//! whose cells are written in their canonical decimal form ([`text`]). Each
//! serializer appends to a `String`, and its contract states the appended
//! text exactly, over the spec functions of [`env`], [`fmt`] and
//! [`lin_sys::fmt`]. Math delimiters follow from the LaTeX mode that the text
//! around is in ([`latex_modes`], [`latex_writer`]); equation labels come
//! from [`fmt::labels`].
pub mod env;
pub mod fmt;
pub mod hyperref;
pub mod latex_flavors;
pub mod latex_modes;
pub mod latex_writer;
pub mod lin_sys;
pub mod matrix;
pub mod text;
