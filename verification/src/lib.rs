//! State model of a free-fall gravity calculator: two text fields, a focus,
//! two screens, and the transition that records a computed result.

pub mod app;
pub mod field;
pub mod form;
pub mod keys;
pub mod laws;
pub mod number;
pub mod text;
