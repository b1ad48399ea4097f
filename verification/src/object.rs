//! Placed marks.

use vstd::prelude::*;
use crate::color::Color;

verus! {

/// A single-precision number, held as the 32 bits of its IEEE 754 encoding.
///
/// The canvas never computes with positions or angles, it only stores them and
/// hands them back. Holding the encoding keeps that exact: what comes out is
/// bit for bit what went in, whatever number the bits stand for.
#[derive(Clone, Copy, Debug, PartialEq, Eq, Structural)]
pub struct Scalar {
    pub bits: u32,
}

/// One placed mark: who it is, where it sits, how it is turned and sized, and
/// the colour it was stamped with. A mark is a plain value; once it is in a
/// stroke nothing changes it.
#[derive(Clone, Copy, Debug, PartialEq, Eq, Structural)]
pub struct Object {
    /// Chosen by the caller. The canvas does not ask that ids be distinct.
    pub id: i32,
    pub x: Scalar,
    pub y: Scalar,
    pub rotation: Scalar,
    /// A size factor; it cannot be negative.
    pub scale: u32,
    pub color: Color,
}

impl DeepView for Object {
    type V = Object;

    open spec fn deep_view(&self) -> Object {
        *self
    }
}

} // verus!
