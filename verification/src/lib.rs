//! The state behind an interactive drawing surface.
//!
//! A document is a list of layers, a layer a list of strokes, a stroke a list
//! of placed marks. One stroke at a time is being drawn: marks are added to
//! it as the pointer moves, and when the gesture ends the stroke is committed
//! to the current layer. The document only grows, by layers at its end and by
//! strokes at the end of a layer.
//!
//! * [`color`] and [`object`]: the values that the document is made of.
//! * [`canvas`]: the state of a session and the commands on it.
//! * [`model`]: what a canvas is, as sequences, and what each command makes
//!   of it. The commands' contracts are stated over this model.
//! * [`laws`]: what follows for every canvas and every run of commands.
//! * [`error`]: why a command can fail.
//!
//! A [`canvas::Canvas`] is a plain value. A program in which several threads
//! issue commands puts it behind a lock; since every command is a single call
//! on the canvas, the commands then take effect one after another, in the
//! order in which they got the lock, and the laws hold of every such order.

pub mod color;
pub mod object;
pub mod model;
pub mod error;
pub mod canvas;
pub mod laws;
