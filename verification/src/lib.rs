//! A freehand-drawing core: a press/move/release stroke controller that turns
//! pointer samples into path commands for a 2D drawing surface.
//!
//! The host owns the real surface and the event loop. It hands each pointer
//! event to a [`StrokeController`] and forwards the [`DrawCommand`]s that come
//! back, in order, to its drawing context. [`Surface`] is a surface held in
//! memory that follows the same rules, for hosts without a screen. The module
//! [`laws`] proves what ends up drawn.

pub mod command;
pub mod controller;
pub mod geometry;
pub mod laws;
pub mod pointer;
pub mod surface;

pub use command::DrawCommand;
pub use controller::StrokeController;
pub use geometry::{Point, Segment};
pub use pointer::{PointerEvent, PointerSample};
pub use surface::{Surface, SurfaceState};
