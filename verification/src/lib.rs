//! Selection handling for a grid-based terminal screen.
//!
//! A selection starts when the mouse is clicked and tracks the pointer while
//! the button is held. Three modes are supported: cell-precise ([`selection::Selection::simple`]),
//! word-precise ([`selection::Selection::semantic`]) and full-line
//! ([`selection::Selection::lines`]). The live gesture is resolved on demand
//! into a normalized [`selection::Span`] of screen cells, and a span can be
//! narrowed further into inclusive [`selection::Locations`] for text
//! extraction. Resolution is a pure function of the gesture and a geometry
//! snapshot, so it can be called safely from a rendering path.

pub mod config;
pub mod grid;
pub mod index;
pub mod selection;
