//! Core logic of a card-game tabletop: spatial hit-testing of cursor points
//! against sprite bounds, tap/untap state transitions, drag handling, row
//! layout of in-play cards, an append-only action log, and the editing rules
//! of a text-input buffer.
//!
//! All coordinates are integer world units. The surrounding application is
//! responsible for converting between the engine's screen space and these
//! units, for rendering, and for delivering input notifications.

pub mod actions;
pub mod cards;
pub mod geometry;
pub mod layout;
pub mod spawner;
pub mod table;
pub mod text_entry;

pub use geometry::HalfSize;
pub use geometry::Point;
