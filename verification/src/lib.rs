//! Decision logic for a spotlight-style launcher overlay.
//!
//! The overlay is a borderless window that a global shortcut shows and hides.
//! When it is hidden, input focus should return to the window that was behind
//! it. The operating system supplies the raw material for that decision (the
//! on-screen window list, the screen frames, the accessibility window array of
//! a process); this crate holds the decisions themselves, verified: which
//! window counts as the one behind the overlay, which screen holds the cursor,
//! where a centered window frame starts, and how resolved accessibility
//! handles are cached. The callers that talk to the operating system hand
//! these functions plain values and act on what they return.

pub mod accessibility;
pub mod geometry;
pub mod spotlight;
