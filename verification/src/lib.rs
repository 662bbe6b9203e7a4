//! Restyle damage classification for an incremental style system.
//!
//! Given the computed style of an element before and after a style
//! recalculation, the library decides the minimal set of downstream layout
//! operations (repaint, reflow, subtree repair, full reconstruction) needed
//! to bring the rendered output in line with the new style, and provides the
//! propagation algebra used while walking the layout tree afterwards.

pub mod classify;
pub mod damage;
pub mod style;
