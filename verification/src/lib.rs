//! Decision logic of a two-window clipboard relay: which window a copy
//! came from and where it goes, the order of the paste routine, the
//! keyboard and focus sequences it injects, and the UTF-16 clipboard text
//! format.

pub mod clipboard;
pub mod focus;
pub mod keys;
pub mod paste;
pub mod relay;
pub mod window;
