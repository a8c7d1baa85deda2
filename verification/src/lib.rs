//! Scrollable viewports for a retained-mode interface tree.
//!
//! The crate keeps three coordinate spaces in step: the content, the window
//! that clips it, and the track of each scroll bar. Every length is a fixed
//! point number with thirty-two bits to the pixel, so that a share of a
//! pixel survives every stage; the host measures the nodes, decodes the
//! devices and draws what the engine hands back.

pub mod scroll;
