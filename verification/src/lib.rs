//! Core logic of a small bare-metal paddle-and-ball kernel: the fixed-size
//! bump arena behind every heap allocation, the match state shared by the
//! timer and keyboard handlers, the keyboard router, the fixed-step
//! simulation and the description of what a frame shows.

pub mod allocator;
pub mod input;
pub mod pong;
pub mod render;
