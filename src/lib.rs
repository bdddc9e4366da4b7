//! Batched immediate-mode line rendering: segments accumulate on the host during a frame and
//! are flushed with one upload and one draw, the upload strategy chosen from the size of the
//! previous flush. Also the discrete decisions of a free-fly camera and of its window.
#![allow(non_snake_case)]

pub mod camera;
pub mod line_renderer;
pub mod window;
