//! Frame-loop logic of an interactive Mandelbrot viewer that does not depend
//! on the window, the renderer or floating point: the key filter of the
//! numeric text boxes and the frames-per-second counter.

pub mod frame_rate;
pub mod text_entry;
