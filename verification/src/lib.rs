//! Control and camera-tracking logic for a marble rolling down a sloped
//! channel, over exact fixed-point arithmetic.
//!
//! Every length, position and velocity is a whole number of thousandths of a
//! world unit. Two results are exact at a finer grain: the centres of the
//! track's boxes are held doubled, and the camera's pose after a smoothing
//! step is held in parts of a thousandth. The three world axes are `x`
//! (lateral, side to side), `y` (vertical) and `z` (forward, along the track).

pub mod vector;
pub mod control;
pub mod track;
pub mod camera;
pub mod scene;
