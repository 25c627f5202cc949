//! The integer and control logic of a Monte Carlo sphere ray tracer: what
//! the path estimator does at each bounce, which of several hits is the
//! nearest, the order in which pixels are written, the grid of the random
//! scene, and the plain-text image format.
pub mod hits;
pub mod image;
pub mod ppm;
pub mod scene;
pub mod trace;
