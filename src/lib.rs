//! Verified core of a recursive Monte-Carlo ray tracer: the depth-bounded
//! light-path state machine, the choice of the closest sphere hit along a ray,
//! the branch decisions of the materials, and the plain-text image format.
//!
//! Ray parameters and other real quantities are handed in as integer keys
//! whose order is the order of the values they stand for; the floating-point
//! geometry that produces them lives with the caller.

pub mod hit;
pub mod image;
pub mod integrator;
pub mod material;
pub mod settings;

pub use hit::{closest_hit, pick_root, Roots};
pub use image::{header, pixel_line, push_decimal, scan_position};
pub use integrator::{Outcome, Path, Step, MAX_DEPTH};
pub use material::{dielectric_branch, metal_scatters, side_of, Branch, Side};
pub use settings::{RenderSettings, SettingsError};
