//! The integer, text and control core of a small path tracer: the pixel
//! surface it renders into, 8-bit colours and their hexadecimal notation, the
//! text forms of vectors, scenes and window scales, the bounce budget of the
//! radiance integrator, and the progress line.

pub mod color;
pub mod config;
pub mod errors;
pub mod fb;
pub mod pg;
pub mod text;
pub mod tracer;
pub mod util;
pub mod vec3;
pub mod world;

pub use color::Rgb;
pub use config::{num_to_scale, string_to_scale, Scale};
pub use errors::{Error, IntErrorKind};
pub use fb::{FrameBuffer, IncrementalFrameBuffer};
pub use pg::Progress;
pub use tracer::{cut_off, radiance, Encounter, Radiance};
pub use util::if_then;
pub use vec3::{split_three, Coordinates, Vec3Text};
pub use world::Worlds;
