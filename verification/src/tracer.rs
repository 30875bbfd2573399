use vstd::prelude::*;

verus! {

/// What became of a ray that was cast into the scene.
#[derive(Clone, Copy, Debug, PartialEq, Eq, Structural)]
pub enum Encounter {
    /// The ray hit nothing.
    Miss,
    /// The ray hit a surface whose material did not scatter it.
    Absorbed,
    /// The ray hit a surface whose material scattered it.
    Scattered,
}

/// What the radiance along a ray is made of.
#[derive(Clone, Copy, Debug, PartialEq, Eq, Structural)]
pub enum Radiance {
    /// No light at all.
    Black,
    /// The sky behind the scene.
    Background,
    /// The attenuation of the surface times the radiance along the scattered
    /// ray, which is followed at `depth`.
    Bounce { depth: u8 },
}

/// Whether a ray at `depth` is past the energy cutoff.
pub open spec fn spec_cut_off(depth: u8, max_depth: u8) -> bool {
    depth >= max_depth
}

/// The radiance along a ray at `depth` that met `encounter`.
pub open spec fn spec_radiance(depth: u8, max_depth: u8, encounter: Encounter) -> Radiance {
    if spec_cut_off(depth, max_depth) {
        Radiance::Black
    } else {
        match encounter {
            Encounter::Miss => Radiance::Background,
            Encounter::Absorbed => Radiance::Black,
            Encounter::Scattered => Radiance::Bounce { depth: (depth + 1) as u8 },
        }
    }
}

/// Whether a ray at `depth` is past the energy cutoff, so that it carries no
/// light and need not be cast.
#[verifier::when_used_as_spec(spec_cut_off)]
pub fn cut_off(depth: u8, max_depth: u8) -> (r: bool)
    ensures
        r == spec_cut_off(depth, max_depth),
{
    depth >= max_depth
}

/// The radiance along a ray at `depth` that met `encounter`.
///
/// At the cutoff the answer is black whatever the ray met. A scattered ray is
/// followed one level deeper, and never deeper than `max_depth`.
pub fn radiance(depth: u8, max_depth: u8, encounter: Encounter) -> (r: Radiance)
    ensures
        r == spec_radiance(depth, max_depth, encounter),
        depth >= max_depth ==> r == Radiance::Black,
        r matches Radiance::Bounce { depth: next } ==> next == depth + 1 && next <= max_depth,
{
    if cut_off(depth, max_depth) {
        Radiance::Black
    } else {
        match encounter {
            Encounter::Miss => Radiance::Background,
            Encounter::Absorbed => Radiance::Black,
            Encounter::Scattered => Radiance::Bounce { depth: depth + 1 },
        }
    }
}

} // verus!
