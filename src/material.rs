use vstd::prelude::*;

verus! {

/// Which face of a dielectric surface a ray meets.
#[derive(Clone, Copy, Debug, PartialEq, Eq, Structural)]
pub enum Side {
    /// The ray enters the material: the outward normal is the surface
    /// normal, and the index ratio is `1 / index`.
    Entering,
    /// The ray leaves the material: the outward normal is the negated
    /// surface normal, and the index ratio is `index / 1`.
    Exiting,
}

/// Where a dielectric sends a ray.
#[derive(Clone, Copy, Debug, PartialEq, Eq, Structural)]
pub enum Branch {
    /// Along the mirror reflection, about the raw surface normal.
    Reflect,
    /// Along the refracted direction.
    Refract,
}

/// The side a ray meets, from whether the dot product of its direction with
/// the surface normal is positive: positive means leaving; zero or negative,
/// entering.
pub fn side_of(dot_positive: bool) -> (r: Side)
    ensures
        r == (if dot_positive {
            Side::Exiting
        } else {
            Side::Entering
        }),
{
    if dot_positive {
        Side::Exiting
    } else {
        Side::Entering
    }
}

/// The single-sample Fresnel split of a dielectric. `refracts` says whether
/// refraction is possible (a positive discriminant); where it is not, the
/// reflect probability is one and the ray always reflects. Otherwise the
/// uniform draw `draw` in `[0, 1)` is compared with the Schlick reflectance
/// `reflectance` (both as keys ordered as the values they stand for): a draw
/// at or above it refracts, one below it reflects.
pub fn dielectric_branch(refracts: bool, draw: i64, reflectance: i64) -> (r: Branch)
    ensures
        r == Branch::Refract <==> refracts && draw >= reflectance,
{
    if refracts && draw >= reflectance {
        Branch::Refract
    } else {
        Branch::Reflect
    }
}

/// A metal keeps the reflected ray only where it leaves the surface, that is
/// where the dot product of its direction with the normal is positive;
/// otherwise the ray is absorbed.
pub fn metal_scatters(dot_positive: bool) -> (r: bool)
    ensures
        r == dot_positive,
{
    dot_positive
}

} // verus!
