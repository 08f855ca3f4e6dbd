use std::sync::Arc;
use vstd::prelude::*;

use crate::textures::TextureType;

verus! {

/// The scattering families a surface or a medium can be made of.
#[derive(Clone, Copy, Debug, PartialEq, Eq, Structural)]
pub enum MaterialKind {
    /// Diffuse: scatters around the normal, tinted by its texture.
    Lambertian,
    /// Specular with fuzz; absorbs a ray that would leave below the surface.
    Metal,
    /// Refractive glass-like surface, reflecting by the Fresnel odds.
    Dielectric,
    /// Scatters uniformly in all directions; the interior of a medium.
    Isotropic,
    /// Pure emitter: never scatters.
    DiffuseLight,
    /// Neither scatters nor emits: a placeholder for shapes that only bound a medium.
    Blank,
}

impl MaterialKind {
    pub open spec fn spec_may_scatter(self) -> bool {
        !(self is DiffuseLight || self is Blank)
    }

    pub open spec fn spec_emits(self) -> bool {
        self is DiffuseLight
    }

    /// Whether a hit on this kind can continue the path at all. Emitters and
    /// placeholders never scatter; every other kind may (a metal still turns
    /// away rays that would leave below its surface).
    pub fn may_scatter(&self) -> (r: bool)
        ensures
            r == self.spec_may_scatter(),
    {
        match self {
            MaterialKind::DiffuseLight | MaterialKind::Blank => false,
            _ => true,
        }
    }

    /// Whether this kind contributes light of its own.
    pub fn emits(&self) -> (r: bool)
        ensures
            r == self.spec_emits(),
    {
        match self {
            MaterialKind::DiffuseLight => true,
            _ => false,
        }
    }
}

/// The non-interacting material.
pub struct Blank {}

impl Blank {
    pub fn create() -> (r: Arc<Blank>)
        ensures
            *r == (Blank {}),
    {
        Arc::new(Blank {})
    }

    pub fn kind(&self) -> (r: MaterialKind)
        ensures
            r == MaterialKind::Blank,
    {
        MaterialKind::Blank
    }
}

/// A material as a scene names it: a textured family with its texture kind,
/// or one of the two untextured materials.
#[derive(Clone, Copy, Debug, PartialEq, Eq, Structural)]
pub enum MaterialTag {
    Matte(TextureType),
    Metal(TextureType),
    Isotropic(TextureType),
    Dielectric,
    Light,
}

impl MaterialTag {
    /// The scattering family the tag stands for.
    pub open spec fn spec_kind(self) -> MaterialKind {
        match self {
            MaterialTag::Matte(_) => MaterialKind::Lambertian,
            MaterialTag::Metal(_) => MaterialKind::Metal,
            MaterialTag::Isotropic(_) => MaterialKind::Isotropic,
            MaterialTag::Dielectric => MaterialKind::Dielectric,
            MaterialTag::Light => MaterialKind::DiffuseLight,
        }
    }

    pub fn kind(&self) -> (r: MaterialKind)
        ensures
            r == self.spec_kind(),
    {
        match self {
            MaterialTag::Matte(_) => MaterialKind::Lambertian,
            MaterialTag::Metal(_) => MaterialKind::Metal,
            MaterialTag::Isotropic(_) => MaterialKind::Isotropic,
            MaterialTag::Dielectric => MaterialKind::Dielectric,
            MaterialTag::Light => MaterialKind::DiffuseLight,
        }
    }
}

/// The material a scene's type tag names. Tags of isotropic materials are
/// recognised only where `isotropic_allowed` holds; any other text names none.
pub open spec fn tag_meaning(t: Seq<char>, isotropic_allowed: bool) -> Option<MaterialTag> {
    if t == "matte/constant"@ {
        Some(MaterialTag::Matte(TextureType::Constant))
    } else if t == "matte/checkered"@ {
        Some(MaterialTag::Matte(TextureType::Checkered))
    } else if t == "matte/image"@ {
        Some(MaterialTag::Matte(TextureType::Image))
    } else if t == "matte/noise"@ {
        Some(MaterialTag::Matte(TextureType::Noise))
    } else if t == "metal/constant"@ {
        Some(MaterialTag::Metal(TextureType::Constant))
    } else if t == "metal/checkered"@ {
        Some(MaterialTag::Metal(TextureType::Checkered))
    } else if t == "metal/image"@ {
        Some(MaterialTag::Metal(TextureType::Image))
    } else if t == "metal/noise"@ {
        Some(MaterialTag::Metal(TextureType::Noise))
    } else if isotropic_allowed && t == "isotropic/constant"@ {
        Some(MaterialTag::Isotropic(TextureType::Constant))
    } else if isotropic_allowed && t == "isotropic/checkered"@ {
        Some(MaterialTag::Isotropic(TextureType::Checkered))
    } else if isotropic_allowed && t == "isotropic/image"@ {
        Some(MaterialTag::Isotropic(TextureType::Image))
    } else if isotropic_allowed && t == "isotropic/noise"@ {
        Some(MaterialTag::Isotropic(TextureType::Noise))
    } else if t == "dielectric"@ {
        Some(MaterialTag::Dielectric)
    } else if t == "light"@ {
        Some(MaterialTag::Light)
    } else {
        None
    }
}

fn same_text(t: &String, lit: &str) -> (r: bool)
    ensures
        r == (t@ == lit@),
{
    *t == lit.to_owned()
}

/// Reads a material type tag of a scene description.
pub fn parse_material_tag(tag: &str, isotropic_allowed: bool) -> (r: Option<MaterialTag>)
    ensures
        r == tag_meaning(tag@, isotropic_allowed),
{
    let t = tag.to_owned();
    if same_text(&t, "matte/constant") {
        Some(MaterialTag::Matte(TextureType::Constant))
    } else if same_text(&t, "matte/checkered") {
        Some(MaterialTag::Matte(TextureType::Checkered))
    } else if same_text(&t, "matte/image") {
        Some(MaterialTag::Matte(TextureType::Image))
    } else if same_text(&t, "matte/noise") {
        Some(MaterialTag::Matte(TextureType::Noise))
    } else if same_text(&t, "metal/constant") {
        Some(MaterialTag::Metal(TextureType::Constant))
    } else if same_text(&t, "metal/checkered") {
        Some(MaterialTag::Metal(TextureType::Checkered))
    } else if same_text(&t, "metal/image") {
        Some(MaterialTag::Metal(TextureType::Image))
    } else if same_text(&t, "metal/noise") {
        Some(MaterialTag::Metal(TextureType::Noise))
    } else if isotropic_allowed && same_text(&t, "isotropic/constant") {
        Some(MaterialTag::Isotropic(TextureType::Constant))
    } else if isotropic_allowed && same_text(&t, "isotropic/checkered") {
        Some(MaterialTag::Isotropic(TextureType::Checkered))
    } else if isotropic_allowed && same_text(&t, "isotropic/image") {
        Some(MaterialTag::Isotropic(TextureType::Image))
    } else if isotropic_allowed && same_text(&t, "isotropic/noise") {
        Some(MaterialTag::Isotropic(TextureType::Noise))
    } else if same_text(&t, "dielectric") {
        Some(MaterialTag::Dielectric)
    } else if same_text(&t, "light") {
        Some(MaterialTag::Light)
    } else {
        None
    }
}

} // verus!
