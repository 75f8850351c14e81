use std::sync::Arc;
use vstd::prelude::*;

use super::assets::{parsed_url, resolve_uri, AssetError, AssetsManager};
use super::types::{AorB, MaterialConfig, TextureConfig, TextureOrConst};
use crate::textures::{CheckerTexture, ConstantTexture};

verus! {

/// A texture ready for the renderer: a constant, an image file to be
/// decoded, an image embedded in a loaded scene file, or a checker pattern
/// of two textures.
pub enum TextureNode<V> {
    Constant(ConstantTexture<V>),
    /// The image at `path`, as resolved from its asset reference.
    Image { path: String },
    /// Image number `index` of those embedded in a loaded scene file, its
    /// values scaled by `scale`.
    Embedded { index: usize, scale: V },
    Checker(CheckerTexture<TextureNode<V>>),
}

/// The asset error of the first image reference in `conf` (odd before
/// even) that does not resolve, if any.
pub open spec fn first_texture_error<V>(dirs: (Seq<char>, Seq<char>), conf: TextureOrConst<V>) -> Option<AssetError>
    decreases conf,
{
    match conf {
        AorB::B(_) => None,
        AorB::A(TextureConfig::ConstantTexture { .. }) => None,
        AorB::A(TextureConfig::ImageTexture { uri }) => match resolve_uri(dirs.0, dirs.1, uri@, parsed_url(uri@)) {
            Ok(_) => None,
            Err(e) => Some(e),
        },
        AorB::A(TextureConfig::CheckerTexture { odd, even }) => match first_texture_error(dirs, *odd) {
            Some(e) => Some(e),
            None => first_texture_error(dirs, *even),
        },
    }
}

/// `node` is the texture that `conf` describes: constants carry their
/// value, image references their resolved path, checkers the textures of
/// their two halves.
pub open spec fn texture_built_from<V: Copy>(dirs: (Seq<char>, Seq<char>), node: TextureNode<V>, conf: TextureOrConst<V>) -> bool
    decreases conf,
{
    match conf {
        AorB::B(value) => node matches TextureNode::Constant(c) && c.spec_value() == value,
        AorB::A(TextureConfig::ConstantTexture { value }) => node matches TextureNode::Constant(c) && c.spec_value() == value,
        AorB::A(TextureConfig::ImageTexture { uri }) => node matches TextureNode::Image { path } && resolve_uri(
            dirs.0,
            dirs.1,
            uri@,
            parsed_url(uri@),
        ) == Ok::<Seq<char>, AssetError>(path@),
        AorB::A(TextureConfig::CheckerTexture { odd, even }) => node matches TextureNode::Checker(c)
            && texture_built_from(dirs, c.spec_odd(), *odd) && texture_built_from(dirs, c.spec_even(), *even),
    }
}

/// The directories asset references are resolved against.
pub open spec fn dirs_of(m: AssetsManager) -> (Seq<char>, Seq<char>) {
    (m.spec_assets_dir(), m.spec_project_dir())
}

/// What ends the building of texture descriptions before it is done: an
/// image reference that does not resolve, or a scalar image texture that
/// is reached, which the renderer cannot build.
#[derive(Clone, Copy, Debug, PartialEq, Eq, Structural)]
pub enum TextureStop {
    /// An image reference did not resolve.
    Asset(AssetError),
    /// A scalar parameter names an image that resolves.
    ScalarImage,
}

/// What first ends the building of the scalar texture description `conf`
/// (odd before even), if anything: a reference that does not resolve, or
/// one that resolves.
pub open spec fn first_scalar_texture_stop<V>(dirs: (Seq<char>, Seq<char>), conf: TextureOrConst<V>) -> Option<TextureStop>
    decreases conf,
{
    match conf {
        AorB::B(_) => None,
        AorB::A(TextureConfig::ConstantTexture { .. }) => None,
        AorB::A(TextureConfig::ImageTexture { uri }) => match resolve_uri(dirs.0, dirs.1, uri@, parsed_url(uri@)) {
            Ok(_) => Some(TextureStop::ScalarImage),
            Err(e) => Some(TextureStop::Asset(e)),
        },
        AorB::A(TextureConfig::CheckerTexture { odd, even }) => match first_scalar_texture_stop(dirs, *odd) {
            Some(e) => Some(e),
            None => first_scalar_texture_stop(dirs, *even),
        },
    }
}

/// A colour texture's asset error as what stops the building.
pub open spec fn as_texture_stop(e: Option<AssetError>) -> Option<TextureStop> {
    match e {
        Some(a) => Some(TextureStop::Asset(a)),
        None => None,
    }
}

/// Builds the colour texture that `conf` describes, resolving image
/// references with `manager`; the first reference that does not resolve
/// is reported.
pub fn build_texture_or_vec3f<T: Copy>(manager: &AssetsManager, conf: &TextureOrConst<[T; 3]>) -> (r: Result<TextureNode<[T; 3]>, AssetError>)
    ensures
        match r {
            Ok(node) => first_texture_error(dirs_of(*manager), *conf) is None && texture_built_from(dirs_of(*manager), node, *conf),
            Err(e) => first_texture_error(dirs_of(*manager), *conf) == Some(e),
        },
    decreases conf,
{
    match conf {
        AorB::B(value) => Ok(TextureNode::Constant(ConstantTexture::new(*value))),
        AorB::A(t) => build_texture_vec3f(manager, t),
    }
}

/// Builds the colour texture that the texture description `conf` describes.
pub fn build_texture_vec3f<T: Copy>(manager: &AssetsManager, conf: &TextureConfig<[T; 3]>) -> (r: Result<TextureNode<[T; 3]>, AssetError>)
    ensures
        match r {
            Ok(node) => first_texture_error(dirs_of(*manager), AorB::A(*conf)) is None && texture_built_from(
                dirs_of(*manager),
                node,
                AorB::A(*conf),
            ),
            Err(e) => first_texture_error(dirs_of(*manager), AorB::A(*conf)) == Some(e),
        },
    decreases conf,
{
    match conf {
        TextureConfig::ConstantTexture { value } => Ok(TextureNode::Constant(ConstantTexture::new(*value))),
        TextureConfig::ImageTexture { uri } => match manager.load_path(uri.as_str()) {
            Ok(path) => Ok(TextureNode::Image { path }),
            Err(e) => Err(e),
        },
        TextureConfig::CheckerTexture { odd, even } => {
            let odd = build_texture_or_vec3f(manager, &**odd)?;
            let even = build_texture_or_vec3f(manager, &**even)?;
            Ok(TextureNode::Checker(CheckerTexture::new(Arc::new(odd), Arc::new(even))))
        },
    }
}

/// Builds the scalar texture that `conf` describes, resolving image
/// references with `manager`; the first reference that does not resolve
/// is reported. Scalar image textures cannot be built, so no image
/// reference may resolve before the building ends.
pub fn build_texture_or_f32<T: Copy>(manager: &AssetsManager, conf: &TextureOrConst<T>) -> (r: Result<TextureNode<T>, AssetError>)
    requires
        first_scalar_texture_stop(dirs_of(*manager), *conf) != Some(TextureStop::ScalarImage),
    ensures
        match r {
            Ok(node) => first_scalar_texture_stop(dirs_of(*manager), *conf) is None && texture_built_from(
                dirs_of(*manager),
                node,
                *conf,
            ),
            Err(e) => first_scalar_texture_stop(dirs_of(*manager), *conf) == Some(TextureStop::Asset(e)),
        },
    decreases conf,
{
    match conf {
        AorB::B(value) => Ok(TextureNode::Constant(ConstantTexture::new(*value))),
        AorB::A(t) => build_texture_f32(manager, t),
    }
}

/// Builds the scalar texture that the texture description `conf`
/// describes; no image reference may resolve before the building ends.
pub fn build_texture_f32<T: Copy>(manager: &AssetsManager, conf: &TextureConfig<T>) -> (r: Result<TextureNode<T>, AssetError>)
    requires
        first_scalar_texture_stop(dirs_of(*manager), AorB::A(*conf)) != Some(TextureStop::ScalarImage),
    ensures
        match r {
            Ok(node) => first_scalar_texture_stop(dirs_of(*manager), AorB::A(*conf)) is None && texture_built_from(
                dirs_of(*manager),
                node,
                AorB::A(*conf),
            ),
            Err(e) => first_scalar_texture_stop(dirs_of(*manager), AorB::A(*conf)) == Some(TextureStop::Asset(e)),
        },
    decreases conf,
{
    match conf {
        TextureConfig::ConstantTexture { value } => Ok(TextureNode::Constant(ConstantTexture::new(*value))),
        TextureConfig::ImageTexture { uri } => match manager.load_path(uri.as_str()) {
            Ok(_) => {
                proof {
                    assert(false);
                }
                Err(AssetError::InvalidUri)
            },
            Err(e) => Err(e),
        },
        TextureConfig::CheckerTexture { odd, even } => {
            let odd = build_texture_or_f32(manager, &**odd)?;
            let even = build_texture_or_f32(manager, &**even)?;
            Ok(TextureNode::Checker(CheckerTexture::new(Arc::new(odd), Arc::new(even))))
        },
    }
}

/// A material ready for the renderer, its textures built.
pub enum MaterialNode<T> {
    Lambertian { albedo: TextureNode<[T; 3]> },
    Metal { albedo: TextureNode<[T; 3]>, fuzz: T },
    Dielectric { ir: T },
    DiffuseLight { emit: TextureNode<[T; 3]> },
    Transparent { eta: T, roughness: TextureNode<T>, albedo: TextureNode<[T; 3]> },
    GltfPbr {
        eta: T,
        base_color: TextureNode<[T; 3]>,
        metallic: TextureNode<T>,
        roughness: TextureNode<T>,
        emit: TextureNode<[T; 3]>,
    },
}

/// What first ends the building of the material's textures, in the order
/// in which they are built, if anything.
pub open spec fn material_stop<T>(dirs: (Seq<char>, Seq<char>), conf: MaterialConfig<T>) -> Option<TextureStop> {
    match conf {
        MaterialConfig::Lambertian { albedo } => as_texture_stop(first_texture_error(dirs, albedo)),
        MaterialConfig::Metal { albedo, .. } => as_texture_stop(first_texture_error(dirs, albedo)),
        MaterialConfig::Dielectric { .. } => None,
        MaterialConfig::DiffuseLight { emit } => as_texture_stop(first_texture_error(dirs, emit)),
        MaterialConfig::Transparent { roughness, albedo, .. } => match first_scalar_texture_stop(dirs, roughness) {
            Some(e) => Some(e),
            None => as_texture_stop(first_texture_error(dirs, albedo)),
        },
        MaterialConfig::GltfPbr { base_color, metallic, roughness, emit, .. } => match as_texture_stop(
            first_texture_error(dirs, base_color),
        ) {
            Some(e) => Some(e),
            None => match first_scalar_texture_stop(dirs, metallic) {
                Some(e) => Some(e),
                None => match first_scalar_texture_stop(dirs, roughness) {
                    Some(e) => Some(e),
                    None => as_texture_stop(first_texture_error(dirs, emit)),
                },
            },
        },
    }
}

/// `node` is the material that `conf` describes.
pub open spec fn material_built_from<T: Copy>(dirs: (Seq<char>, Seq<char>), node: MaterialNode<T>, conf: MaterialConfig<T>) -> bool {
    match conf {
        MaterialConfig::Lambertian { albedo } => node matches MaterialNode::Lambertian { albedo: a }
            && texture_built_from(dirs, a, albedo),
        MaterialConfig::Metal { albedo, fuzz } => node matches MaterialNode::Metal { albedo: a, fuzz: f } && f == fuzz
            && texture_built_from(dirs, a, albedo),
        MaterialConfig::Dielectric { ir } => node matches MaterialNode::Dielectric { ir: i } && i == ir,
        MaterialConfig::DiffuseLight { emit } => node matches MaterialNode::DiffuseLight { emit: e }
            && texture_built_from(dirs, e, emit),
        MaterialConfig::Transparent { eta, roughness, albedo } => node matches MaterialNode::Transparent {
            eta: e,
            roughness: r,
            albedo: a,
        } && e == eta && texture_built_from(dirs, r, roughness) && texture_built_from(dirs, a, albedo),
        MaterialConfig::GltfPbr { eta, base_color, roughness, metallic, emit } => node matches MaterialNode::GltfPbr {
            eta: e,
            base_color: b,
            metallic: m,
            roughness: r,
            emit: em,
        } && e == eta && texture_built_from(dirs, b, base_color) && texture_built_from(dirs, m, metallic)
            && texture_built_from(dirs, r, roughness) && texture_built_from(dirs, em, emit),
    }
}

/// A texture built from a constant is that constant.
pub proof fn lemma_constant_texture<V: Copy>(dirs: (Seq<char>, Seq<char>), node: TextureNode<V>, v: V)
    requires
        texture_built_from(dirs, node, AorB::B(v)),
    ensures
        node matches TextureNode::Constant(c) && c.spec_value() == v,
{
}

/// Each texture of a built material is built from the description's field
/// of the same name, and its other parameters are the description's; in
/// particular the scalar parameters given as constants are those constants.
pub proof fn lemma_material_fields<T: Copy>(dirs: (Seq<char>, Seq<char>), node: MaterialNode<T>, conf: MaterialConfig<T>)
    requires
        material_built_from(dirs, node, conf),
    ensures
        conf matches MaterialConfig::Lambertian { albedo } ==> (node matches MaterialNode::Lambertian { albedo: a }
            && texture_built_from(dirs, a, albedo)),
        conf matches MaterialConfig::Metal { albedo, fuzz } ==> (node matches MaterialNode::Metal { albedo: a, fuzz: f }
            && f == fuzz && texture_built_from(dirs, a, albedo)),
        conf matches MaterialConfig::Dielectric { ir } ==> (node matches MaterialNode::Dielectric { ir: i } && i == ir),
        conf matches MaterialConfig::DiffuseLight { emit } ==> (node matches MaterialNode::DiffuseLight { emit: e }
            && texture_built_from(dirs, e, emit)),
        conf matches MaterialConfig::Transparent { eta, roughness, albedo } ==> (node matches MaterialNode::Transparent {
            eta: e,
            roughness: r,
            albedo: a,
        } && e == eta && texture_built_from(dirs, r, roughness) && texture_built_from(dirs, a, albedo)),
        conf matches MaterialConfig::GltfPbr { eta, base_color, roughness, metallic, emit } ==> (
        node matches MaterialNode::GltfPbr { eta: e, base_color: b, metallic: m, roughness: r, emit: em } && e == eta
            && texture_built_from(dirs, b, base_color) && texture_built_from(dirs, m, metallic) && texture_built_from(
            dirs,
            r,
            roughness,
        ) && texture_built_from(dirs, em, emit)),
        conf matches MaterialConfig::GltfPbr { metallic: AorB::B(mv), roughness: AorB::B(rv), .. } ==> (
        node matches MaterialNode::GltfPbr {
            metallic: TextureNode::Constant(mc),
            roughness: TextureNode::Constant(rc),
            ..
        } && mc.spec_value() == mv && rc.spec_value() == rv),
        conf matches MaterialConfig::Transparent { roughness: AorB::B(rv), .. } ==> (
        node matches MaterialNode::Transparent { roughness: TextureNode::Constant(rc), .. } && rc.spec_value() == rv),
{
}

/// Builds the material that `conf` describes, its textures included; the
/// first image reference that does not resolve is reported. Scalar image
/// textures cannot be built, so none may be reached before the building
/// ends.
pub fn build_material<T: Copy>(manager: &AssetsManager, conf: &MaterialConfig<T>) -> (r: Result<MaterialNode<T>, AssetError>)
    requires
        material_stop(dirs_of(*manager), *conf) != Some(TextureStop::ScalarImage),
    ensures
        match r {
            Ok(node) => material_stop(dirs_of(*manager), *conf) is None && material_built_from(dirs_of(*manager), node, *conf),
            Err(e) => material_stop(dirs_of(*manager), *conf) == Some(TextureStop::Asset(e)),
        },
{
    match conf {
        MaterialConfig::Lambertian { albedo } => {
            let albedo = build_texture_or_vec3f(manager, albedo)?;
            Ok(MaterialNode::Lambertian { albedo })
        },
        MaterialConfig::Metal { albedo, fuzz } => {
            let albedo = build_texture_or_vec3f(manager, albedo)?;
            Ok(MaterialNode::Metal { albedo, fuzz: *fuzz })
        },
        MaterialConfig::Dielectric { ir } => Ok(MaterialNode::Dielectric { ir: *ir }),
        MaterialConfig::DiffuseLight { emit } => {
            let emit = build_texture_or_vec3f(manager, emit)?;
            Ok(MaterialNode::DiffuseLight { emit })
        },
        MaterialConfig::Transparent { eta, roughness, albedo } => {
            let roughness = build_texture_or_f32(manager, roughness)?;
            let albedo = build_texture_or_vec3f(manager, albedo)?;
            Ok(MaterialNode::Transparent { eta: *eta, roughness, albedo })
        },
        MaterialConfig::GltfPbr { eta, base_color, roughness, metallic, emit } => {
            let base_color = build_texture_or_vec3f(manager, base_color)?;
            let metallic = build_texture_or_f32(manager, metallic)?;
            let roughness = build_texture_or_f32(manager, roughness)?;
            let emit = build_texture_or_vec3f(manager, emit)?;
            Ok(MaterialNode::GltfPbr { eta: *eta, base_color, metallic, roughness, emit })
        },
    }
}

} // verus!
