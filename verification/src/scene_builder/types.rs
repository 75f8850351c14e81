use vstd::prelude::*;

pub use crate::transform::TransformConfig;
use crate::transform::Transform;

verus! {

/// A description that can be turned into the object it describes.
pub trait Buildable {
    type Out;

    fn build(self) -> Self::Out;
}

impl<T: Copy> Buildable for Vec<TransformConfig<T>> {
    type Out = Transform<T>;

    /// The transformation made of these elementary steps, the first one
    /// acting first.
    fn build(self) -> (t: Transform<T>)
        ensures
            t.view() == self@,
    {
        Transform { ops: self }
    }
}

/// How the primitives of a scene are organised for intersection.
#[derive(Clone, Copy, Debug, PartialEq, Eq, Structural)]
pub enum AcceleratorConfig {
    /// A plain list, tested one by one.
    Nop,
    /// A bounding volume hierarchy.
    Bvh,
}

impl AcceleratorConfig {
    /// The accelerator used when a project names none: a bounding volume hierarchy.
    pub fn default_config() -> (c: Self)
        ensures
            c == AcceleratorConfig::Bvh,
    {
        AcceleratorConfig::Bvh
    }
}

/// Marks a geometry as a light source; it carries no parameters.
#[derive(Clone, Copy, Debug, PartialEq, Eq, Structural)]
pub struct AreaLightConfig {}

/// A reference to an asset.
pub struct UriConfig {
    pub uri: String,
}

/// One of two alternatives.
#[derive(Clone, Copy, Debug)]
pub enum AorB<A, B> {
    A(A),
    B(B),
}

/// A texture given either by a texture description or by a constant value.
pub type TextureOrConst<V> = AorB<TextureConfig<V>, V>;

/// A texture description whose values are of type `V`.
pub enum TextureConfig<V> {
    ConstantTexture { value: V },
    ImageTexture { uri: String },
    CheckerTexture { odd: Box<TextureOrConst<V>>, even: Box<TextureOrConst<V>> },
}

/// A material description; `T` is the scalar type.
pub enum MaterialConfig<T> {
    Lambertian { albedo: TextureOrConst<[T; 3]> },
    Metal { albedo: TextureOrConst<[T; 3]>, fuzz: T },
    Dielectric { ir: T },
    DiffuseLight { emit: TextureOrConst<[T; 3]> },
    Transparent { eta: T, roughness: TextureOrConst<T>, albedo: TextureOrConst<[T; 3]> },
    GltfPbr {
        eta: T,
        base_color: TextureOrConst<[T; 3]>,
        roughness: TextureOrConst<T>,
        metallic: TextureOrConst<T>,
        emit: TextureOrConst<[T; 3]>,
    },
}

/// A shape description; `T` is the scalar type.
pub enum ShapeConfig<T> {
    Sphere { center: [T; 3], radius: T },
    Cube { p_min: [T; 3], p_max: [T; 3] },
    Rect { v0: [T; 3], v1: [T; 3] },
    Disk { center: [T; 3], radius: T, normal: [T; 3] },
    Cylinder { center0: [T; 3], center1: [T; 3], radius: T },
    Pyramid { v0: [T; 3], v1: [T; 3], v2: [T; 3], v3: [T; 3] },
    RegularPolygon { radius: T, num_sides: usize, normal: [T; 3] },
    TriangleMesh {
        indices: Vec<usize>,
        positions: Vec<[T; 3]>,
        uvs: Vec<[T; 2]>,
        normals: Vec<[T; 3]>,
    },
    Uri(UriConfig),
}

/// A node of the scene tree: a piece of geometry, or a group of nodes
/// sharing a transformation. Each node's own transformations act after
/// those of the groups around it.
pub enum PrimitiveConfig<T> {
    Geom {
        transforms: Vec<TransformConfig<T>>,
        shape: ShapeConfig<T>,
        material: MaterialConfig<T>,
        area_light: Option<AreaLightConfig>,
        flip_face: bool,
    },
    Container {
        transforms: Vec<TransformConfig<T>>,
        children: Vec<PrimitiveConfig<T>>,
    },
}

impl<T> PrimitiveConfig<T> {
    pub open spec fn spec_transforms(&self) -> Seq<TransformConfig<T>> {
        match self {
            PrimitiveConfig::Geom { transforms, .. } => transforms@,
            PrimitiveConfig::Container { transforms, .. } => transforms@,
        }
    }

    /// The node's own transformations.
    pub fn get_transforms(&self) -> (t: &[TransformConfig<T>])
        ensures
            t@ == self.spec_transforms(),
    {
        match self {
            PrimitiveConfig::Geom { transforms, .. } => transforms.as_slice(),
            PrimitiveConfig::Container { transforms, .. } => transforms.as_slice(),
        }
    }
}

/// A camera description; `aspect` falls back to the project's image
/// aspect ratio when absent.
pub struct CameraConfig<T> {
    pub look_from: [T; 3],
    pub look_at: [T; 3],
    pub view_up: [T; 3],
    pub vertical_fov: T,
    pub aspect: Option<T>,
    pub aperture: T,
    pub focus_dist: T,
    pub time0: T,
    pub time1: T,
}

/// A uniform environment light of radiance `l`.
pub struct EnvironmentConfig<T> {
    pub l: [T; 3],
}

/// A scene written out in the project file.
pub struct SceneCustomConfig<T> {
    pub transforms: Vec<TransformConfig<T>>,
    pub camera: Option<CameraConfig<T>>,
    pub world: Vec<PrimitiveConfig<T>>,
    pub environments: Vec<EnvironmentConfig<T>>,
}

/// A scene, either loaded from an asset or written out.
pub enum SceneConfig<T> {
    Uri { uri: String, transforms: Vec<TransformConfig<T>> },
    Custom(SceneCustomConfig<T>),
}

} // verus!
