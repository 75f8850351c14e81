use std::sync::Arc;
use vstd::prelude::*;

verus! {

/// What is rendered: a camera, the world it looks at, the shapes that emit
/// light (sampled directly), and the sky behind everything.
pub struct Scene<C, W, K> {
    pub(crate) camera: C,
    pub(crate) world: Arc<W>,
    pub(crate) light_shape: Arc<W>,
    pub(crate) sky: Arc<K>,
    pub(crate) name: String,
    pub(crate) description: String,
}

impl<C, W, K> Scene<C, W, K> {
    pub closed spec fn spec_camera(&self) -> C {
        self.camera
    }

    pub closed spec fn spec_world(&self) -> W {
        *self.world
    }

    pub closed spec fn spec_light_shape(&self) -> W {
        *self.light_shape
    }

    pub closed spec fn spec_sky(&self) -> K {
        *self.sky
    }

    pub closed spec fn spec_name(&self) -> Seq<char> {
        self.name@
    }

    pub closed spec fn spec_description(&self) -> Seq<char> {
        self.description@
    }

    /// The scene made of the given parts.
    pub fn new(
        camera: C,
        world: Arc<W>,
        light_shape: Arc<W>,
        sky: Arc<K>,
        name: String,
        description: String,
    ) -> (s: Self)
        ensures
            s.spec_camera() == camera,
            s.spec_world() == *world,
            s.spec_light_shape() == *light_shape,
            s.spec_sky() == *sky,
            s.spec_name() == name@,
            s.spec_description() == description@,
    {
        Scene { camera, world, light_shape, sky, name, description }
    }

    /// The scene's camera.
    pub fn camera(&self) -> (c: &C)
        ensures
            *c == self.spec_camera(),
    {
        &self.camera
    }

    /// The scene's world.
    pub fn world(&self) -> (w: &W)
        ensures
            *w == self.spec_world(),
    {
        &*self.world
    }

    /// The scene's background.
    pub fn sky(&self) -> (k: &K)
        ensures
            *k == self.spec_sky(),
    {
        &*self.sky
    }

    /// The scene's name.
    pub fn name(&self) -> (n: &str)
        ensures
            n@ == self.spec_name(),
    {
        self.name.as_str()
    }

    /// The shapes of the scene that emit light.
    pub fn light_shape(&self) -> (l: &W)
        ensures
            *l == self.spec_light_shape(),
    {
        &*self.light_shape
    }
}

} // verus!
