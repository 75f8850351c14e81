use vstd::prelude::*;

verus! {

/// Output settings of a rendering project.
pub struct Settings {
    pub output_dir: String,
    pub width: usize,
    pub height: usize,
    pub nsamples: i32,
    pub max_depth: i32,
}

/// Image size and sampling options of one rendering.
#[derive(Clone, Copy, Debug, PartialEq, Eq, Structural)]
pub struct RenderOptions {
    pub width: usize,
    pub height: usize,
    pub nsamples: i32,
    pub max_depth: i32,
}

impl Settings {
    /// The rendering options these settings ask for: the same width,
    /// height, number of samples and maximal depth.
    pub fn into_render_options(self) -> (o: RenderOptions)
        ensures
            o.width == self.width,
            o.height == self.height,
            o.nsamples == self.nsamples,
            o.max_depth == self.max_depth,
    {
        RenderOptions {
            width: self.width,
            height: self.height,
            nsamples: self.nsamples,
            max_depth: self.max_depth,
        }
    }

    /// A copy of these settings.
    pub fn duplicate(&self) -> (s: Settings)
        ensures
            s.output_dir@ == self.output_dir@,
            s.width == self.width,
            s.height == self.height,
            s.nsamples == self.nsamples,
            s.max_depth == self.max_depth,
    {
        Settings {
            output_dir: self.output_dir.clone(),
            width: self.width,
            height: self.height,
            nsamples: self.nsamples,
            max_depth: self.max_depth,
        }
    }
}

/// A named rendering project: its settings and the scene to render.
pub struct Project<Sc> {
    pub(crate) name: String,
    pub(crate) settings: Settings,
    pub(crate) scene: Sc,
}

impl<Sc> Project<Sc> {
    pub closed spec fn spec_name(&self) -> Seq<char> {
        self.name@
    }

    pub closed spec fn spec_settings(&self) -> &Settings {
        &self.settings
    }

    pub closed spec fn spec_scene(&self) -> &Sc {
        &self.scene
    }

    /// The project called `name`, with the given settings and scene.
    pub fn new(name: String, settings: Settings, scene: Sc) -> (p: Self)
        ensures
            p.spec_name() == name@,
            *p.spec_settings() == settings,
            *p.spec_scene() == scene,
    {
        Project { name, settings, scene }
    }

    /// The project's settings.
    pub fn settings(&self) -> (s: &Settings)
        ensures
            *s == *self.spec_settings(),
    {
        &self.settings
    }

    /// The project's scene.
    pub fn scene(&self) -> (s: &Sc)
        ensures
            *s == *self.spec_scene(),
    {
        &self.scene
    }

    /// The project's name.
    pub fn name(&self) -> (s: &str)
        ensures
            s@ == self.spec_name(),
    {
        self.name.as_str()
    }
}

} // verus!
