use std::sync::Arc;
use vstd::prelude::*;

use crate::project::RenderOptions;
use crate::utils::share;

verus! {

/// The built-in example scenes.
#[derive(Clone, Copy, Debug, PartialEq, Eq, Structural)]
pub enum SceneKind {
    /// Random spheres on a checkered ground.
    Scene1,
    /// A sphere textured with a map of the earth.
    Earth,
}

/// A named way of producing one of the built-in scenes.
pub struct SceneFactory {
    producer: SceneKind,
    name: String,
}

impl SceneFactory {
    pub closed spec fn spec_name(&self) -> Seq<char> {
        self.name@
    }

    pub closed spec fn spec_kind(&self) -> SceneKind {
        self.producer
    }

    fn new(producer: SceneKind, name: &str) -> (f: Self)
        ensures
            f.spec_kind() == producer,
            f.spec_name() == name@,
    {
        SceneFactory { producer, name: name.to_owned() }
    }

    /// Produces the scene this factory stands for: `make`, which builds
    /// the built-in scenes, is called once, with the factory's scene and
    /// the options `opt` unchanged, and what it returns is the scene.
    pub fn create_scene<F, S>(&self, make: &F, opt: RenderOptions) -> (s: S)
        where
            F: Fn(SceneKind, RenderOptions) -> S,
        requires
            call_requires(*make, (self.spec_kind(), opt)),
        ensures
            call_ensures(*make, (self.spec_kind(), opt), s),
    {
        make(self.producer, opt)
    }

    /// The factory's name.
    pub fn name(&self) -> (n: &str)
        ensures
            n@ == self.spec_name(),
    {
        self.name.as_str()
    }
}

/// Why a scene could not be found.
#[derive(Debug)]
pub enum SceneError {
    /// No scene of this name is registered.
    NoSuchScene(String),
}

impl SceneError {
    /// The error as a message: `no such scene: <name>`.
    pub fn message(&self) -> (m: String)
        ensures
            match self {
                SceneError::NoSuchScene(name) => m@ == "no such scene: "@ + name@,
            },
    {
        match self {
            SceneError::NoSuchScene(name) => {
                let mut m = String::new();
                m.append("no such scene: ");
                m.append(name.as_str());
                m
            },
        }
    }
}

/// The names of the registered scenes, in order of registration.
pub open spec fn registered_names() -> Seq<Seq<char>> {
    seq!["scene1"@, "earth"@]
}

/// The scene registered under `name`, if any.
pub open spec fn registered_kind(name: Seq<char>) -> Option<SceneKind> {
    if name == "scene1"@ {
        Some(SceneKind::Scene1)
    } else if name == "earth"@ {
        Some(SceneKind::Earth)
    } else {
        None
    }
}

/// All registered scene factories, each name occurring once.
pub struct SceneRegistry {
    factories: Vec<Arc<SceneFactory>>,
}

impl SceneRegistry {
    /// The registered factories.
    pub closed spec fn spec_factories(&self) -> Seq<SceneFactory> {
        self.factories@.map_values(|f: Arc<SceneFactory>| *f)
    }

    /// The registry maps each registered name to the scene of that name.
    pub closed spec fn wf(&self) -> bool {
        &&& self.factories@.len() == registered_names().len()
        &&& forall|i: int|
            0 <= i < self.factories@.len() ==> {
                &&& (*self.factories@[i]).spec_name() == registered_names()[i]
                &&& registered_kind((*self.factories@[i]).spec_name()) == Some((*self.factories@[i]).spec_kind())
            }
    }

    /// The factory registered under `name`, or why there is none.
    pub fn get(&self, name: &str) -> (r: Result<Arc<SceneFactory>, SceneError>)
        requires
            self.wf(),
        ensures
            match r {
                Ok(f) => registered_kind(name@) == Some(f.spec_kind()) && f.spec_name() == name@,
                Err(SceneError::NoSuchScene(n)) => registered_kind(name@) is None && n@ == name@,
            },
    {
        let mut i: usize = 0;
        proof {
            reveal_strlit("scene1");
            reveal_strlit("earth");
        }
        while i < self.factories.len()
            invariant
                self.wf(),
                i <= self.factories@.len(),
                forall|j: int| 0 <= j < i ==> registered_names()[j] != name@,
            decreases self.factories@.len() - i,
        {
            if same_text(self.factories[i].name(), name) {
                return Ok(share(&self.factories[i]));
            }
            i = i + 1;
        }
        assert(name@ != registered_names()[0] && name@ != registered_names()[1]);
        Err(SceneError::NoSuchScene(name.to_owned()))
    }
}

fn get_scene_registry() -> (r: SceneRegistry)
    ensures
        r.wf(),
{
    proof {
        reveal_strlit("scene1");
        reveal_strlit("earth");
    }
    let mut factories: Vec<Arc<SceneFactory>> = Vec::new();
    factories.push(Arc::new(SceneFactory::new(SceneKind::Scene1, "scene1")));
    factories.push(Arc::new(SceneFactory::new(SceneKind::Earth, "earth")));
    let r = SceneRegistry { factories };
    assert(registered_names()[0] == "scene1"@);
    assert(registered_names()[1] == "earth"@);
    assert("scene1"@ != "earth"@);
    r
}

/// The built-in scene factory called `name`: `scene1` and `earth` are
/// registered; any other name is refused.
pub fn get_scene_factory(name: &str) -> (r: Result<Arc<SceneFactory>, SceneError>)
    ensures
        match r {
            Ok(f) => registered_kind(name@) == Some(f.spec_kind()) && f.spec_name() == name@,
            Err(SceneError::NoSuchScene(n)) => registered_kind(name@) is None && n@ == name@,
        },
{
    let registry = get_scene_registry();
    registry.get(name)
}

/// Whether two texts are the same.
pub fn same_text(a: &str, b: &str) -> (r: bool)
    ensures
        r == (a@ == b@),
{
    let n = a.unicode_len();
    let m = b.unicode_len();
    if n != m {
        return false;
    }
    let mut i: usize = 0;
    while i < n
        invariant
            i <= n == a@.len() == b@.len(),
            forall|j: int| 0 <= j < i ==> a@[j] == b@[j],
        decreases n - i,
    {
        if a.get_char(i) != b.get_char(i) {
            return false;
        }
        i = i + 1;
    }
    assert(a@ =~= b@);
    true
}

} // verus!
