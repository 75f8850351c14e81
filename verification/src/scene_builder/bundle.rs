use std::sync::Arc;
use vstd::prelude::*;

use super::builder::PlacedGeometry;
use crate::primitives::{FlipFacePrimitive, GeometricPrimitive};
use crate::utils::share;

verus! {

/// A primitive of the scene: a shape with its material, possibly with its
/// faces flipped.
pub enum ScenePrimitive<S, M> {
    Geometric(GeometricPrimitive<S, M>),
    Flipped(FlipFacePrimitive<GeometricPrimitive<S, M>>),
}

/// One built shape with what its geometry description says about it.
pub struct BuiltEntry<S, M> {
    pub shape: S,
    pub material: M,
    pub flip_face: bool,
    pub area_light: bool,
}

/// `p` is the primitive for shape `s` made of material `m`, flipped
/// exactly when `flip` is set.
pub open spec fn primitive_for<S, M>(p: ScenePrimitive<S, M>, e: BuiltEntry<S, M>) -> bool {
    match p {
        ScenePrimitive::Geometric(g) => !e.flip_face && *g.shape == e.shape && *g.material == e.material,
        ScenePrimitive::Flipped(f) => e.flip_face && *f.spec_primitive().shape == e.shape
            && *f.spec_primitive().material == e.material,
    }
}

/// The built shapes of the first `i` geometries, in order, each with the
/// material and flags of its geometry.
pub open spec fn expand<'a, T, S, M>(
    placed: Seq<PlacedGeometry<'a, T>>,
    shapes: Seq<Seq<S>>,
    materials: Seq<M>,
    i: nat,
) -> Seq<BuiltEntry<S, M>>
    decreases i,
{
    if i == 0 {
        Seq::empty()
    } else {
        let k = (i - 1) as int;
        expand(placed, shapes, materials, (i - 1) as nat) + shapes[k].map_values(
            |s: S|
                BuiltEntry {
                    shape: s,
                    material: materials[k],
                    flip_face: placed[k].flip_face,
                    area_light: placed[k].area_light,
                },
        )
    }
}

/// The entries of `entries` that are light sources, in order.
pub open spec fn lights_of<S, M>(entries: Seq<BuiltEntry<S, M>>) -> Seq<BuiltEntry<S, M>>
    decreases entries.len(),
{
    if entries.len() == 0 {
        Seq::empty()
    } else {
        lights_of(entries.drop_last()) + if entries.last().area_light {
            seq![entries.last()]
        } else {
            Seq::empty()
        }
    }
}

/// The number of shapes built for the first `i` geometries.
pub open spec fn total_shapes<S>(shapes: Seq<Seq<S>>, i: nat) -> nat
    decreases i,
{
    if i == 0 {
        0
    } else {
        total_shapes(shapes, (i - 1) as nat) + shapes[i - 1].len()
    }
}

/// The number of shapes built for those of the first `i` geometries that
/// are light sources.
pub open spec fn total_light_shapes<'a, T, S>(placed: Seq<PlacedGeometry<'a, T>>, shapes: Seq<Seq<S>>, i: nat) -> nat
    decreases i,
{
    if i == 0 {
        0
    } else {
        total_light_shapes(placed, shapes, (i - 1) as nat) + if placed[i - 1].area_light {
            shapes[i - 1].len()
        } else {
            0
        }
    }
}

/// The lights among two runs of entries are those of the first run, then
/// those of the second.
pub proof fn lemma_lights_of_concat<S, M>(a: Seq<BuiltEntry<S, M>>, b: Seq<BuiltEntry<S, M>>)
    ensures
        lights_of(a + b) == lights_of(a) + lights_of(b),
    decreases b.len(),
{
    if b.len() == 0 {
        assert(a + b =~= a);
        assert(lights_of(a) + lights_of(b) =~= lights_of(a));
    } else {
        lemma_lights_of_concat(a, b.drop_last());
        assert((a + b).drop_last() =~= a + b.drop_last());
        assert((a + b).last() == b.last());
        let tail = if b.last().area_light {
            seq![b.last()]
        } else {
            Seq::empty()
        };
        assert(lights_of(a) + lights_of(b.drop_last()) + tail =~= lights_of(a) + (lights_of(b.drop_last()) + tail));
    }
}

/// A run of entries that are all light sources, or all not, has all of
/// them, or none, among its lights.
pub proof fn lemma_lights_of_uniform<S, M>(row: Seq<BuiltEntry<S, M>>, light: bool)
    requires
        forall|k: int| 0 <= k < row.len() ==> (#[trigger] row[k]).area_light == light,
    ensures
        lights_of(row).len() == if light {
            row.len()
        } else {
            0
        },
    decreases row.len(),
{
    if row.len() > 0 {
        assert forall|k: int| 0 <= k < row.drop_last().len() implies (#[trigger] row.drop_last()[k]).area_light == light by {
            assert(row.drop_last()[k] == row[k]);
        }
        lemma_lights_of_uniform(row.drop_last(), light);
    }
}

/// A world made of built shapes has one primitive per shape, and one light
/// per shape of a geometry that is a light source.
pub proof fn lemma_world_counts<'a, T, S, M>(
    placed: Seq<PlacedGeometry<'a, T>>,
    shapes: Seq<Seq<S>>,
    materials: Seq<M>,
    i: nat,
)
    ensures
        expand(placed, shapes, materials, i).len() == total_shapes(shapes, i),
        lights_of(expand(placed, shapes, materials, i)).len() == total_light_shapes(placed, shapes, i),
    decreases i,
{
    if i > 0 {
        let k = (i - 1) as int;
        lemma_world_counts(placed, shapes, materials, (i - 1) as nat);
        let row = shapes[k].map_values(
            |s: S|
                BuiltEntry {
                    shape: s,
                    material: materials[k],
                    flip_face: placed[k].flip_face,
                    area_light: placed[k].area_light,
                },
        );
        assert(expand(placed, shapes, materials, i) == expand(placed, shapes, materials, (i - 1) as nat) + row);
        lemma_lights_of_concat(expand(placed, shapes, materials, (i - 1) as nat), row);
        lemma_lights_of_uniform(row, placed[k].area_light);
    }
}

/// The primitives of a world and, among them, those that emit light.
pub struct WorldBundle<S, M> {
    pub primitives: Vec<Arc<ScenePrimitive<S, M>>>,
    pub lights: Vec<Arc<ScenePrimitive<S, M>>>,
}

/// The values behind a list of shared handles.
pub open spec fn values<A>(v: Seq<Arc<A>>) -> Seq<A> {
    v.map_values(|a: Arc<A>| *a)
}

/// Makes the primitives of a world from its placed geometries, the shapes
/// built for each of them and each one's material: one primitive per
/// shape, in order, flipped when its geometry asks for it; the primitives
/// of geometries marked as area lights are also the world's lights.
pub fn assemble_world<'a, T, S, M>(
    placed: &Vec<PlacedGeometry<'a, T>>,
    shapes: &Vec<Vec<Arc<S>>>,
    materials: &Vec<Arc<M>>,
) -> (w: WorldBundle<S, M>)
    requires
        shapes@.len() == placed@.len(),
        materials@.len() == placed@.len(),
    ensures
        ({
            let expected = expand(
                placed@,
                shapes@.map_values(|v: Vec<Arc<S>>| values(v@)),
                values(materials@),
                placed@.len(),
            );
            &&& w.primitives@.len() == expected.len()
            &&& forall|k: int| 0 <= k < expected.len() ==> primitive_for(*w.primitives@[k], #[trigger] expected[k])
            &&& w.lights@.len() == lights_of(expected).len()
            &&& forall|k: int| 0 <= k < lights_of(expected).len() ==> primitive_for(*w.lights@[k], #[trigger] lights_of(expected)[k])
        }),
{
    let ghost sh = shapes@.map_values(|v: Vec<Arc<S>>| values(v@));
    let ghost mats = values(materials@);
    let mut primitives: Vec<Arc<ScenePrimitive<S, M>>> = Vec::new();
    let mut lights: Vec<Arc<ScenePrimitive<S, M>>> = Vec::new();
    let mut i: usize = 0;
    while i < placed.len()
        invariant
            i <= placed@.len(),
            shapes@.len() == placed@.len(),
            materials@.len() == placed@.len(),
            sh == shapes@.map_values(|v: Vec<Arc<S>>| values(v@)),
            mats == values(materials@),
            primitives@.len() == expand(placed@, sh, mats, i as nat).len(),
            forall|k: int|
                0 <= k < expand(placed@, sh, mats, i as nat).len() ==> primitive_for(
                    *primitives@[k],
                    #[trigger] expand(placed@, sh, mats, i as nat)[k],
                ),
            lights@.len() == lights_of(expand(placed@, sh, mats, i as nat)).len(),
            forall|k: int|
                0 <= k < lights_of(expand(placed@, sh, mats, i as nat)).len() ==> primitive_for(
                    *lights@[k],
                    #[trigger] lights_of(expand(placed@, sh, mats, i as nat))[k],
                ),
        decreases placed@.len() - i,
    {
        let ghost outer = expand(placed@, sh, mats, i as nat);
        let ghost row = sh[i as int].map_values(
            |s: S|
                BuiltEntry {
                    shape: s,
                    material: mats[i as int],
                    flip_face: placed@[i as int].flip_face,
                    area_light: placed@[i as int].area_light,
                },
        );
        assert(expand(placed@, sh, mats, (i + 1) as nat) == outer + row);
        let flip = placed[i].flip_face;
        let light = placed[i].area_light;
        let list = &shapes[i];
        let mut j: usize = 0;
        while j < list.len()
            invariant
                j <= list@.len(),
                i < placed@.len(),
                shapes@.len() == placed@.len(),
                materials@.len() == placed@.len(),
                *list == shapes@[i as int],
                flip == placed@[i as int].flip_face,
                light == placed@[i as int].area_light,
                sh == shapes@.map_values(|v: Vec<Arc<S>>| values(v@)),
                mats == values(materials@),
                row == sh[i as int].map_values(
                    |s: S|
                        BuiltEntry {
                            shape: s,
                            material: mats[i as int],
                            flip_face: placed@[i as int].flip_face,
                            area_light: placed@[i as int].area_light,
                        },
                ),
                primitives@.len() == (outer + row.subrange(0, j as int)).len(),
                forall|k: int|
                    0 <= k < (outer + row.subrange(0, j as int)).len() ==> primitive_for(
                        *primitives@[k],
                        #[trigger] (outer + row.subrange(0, j as int))[k],
                    ),
                lights@.len() == lights_of(outer + row.subrange(0, j as int)).len(),
                forall|k: int|
                    0 <= k < lights_of(outer + row.subrange(0, j as int)).len() ==> primitive_for(
                        *lights@[k],
                        #[trigger] lights_of(outer + row.subrange(0, j as int))[k],
                    ),
            decreases list@.len() - j,
        {
            let ghost prefix = outer + row.subrange(0, j as int);
            let ghost entry = row[j as int];
            assert(outer + row.subrange(0, j + 1) =~= prefix.push(entry));
            assert(prefix.push(entry).drop_last() =~= prefix);
            let geometric = GeometricPrimitive::new(share(&list[j]), share(&materials[i]));
            let prim = if flip {
                ScenePrimitive::Flipped(FlipFacePrimitive::new(Arc::new(geometric)))
            } else {
                ScenePrimitive::Geometric(geometric)
            };
            let prim = Arc::new(prim);
            if light {
                lights.push(share(&prim));
            }
            primitives.push(prim);
            j = j + 1;
        }
        assert(row.subrange(0, list@.len() as int) =~= row);
        i = i + 1;
    }
    WorldBundle { primitives, lights }
}

} // verus!
