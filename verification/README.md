# toy_ray_tracer

The scene-description and geometry-bookkeeping core of a small ray
tracer, written in Verus and proved against its contracts.

Coordinates, colours and other renderer quantities are generic type
parameters, so the library states and proves its logic without committing
to a number type; the renderer instantiates them with `f32`.

- `src/transform.rs` — transformations as sequences of elementary steps.
- `src/shapes/` — validated triangle-mesh storage, triangles sharing it,
  and the meshes of boxes, tetrahedra, rectangles and regular polygons.
- `src/primitives/`, `src/scene.rs`, `src/project.rs` — primitives,
  scenes and projects.
- `src/textures/` — constant, checker and image textures (row flipping,
  clamped texel lookup) and the Perlin lattice tables.
- `src/scene_builder/` — asset references, the scene-tree walk with its
  transformation stack, shapes, textures and materials from their
  descriptions, world and project assembly (scene bundles, merging,
  the light and camera checks), glTF scene assembly, mesh-file
  post-processing, project-file formats and the module offered to
  project scripts.
- `src/scenes.rs` — the registry of built-in scenes.
- `app/` — the parts outside the proofs: JSON and
  JavaScript project files, reading OBJ and glTF files and images,
  command-line options, the floating-point decisions that shapes and
  glTF lights need, and the vector helpers.
