use vstd::prelude::*;


verus! {

/// The text that every generated module starts with: a logging helper and
/// `make_project`, which turns a project description into JSON.
pub open spec fn module_header() -> Seq<char> {
    HEADER@
}

/// Helper classes for colours, vectors and screen sizes, appended to the module.
pub open spec fn module_helpers() -> Seq<char> {
    HELPERS@
}

/// The identity constructor `make_<name>` for one kind of object.
pub open spec fn make_function(name: Seq<char>) -> Seq<char> {
    "export function make_"@ + name + "(v) { return v; }"@
}

/// The identity constructors for `names`, in order.
pub open spec fn make_functions(names: Seq<Seq<char>>) -> Seq<char>
    decreases names.len(),
{
    if names.len() == 0 {
        Seq::empty()
    } else {
        make_functions(names.drop_last()) + make_function(names.last())
    }
}

/// The kinds of objects a project script can describe.
pub open spec fn object_kinds() -> Seq<Seq<char>> {
    seq![
        "scene"@,
        "primitive_list"@,
        "primitive"@,
        "material"@,
        "texture"@,
        "camera"@,
        "settings"@,
        "vec3f"@
    ]
}

/// The module made available to project scripts: the header, one
/// identity constructor per kind of object, then the helper classes.
pub fn create_internal_module_script() -> (script: String)
    ensures
        script@ == module_header() + make_functions(object_kinds()) + module_helpers(),
{
    let names: Vec<&str> = vec!["scene", "primitive_list", "primitive", "material", "texture", "camera", "settings", "vec3f"];
    let mut script = String::new();
    script.append(HEADER);
    assert(names@.map_values(|s: &str| s@) =~= object_kinds());
    let mut i: usize = 0;
    while i < names.len()
        invariant
            i <= names@.len(),
            names@.map_values(|s: &str| s@) == object_kinds(),
            script@ == module_header() + make_functions(object_kinds().subrange(0, i as int)),
        decreases names@.len() - i,
    {
        let ghost before = script@;
        script.append("export function make_");
        script.append(names[i]);
        script.append("(v) { return v; }");
        assert(object_kinds().subrange(0, i + 1).drop_last() =~= object_kinds().subrange(0, i as int));
        assert(object_kinds().subrange(0, i + 1).last() == names@[i as int]@);
        assert(script@ =~= before + make_function(names@[i as int]@));
        i = i + 1;
    }
    assert(object_kinds().subrange(0, names@.len() as int) =~= object_kinds());
    script.append(HELPERS);
    script
}

pub const HEADER: &'static str = "\nexport function log(v) {\n    log_string(JSON.stringify(v));\n}\nexport function make_project(v) { return JSON.stringify(v); }\n";

pub const HELPERS: &'static str = "\nexport class Color {\n    static rgb2vec3(r, g, b) {\n        return [r / 255, g / 255, b / 255];\n    }\n\n    static hex2vec3(hex) {\n        const b = hex & 0xff;\n        hex >>= 8;\n        const g = hex & 0xff;\n        hex >>= 8;\n        const r = hex & 0xff;\n        return Color.rgb2vec3(r, g, b);\n    }\n};\n\nexport class Vec3 {\n    static random_f32(min = 0, max = 1) {\n        return min + Math.random() * (max - min);\n    }\n\n    static random_vec3(min = 0, max = 1) {\n        return [\n            Vec3.random_f32(min, max),\n            Vec3.random_f32(min, max),\n            Vec3.random_f32(min, max),\n        ];\n    }\n\n    static sub(v1, v2) {\n        return [v1[0] - v2[0], v1[1] - v2[1], v1[2] - v2[2]];\n    }\n\n    static add(v1, v2) {\n        return [v1[0] + v2[0], v1[1] + v2[1], v1[2] + v2[2]];\n    }\n\n    static dot(v1, v2) {\n        return v1[0] * v2[0] + v1[1] * v2[1] + v1[2] * v2[2];\n    }\n\n    static mul(v1, v2) {\n        if (typeof v2 === 'number') {\n            return [v1[0] * v2, v1[1] * v2, v1[2] * v2]\n        }\n        return [v1[0] * v2[0], v1[1] * v2[1], v1[2] * v2[2]]\n    }\n\n    static normalize(v) {\n        return Math.sqrt(Vec3.dot(v, v));\n    }\n};\n\nexport class Utils {\n    static make_screen_size(size) {\n        return {\n            width: size.width,\n            height: size.height,\n            aspect: function () {\n              return this.width / this.height;\n            },\n        }\n    }\n}\n    ";

} // verus!
