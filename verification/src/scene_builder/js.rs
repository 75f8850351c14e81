use vstd::prelude::*;


verus! {

/// The text that every generated module starts with: a logging helper and
/// `make_project`, which turns a project description into JSON.
pub open spec fn module_header() -> Seq<char> {
    HEADER@
}

/// The identity constructor `make_<name>` for one kind of object.
pub open spec fn make_function(name: Seq<char>) -> Seq<char> {
    "export function make_"@ + name + "(v) { return v; }"@
}

/// The identity constructors for `names`, in order.
pub open spec fn make_functions(names: Seq<Seq<char>>) -> Seq<char>
    decreases names.len(),
{
    if names.len() == 0 {
        Seq::empty()
    } else {
        make_functions(names.drop_last()) + make_function(names.last())
    }
}

/// The kinds of objects a project script can describe.
pub open spec fn object_kinds() -> Seq<Seq<char>> {
    seq![
        "scene"@,
        "geometry_list"@,
        "geometry"@,
        "material"@,
        "texture"@,
        "camera"@,
        "sky"@,
        "settings"@,
        "vec3f"@
    ]
}

/// The module made available to project scripts: the header, then one
/// identity constructor per kind of object.
pub fn create_internal_module_script() -> (script: String)
    ensures
        script@ == module_header() + make_functions(object_kinds()),
{
    let names: Vec<&str> = vec!["scene", "geometry_list", "geometry", "material", "texture", "camera", "sky", "settings", "vec3f"];
    let mut script = String::new();
    script.append(HEADER);
    assert(names@.map_values(|s: &str| s@) =~= object_kinds());
    let mut i: usize = 0;
    while i < names.len()
        invariant
            i <= names@.len(),
            names@.map_values(|s: &str| s@) == object_kinds(),
            script@ == module_header() + make_functions(object_kinds().subrange(0, i as int)),
        decreases names@.len() - i,
    {
        let ghost before = script@;
        script.append("export function make_");
        script.append(names[i]);
        script.append("(v) { return v; }");
        assert(object_kinds().subrange(0, i + 1).drop_last() =~= object_kinds().subrange(0, i as int));
        assert(object_kinds().subrange(0, i + 1).last() == names@[i as int]@);
        assert(script@ =~= before + make_function(names@[i as int]@));
        i = i + 1;
    }
    assert(object_kinds().subrange(0, names@.len() as int) =~= object_kinds());
    script
}

pub const HEADER: &'static str = "\nexport function log(v) {\n    log_string(JSON.stringify(v));\n}\nexport function make_project(v) { return JSON.stringify(v); }\n";

} // verus!
