use vstd::prelude::*;

use crate::scenes::same_text;

verus! {

/// The languages a project description can be written in.
#[derive(Clone, Copy, Debug, PartialEq, Eq, Structural)]
pub enum ProjectFormat {
    /// A JavaScript module whose default export is the project as JSON text.
    Js,
    /// A JSON document.
    Json,
}

/// The extension of the file named by `path`, as `std::path::Path::extension`
/// gives it.
pub uninterp spec fn path_extension(path: Seq<char>) -> Option<Seq<char>>;

/// The extension of the file named by `path`.
///
/// Calls `std::path::Path::extension`; std documents it as the part of the
/// file name after its last `.`, and none when there is no file name, no
/// `.` in it, or only a leading `.`. The result is named by
/// `path_extension`; an extension that is not valid Unicode is reported as
/// none.
#[verifier::external_body]
fn extension_of(path: &str) -> (r: Option<String>)
    ensures
        match r {
            Some(e) => path_extension(path@) == Some(e@),
            None => path_extension(path@) is None,
        },
{
    std::path::Path::new(path).extension().and_then(|e| e.to_str()).map(|e| e.to_string())
}

/// The format a project file is read in, from its extension: `js` or
/// `json`; any other extension, or none, is refused.
pub open spec fn format_of_extension(ext: Option<Seq<char>>) -> Option<ProjectFormat> {
    match ext {
        Some(e) => if e == "js"@ {
            Some(ProjectFormat::Js)
        } else if e == "json"@ {
            Some(ProjectFormat::Json)
        } else {
            None
        },
        None => None,
    }
}

/// The format of the project file at `path`, or `None` when its extension
/// is unsupported.
pub fn project_format(path: &str) -> (r: Option<ProjectFormat>)
    ensures
        r == format_of_extension(path_extension(path@)),
{
    match extension_of(path) {
        Some(ext) => {
            if same_text(ext.as_str(), "js") {
                Some(ProjectFormat::Js)
            } else if same_text(ext.as_str(), "json") {
                Some(ProjectFormat::Json)
            } else {
                None
            }
        },
        None => None,
    }
}

} // verus!
