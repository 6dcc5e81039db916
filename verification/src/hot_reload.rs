//! Live reload during development.
//!
//! A page that includes the reload script asks the server again and again for
//! the identifier of the running build and reloads itself once the answer
//! differs from the identifier it was served with. The identifier is fixed
//! when the program is built; the functions here take it as an argument,
//! `None` where the build set none.

use vstd::prelude::*;
use vstd::string::StringExecFns;

verus! {

/// The text of the reload script before the build identifier.
pub open spec fn script_head() -> Seq<char> {
    "\nlet current_version = \""@
}

/// The text of the reload script after the build identifier.
pub open spec fn script_tail() -> Seq<char> {
    "\".trim();\nasync function watch() {\n  const response = await fetch(\"/reload/build_id\");\n  const version = (await response.text()).trim();\n  if (version.length > 0 && version != current_version) {\n    console.log(\"old version\", current_version);\n    console.log(\"new version\", version);\n    window.location.reload();\n  }\n}\n\nsetInterval(watch, 2000);\n\nhtmx.logAll();"@
}

/// The identifier that the running build answers with.
pub open spec fn build_id_of(build_id: Option<&'static str>) -> Seq<char> {
    match build_id {
        Some(id) => id@,
        None => "not_set"@,
    }
}

/// The identifier of the build, `"not_set"` where the build set none.
pub fn hot_reload_build_id(build_id: Option<&'static str>) -> (r: &'static str)
    ensures
        r@ == build_id_of(build_id),
{
    match build_id {
        Some(id) => id,
        None => "not_set",
    }
}

/// Whether live reload is switched on: it is exactly when the build set an
/// identifier.
pub fn hot_reload_enabled(build_id: Option<&'static str>) -> (r: bool)
    ensures
        r == build_id is Some,
{
    build_id.is_some()
}

/// The markup that loads the reload script, empty when live reload is off.
pub fn hot_reload_script_tag(build_id: Option<&'static str>) -> (r: &'static str)
    ensures
        build_id is Some ==> r@ == "<script src=\"/reload/script\"></script>"@,
        build_id is None ==> r@ == Seq::<char>::empty(),
{
    if hot_reload_enabled(build_id) {
        "<script src=\"/reload/script\"></script>"
    } else {
        proof {
            reveal_strlit("");
        }
        ""
    }
}

/// The reload script: the build's identifier set between the two fixed parts
/// of the script.
pub fn hot_reload_script(build_id: Option<&'static str>) -> (r: String)
    ensures
        r@ == script_head() + build_id_of(build_id) + script_tail(),
{
    let head = String::from_str("\nlet current_version = \"");
    let with_id = head.concat(hot_reload_build_id(build_id));
    with_id.concat(
        "\".trim();\nasync function watch() {\n  const response = await fetch(\"/reload/build_id\");\n  const version = (await response.text()).trim();\n  if (version.length > 0 && version != current_version) {\n    console.log(\"old version\", current_version);\n    console.log(\"new version\", version);\n    window.location.reload();\n  }\n}\n\nsetInterval(watch, 2000);\n\nhtmx.logAll();",
    )
}

} // verus!
