//! The bootstrap script: the snippet that hands the profile to the embedded
//! content. It runs before any other script and assigns the profile, as a
//! JSON literal, to one global variable; whatever goes wrong in that
//! assignment is caught and dropped.

use crate::json::{json_text, JsonNode, JsonValue};
use crate::profile::{default_profile, default_profile_node, load, loaded, text_view};
use vstd::prelude::*;
use vstd::string::StringExecFns;

verus! {

/// How the script opens: a comment, then the guarded block.
pub const SCRIPT_OPEN: &'static str =
    "\n        // Bootstrap for cloak_browser\n        try {\n          ";

/// The global variable that receives the profile.
pub const INITIAL_PROFILE_GLOBAL: &'static str = "window.__CB_INITIAL__";

/// The assignment sign between the variable and the literal.
pub const ASSIGN: &'static str = " = ";

/// How the script closes: it ends the assignment and swallows any failure.
pub const SCRIPT_CLOSE: &'static str = ";\n        } catch(_e) {}\n        ";

/// The literal written where a profile cannot be written as JSON.
pub const EMPTY_LITERAL: &'static str = "{}";

/// The script that assigns `literal` to the global variable: one
/// assignment, inside a block that catches whatever it throws.
pub open spec fn script_around(literal: Seq<char>) -> Seq<char> {
    SCRIPT_OPEN@ + INITIAL_PROFILE_GLOBAL@ + ASSIGN@ + literal + SCRIPT_CLOSE@
}

/// The literal that stands for `profile` in the script: its JSON text, or
/// the empty object where it has none.
pub open spec fn profile_literal(profile: JsonNode) -> Seq<char> {
    match json_text(profile) {
        Some(text) => text,
        None => EMPTY_LITERAL@,
    }
}

/// Wraps a JSON literal into the script that assigns it.
pub fn script_for_literal(literal: &str) -> (script: String)
    ensures
        script@ == script_around(literal@),
{
    let mut script = String::from_str(SCRIPT_OPEN);
    script.append(INITIAL_PROFILE_GLOBAL);
    script.append(ASSIGN);
    script.append(literal);
    script.append(SCRIPT_CLOSE);
    script
}

/// The script that hands `profile` to the embedded content.
pub fn script_for_profile(profile: &JsonValue) -> (script: String)
    ensures
        script@ == script_around(profile_literal(profile@)),
{
    match profile.to_text() {
        Some(text) => script_for_literal(text.as_str()),
        None => script_for_literal(EMPTY_LITERAL),
    }
}

/// Builds the bootstrap script from what the profile file held (`None` for a
/// file that could not be read) and the URL of the first tab of a fresh
/// profile. The value assigned is the loaded profile, or the default one
/// where none could be loaded.
pub fn create_bootstrap_script(contents: Option<&str>, start_url: &str) -> (script: String)
    ensures
        script@ == script_around(
            profile_literal(loaded(text_view(contents), default_profile_node(start_url@))),
        ),
{
    let profile = load(contents, default_profile(start_url));
    script_for_profile(&profile)
}

} // verus!
