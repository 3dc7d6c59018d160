//! What a generic plugin tells the host about itself.

use vstd::prelude::*;
use crate::text::push_str;

verus! {

/// What a generic plugin is.
#[derive(Debug, Clone)]
pub struct GenericPluginTable {
    /// The plugin's name.
    pub name: String,
    /// The information text shown in the plugin information dialog.
    pub information: String,
}

/// The information text that a plugin registers: the text, followed by
/// ` (Debug Build)` in a debug build.
pub fn plugin_information_text(information: &str, debug_build: bool) -> (r: String)
    ensures
        r@ == (if debug_build {
            information@ + " (Debug Build)"@
        } else {
            information@
        }),
{
    let mut s = String::new();
    push_str(&mut s, information);
    if debug_build {
        push_str(&mut s, " (Debug Build)");
    }
    s
}

/// The information text that input and script-module plugins register: the
/// text, preceded by `(Debug Build) ` in a debug build.
pub fn prefixed_information_text(information: &str, debug_build: bool) -> (r: String)
    ensures
        r@ == (if debug_build {
            "(Debug Build) "@ + information@
        } else {
            information@
        }),
{
    let mut s = String::new();
    if debug_build {
        push_str(&mut s, "(Debug Build) ");
    }
    push_str(&mut s, information);
    s
}

} // verus!
