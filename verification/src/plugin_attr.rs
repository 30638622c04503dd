//! The checks the `plugin` attribute makes of the function it is put on
//! before turning it into a plugin entry point.
use vstd::prelude::*;

verus! {

/// Whether a function can become a plugin entry point: it must be
/// `async` and declare a return type. `None` when it can; otherwise the
/// message the attribute reports.
pub fn check_plugin_fn(is_async: bool, has_return_type: bool) -> (err: Option<&'static str>)
    ensures
        !is_async ==> (err matches Some(m) && m@ == "plugin can only be applied to async functions"@),
        is_async && !has_return_type ==> (err matches Some(m) && m@ == "plugin function must have a return type"@),
        is_async && has_return_type ==> err is None,
{
    if !is_async {
        Some("plugin can only be applied to async functions")
    } else if !has_return_type {
        Some("plugin function must have a return type")
    } else {
        None
    }
}

} // verus!
