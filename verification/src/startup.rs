//! Start-up decisions of the program.
use vstd::prelude::*;

verus! {

/// Resolve the library root: a command-line positional overrides (dev /
/// tooling), else the configured root, else `None` (no library to browse).
pub fn resolve_root(positional: Option<String>, configured: Option<String>) -> (r: Option<
    String,
>)
    ensures
        r == match positional {
            Some(p) => Some(p),
            None => configured,
        },
{
    match positional {
        Some(p) => Some(p),
        None => configured,
    }
}

} // verus!
