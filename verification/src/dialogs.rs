//! The owned alert dialog's response appearances.
use vstd::prelude::*;

verus! {

/// How a dialog response button is styled.
#[derive(Debug, Clone, Copy, PartialEq, Eq, Structural)]
pub enum Appearance {
    Suggested,
    Destructive,
}

/// The style class of a response appearance.
pub fn appearance_class(appearance: Appearance) -> (r: &'static str)
    ensures
        r@ == match appearance {
            Appearance::Suggested => "suggested-action"@,
            Appearance::Destructive => "destructive-action"@,
        },
{
    match appearance {
        Appearance::Suggested => "suggested-action",
        Appearance::Destructive => "destructive-action",
    }
}

} // verus!
