//! The clipboard-publish interface, an external collaborator: the
//! embedding program implements it by invoking a clipboard utility.
use vstd::prelude::*;

verus! {

/// The clipboard-publish step failed. Reported, never fatal: the grab
/// state must still be unwound correctly.
#[derive(Copy, Clone, Debug, PartialEq, Eq, Structural)]
pub struct PublishError;

/// Publishing a payload to a shared clipboard, with an optional
/// content-type hint that is passed through unmodified.
pub trait Clipboard {
    fn to_clipboard(&self, target: Option<&str>) -> Result<(), PublishError>;
}

} // verus!
