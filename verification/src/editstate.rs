//! The edit-state tracker's decisions: whether the page's focused element
//! consumes text input, and whether Escape should defocus it.
//!
//! The tracker runs inside the page and reports a single boolean to the
//! shell; the shell-side record lives on the session. These functions are
//! the tracker's two rules over the focused element's plain attributes.

use vstd::prelude::*;

use crate::keys::Key;
use crate::text::str_eq;

verus! {

/// A text-input surface: a native input or textarea, an element marked
/// content-editable, or one carrying an explicit textbox role.
pub open spec fn is_text_input_spec(tag: Seq<char>, content_editable: bool, role: Seq<char>) -> bool {
    content_editable || tag == "INPUT"@ || tag == "TEXTAREA"@ || role == "textbox"@
}

/// Decides the boolean the tracker reports for the focused element, from
/// its tag name, content-editable flag and explicit role.
pub fn is_text_input_surface(tag: &str, content_editable: bool, role: &str) -> (r: bool)
    ensures
        r == is_text_input_spec(tag@, content_editable, role@),
{
    content_editable || str_eq(tag, "INPUT") || str_eq(tag, "TEXTAREA") || str_eq(role, "textbox")
}

/// The tracker's Escape rule: pressing Escape while a text-input surface is
/// focused defocuses it and suppresses default handling; any other key, or
/// any other element, is left alone.
pub fn escape_should_blur(key: Key, tag: &str, content_editable: bool, role: &str) -> (r: bool)
    ensures
        r == ((key is Escape) && is_text_input_spec(tag@, content_editable, role@)),
{
    key == Key::Escape && is_text_input_surface(tag, content_editable, role)
}

} // verus!
