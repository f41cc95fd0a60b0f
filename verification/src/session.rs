//! One open page session (tab) as the shell sees it.

use vstd::prelude::*;

verus! {

/// The shell-side record of one open tab. The page itself is owned by the
/// engine; the shell keeps only the derived display state and the
/// asynchronously reported edit-state flag.
#[derive(Clone, Debug)]
pub struct Session {
    /// The page title, once the engine has reported one.
    pub title: Option<String>,
    /// The page location, once known.
    pub location: Option<String>,
    /// Whether the page's focused element consumes text input. `None` until
    /// the page first reports it; the dispatcher treats `None` as "not
    /// editable" (fail open toward shortcuts).
    pub edit_state: Option<bool>,
}

/// The mathematical image of a [`Session`].
#[verifier::ext_equal]
pub struct SessionModel {
    pub title: Option<Seq<char>>,
    pub location: Option<Seq<char>>,
    pub edit_state: Option<bool>,
}

impl View for Session {
    type V = SessionModel;

    open spec fn view(&self) -> SessionModel {
        SessionModel {
            title: match self.title {
                Some(ref t) => Some(t@),
                None => None,
            },
            location: match self.location {
                Some(ref u) => Some(u@),
                None => None,
            },
            edit_state: self.edit_state,
        }
    }
}

impl DeepView for Session {
    type V = SessionModel;

    open spec fn deep_view(&self) -> SessionModel {
        self.view()
    }
}

/// The title a session is displayed under: its reported title, or the
/// placeholder for a page that has not reported one.
pub open spec fn display_title(s: SessionModel) -> Seq<char> {
    match s.title {
        Some(t) => t,
        None => "Untitled"@,
    }
}

/// The location a session is matched and displayed by: its reported
/// location, or the empty string.
pub open spec fn display_location(s: SessionModel) -> Seq<char> {
    match s.location {
        Some(u) => u,
        None => Seq::empty(),
    }
}

impl Session {
    /// A fresh session at the given location: no title yet, no edit-state
    /// report yet.
    pub fn at_location(location: &str) -> (s: Session)
        ensures
            s@.title is None,
            s@.location == Some(location@),
            s@.edit_state is None,
    {
        Session {
            title: None,
            location: Some(String::from_str(location)),
            edit_state: None,
        }
    }
}

} // verus!
