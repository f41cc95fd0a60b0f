//! The actions a palette candidate can carry, the candidates themselves, and
//! the effects the shell hands back to the surrounding program.

use vstd::prelude::*;

verus! {

/// What confirming a palette candidate does.
#[derive(Clone, Debug)]
pub enum PaletteAction {
    /// Move the registry's current pointer to this tab.
    SwitchTab(usize),
    /// Open a new tab at this location.
    OpenUrl(String),
    /// Open a new tab on the search engine with this query.
    Search(String),
    /// Run one of the shell's internal commands.
    Command(String),
}

/// The mathematical image of a [`PaletteAction`].
#[verifier::ext_equal]
pub enum ActionModel {
    SwitchTab(int),
    OpenUrl(Seq<char>),
    Search(Seq<char>),
    Command(Seq<char>),
}

impl View for PaletteAction {
    type V = ActionModel;

    open spec fn view(&self) -> ActionModel {
        match self {
            PaletteAction::SwitchTab(i) => ActionModel::SwitchTab(*i as int),
            PaletteAction::OpenUrl(u) => ActionModel::OpenUrl(u@),
            PaletteAction::Search(q) => ActionModel::Search(q@),
            PaletteAction::Command(c) => ActionModel::Command(c@),
        }
    }
}

impl DeepView for PaletteAction {
    type V = ActionModel;

    open spec fn deep_view(&self) -> ActionModel {
        self.view()
    }
}

/// One row of the command palette: two display lines and the action the row
/// stands for.
#[derive(Clone, Debug)]
pub struct Candidate {
    pub title: String,
    pub subtitle: String,
    pub action: PaletteAction,
}

/// The mathematical image of a [`Candidate`].
#[verifier::ext_equal]
pub struct CandidateModel {
    pub title: Seq<char>,
    pub subtitle: Seq<char>,
    pub action: ActionModel,
}

impl View for Candidate {
    type V = CandidateModel;

    open spec fn view(&self) -> CandidateModel {
        CandidateModel { title: self.title@, subtitle: self.subtitle@, action: self.action@ }
    }
}

impl DeepView for Candidate {
    type V = CandidateModel;

    open spec fn deep_view(&self) -> CandidateModel {
        self.view()
    }
}

/// What the surrounding program must do after a shell operation: the engine
/// and application primitives the shell itself cannot perform.
#[derive(Clone, Debug)]
pub enum Effect {
    /// Nothing to do.
    Nothing,
    /// Ask the current page to enter hint mode.
    EnterHintMode,
    /// Scroll the current page down by the fixed increment.
    ScrollDown,
    /// Scroll the current page up by the fixed increment.
    ScrollUp,
    /// Reload the current page.
    Reload,
    /// Navigate the current page back, if its history allows.
    HistoryBack,
    /// Navigate the current page forward, if its history allows.
    HistoryForward,
    /// A tab was appended to the registry: create its page at this location.
    OpenTab(String),
    /// The tab at `index` was removed; `quit` says the registry became empty
    /// and the application should terminate.
    CloseTab { index: usize, quit: bool },
    /// Terminate the application.
    Quit,
    /// A palette command outside the fixed vocabulary; report it, nothing
    /// else happens.
    UnknownCommand(String),
}

} // verus!
