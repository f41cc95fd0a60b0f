//! The shell window's state: the ordered tab registry with its current
//! pointer, the command palette, and the dock, together with every
//! operation the shortcuts and the palette dispatch to.

use vstd::prelude::*;

use crate::action::{ActionModel, CandidateModel, Effect, PaletteAction};
use crate::palette::{
    build_candidates, likely_url, likely_url_str, palette_candidates, search_url, Palette,
};
use crate::session::{Session, SessionModel};
use crate::text::{dec_spec, dec_string, percent_encode_spec, str_eq, trim_spec};

verus! {

/// The derived status text of the dock: a constant profile label, a
/// location label for the current page, and the pluralized tab count.
pub struct DockInfo {
    pub profile: String,
    pub location: String,
    pub tabs: String,
}

/// The shell window: the session registry, the palette, and the two
/// visibility flags the shortcuts toggle.
pub struct Window {
    /// The open sessions, in tab order.
    pub sessions: Vec<Session>,
    /// The current tab: exactly one whenever the registry is non-empty,
    /// none when it is empty.
    pub current: Option<usize>,
    /// The command palette.
    pub palette: Palette,
    /// Whether the status dock is revealed.
    pub dock_visible: bool,
    /// Whether the key controllers have been attached; until then every
    /// key passes through to the toolkit untouched.
    pub shortcuts_installed: bool,
}

impl Window {
    /// The window's invariant: the current pointer exists exactly when
    /// there are sessions and stays in bounds, and the palette selection
    /// stays within the candidate list.
    pub open spec fn wf(self) -> bool {
        &&& (self.current is Some <==> self.sessions.len() > 0)
        &&& (self.current matches Some(i) ==> i < self.sessions.len())
        &&& (self.palette.selected matches Some(j) ==> j < self.palette.candidates.len())
    }

    /// The current session's edit-state flag is known to be true. A missing
    /// report counts as "not editing": the shell fails open toward
    /// shortcuts.
    pub open spec fn editing_now(self) -> bool {
        self.current matches Some(i) && i < self.sessions.len() && self.sessions[i as int].edit_state
            == Some(true)
    }

    /// Content mode: the palette is closed, a session is current, and the
    /// page is not consuming text input — the mode in which the single-key
    /// shortcuts fire.
    pub open spec fn content_mode(self) -> bool {
        &&& !self.palette.visible
        &&& self.current is Some
        &&& !self.editing_now()
    }
}

/// Everything but the current pointer is unchanged.
pub open spec fn only_current_changed(pre: Window, post: Window) -> bool {
    &&& post.sessions == pre.sessions
    &&& post.palette == pre.palette
    &&& post.dock_visible == pre.dock_visible
    &&& post.shortcuts_installed == pre.shortcuts_installed
}

/// The post-state palette is hidden and cleared.
pub open spec fn palette_hidden(post: Window) -> bool {
    &&& !post.palette.visible
    &&& post.palette.query@ == Seq::<char>::empty()
    &&& post.palette.candidates.len() == 0
    &&& post.palette.candidates.deep_view() == Seq::<CandidateModel>::empty()
    &&& post.palette.selected is None
}

/// A session was appended at `loc` and became current; nothing else moved.
pub open spec fn new_tab_rel(pre: Window, post: Window, loc: Seq<char>) -> bool {
    &&& post.sessions.len() == pre.sessions.len() + 1
    &&& post.sessions.deep_view() == pre.sessions.deep_view().push(
        SessionModel { title: None, location: Some(loc), edit_state: None },
    )
    &&& post.current == Some(pre.sessions.len() as usize)
    &&& post.palette == pre.palette
    &&& post.dock_visible == pre.dock_visible
    &&& post.shortcuts_installed == pre.shortcuts_installed
}

/// The registry's part of closing the current tab: with no current tab
/// nothing happens; otherwise the current session is removed, the new
/// current tab is the one now at the same position (clamped to the end),
/// and the effect reports the removed index and whether the registry
/// emptied, which asks the application to terminate.
pub open spec fn close_step(pre: Window, post: Window, eff: Effect) -> bool {
    &&& pre.current is None ==> post.sessions == pre.sessions && post.current == pre.current && eff
        is Nothing
    &&& pre.current matches Some(i) ==> {
        let n = pre.sessions.len() as int;
        let j = i as int;
        let clamped = if j < n - 1 {
            j
        } else {
            n - 2
        };
        &&& post.sessions.len() == pre.sessions.len() - 1
        &&& post.sessions.deep_view() == pre.sessions.deep_view().remove(j)
        &&& (n == 1 ==> post.current is None)
        &&& (n > 1 ==> post.current == Some(clamped as usize))
        &&& eff matches Effect::CloseTab { index, quit } && index == i && quit == (n == 1)
    }
}

/// Which index one cycling step reaches: the next or previous tab, wrapping
/// at the ends.
pub open spec fn cycle_index(i: int, n: int, forward: bool) -> int {
    if forward {
        if i + 1 < n {
            i + 1
        } else {
            0
        }
    } else {
        if i > 0 {
            i - 1
        } else {
            n - 1
        }
    }
}

/// `k` cycling steps in the same direction, composed.
pub open spec fn iter_cycle(k: nat, i: int, n: int, forward: bool) -> int
    decreases k,
{
    if k == 0 {
        i
    } else {
        cycle_index(iter_cycle((k - 1) as nat, i, n, forward), n, forward)
    }
}

/// The current pointer moved one cycling step; with no tabs nothing
/// happens.
pub open spec fn cycle_rel(pre: Window, post: Window, forward: bool) -> bool {
    &&& only_current_changed(pre, post)
    &&& pre.current is None ==> post.current == pre.current
    &&& pre.current matches Some(i) ==> post.current == Some(
        cycle_index(i as int, pre.sessions.len() as int, forward) as usize,
    )
}

/// The current pointer moved to `idx` if it is in bounds, else nothing
/// happened.
pub open spec fn focus_rel(pre: Window, post: Window, idx: usize) -> bool {
    &&& only_current_changed(pre, post)
    &&& idx < pre.sessions.len() ==> post.current == Some(idx)
    &&& idx >= pre.sessions.len() ==> post.current == pre.current
}

/// The palette closed: hidden and cleared, everything else untouched.
pub open spec fn palette_close_rel(pre: Window, post: Window) -> bool {
    &&& post.sessions == pre.sessions
    &&& post.current == pre.current
    &&& post.dock_visible == pre.dock_visible
    &&& post.shortcuts_installed == pre.shortcuts_installed
    &&& palette_hidden(post)
}

/// The palette opened: visible with an empty query, listing every open tab
/// with the first row selected; everything else untouched.
pub open spec fn palette_open_rel(pre: Window, post: Window) -> bool {
    &&& post.sessions == pre.sessions
    &&& post.current == pre.current
    &&& post.dock_visible == pre.dock_visible
    &&& post.shortcuts_installed == pre.shortcuts_installed
    &&& post.palette.visible
    &&& post.palette.query@ == Seq::<char>::empty()
    &&& post.palette.candidates.len() == pre.sessions.len()
    &&& post.palette.candidates.deep_view() == palette_candidates(
        Seq::empty(),
        pre.sessions.deep_view(),
    )
    &&& post.palette.selected == (if pre.sessions.len() > 0 {
        Some(0usize)
    } else {
        None::<usize>
    })
}

/// What executing a palette action does: the palette is hidden and cleared
/// in every case, and the action's variant decides the registry change and
/// the effect handed out.
pub open spec fn execute_rel(pre: Window, post: Window, a: ActionModel, eff: Effect) -> bool {
    &&& palette_hidden(post)
    &&& post.dock_visible == pre.dock_visible
    &&& post.shortcuts_installed == pre.shortcuts_installed
    &&& match a {
        ActionModel::SwitchTab(i) => {
            &&& eff is Nothing
            &&& post.sessions == pre.sessions
            &&& (0 <= i < pre.sessions.len() ==> post.current == Some(i as usize))
            &&& !(0 <= i < pre.sessions.len()) ==> post.current == pre.current
        },
        ActionModel::OpenUrl(u) => {
            &&& post.sessions.len() == pre.sessions.len() + 1
            &&& post.sessions.deep_view() == pre.sessions.deep_view().push(
                SessionModel { title: None, location: Some(u), edit_state: None },
            )
            &&& post.current == Some(pre.sessions.len() as usize)
            &&& eff matches Effect::OpenTab(s) && s@ == u
        },
        ActionModel::Search(q) => {
            let url = "https://duckduckgo.com/?q="@ + percent_encode_spec(q);
            &&& post.sessions.len() == pre.sessions.len() + 1
            &&& post.sessions.deep_view() == pre.sessions.deep_view().push(
                SessionModel { title: None, location: Some(url), edit_state: None },
            )
            &&& post.current == Some(pre.sessions.len() as usize)
            &&& eff matches Effect::OpenTab(s) && s@ == url
        },
        ActionModel::Command(c) => {
            if c == "quit"@ || c == "q"@ {
                &&& eff is Quit
                &&& post.sessions == pre.sessions
                &&& post.current == pre.current
            } else if c == "reload"@ || c == "r"@ {
                &&& (pre.current is Some ==> eff is Reload)
                &&& (pre.current is None ==> eff is Nothing)
                &&& post.sessions == pre.sessions
                &&& post.current == pre.current
            } else if c == "close"@ || c == "d"@ {
                close_step(pre, post, eff)
            } else {
                &&& eff matches Effect::UnknownCommand(s) && s@ == c
                &&& post.sessions == pre.sessions
                &&& post.current == pre.current
            }
        },
    }
}

impl Window {
    /// A fresh shell: no sessions, hidden palette, hidden dock, shortcuts
    /// not yet attached.
    pub fn new() -> (w: Window)
        ensures
            w.wf(),
            w.sessions.len() == 0,
            w.sessions.deep_view() == Seq::<SessionModel>::empty(),
            w.current is None,
            !w.palette.visible,
            w.palette.selected is None,
            !w.dock_visible,
            !w.shortcuts_installed,
    {
        let w = Window {
            sessions: Vec::new(),
            current: None,
            palette: Palette::new(),
            dock_visible: false,
            shortcuts_installed: false,
        };
        proof {
            assert(w.sessions.deep_view() =~= Seq::<SessionModel>::empty());
        }
        w
    }

    /// Appends a session at the given location and makes it current.
    pub fn new_tab(&mut self, location: &str)
        requires
            old(self).wf(),
        ensures
            final(self).wf(),
            new_tab_rel(*old(self), *final(self), location@),
    {
        let s = Session::at_location(location);
        self.sessions.push(s);
        self.current = Some(self.sessions.len() - 1);
        proof {
            assert(self.sessions.deep_view() =~= old(self).sessions.deep_view().push(
                SessionModel { title: None, location: Some(location@), edit_state: None },
            ));
        }
    }

    /// Removes the current session. Closing with an empty registry is a
    /// no-op; closing the last session reports that the application should
    /// terminate.
    pub fn close_current_tab(&mut self) -> (eff: Effect)
        requires
            old(self).wf(),
        ensures
            final(self).wf(),
            close_step(*old(self), *final(self), eff),
            final(self).palette == old(self).palette,
            final(self).dock_visible == old(self).dock_visible,
            final(self).shortcuts_installed == old(self).shortcuts_installed,
    {
        match self.current {
            None => Effect::Nothing,
            Some(i) => {
                self.sessions.remove(i);
                proof {
                    assert(self.sessions.deep_view() =~= old(self).sessions.deep_view().remove(
                        i as int,
                    ));
                }
                let n = self.sessions.len();
                if n == 0 {
                    self.current = None;
                    Effect::CloseTab { index: i, quit: true }
                } else {
                    self.current = Some(if i < n {
                        i
                    } else {
                        n - 1
                    });
                    Effect::CloseTab { index: i, quit: false }
                }
            },
        }
    }

    /// Moves the current pointer to the next or previous tab, wrapping;
    /// does nothing with no tabs open.
    pub fn cycle_tab(&mut self, forward: bool)
        requires
            old(self).wf(),
        ensures
            final(self).wf(),
            cycle_rel(*old(self), *final(self), forward),
    {
        match self.current {
            None => {},
            Some(i) => {
                let n = self.sessions.len();
                let next = if forward {
                    if i + 1 < n {
                        i + 1
                    } else {
                        0
                    }
                } else {
                    if i > 0 {
                        i - 1
                    } else {
                        n - 1
                    }
                };
                self.current = Some(next);
            },
        }
    }

    /// Moves the current pointer to `idx` when it is in bounds; out-of-range
    /// indices are silently ignored.
    pub fn focus_tab_by_index(&mut self, idx: usize)
        requires
            old(self).wf(),
        ensures
            final(self).wf(),
            focus_rel(*old(self), *final(self), idx),
    {
        if idx < self.sessions.len() {
            self.current = Some(idx);
        }
    }

    /// The current session, or none with an empty registry.
    pub fn current_session(&self) -> (r: Option<&Session>)
        requires
            self.wf(),
        ensures
            (r is Some) == (self.current is Some),
            r matches Some(s) ==> self.current matches Some(i) && *s == self.sessions[i as int],
    {
        match self.current {
            None => None,
            Some(i) => Some(&self.sessions[i]),
        }
    }

    /// Records the edit-state flag a page reported for the session at
    /// `index`; reports for a session that no longer exists are dropped.
    pub fn set_edit_state(&mut self, index: usize, editable: bool)
        requires
            old(self).wf(),
        ensures
            final(self).wf(),
            final(self).current == old(self).current,
            final(self).palette == old(self).palette,
            final(self).dock_visible == old(self).dock_visible,
            final(self).shortcuts_installed == old(self).shortcuts_installed,
            final(self).sessions.len() == old(self).sessions.len(),
            index < old(self).sessions.len() ==> final(self).sessions.deep_view() == old(
                self,
            ).sessions.deep_view().update(
                index as int,
                SessionModel {
                    title: old(self).sessions.deep_view()[index as int].title,
                    location: old(self).sessions.deep_view()[index as int].location,
                    edit_state: Some(editable),
                },
            ),
            index >= old(self).sessions.len() ==> final(self).sessions == old(self).sessions,
    {
        if index < self.sessions.len() {
            let mut s = self.sessions.remove(index);
            s.edit_state = Some(editable);
            self.sessions.insert(index, s);
            proof {
                assert(self.sessions.deep_view() =~= old(self).sessions.deep_view().update(
                    index as int,
                    SessionModel {
                        title: old(self).sessions.deep_view()[index as int].title,
                        location: old(self).sessions.deep_view()[index as int].location,
                        edit_state: Some(editable),
                    },
                ));
            }
        }
    }

    /// Toggles the status dock.
    pub fn toggle_dock(&mut self)
        requires
            old(self).wf(),
        ensures
            final(self).wf(),
            final(self).sessions == old(self).sessions,
            final(self).current == old(self).current,
            final(self).palette == old(self).palette,
            final(self).shortcuts_installed == old(self).shortcuts_installed,
            final(self).dock_visible == !old(self).dock_visible,
    {
        self.dock_visible = !self.dock_visible;
    }

    /// Recomputes the palette for a new query: the candidate list follows
    /// the fixed ordering rule, and the selection returns to the first row
    /// (or to none when there are no rows).
    pub fn populate_command_palette(&mut self, query: &str)
        requires
            old(self).wf(),
        ensures
            final(self).wf(),
            final(self).sessions == old(self).sessions,
            final(self).current == old(self).current,
            final(self).dock_visible == old(self).dock_visible,
            final(self).shortcuts_installed == old(self).shortcuts_installed,
            final(self).palette.visible == old(self).palette.visible,
            final(self).palette.query@ == query@,
            final(self).palette.candidates.len() == palette_candidates(
                trim_spec(query@),
                old(self).sessions.deep_view(),
            ).len(),
            final(self).palette.candidates.deep_view() == palette_candidates(
                trim_spec(query@),
                old(self).sessions.deep_view(),
            ),
            final(self).palette.selected == (if palette_candidates(
                trim_spec(query@),
                old(self).sessions.deep_view(),
            ).len() > 0 {
                Some(0usize)
            } else {
                None::<usize>
            }),
    {
        let cands = build_candidates(query, &self.sessions);
        self.palette.query = String::from_str(query);
        self.palette.selected = if cands.len() > 0 {
            Some(0)
        } else {
            None
        };
        self.palette.candidates = cands;
    }

    /// Toggles the palette: hiding clears it; showing resets the query to
    /// empty and lists every open tab, with the first row selected.
    pub fn toggle_command_palette(&mut self)
        requires
            old(self).wf(),
        ensures
            final(self).wf(),
            final(self).palette.visible == !old(self).palette.visible,
            old(self).palette.visible ==> palette_close_rel(*old(self), *final(self)),
            !old(self).palette.visible ==> palette_open_rel(*old(self), *final(self)),
    {
        if self.palette.visible {
            self.palette.visible = false;
            self.palette.query = String::new();
            self.palette.candidates = Vec::new();
            self.palette.selected = None;
            proof {
                assert(self.palette.candidates.deep_view() =~= Seq::<CandidateModel>::empty());
            }
        } else {
            self.populate_command_palette("");
            self.palette.visible = true;
            proof {
                crate::text::lemma_empty_strlit();
                crate::palette::lemma_empty_query_lists_tabs(old(self).sessions.deep_view());
            }
        }
    }

    /// Hides and clears the palette, then performs the chosen action:
    /// switching tabs moves the current pointer (bounds-checked), a
    /// location or search opens a new tab, and a command runs the fixed
    /// vocabulary (`quit`/`q`, `reload`/`r`, `close`/`d`), reporting
    /// anything else as unknown.
    pub fn execute_palette_action(&mut self, action: PaletteAction) -> (eff: Effect)
        requires
            old(self).wf(),
        ensures
            final(self).wf(),
            execute_rel(*old(self), *final(self), action@, eff),
    {
        self.palette.visible = false;
        self.palette.query = String::new();
        self.palette.candidates = Vec::new();
        self.palette.selected = None;
        proof {
            assert(self.palette.candidates.deep_view() =~= Seq::<CandidateModel>::empty());
        }
        match action {
            PaletteAction::SwitchTab(i) => {
                self.focus_tab_by_index(i);
                Effect::Nothing
            },
            PaletteAction::OpenUrl(url) => {
                self.new_tab(url.as_str());
                Effect::OpenTab(url)
            },
            PaletteAction::Search(q) => {
                let url = search_url(q.as_str());
                self.new_tab(url.as_str());
                Effect::OpenTab(url)
            },
            PaletteAction::Command(cmd) => {
                if str_eq(cmd.as_str(), "quit") || str_eq(cmd.as_str(), "q") {
                    Effect::Quit
                } else if str_eq(cmd.as_str(), "reload") || str_eq(cmd.as_str(), "r") {
                    if self.current.is_some() {
                        Effect::Reload
                    } else {
                        Effect::Nothing
                    }
                } else if str_eq(cmd.as_str(), "close") || str_eq(cmd.as_str(), "d") {
                    self.close_current_tab()
                } else {
                    Effect::UnknownCommand(cmd)
                }
            },
        }
    }

    /// Performs the selected candidate's action and closes the palette;
    /// with nothing selected, nothing happens.
    pub fn confirm(&mut self) -> (eff: Effect)
        requires
            old(self).wf(),
        ensures
            final(self).wf(),
            old(self).palette.selected matches Some(i) ==> execute_rel(
                *old(self),
                *final(self),
                old(self).palette.candidates.deep_view()[i as int].action,
                eff,
            ),
            old(self).palette.selected is None ==> *final(self) == *old(self) && eff is Nothing,
    {
        match self.palette.selected {
            None => Effect::Nothing,
            Some(i) => {
                self.palette.selected = None;
                let chosen = self.palette.candidates.remove(i);
                proof {
                    assert(chosen@.action == old(self).palette.candidates.deep_view()[
                        i as int
                    ].action);
                }
                self.execute_palette_action(chosen.action)
            },
        }
    }

    /// The query heuristic for the primary candidate: a location, if it
    /// contains a period, no space, and no leading `?`.
    pub fn is_likely_url(&self, query: &str) -> (r: bool)
        ensures
            r == likely_url(query@),
    {
        likely_url_str(query)
    }
}

/// The dock's location label: the current page's location if known, else
/// its title, else a loading placeholder; a fixed label with no page open.
pub open spec fn dock_location_spec(w: Window) -> Seq<char> {
    match w.current {
        None => "No page."@,
        Some(i) => {
            let s = w.sessions[i as int]@;
            match s.location {
                Some(u) => u,
                None => match s.title {
                    Some(t) => t,
                    None => "Loading..."@,
                },
            }
        },
    }
}

/// The dock's tab-count label, pluralized on the count.
pub open spec fn tab_label_spec(n: nat) -> Seq<char> {
    if n == 1 {
        "1 tab open"@
    } else {
        dec_spec(n) + " tabs open"@
    }
}

impl Window {
    /// The dock's derived status text: the constant profile label, the
    /// location label and the pluralized tab count.
    pub fn update_dock_info(&self) -> (d: DockInfo)
        requires
            self.wf(),
        ensures
            d.profile@ == "default profile"@,
            d.location@ == dock_location_spec(*self),
            d.tabs@ == tab_label_spec(self.sessions.len() as nat),
    {
        let location = match self.current {
            None => String::from_str("No page."),
            Some(i) => {
                let s = &self.sessions[i];
                match &s.location {
                    Some(u) => u.clone(),
                    None => match &s.title {
                        Some(t) => t.clone(),
                        None => String::from_str("Loading..."),
                    },
                }
            },
        };
        let n = self.sessions.len();
        let tabs = if n == 1 {
            String::from_str("1 tab open")
        } else {
            dec_string(n).concat(" tabs open")
        };
        DockInfo { profile: String::from_str("default profile"), location, tabs }
    }
}

proof fn lemma_iter_cycle_forward(k: nat, i: int, n: int)
    requires
        0 <= i < n,
        k <= n,
    ensures
        iter_cycle(k, i, n, true) == if i + k < n {
            i + k
        } else {
            i + k - n
        },
    decreases k,
{
    if k > 0 {
        lemma_iter_cycle_forward((k - 1) as nat, i, n);
    }
}

/// Law: cycling forward as many times as there are tabs returns the
/// current pointer to where it began.
pub proof fn lemma_cycle_full_round(i: int, n: int)
    requires
        0 <= i < n,
    ensures
        iter_cycle(n as nat, i, n, true) == i,
{
    lemma_iter_cycle_forward(n as nat, i, n);
}

/// Law: one step forward then one step backward (and the other way round)
/// is the identity on the current pointer.
pub proof fn lemma_cycle_round_trip(i: int, n: int)
    requires
        0 <= i < n,
    ensures
        cycle_index(cycle_index(i, n, true), n, false) == i,
        cycle_index(cycle_index(i, n, false), n, true) == i,
{
}

} // verus!
