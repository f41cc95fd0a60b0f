//! The keyboard dispatcher: the single routing point for every key press on
//! the main window, and the palette's own key controller.
//!
//! Routing priority: an open palette sees only Escape here (everything else
//! is left to the palette controller); with no current session or a page
//! that is consuming text input nothing is intercepted; otherwise the
//! single-key and shifted shortcuts fire.

use vstd::prelude::*;

use crate::action::Effect;
use crate::keys::{Key, Modifiers};
use crate::rng::random_below;
use crate::window::{
    close_step, cycle_rel, new_tab_rel, palette_close_rel, palette_open_rel, Window,
};

verus! {

/// The key/modifier pairs the content mode reacts to.
pub open spec fn content_shortcut(key: Key, mods: Modifiers) -> bool {
    ||| (mods.spec_is_empty() && (key matches Key::Char(c) && (c == 'f' || c == 'j' || c == 'k'
        || c == 'r' || c == 'x')))
    ||| (mods.shift && (key matches Key::Char(c) && (c == 'H' || c == 'L' || c == '~' || c == 'D'
        || c == 'J' || c == 'K')))
    ||| (mods.shift && key is Return)
}

/// What one content-mode key press does: which shortcuts consume the event,
/// how the window changes, and which engine effect is handed out.
pub open spec fn content_dispatch_rel(
    pre: Window,
    post: Window,
    key: Key,
    mods: Modifiers,
    r: (bool, Effect),
) -> bool {
    &&& (mods.spec_is_empty() && key == Key::Char('f') ==> post == pre && !r.0 && r.1
        is EnterHintMode)
    &&& (mods.spec_is_empty() && key == Key::Char('j') ==> post == pre && !r.0 && r.1
        is ScrollDown)
    &&& (mods.spec_is_empty() && key == Key::Char('k') ==> post == pre && !r.0 && r.1 is ScrollUp)
    &&& (mods.spec_is_empty() && key == Key::Char('r') ==> post == pre && r.0 && r.1 is Reload)
    &&& (mods.spec_is_empty() && key == Key::Char('x') ==> r.0 && close_step(pre, post, r.1)
        && post.palette == pre.palette && post.dock_visible == pre.dock_visible
        && post.shortcuts_installed == pre.shortcuts_installed)
    &&& (mods.shift && key == Key::Char('H') ==> post == pre && r.0 && r.1 is HistoryBack)
    &&& (mods.shift && key == Key::Char('L') ==> post == pre && r.0 && r.1 is HistoryForward)
    &&& (mods.shift && key is Return ==> r.0 && (r.1 matches Effect::OpenTab(u) && (u@
        == "https://duckduckgo.com"@ || u@ == "https://archlinux.org"@) && new_tab_rel(
        pre,
        post,
        u@,
    )))
    &&& (mods.shift && key == Key::Char('~') ==> r.0 && r.1 is Nothing && palette_open_rel(
        pre,
        post,
    ))
    &&& (mods.shift && key == Key::Char('D') ==> r.0 && r.1 is Nothing && post.sessions
        == pre.sessions && post.current == pre.current && post.palette == pre.palette
        && post.shortcuts_installed == pre.shortcuts_installed && post.dock_visible
        == !pre.dock_visible)
    &&& (mods.shift && key == Key::Char('J') ==> r.0 && r.1 is Nothing && cycle_rel(
        pre,
        post,
        true,
    ))
    &&& (mods.shift && key == Key::Char('K') ==> r.0 && r.1 is Nothing && cycle_rel(
        pre,
        post,
        false,
    ))
    &&& (!content_shortcut(key, mods) ==> post == pre && !r.0 && r.1 is Nothing)
}

/// What one key press inside the palette's query field does: Down (or
/// Control-n) and Up (or Control-p) move the selection without touching
/// anything else, Escape toggles the palette, and every other key is left
/// to the text entry.
pub open spec fn palette_nav_rel(
    pre: Window,
    post: Window,
    key: Key,
    mods: Modifiers,
    consumed: bool,
) -> bool {
    let down_key = (key is Down) || (key == Key::Char('n') && mods.ctrl);
    let up_key = (key is Up) || (key == Key::Char('p') && mods.ctrl);
    &&& ((down_key || up_key) ==> consumed && post.sessions == pre.sessions && post.current
        == pre.current && post.dock_visible == pre.dock_visible && post.shortcuts_installed
        == pre.shortcuts_installed && post.palette.visible == pre.palette.visible
        && post.palette.query == pre.palette.query && post.palette.candidates
        == pre.palette.candidates && post.palette.selected == crate::palette::move_sel(
        pre.palette.selected,
        pre.palette.candidates.len() as int,
        down_key,
    ))
    &&& ((!down_key && !up_key && key is Escape) ==> consumed && (pre.palette.visible
        ==> palette_close_rel(pre, post)) && (!pre.palette.visible ==> palette_open_rel(
        pre,
        post,
    )))
    &&& ((!down_key && !up_key && !(key is Escape)) ==> !consumed && post == pre)
}

/// Attaches the shell's key handling to the window. Until this has run the
/// dispatcher intercepts nothing, as with no controllers attached.
pub fn setup_shortcuts(window: &mut Window)
    requires
        old(window).wf(),
    ensures
        final(window).wf(),
        final(window).shortcuts_installed,
        final(window).sessions == old(window).sessions,
        final(window).current == old(window).current,
        final(window).palette == old(window).palette,
        final(window).dock_visible == old(window).dock_visible,
{
    window.shortcuts_installed = true;
}

impl Window {
    /// Routes one key press on the main window. Returns whether the event
    /// was consumed and the engine effect the caller must perform.
    ///
    /// With the palette open only Escape is taken here; with no current
    /// session, or while the page's focused element consumes text input
    /// (a missing report counts as "not editing"), nothing is intercepted.
    pub fn dispatch_key(&mut self, key: Key, mods: Modifiers) -> (r: (bool, Effect))
        requires
            old(self).wf(),
        ensures
            final(self).wf(),
            !old(self).shortcuts_installed ==> *final(self) == *old(self) && !r.0 && r.1
                is Nothing,
            old(self).shortcuts_installed && old(self).palette.visible && key is Escape
                ==> palette_close_rel(*old(self), *final(self)) && r.0 && r.1 is Nothing,
            old(self).shortcuts_installed && old(self).palette.visible && !(key is Escape)
                ==> *final(self) == *old(self) && !r.0 && r.1 is Nothing,
            old(self).shortcuts_installed && !old(self).palette.visible && !old(
                self,
            ).content_mode() ==> *final(self) == *old(self) && !r.0 && r.1 is Nothing,
            old(self).shortcuts_installed && old(self).content_mode() ==> content_dispatch_rel(
                *old(self),
                *final(self),
                key,
                mods,
                r,
            ),
    {
        if !self.shortcuts_installed {
            return (false, Effect::Nothing);
        }
        if self.palette.visible {
            if key == Key::Escape {
                self.toggle_command_palette();
                return (true, Effect::Nothing);
            }
            return (false, Effect::Nothing);
        }
        let cur = match self.current {
            None => {
                return (false, Effect::Nothing);
            },
            Some(i) => i,
        };
        let editing = match self.sessions[cur].edit_state {
            Some(b) => b,
            None => false,
        };
        if editing {
            return (false, Effect::Nothing);
        }
        if mods.is_empty() {
            if key == Key::Char('f') {
                return (false, Effect::EnterHintMode);
            }
            if key == Key::Char('j') {
                return (false, Effect::ScrollDown);
            }
            if key == Key::Char('k') {
                return (false, Effect::ScrollUp);
            }
            if key == Key::Char('r') {
                return (true, Effect::Reload);
            }
            if key == Key::Char('x') {
                let eff = self.close_current_tab();
                return (true, eff);
            }
        }
        if mods.shift {
            if key == Key::Char('H') {
                return (true, Effect::HistoryBack);
            }
            if key == Key::Char('L') {
                return (true, Effect::HistoryForward);
            }
            if key == Key::Return {
                let coin = random_below(2);
                let url = if coin == 0 {
                    String::from_str("https://duckduckgo.com")
                } else {
                    String::from_str("https://archlinux.org")
                };
                self.new_tab(url.as_str());
                return (true, Effect::OpenTab(url));
            }
            if key == Key::Char('~') {
                self.toggle_command_palette();
                return (true, Effect::Nothing);
            }
            if key == Key::Char('D') {
                self.toggle_dock();
                return (true, Effect::Nothing);
            }
            if key == Key::Char('J') {
                self.cycle_tab(true);
                return (true, Effect::Nothing);
            }
            if key == Key::Char('K') {
                self.cycle_tab(false);
                return (true, Effect::Nothing);
            }
        }
        (false, Effect::Nothing)
    }

    /// Routes one key press inside the palette's query field: Down (or
    /// Control-n) and Up (or Control-p) move the selection, Escape closes
    /// the palette; everything else is left to the text entry.
    pub fn palette_key(&mut self, key: Key, mods: Modifiers) -> (consumed: bool)
        requires
            old(self).wf(),
        ensures
            final(self).wf(),
            palette_nav_rel(*old(self), *final(self), key, mods, consumed),
    {
        let down_key = key == Key::Down || (key == Key::Char('n') && mods.ctrl);
        let up_key = key == Key::Up || (key == Key::Char('p') && mods.ctrl);
        if down_key {
            self.palette.move_selection(true);
            return true;
        }
        if up_key {
            self.palette.move_selection(false);
            return true;
        }
        if key == Key::Escape {
            self.toggle_command_palette();
            return true;
        }
        false
    }
}

} // verus!
