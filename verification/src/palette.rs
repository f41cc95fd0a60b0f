//! The command palette: query classification, candidate derivation and
//! selection movement.
//!
//! Candidate order is fixed: at most one primary candidate derived from the
//! raw query (a command, a location, or a search), followed by the matching
//! open tabs in registry order.

use vstd::prelude::*;

use crate::action::{ActionModel, Candidate, CandidateModel, PaletteAction};
use crate::session::{display_location, display_title, Session, SessionModel};
use crate::text::{
    is_prefix, percent_encode, percent_encode_spec, seq_contains, str_contains,
    str_contains_char, str_contains_lower, str_starts_with, to_lower, trim, trim_spec,
};

verus! {

/// The palette's whole state: visibility, the query as typed, the derived
/// candidate rows and the selected row.
#[derive(Clone, Debug)]
pub struct Palette {
    pub visible: bool,
    pub query: String,
    pub candidates: Vec<Candidate>,
    pub selected: Option<usize>,
}

impl Palette {
    /// A hidden palette with an empty query and no candidates.
    pub fn new() -> (p: Palette)
        ensures
            !p.visible,
            p.query@ == Seq::<char>::empty(),
            p.candidates.len() == 0,
            p.candidates.deep_view() == Seq::<CandidateModel>::empty(),
            p.selected is None,
    {
        let p = Palette { visible: false, query: String::new(), candidates: Vec::new(), selected: None };
        proof {
            assert(p.candidates.deep_view() =~= Seq::<CandidateModel>::empty());
        }
        p
    }
}

/// The query heuristic for a location: it contains a period, no space, and
/// does not begin with `?`.
pub open spec fn likely_url(q: Seq<char>) -> bool {
    q.contains('.') && !q.contains(' ') && !(q.len() > 0 && q[0] == '?')
}

/// Executable check for [`likely_url`].
pub fn likely_url_str(q: &str) -> (r: bool)
    ensures
        r == likely_url(q@),
{
    let starts_question = q.unicode_len() > 0 && q.get_char(0) == '?';
    str_contains_char(q, '.') && !str_contains_char(q, ' ') && !starts_question
}

/// The location the primary candidate opens: the query itself when it
/// already names a scheme, else with `https://` put in front.
pub open spec fn primary_url(qt: Seq<char>) -> Seq<char> {
    if is_prefix("http"@, qt) {
        qt
    } else {
        "https://"@ + qt
    }
}

/// The synthesized primary candidates for a trimmed query: none for an
/// empty query, exactly one otherwise (a command, a location, or a search).
pub open spec fn primary_candidates(qt: Seq<char>) -> Seq<CandidateModel> {
    if qt.len() == 0 {
        Seq::empty()
    } else if qt[0] == ':' {
        seq![
            CandidateModel {
                title: "Execute Command"@,
                subtitle: "Run: "@ + qt.drop_first(),
                action: ActionModel::Command(qt.drop_first()),
            },
        ]
    } else if likely_url(qt) {
        seq![
            CandidateModel {
                title: "Go to URL"@,
                subtitle: primary_url(qt),
                action: ActionModel::OpenUrl(primary_url(qt)),
            },
        ]
    } else {
        seq![
            CandidateModel {
                title: "Search Web"@,
                subtitle: "DuckDuckGo: "@ + qt,
                action: ActionModel::Search(qt),
            },
        ]
    }
}

/// Whether a tab is listed for a trimmed query: every tab on an empty
/// query, else a case-folded substring match on the title or a verbatim
/// substring match on the location.
pub open spec fn tab_matches(qt: Seq<char>, s: SessionModel) -> bool {
    qt.len() == 0 || seq_contains(to_lower(display_title(s)), to_lower(qt)) || seq_contains(
        display_location(s),
        qt,
    )
}

/// The candidate row for the tab at registry position `i`.
pub open spec fn tab_candidate(i: int, s: SessionModel) -> CandidateModel {
    CandidateModel {
        title: display_title(s),
        subtitle: display_location(s),
        action: ActionModel::SwitchTab(i),
    }
}

/// The matching tab candidates from registry position `i` on, in registry
/// order.
pub open spec fn tab_candidates_from(
    qt: Seq<char>,
    ss: Seq<SessionModel>,
    i: int,
) -> Seq<CandidateModel>
    decreases ss.len() - i,
{
    if i < 0 || i >= ss.len() {
        Seq::empty()
    } else {
        let rest = tab_candidates_from(qt, ss, i + 1);
        if tab_matches(qt, ss[i]) {
            seq![tab_candidate(i, ss[i])] + rest
        } else {
            rest
        }
    }
}

/// The full candidate list for a trimmed query over a registry snapshot:
/// a command query produces its single candidate alone; any other query
/// produces the primary candidates followed by the matching tabs.
pub open spec fn palette_candidates(qt: Seq<char>, ss: Seq<SessionModel>) -> Seq<CandidateModel> {
    if qt.len() > 0 && qt[0] == ':' {
        primary_candidates(qt)
    } else {
        primary_candidates(qt) + tab_candidates_from(qt, ss, 0)
    }
}

/// Derives the candidate list for a raw query over the current registry,
/// in the fixed order: primary candidate first, then matching tabs in
/// registry order.
pub fn build_candidates(query: &str, sessions: &Vec<Session>) -> (r: Vec<Candidate>)
    ensures
        r.len() == palette_candidates(trim_spec(query@), sessions.deep_view()).len(),
        r.deep_view() == palette_candidates(trim_spec(query@), sessions.deep_view()),
{
    let qt = trim(query);
    let ghost qts = trim_spec(query@);
    let ghost ssv = sessions.deep_view();
    let qn = qt.unicode_len();
    let mut out: Vec<Candidate> = Vec::new();
    proof {
        assert(out.deep_view() =~= Seq::<CandidateModel>::empty());
    }

    if qn > 0 && qt.get_char(0) == ':' {
        let cmd = qt.substring_char(1, qn);
        proof {
            assert(cmd@ =~= qts.drop_first());
        }
        let subtitle = String::from_str("Run: ").concat(cmd);
        let action = PaletteAction::Command(String::from_str(cmd));
        out.push(Candidate { title: String::from_str("Execute Command"), subtitle, action });
        proof {
            assert(out.deep_view() =~= palette_candidates(qts, ssv));
        }
        return out;
    }

    if qn > 0 {
        if likely_url_str(qt) {
            let url = if str_starts_with(qt, "http") {
                String::from_str(qt)
            } else {
                String::from_str("https://").concat(qt)
            };
            let subtitle = url.clone();
            out.push(
                Candidate {
                    title: String::from_str("Go to URL"),
                    subtitle,
                    action: PaletteAction::OpenUrl(url),
                },
            );
        } else {
            out.push(
                Candidate {
                    title: String::from_str("Search Web"),
                    subtitle: String::from_str("DuckDuckGo: ").concat(qt),
                    action: PaletteAction::Search(String::from_str(qt)),
                },
            );
        }
    }
    proof {
        assert(out.deep_view() =~= primary_candidates(qts));
    }

    let ghost prim = primary_candidates(qts);
    let n = sessions.len();
    let mut i: usize = 0;
    while i < n
        invariant
            0 <= i <= n,
            n == sessions.len(),
            ssv == sessions.deep_view(),
            ssv.len() == n,
            qt@ == qts,
            qn == qts.len(),
            !(qts.len() > 0 && qts[0] == ':'),
            out.deep_view() + tab_candidates_from(qts, ssv, i as int) == prim
                + tab_candidates_from(qts, ssv, 0),
        decreases n - i,
    {
        let s = &sessions[i];
        let title_s: String = match &s.title {
            Some(t) => t.clone(),
            None => String::from_str("Untitled"),
        };
        let loc_s: String = match &s.location {
            Some(u) => u.clone(),
            None => String::new(),
        };
        proof {
            assert(ssv[i as int] == sessions[i as int]@);
            assert(title_s@ == display_title(ssv[i as int]));
            assert(loc_s@ == display_location(ssv[i as int]));
        }
        let matched = if qn == 0 {
            true
        } else {
            str_contains_lower(title_s.as_str(), qt) || str_contains(loc_s.as_str(), qt)
        };
        proof {
            assert(matched == tab_matches(qts, ssv[i as int]));
        }
        let ghost odv = out.deep_view();
        if matched {
            let cand = Candidate {
                title: title_s,
                subtitle: loc_s,
                action: PaletteAction::SwitchTab(i),
            };
            proof {
                assert(cand@ =~= tab_candidate(i as int, ssv[i as int]));
            }
            out.push(cand);
            proof {
                assert(out.deep_view() =~= odv + seq![tab_candidate(i as int, ssv[i as int])]);
                assert((odv + seq![tab_candidate(i as int, ssv[i as int])])
                    + tab_candidates_from(qts, ssv, i + 1) =~= odv + (seq![
                    tab_candidate(i as int, ssv[i as int]),
                ] + tab_candidates_from(qts, ssv, i + 1)));
            }
        }
        i += 1;
    }
    proof {
        assert(tab_candidates_from(qts, ssv, n as int) =~= Seq::<CandidateModel>::empty());
        assert(out.deep_view() =~= out.deep_view() + tab_candidates_from(qts, ssv, n as int));
        assert(out.deep_view() =~= palette_candidates(qts, ssv));
    }
    out
}

/// The search-engine URL for a query, with the query percent-encoded.
pub fn search_url(query: &str) -> (r: String)
    ensures
        r@ == "https://duckduckgo.com/?q="@ + percent_encode_spec(query@),
{
    let encoded = percent_encode(query);
    String::from_str("https://duckduckgo.com/?q=").concat(encoded.as_str())
}

/// Where the selection moves: down selects the first row when nothing is
/// selected and otherwise stops at the last row; up stops at row zero;
/// nothing moves when there are no rows to move to.
pub open spec fn move_sel(sel: Option<usize>, n: int, down: bool) -> Option<usize> {
    match sel {
        None => if down && n > 0 {
            Some(0usize)
        } else {
            None
        },
        Some(i) => if down {
            if i + 1 < n {
                Some((i + 1) as usize)
            } else {
                sel
            }
        } else {
            if i > 0 {
                Some((i - 1) as usize)
            } else {
                sel
            }
        },
    }
}

impl Palette {
    /// Moves the selection one row down or up, clamping at the list
    /// boundaries: moving up at row zero and moving down at the last row
    /// are no-ops.
    pub fn move_selection(&mut self, down: bool)
        requires
            old(self).selected matches Some(i) ==> i < old(self).candidates.len(),
        ensures
            final(self).visible == old(self).visible,
            final(self).query == old(self).query,
            final(self).candidates == old(self).candidates,
            final(self).selected == move_sel(
                old(self).selected,
                old(self).candidates.len() as int,
                down,
            ),
            final(self).selected matches Some(j) ==> j < final(self).candidates.len(),
    {
        match self.selected {
            None => {
                if down && self.candidates.len() > 0 {
                    self.selected = Some(0);
                }
            },
            Some(i) => {
                if down {
                    if i + 1 < self.candidates.len() {
                        self.selected = Some(i + 1);
                    }
                } else {
                    if i > 0 {
                        self.selected = Some(i - 1);
                    }
                }
            },
        }
    }
}

/// Every tab candidate carries a tab-switch action.
proof fn lemma_tab_candidates_all_switch(qt: Seq<char>, ss: Seq<SessionModel>, i: int)
    ensures
        forall|k: int|
            0 <= k < tab_candidates_from(qt, ss, i).len() ==> tab_candidates_from(qt, ss, i)[k].action
                is SwitchTab,
    decreases ss.len() - i,
{
    if i < 0 || i >= ss.len() {
    } else {
        lemma_tab_candidates_all_switch(qt, ss, i + 1);
        let rest = tab_candidates_from(qt, ss, i + 1);
        if tab_matches(qt, ss[i]) {
            assert forall|k: int|
                0 <= k < tab_candidates_from(qt, ss, i).len() implies tab_candidates_from(
                qt,
                ss,
                i,
            )[k].action is SwitchTab by {
                if k > 0 {
                    assert(tab_candidates_from(qt, ss, i)[k] == rest[k - 1]);
                }
            }
        }
    }
}

/// Law: a non-empty query that is not a command produces exactly one
/// primary candidate, first in the list, and its classification follows the
/// period/space/leading-`?` rule; every further candidate is a tab match.
pub proof fn lemma_primary_candidate_rule(qt: Seq<char>, ss: Seq<SessionModel>)
    requires
        qt.len() > 0,
        qt[0] != ':',
    ensures
        palette_candidates(qt, ss).len() >= 1,
        likely_url(qt) ==> palette_candidates(qt, ss)[0].action == ActionModel::OpenUrl(
            primary_url(qt),
        ),
        !likely_url(qt) ==> palette_candidates(qt, ss)[0].action == ActionModel::Search(qt),
        forall|k: int|
            1 <= k < palette_candidates(qt, ss).len() ==> palette_candidates(qt, ss)[k].action
                is SwitchTab,
{
    let cs = palette_candidates(qt, ss);
    let prim = primary_candidates(qt);
    let tabs = tab_candidates_from(qt, ss, 0);
    assert(cs == prim + tabs);
    assert(prim.len() == 1);
    assert(cs[0] == prim[0]);
    lemma_tab_candidates_all_switch(qt, ss, 0);
    assert forall|k: int| 1 <= k < cs.len() implies cs[k].action is SwitchTab by {
        assert(cs[k] == tabs[k - 1]);
    }
}

/// Law: a command query produces exactly one candidate, the command
/// candidate over the text after the prefix, whatever tabs are open.
pub proof fn lemma_command_candidate_rule(qt: Seq<char>, ss: Seq<SessionModel>)
    requires
        qt.len() > 0,
        qt[0] == ':',
    ensures
        palette_candidates(qt, ss).len() == 1,
        palette_candidates(qt, ss)[0].action == ActionModel::Command(qt.drop_first()),
{
}

proof fn lemma_tab_candidates_empty_query(ss: Seq<SessionModel>, i: int)
    requires
        0 <= i <= ss.len(),
    ensures
        tab_candidates_from(Seq::empty(), ss, i).len() == ss.len() - i,
        forall|k: int|
            0 <= k < ss.len() - i ==> tab_candidates_from(Seq::empty(), ss, i)[k] == tab_candidate(
                i + k,
                ss[i + k],
            ),
    decreases ss.len() - i,
{
    if i < ss.len() {
        lemma_tab_candidates_empty_query(ss, i + 1);
        let rest = tab_candidates_from(Seq::<char>::empty(), ss, i + 1);
        assert(tab_matches(Seq::empty(), ss[i]));
        assert forall|k: int|
            0 <= k < ss.len() - i implies tab_candidates_from(Seq::<char>::empty(), ss, i)[k]
            == tab_candidate(i + k, ss[i + k]) by {
            if k > 0 {
                assert(tab_candidates_from(Seq::<char>::empty(), ss, i)[k] == rest[k - 1]);
            }
        }
    }
}

/// Law: on an empty query the candidate list is exactly the open tabs, one
/// candidate per tab, in registry order.
pub proof fn lemma_empty_query_lists_tabs(ss: Seq<SessionModel>)
    ensures
        palette_candidates(Seq::empty(), ss).len() == ss.len(),
        forall|k: int|
            0 <= k < ss.len() ==> palette_candidates(Seq::empty(), ss)[k] == tab_candidate(
                k,
                ss[k],
            ),
{
    lemma_tab_candidates_empty_query(ss, 0);
    let tabs = tab_candidates_from(Seq::<char>::empty(), ss, 0);
    assert(palette_candidates(Seq::empty(), ss) =~= tabs);
}

/// Law: the moved selection never leaves `[0, n)`, and moving up at row
/// zero is a no-op.
pub proof fn lemma_move_selection_bounds(sel: Option<usize>, n: int, down: bool)
    requires
        sel matches Some(i) ==> i < n,
    ensures
        move_sel(sel, n, down) matches Some(j) ==> 0 <= j < n,
        !down && sel == Some(0usize) ==> move_sel(sel, n, down) == sel,
{
}

} // verus!
