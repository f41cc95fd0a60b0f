//! The hint engine: labels every actionable element of a page so it can be
//! activated from the keyboard alone.
//!
//! One activation freezes the enumerated targets, assigns each a label by a
//! fixed-base encoding over the alphabet `a`..`z` (index 0 is `a`, index 26
//! is `ba`), and then narrows the target set by the typed prefix until
//! exactly one remains.

use vstd::prelude::*;

use crate::keys::Key;
use crate::text::{is_prefix, push_char, str_starts_with};

verus! {

/// A target's bounding rectangle, captured once at enumeration time, in
/// page coordinates.
#[derive(Clone, Copy, PartialEq, Eq, Structural, Debug)]
pub struct Rect {
    pub x: i64,
    pub y: i64,
    pub width: u32,
    pub height: u32,
}

/// Only elements with a visible, non-zero-area rectangle become targets.
pub open spec fn positive_area(r: Rect) -> bool {
    r.width > 0 && r.height > 0
}

/// The label letter for one base-26 digit: `a` for zero through `z`.
pub open spec fn letter(d: int) -> char {
    (97 + d) as char
}

fn letter_exec(d: usize) -> (c: char)
    requires
        d < 26,
    ensures
        c == letter(d as int),
{
    ((97 + d) as u8) as char
}

/// The fixed-base label for an index: digits are taken least significant
/// first and emitted most significant first.
pub open spec fn encode_spec(n: nat) -> Seq<char>
    decreases n,
{
    if n < 26 {
        seq![letter(n as int)]
    } else {
        encode_spec(n / 26).push(letter((n % 26) as int))
    }
}

/// Renders the label for one target index.
pub fn encode_label(n: usize) -> (s: String)
    ensures
        s@ == encode_spec(n as nat),
    decreases n,
{
    if n < 26 {
        let mut s = String::new();
        push_char(&mut s, letter_exec(n));
        proof {
            assert(s@ =~= seq![letter(n as int)]);
        }
        s
    } else {
        let mut s = encode_label(n / 26);
        push_char(&mut s, letter_exec(n % 26));
        s
    }
}

proof fn lemma_encode_nonempty(n: nat)
    ensures
        encode_spec(n).len() >= 1,
    decreases n,
{
    if n >= 26 {
        lemma_encode_nonempty(n / 26);
    }
}

/// Law: the label encoding is injective — no two distinct indices produce
/// the same label.
pub proof fn lemma_encode_injective(m: nat, n: nat)
    requires
        m != n,
    ensures
        encode_spec(m) != encode_spec(n),
    decreases m + n,
{
    if m < 26 && n < 26 {
        assert(letter(m as int) as int == 97 + m);
        assert(letter(n as int) as int == 97 + n);
        assert(encode_spec(m)[0] != encode_spec(n)[0]);
    } else if m < 26 && n >= 26 {
        lemma_encode_nonempty(n / 26);
        assert(encode_spec(m).len() == 1);
        assert(encode_spec(n).len() >= 2);
    } else if m >= 26 && n < 26 {
        lemma_encode_nonempty(m / 26);
        assert(encode_spec(n).len() == 1);
        assert(encode_spec(m).len() >= 2);
    } else {
        if m % 26 != n % 26 {
            assert(letter((m % 26) as int) as int == 97 + (m % 26));
            assert(letter((n % 26) as int) as int == 97 + (n % 26));
            assert(encode_spec(m).last() != encode_spec(n).last());
        } else {
            assert(m / 26 != n / 26);
            lemma_encode_injective(m / 26, n / 26);
            if encode_spec(m) == encode_spec(n) {
                assert(encode_spec(m).drop_last() =~= encode_spec(m / 26));
                assert(encode_spec(n).drop_last() =~= encode_spec(n / 26));
                assert(false);
            }
        }
    }
}

/// One labelled target.
#[derive(Clone, Debug)]
pub struct HintTarget {
    pub label: String,
    pub rect: Rect,
}

/// The mathematical image of a [`HintTarget`].
#[verifier::ext_equal]
pub struct HintTargetModel {
    pub label: Seq<char>,
    pub rect: Rect,
}

impl View for HintTarget {
    type V = HintTargetModel;

    open spec fn view(&self) -> HintTargetModel {
        HintTargetModel { label: self.label@, rect: self.rect }
    }
}

impl DeepView for HintTarget {
    type V = HintTargetModel;

    open spec fn deep_view(&self) -> HintTargetModel {
        self.view()
    }
}

/// The rectangles that survive the zero-area filter, in enumeration order.
pub open spec fn kept_rects(rs: Seq<Rect>) -> Seq<Rect>
    decreases rs.len(),
{
    if rs.len() == 0 {
        Seq::empty()
    } else {
        kept_rects(rs.drop_last()) + (if positive_area(rs.last()) {
            seq![rs.last()]
        } else {
            Seq::empty()
        })
    }
}

/// The frozen target set for an enumeration: the kept rectangles, each
/// labelled by its position.
pub open spec fn spec_targets(rs: Seq<Rect>) -> Seq<HintTargetModel> {
    Seq::new(
        kept_rects(rs).len(),
        |i: int| HintTargetModel { label: encode_spec(i as nat), rect: kept_rects(rs)[i] },
    )
}

/// Law: within one activation no two distinct targets carry the same label.
pub proof fn lemma_target_labels_distinct(rs: Seq<Rect>, i: int, j: int)
    requires
        0 <= i < spec_targets(rs).len(),
        0 <= j < spec_targets(rs).len(),
        i != j,
    ensures
        spec_targets(rs)[i].label != spec_targets(rs)[j].label,
{
    lemma_encode_injective(i as nat, j as nat);
}

/// A character the hint mode consumes.
pub open spec fn is_hint_letter(c: char) -> bool {
    'a' <= c && c <= 'z'
}

/// How many target labels start with the typed buffer.
pub open spec fn match_count(ts: Seq<HintTargetModel>, buf: Seq<char>) -> nat
    decreases ts.len(),
{
    if ts.len() == 0 {
        0
    } else {
        match_count(ts.drop_last(), buf) + (if is_prefix(buf, ts.last().label) {
            1nat
        } else {
            0
        })
    }
}

/// What one consumed key did to the hint mode.
#[derive(Clone, Copy, PartialEq, Eq, Structural, Debug)]
pub enum HintOutcome {
    /// The key is not the engine's to handle; it passes through.
    Pass,
    /// The key narrowed (or failed to narrow) the match set; hint mode
    /// stays active.
    Consumed,
    /// Hint mode exited without activating anything.
    Exited,
    /// Exactly one target matched the buffer: activate the target at this
    /// position and exit.
    Activated(usize),
}

/// The hint engine's whole state: idle, or active with a frozen target set
/// and the typed label prefix.
pub struct HintEngine {
    pub active: bool,
    pub targets: Vec<HintTarget>,
    pub buffer: String,
}

/// The engine is idle with nothing retained: no markers, no buffer.
pub open spec fn engine_cleared(e: HintEngine) -> bool {
    &&& !e.active
    &&& e.buffer@ == Seq::<char>::empty()
    &&& e.targets.deep_view() == Seq::<HintTargetModel>::empty()
}

/// What one key does to an active engine: Escape exits and discards
/// everything; a hint letter extends the buffer and activates the one
/// matching target if the match set narrowed to exactly one; every other
/// key passes through. An idle engine touches nothing.
pub open spec fn hint_key_rel(pre: HintEngine, post: HintEngine, key: Key, r: HintOutcome) -> bool {
    &&& (!pre.active ==> post == pre && r is Pass)
    &&& (pre.active ==> (key is Escape ==> r is Exited && engine_cleared(post)))
    &&& (pre.active ==> (key matches Key::Char(c) ==> {
        if is_hint_letter(c) {
            let buf2 = pre.buffer@.push(c);
            let cnt = match_count(pre.targets.deep_view(), buf2);
            &&& (cnt == 1 ==> (r matches HintOutcome::Activated(k) && 0 <= k < pre.targets.len()
                && is_prefix(buf2, pre.targets.deep_view()[k as int].label)) && engine_cleared(
                post,
            ))
            &&& (cnt != 1 ==> r is Consumed && post.active && post.buffer@ == buf2 && post.targets
                == pre.targets)
        } else {
            post == pre && r is Pass
        }
    }))
    &&& (pre.active ==> (!(key is Escape) && !(key matches Key::Char(_)) ==> post == pre && r
        is Pass))
}

impl HintEngine {
    /// An idle engine.
    pub fn new() -> (e: HintEngine)
        ensures
            !e.active,
            e.targets.len() == 0,
            e.targets.deep_view() == Seq::<HintTargetModel>::empty(),
            e.buffer@ == Seq::<char>::empty(),
    {
        let e = HintEngine { active: false, targets: Vec::new(), buffer: String::new() };
        proof {
            assert(e.targets.deep_view() =~= Seq::<HintTargetModel>::empty());
        }
        e
    }

    /// Enters hint mode over the enumerated rectangles: zero-area elements
    /// are dropped, the rest are frozen and labelled by position. Entering
    /// while already active is a no-op (the re-entry guard).
    pub fn enter(&mut self, rects: &Vec<Rect>)
        ensures
            old(self).active ==> *final(self) == *old(self),
            !old(self).active ==> final(self).active,
            !old(self).active ==> final(self).buffer@ == Seq::<char>::empty(),
            !old(self).active ==> final(self).targets.len() == spec_targets(rects@).len(),
            !old(self).active ==> final(self).targets.deep_view() == spec_targets(rects@),
    {
        if self.active {
            return;
        }
        self.buffer = String::new();
        self.targets = Vec::new();
        proof {
            assert(self.targets.deep_view() =~= Seq::<HintTargetModel>::empty());
            assert(kept_rects(rects@.take(0)) =~= Seq::<Rect>::empty());
            assert(self.targets.deep_view() =~= spec_targets(rects@.take(0)));
        }
        let n = rects.len();
        let mut i: usize = 0;
        while i < n
            invariant
                0 <= i <= n,
                n == rects@.len(),
                self.targets.deep_view() == spec_targets(rects@.take(i as int)),
                self.targets.len() == kept_rects(rects@.take(i as int)).len(),
                self.buffer@ == Seq::<char>::empty(),
                !self.active,
            decreases n - i,
        {
            let r = rects[i];
            let ghost pre = rects@.take(i as int);
            let ghost post = rects@.take(i + 1);
            proof {
                assert(post.drop_last() =~= pre);
                assert(post.last() == rects@[i as int]);
            }
            if r.width > 0 && r.height > 0 {
                let label = encode_label(self.targets.len());
                let ghost odv = self.targets.deep_view();
                self.targets.push(HintTarget { label, rect: r });
                proof {
                    assert(kept_rects(post) =~= kept_rects(pre) + seq![r]);
                    assert(self.targets.deep_view() =~= odv.push(
                        HintTargetModel { label: encode_spec(odv.len() as nat), rect: r },
                    ));
                    assert(self.targets.deep_view() =~= spec_targets(post));
                }
            } else {
                proof {
                    assert(kept_rects(post) =~= kept_rects(pre));
                    assert(spec_targets(post) =~= spec_targets(pre));
                }
            }
            i += 1;
        }
        proof {
            assert(rects@.take(n as int) =~= rects@);
        }
        self.active = true;
    }

    /// Consumes one key while hint mode is active: Escape exits, a letter
    /// of the hint alphabet extends the buffer and activates the target
    /// when exactly one label still matches, and every other key passes
    /// through untouched. An idle engine touches nothing.
    pub fn on_key(&mut self, key: Key) -> (r: HintOutcome)
        ensures
            hint_key_rel(*old(self), *final(self), key, r),
    {
        if !self.active {
            return HintOutcome::Pass;
        }
        match key {
            Key::Escape => {
                self.exit_mode();
                HintOutcome::Exited
            },
            Key::Char(c) => {
                if !('a' <= c && c <= 'z') {
                    return HintOutcome::Pass;
                }
                push_char(&mut self.buffer, c);
                let ghost buf2 = self.buffer@;
                let ghost dv = self.targets.deep_view();
                let n = self.targets.len();
                let mut count: usize = 0;
                let mut found: usize = 0;
                let mut k: usize = 0;
                while k < n
                    invariant
                        0 <= k <= n,
                        n == self.targets.len(),
                        dv == self.targets.deep_view(),
                        dv.len() == n,
                        buf2 == self.buffer@,
                        count <= k,
                        count == match_count(dv.take(k as int), buf2),
                        count > 0 ==> found < k && is_prefix(buf2, dv[found as int].label),
                    decreases n - k,
                {
                    let ghost pre = dv.take(k as int);
                    let ghost post = dv.take(k + 1);
                    proof {
                        assert(post.drop_last() =~= pre);
                        assert(post.last() == dv[k as int]);
                    }
                    if str_starts_with(self.targets[k].label.as_str(), self.buffer.as_str()) {
                        count += 1;
                        found = k;
                    }
                    k += 1;
                }
                proof {
                    assert(dv.take(n as int) =~= dv);
                }
                if count == 1 {
                    self.exit_mode();
                    HintOutcome::Activated(found)
                } else {
                    HintOutcome::Consumed
                }
            },
            _ => HintOutcome::Pass,
        }
    }

    /// Leaves hint mode, discarding the markers and the buffered prefix.
    fn exit_mode(&mut self)
        ensures
            !final(self).active,
            final(self).buffer@ == Seq::<char>::empty(),
            final(self).targets.deep_view() == Seq::<HintTargetModel>::empty(),
    {
        self.active = false;
        self.buffer = String::new();
        self.targets = Vec::new();
        proof {
            assert(self.targets.deep_view() =~= Seq::<HintTargetModel>::empty());
        }
    }
}

} // verus!
