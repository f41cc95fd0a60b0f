use le_browser::hint::{encode_label, HintEngine, HintOutcome, Rect};
use le_browser::keys::Key;

fn rect(i: i64) -> Rect {
    Rect { x: i * 10, y: 5, width: 20, height: 10 }
}

fn rects(n: usize) -> Vec<Rect> {
    (0..n as i64).map(rect).collect()
}

#[test]
fn labels_follow_the_fixed_base_encoding() {
    assert_eq!(encode_label(0), "a");
    assert_eq!(encode_label(1), "b");
    assert_eq!(encode_label(25), "z");
    assert_eq!(encode_label(26), "ba");
    assert_eq!(encode_label(51), "bz");
    assert_eq!(encode_label(52), "ca");
    assert_eq!(encode_label(676), "baa");
}

#[test]
fn twenty_seven_targets_get_distinct_labels_and_reactivation_repeats_them() {
    let rs = rects(27);
    let mut e = HintEngine::new();
    e.enter(&rs);
    assert!(e.active);
    assert_eq!(e.targets.len(), 27);
    assert_eq!(e.targets[0].label, "a");
    assert_eq!(e.targets[26].label, "ba");
    assert_ne!(e.targets[26].label, e.targets[0].label);
    for i in 0..27 {
        for j in 0..i {
            assert_ne!(e.targets[i].label, e.targets[j].label);
        }
    }
    let first: Vec<String> = e.targets.iter().map(|t| t.label.clone()).collect();

    assert!(matches!(e.on_key(Key::Escape), HintOutcome::Exited));
    assert!(!e.active);
    e.enter(&rs);
    let second: Vec<String> = e.targets.iter().map(|t| t.label.clone()).collect();
    assert_eq!(first, second);
}

#[test]
fn zero_area_elements_are_not_targets() {
    let mut rs = rects(3);
    rs[1].width = 0;
    let mut e = HintEngine::new();
    e.enter(&rs);
    assert_eq!(e.targets.len(), 2);
    assert_eq!(e.targets[0].rect, rs[0]);
    assert_eq!(e.targets[1].rect, rs[2]);
    assert_eq!(e.targets[1].label, "b");
}

#[test]
fn entering_while_active_is_a_no_op() {
    let mut e = HintEngine::new();
    e.enter(&rects(2));
    assert_eq!(e.targets.len(), 2);
    e.enter(&rects(9));
    assert_eq!(e.targets.len(), 2);
}

#[test]
fn a_unique_match_activates_its_target() {
    let mut e = HintEngine::new();
    e.enter(&rects(2));
    match e.on_key(Key::Char('b')) {
        HintOutcome::Activated(i) => assert_eq!(i, 1),
        other => panic!("expected an activation, got {:?}", other),
    }
    assert!(!e.active);
    assert!(e.targets.is_empty());
}

#[test]
fn ambiguous_prefixes_narrow_until_unique() {
    let mut e = HintEngine::new();
    e.enter(&rects(27));
    // "b" is itself a label and the prefix of "ba": two matches remain
    assert!(matches!(e.on_key(Key::Char('b')), HintOutcome::Consumed));
    assert!(e.active);
    assert_eq!(e.buffer, "b");
    match e.on_key(Key::Char('a')) {
        HintOutcome::Activated(i) => assert_eq!(i, 26),
        other => panic!("expected an activation, got {:?}", other),
    }
}

#[test]
fn a_prefix_with_no_match_keeps_hint_mode_active() {
    let mut e = HintEngine::new();
    e.enter(&rects(2));
    assert!(matches!(e.on_key(Key::Char('z')), HintOutcome::Consumed));
    assert!(e.active);
    assert_eq!(e.buffer, "z");
}

#[test]
fn keys_outside_the_alphabet_pass_through() {
    let mut e = HintEngine::new();
    e.enter(&rects(2));
    assert!(matches!(e.on_key(Key::Char('A')), HintOutcome::Pass));
    assert!(matches!(e.on_key(Key::Char('1')), HintOutcome::Pass));
    assert!(matches!(e.on_key(Key::Return), HintOutcome::Pass));
    assert!(e.active);
    assert_eq!(e.buffer, "");
}

#[test]
fn an_idle_engine_ignores_keys() {
    let mut e = HintEngine::new();
    assert!(matches!(e.on_key(Key::Char('a')), HintOutcome::Pass));
    assert!(matches!(e.on_key(Key::Escape), HintOutcome::Pass));
    assert!(!e.active);
}

#[test]
fn escape_discards_the_buffered_prefix() {
    let mut e = HintEngine::new();
    e.enter(&rects(27));
    assert!(matches!(e.on_key(Key::Char('b')), HintOutcome::Consumed));
    assert!(matches!(e.on_key(Key::Escape), HintOutcome::Exited));
    assert_eq!(e.buffer, "");
    assert!(e.targets.is_empty());
}
