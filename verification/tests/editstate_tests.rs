use le_browser::editstate::{escape_should_blur, is_text_input_surface};
use le_browser::keys::Key;

#[test]
fn native_inputs_and_textareas_are_text_surfaces() {
    assert!(is_text_input_surface("INPUT", false, ""));
    assert!(is_text_input_surface("TEXTAREA", false, ""));
    assert!(!is_text_input_surface("DIV", false, ""));
    assert!(!is_text_input_surface("A", false, "button"));
}

#[test]
fn content_editable_and_textbox_role_count_too() {
    assert!(is_text_input_surface("DIV", true, ""));
    assert!(is_text_input_surface("DIV", false, "textbox"));
    assert!(!is_text_input_surface("DIV", false, "checkbox"));
}

#[test]
fn tag_names_are_matched_exactly() {
    // DOM tag names are reported uppercase; anything else is not a match
    assert!(!is_text_input_surface("input", false, ""));
    assert!(!is_text_input_surface("Textarea", false, ""));
}

#[test]
fn escape_blurs_only_text_surfaces() {
    assert!(escape_should_blur(Key::Escape, "INPUT", false, ""));
    assert!(escape_should_blur(Key::Escape, "DIV", true, ""));
    assert!(!escape_should_blur(Key::Escape, "DIV", false, ""));
    assert!(!escape_should_blur(Key::Char('a'), "INPUT", false, ""));
    assert!(!escape_should_blur(Key::Return, "TEXTAREA", false, ""));
}
