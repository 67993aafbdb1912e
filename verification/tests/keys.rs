use canvas_window::keys::{translate_key, Key};

#[test]
fn arrow_keys_are_named_by_their_codes() {
    assert_eq!(translate_key("ArrowDown"), Some(Key::ArrowDown));
    assert_eq!(translate_key("ArrowLeft"), Some(Key::ArrowLeft));
    assert_eq!(translate_key("ArrowRight"), Some(Key::ArrowRight));
    assert_eq!(translate_key("ArrowUp"), Some(Key::ArrowUp));
}

#[test]
fn escape_has_two_names() {
    assert_eq!(translate_key("Esc"), Some(Key::Escape));
    assert_eq!(translate_key("Escape"), Some(Key::Escape));
}

#[test]
fn help_and_insert_name_the_same_key() {
    assert_eq!(translate_key("Help"), Some(Key::Insert));
    assert_eq!(translate_key("Insert"), Some(Key::Insert));
}

#[test]
fn editing_and_navigation_keys() {
    assert_eq!(translate_key("Tab"), Some(Key::Tab));
    assert_eq!(translate_key("Backspace"), Some(Key::Backspace));
    assert_eq!(translate_key("Enter"), Some(Key::Enter));
    assert_eq!(translate_key("Space"), Some(Key::Space));
    assert_eq!(translate_key("Delete"), Some(Key::Delete));
    assert_eq!(translate_key("Home"), Some(Key::Home));
    assert_eq!(translate_key("End"), Some(Key::End));
    assert_eq!(translate_key("PageUp"), Some(Key::PageUp));
    assert_eq!(translate_key("PageDown"), Some(Key::PageDown));
}

#[test]
fn digits_name_number_keys() {
    let expected = [
        Key::Num0, Key::Num1, Key::Num2, Key::Num3, Key::Num4,
        Key::Num5, Key::Num6, Key::Num7, Key::Num8, Key::Num9,
    ];
    for (d, k) in expected.iter().enumerate() {
        assert_eq!(translate_key(&d.to_string()), Some(*k));
    }
}

#[test]
fn letters_ignore_case() {
    let letters = "abcdefghijklmnopqrstuvwxyz";
    for c in letters.chars() {
        let lower = c.to_string();
        let upper = c.to_ascii_uppercase().to_string();
        assert!(translate_key(&lower).is_some());
        assert_eq!(translate_key(&lower), translate_key(&upper));
    }
    assert_eq!(translate_key("a"), Some(Key::A));
    assert_eq!(translate_key("Q"), Some(Key::Q));
    assert_eq!(translate_key("z"), Some(Key::Z));
}

#[test]
fn unknown_codes_name_no_key() {
    assert_eq!(translate_key(""), None);
    assert_eq!(translate_key("KeyA"), None);
    assert_eq!(translate_key("ControlLeft"), None);
    assert_eq!(translate_key("escape"), None);
    assert_eq!(translate_key("ab"), None);
    assert_eq!(translate_key("10"), None);
    assert_eq!(translate_key("é"), None);
}
