use yap_host::keys::{
    key_from_name, modifier_from_name, parse_key, parse_modifiers, KeyCode, Modifier, ModifierSet,
};

fn tokens(names: &[&str]) -> Vec<String> {
    names.iter().map(|name| name.to_string()).collect()
}

fn set(alt: bool, control: bool, shift: bool, meta: bool) -> ModifierSet {
    ModifierSet { alt, control, shift, meta }
}

#[test]
fn function_keys_parse() {
    let expected = [
        ("F1", KeyCode::F1),
        ("F2", KeyCode::F2),
        ("F3", KeyCode::F3),
        ("F4", KeyCode::F4),
        ("F5", KeyCode::F5),
        ("F6", KeyCode::F6),
        ("F7", KeyCode::F7),
        ("F8", KeyCode::F8),
        ("F9", KeyCode::F9),
        ("F10", KeyCode::F10),
        ("F11", KeyCode::F11),
        ("F12", KeyCode::F12),
    ];
    for (name, key) in expected {
        assert_eq!(parse_key(name), Some(key));
        assert_eq!(key_from_name(name), Some(key));
        assert_eq!(parse_key(&name.to_lowercase()), Some(key));
    }
}

#[test]
fn letter_keys_parse() {
    let expected = [
        ("A", KeyCode::KeyA),
        ("B", KeyCode::KeyB),
        ("C", KeyCode::KeyC),
        ("D", KeyCode::KeyD),
        ("E", KeyCode::KeyE),
        ("F", KeyCode::KeyF),
        ("G", KeyCode::KeyG),
        ("H", KeyCode::KeyH),
        ("I", KeyCode::KeyI),
        ("J", KeyCode::KeyJ),
        ("K", KeyCode::KeyK),
        ("L", KeyCode::KeyL),
        ("M", KeyCode::KeyM),
        ("N", KeyCode::KeyN),
        ("O", KeyCode::KeyO),
        ("P", KeyCode::KeyP),
        ("Q", KeyCode::KeyQ),
        ("R", KeyCode::KeyR),
        ("S", KeyCode::KeyS),
        ("T", KeyCode::KeyT),
        ("U", KeyCode::KeyU),
        ("V", KeyCode::KeyV),
        ("W", KeyCode::KeyW),
        ("X", KeyCode::KeyX),
        ("Y", KeyCode::KeyY),
        ("Z", KeyCode::KeyZ),
    ];
    for (name, key) in expected {
        assert_eq!(parse_key(name), Some(key));
        assert_eq!(key_from_name(name), Some(key));
        assert_eq!(parse_key(&name.to_lowercase()), Some(key));
    }
}

#[test]
fn key_parsing_ignores_case() {
    assert_eq!(parse_key("f5"), Some(KeyCode::F5));
    assert_eq!(parse_key("a"), Some(KeyCode::KeyA));
    assert_eq!(parse_key("f12"), Some(KeyCode::F12));
    assert_eq!(parse_key("z"), Some(KeyCode::KeyZ));
}

#[test]
fn upper_case_names_are_exact() {
    assert_eq!(key_from_name("F5"), Some(KeyCode::F5));
    assert_eq!(key_from_name("f5"), None);
    assert_eq!(key_from_name("a"), None);
    assert_eq!(modifier_from_name("ALT"), Some(Modifier::Alt));
    assert_eq!(modifier_from_name("alt"), None);
    assert_eq!(modifier_from_name("Alt"), None);
}

#[test]
fn other_tokens_are_no_keys() {
    for token in [
        "", "1", "0", "F0", "F13", "F100", "F", "FF", "F1 ", " F1", "AB", "F1A", "F01", "F-1",
        "Enter", "Space", "é", "Ä", "5", "F٣", "F1\n", "@", "[", "\u{017F}", "\u{0131}",
        "F\u{0131}", "\u{212A}",
    ] {
        if token == "F" {
            assert_eq!(parse_key(token), Some(KeyCode::KeyF));
        } else {
            assert_eq!(parse_key(token), None, "token {:?}", token);
        }
    }
}

#[test]
fn modifier_names() {
    for name in ["ALT", "OPTION"] {
        assert_eq!(modifier_from_name(name), Some(Modifier::Alt));
    }
    for name in ["CTRL", "CONTROL"] {
        assert_eq!(modifier_from_name(name), Some(Modifier::Control));
    }
    assert_eq!(modifier_from_name("SHIFT"), Some(Modifier::Shift));
    for name in ["META", "SUPER", "CMD", "COMMAND"] {
        assert_eq!(modifier_from_name(name), Some(Modifier::Meta));
    }
    for name in ["", "BANANA", "ALTS", "AL", "CTL", "WIN", "ALT ", "F5", "A"] {
        assert_eq!(modifier_from_name(name), None);
    }
}

#[test]
fn modifiers_parse_ignoring_case() {
    assert_eq!(parse_modifiers(&tokens(&["Alt"])), set(true, false, false, false));
    assert_eq!(parse_modifiers(&tokens(&["option"])), set(true, false, false, false));
    assert_eq!(parse_modifiers(&tokens(&["Ctrl"])), set(false, true, false, false));
    assert_eq!(parse_modifiers(&tokens(&["control"])), set(false, true, false, false));
    assert_eq!(parse_modifiers(&tokens(&["sHiFt"])), set(false, false, true, false));
    assert_eq!(parse_modifiers(&tokens(&["meta"])), set(false, false, false, true));
    assert_eq!(parse_modifiers(&tokens(&["Super"])), set(false, false, false, true));
    assert_eq!(parse_modifiers(&tokens(&["cmd"])), set(false, false, false, true));
    assert_eq!(parse_modifiers(&tokens(&["Command"])), set(false, false, false, true));
}

#[test]
fn modifiers_combine() {
    assert_eq!(parse_modifiers(&tokens(&["Ctrl", "Shift"])), set(false, true, true, false));
    assert_eq!(parse_modifiers(&tokens(&["Shift", "Ctrl"])), set(false, true, true, false));
    assert_eq!(
        parse_modifiers(&tokens(&["Alt", "Ctrl", "Shift", "Meta"])),
        set(true, true, true, true)
    );
    assert_eq!(parse_modifiers(&tokens(&["Alt", "Option", "ALT"])), set(true, false, false, false));
}

#[test]
fn unknown_modifiers_are_dropped() {
    assert_eq!(parse_modifiers(&tokens(&["Banana"])), ModifierSet::empty());
    assert_eq!(parse_modifiers(&tokens(&["Banana", "Ctrl", ""])), set(false, true, false, false));
    assert_eq!(parse_modifiers(&tokens(&["F5", "A", "Alt+Ctrl"])), ModifierSet::empty());
}

#[test]
fn no_modifiers_is_the_empty_set() {
    let parsed = parse_modifiers(&Vec::new());
    assert_eq!(parsed, ModifierSet::empty());
    assert!(parsed.is_empty());
    assert!(!parsed.contains(Modifier::Alt));
}

#[test]
fn modifier_sets_grow() {
    let empty = ModifierSet::empty();
    assert!(empty.is_empty());
    let alt = empty.with(Modifier::Alt);
    assert!(alt.contains(Modifier::Alt));
    assert!(!alt.contains(Modifier::Control));
    assert!(!alt.is_empty());
    assert_eq!(alt.with(Modifier::Alt), alt);
    let all = alt.with(Modifier::Control).with(Modifier::Shift).with(Modifier::Meta);
    assert_eq!(all, set(true, true, true, true));
    assert_eq!(empty.with(Modifier::Control), set(false, true, false, false));
    assert_eq!(empty.with(Modifier::Shift), set(false, false, true, false));
    assert_eq!(empty.with(Modifier::Meta), set(false, false, false, true));
    assert!(all.contains(Modifier::Shift) && all.contains(Modifier::Meta));
}

#[test]
fn tokens_outside_ascii_are_no_keys() {
    assert_eq!("\u{017F}".to_uppercase(), "S");
    assert_eq!("\u{0131}".to_uppercase(), "I");
    assert_eq!(parse_key("\u{017F}"), None);
    assert_eq!(parse_key("\u{0131}"), None);
    assert_eq!(key_from_name("\u{017F}"), None);
    assert_eq!(parse_key("s"), Some(KeyCode::KeyS));
    assert_eq!(parse_key("i"), Some(KeyCode::KeyI));
}

#[test]
fn tokens_outside_ascii_are_no_modifiers() {
    assert_eq!("\u{017F}hift".to_uppercase(), "SHIFT");
    assert_eq!(parse_modifiers(&tokens(&["\u{017F}hift"])), ModifierSet::empty());
    assert_eq!(parse_modifiers(&tokens(&["Sh\u{0131}ft", "opt\u{0131}on"])), ModifierSet::empty());
    assert_eq!(
        parse_modifiers(&tokens(&["\u{017F}hift", "shift", "ctrl"])),
        set(false, true, true, false)
    );
}
