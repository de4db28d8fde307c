use yap_host::binding::{
    load_or_default, ConfigError, ShortcutBinding, ShortcutConfig, ShortcutsSettings,
};
use yap_host::keys::{KeyCode, Modifier, ModifierSet};

fn config(modifiers: &[&str], key: &str) -> ShortcutConfig {
    ShortcutConfig {
        modifiers: modifiers.iter().map(|name| name.to_string()).collect(),
        key: key.to_string(),
    }
}

fn alt_f5() -> ShortcutBinding {
    ShortcutBinding {
        modifiers: ModifierSet { alt: true, control: false, shift: false, meta: false },
        key: KeyCode::F5,
    }
}

#[test]
fn default_binding_is_alt_f5() {
    let binding = ShortcutBinding::alt_f5();
    assert_eq!(binding, alt_f5());
    assert!(binding.modifiers.contains(Modifier::Alt));
    assert!(!binding.modifiers.contains(Modifier::Control));
    assert!(!binding.modifiers.contains(Modifier::Shift));
    assert!(!binding.modifiers.contains(Modifier::Meta));
    assert_eq!(binding.key, KeyCode::F5);
}

#[test]
fn absent_binding_loads_as_default() {
    assert_eq!(load_or_default(&ShortcutsSettings::empty()), alt_f5());
    assert_eq!(load_or_default(&ShortcutsSettings { toggle_recording: None }), alt_f5());
}

#[test]
fn persisted_binding_loads() {
    let settings = ShortcutsSettings { toggle_recording: Some(config(&["Ctrl", "Shift"], "A")) };
    assert_eq!(
        load_or_default(&settings),
        ShortcutBinding {
            modifiers: ModifierSet { alt: false, control: true, shift: true, meta: false },
            key: KeyCode::KeyA,
        }
    );
}

#[test]
fn persisted_binding_with_unknown_modifier_loads_without_it() {
    let settings = ShortcutsSettings { toggle_recording: Some(config(&["Banana", "cmd"], "f9")) };
    assert_eq!(
        load_or_default(&settings),
        ShortcutBinding {
            modifiers: ModifierSet { alt: false, control: false, shift: false, meta: true },
            key: KeyCode::F9,
        }
    );
}

#[test]
fn persisted_binding_with_a_bad_key_loads_as_default() {
    for key in ["1", "", "F13", "Enter", "\u{017F}", "\u{0131}"] {
        let settings = ShortcutsSettings { toggle_recording: Some(config(&["Ctrl"], key)) };
        assert_eq!(load_or_default(&settings), alt_f5());
    }
}

#[test]
fn resolve_parses_a_configuration() {
    assert_eq!(
        config(&["Ctrl", "Shift"], "A").resolve(),
        Ok(ShortcutBinding {
            modifiers: ModifierSet { alt: false, control: true, shift: true, meta: false },
            key: KeyCode::KeyA,
        })
    );
    assert_eq!(
        config(&[], "f1").resolve(),
        Ok(ShortcutBinding { modifiers: ModifierSet::empty(), key: KeyCode::F1 })
    );
}

#[test]
fn resolve_rejects_a_bad_key() {
    assert_eq!(config(&[], "1").resolve(), Err(ConfigError::InvalidKey));
    assert_eq!(config(&["Alt"], "F13").resolve(), Err(ConfigError::InvalidKey));
    assert_eq!(config(&["Alt"], "").resolve(), Err(ConfigError::InvalidKey));
    assert_eq!(config(&["Alt"], "\u{017F}").resolve(), Err(ConfigError::InvalidKey));
}

#[test]
fn invalid_key_has_a_message() {
    assert_eq!(ConfigError::InvalidKey.message(), "Invalid key");
}
