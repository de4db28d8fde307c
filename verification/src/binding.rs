//! Shortcut bindings: the form that is registered, the form that is
//! persisted, and the way from the second to the first.

use vstd::prelude::*;
use crate::keys::{
    parse_key, parse_modifiers, parsed_key, parsed_modifiers, texts, KeyCode, Modifier,
    ModifierSet,
};

verus! {

/// One global shortcut: a set of modifiers and a key.
#[derive(Clone, Copy, Debug, PartialEq, Eq, Structural)]
pub struct ShortcutBinding {
    pub modifiers: ModifierSet,
    pub key: KeyCode,
}

/// A shortcut as the user wrote it and as the settings file keeps it:
/// modifier tokens and a key token, unparsed.
#[derive(Debug, PartialEq, Eq)]
pub struct ShortcutConfig {
    pub modifiers: Vec<String>,
    pub key: String,
}

/// The persisted shortcut settings. The toggle shortcut may be absent.
#[derive(Debug, PartialEq, Eq)]
pub struct ShortcutsSettings {
    pub toggle_recording: Option<ShortcutConfig>,
}

/// A request named something that is no shortcut.
#[derive(Clone, Copy, Debug, PartialEq, Eq, Structural)]
pub enum ConfigError {
    /// The key token is neither `F1` to `F12` nor a single letter.
    InvalidKey,
}

/// The characters of a [`ShortcutConfig`].
pub struct ConfigText {
    pub modifiers: Seq<Seq<char>>,
    pub key: Seq<char>,
}

impl View for ShortcutConfig {
    type V = ConfigText;

    open spec fn view(&self) -> ConfigText {
        ConfigText { modifiers: texts(self.modifiers@), key: self.key@ }
    }
}

impl View for ShortcutsSettings {
    type V = Option<ConfigText>;

    open spec fn view(&self) -> Option<ConfigText> {
        match self.toggle_recording {
            Some(config) => Some(config@),
            None => None,
        }
    }
}

impl Clone for ShortcutConfig {
    /// A copy with the same tokens.
    fn clone(&self) -> (copy: Self)
        ensures
            copy@ == self@,
    {
        let mut modifiers: Vec<String> = Vec::new();
        let mut i: usize = 0;
        while i < self.modifiers.len()
            invariant
                i <= self.modifiers.len(),
                modifiers.len() == i,
                forall|j: int| 0 <= j < i ==> modifiers@[j]@ == self.modifiers@[j]@,
            decreases self.modifiers.len() - i,
        {
            modifiers.push(self.modifiers[i].clone());
            i += 1;
        }
        let copy = ShortcutConfig { modifiers, key: self.key.clone() };
        assert(copy@.modifiers =~= self@.modifiers);
        copy
    }
}

impl Clone for ShortcutsSettings {
    /// A copy with the same tokens.
    fn clone(&self) -> (copy: Self)
        ensures
            copy@ == self@,
    {
        match &self.toggle_recording {
            Some(config) => ShortcutsSettings { toggle_recording: Some(config.clone()) },
            None => ShortcutsSettings { toggle_recording: None },
        }
    }
}

/// The binding used when none is persisted: Alt + F5.
pub open spec fn default_binding() -> ShortcutBinding {
    ShortcutBinding {
        modifiers: ModifierSet { alt: true, control: false, shift: false, meta: false },
        key: KeyCode::F5,
    }
}

/// The binding a configuration stands for, if its key token names a key.
/// Modifier tokens never make a configuration invalid.
pub open spec fn resolved(config: ConfigText) -> Option<ShortcutBinding> {
    match parsed_key(config.key) {
        Some(key) => Some(ShortcutBinding { modifiers: parsed_modifiers(config.modifiers), key }),
        None => None,
    }
}

/// The binding to start with, given what is persisted: the persisted one
/// where it is present and valid, the default otherwise.
pub open spec fn loaded(persisted: Option<ConfigText>) -> ShortcutBinding {
    match persisted {
        Some(config) => match resolved(config) {
            Some(binding) => binding,
            None => default_binding(),
        },
        None => default_binding(),
    }
}

impl ShortcutBinding {
    /// The default binding, Alt + F5.
    pub fn alt_f5() -> (binding: ShortcutBinding)
        ensures
            binding == default_binding(),
            binding.modifiers.has(Modifier::Alt),
            binding.modifiers.count() == 1,
            binding.key == KeyCode::F5,
    {
        ShortcutBinding {
            modifiers: ModifierSet { alt: true, control: false, shift: false, meta: false },
            key: KeyCode::F5,
        }
    }
}

impl ConfigError {
    /// The message shown to the user.
    pub fn message(&self) -> (text: &'static str)
        ensures
            text@ == "Invalid key"@,
    {
        "Invalid key"
    }
}

impl ShortcutConfig {
    /// Parses the configuration into a binding.
    ///
    /// Fails with `InvalidKey` exactly when the key token names no key.
    pub fn resolve(&self) -> (result: Result<ShortcutBinding, ConfigError>)
        ensures
            match result {
                Ok(binding) => resolved(self@) == Some(binding),
                Err(error) => resolved(self@) is None && error == ConfigError::InvalidKey,
            },
    {
        let modifiers = parse_modifiers(&self.modifiers);
        match parse_key(self.key.as_str()) {
            Some(key) => Ok(ShortcutBinding { modifiers, key }),
            None => Err(ConfigError::InvalidKey),
        }
    }
}

impl ShortcutsSettings {
    /// Settings without a toggle shortcut: what an empty or unreadable
    /// settings file amounts to.
    pub fn empty() -> (settings: ShortcutsSettings)
        ensures
            settings@ is None,
    {
        ShortcutsSettings { toggle_recording: None }
    }
}

/// The binding to register at startup.
///
/// An absent shortcut, and one whose key token names no key, both give the
/// default Alt + F5; bad persisted data is never an error.
pub fn load_or_default(settings: &ShortcutsSettings) -> (binding: ShortcutBinding)
    ensures
        binding == loaded(settings@),
        settings@ is None ==> binding == default_binding(),
{
    match &settings.toggle_recording {
        Some(config) => match config.resolve() {
            Ok(binding) => binding,
            Err(_) => ShortcutBinding::alt_f5(),
        },
        None => ShortcutBinding::alt_f5(),
    }
}

} // verus!
