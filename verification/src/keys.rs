//! The keys and modifiers a global shortcut is made of, and the parsers
//! that read them from user-supplied names.

use vstd::prelude::*;
use vstd::string::StrSliceExecFns;
use vstd::utf8::is_ascii_chars;
use crate::text::{ascii_uppercased, same_text, to_ascii_uppercase};

verus! {

/// A modifier key of a shortcut.
#[derive(Clone, Copy, Debug, PartialEq, Eq, Structural)]
pub enum Modifier {
    Alt,
    Control,
    Shift,
    Meta,
}

/// A set of modifier keys.
#[derive(Clone, Copy, Debug, PartialEq, Eq, Structural)]
pub struct ModifierSet {
    pub alt: bool,
    pub control: bool,
    pub shift: bool,
    pub meta: bool,
}

/// The key of a shortcut: a function key or a letter.
#[derive(Clone, Copy, Debug, PartialEq, Eq, Structural)]
pub enum KeyCode {
    F1,
    F2,
    F3,
    F4,
    F5,
    F6,
    F7,
    F8,
    F9,
    F10,
    F11,
    F12,
    KeyA,
    KeyB,
    KeyC,
    KeyD,
    KeyE,
    KeyF,
    KeyG,
    KeyH,
    KeyI,
    KeyJ,
    KeyK,
    KeyL,
    KeyM,
    KeyN,
    KeyO,
    KeyP,
    KeyQ,
    KeyR,
    KeyS,
    KeyT,
    KeyU,
    KeyV,
    KeyW,
    KeyX,
    KeyY,
    KeyZ,
}

impl ModifierSet {
    /// Whether the set holds the modifier.
    pub open spec fn has(self, modifier: Modifier) -> bool {
        match modifier {
            Modifier::Alt => self.alt,
            Modifier::Control => self.control,
            Modifier::Shift => self.shift,
            Modifier::Meta => self.meta,
        }
    }

    /// The number of modifiers in the set.
    pub open spec fn count(self) -> nat {
        (if self.alt { 1nat } else { 0nat }) + (if self.control { 1nat } else { 0nat })
            + (if self.shift { 1nat } else { 0nat }) + (if self.meta { 1nat } else { 0nat })
    }

    /// The set without any modifier: a bare key.
    pub fn empty() -> (set: ModifierSet)
        ensures
            forall|m: Modifier| !set.has(m),
            set.count() == 0,
    {
        ModifierSet { alt: false, control: false, shift: false, meta: false }
    }

    /// The set with one more modifier. Adding a modifier twice changes nothing.
    pub fn with(self, modifier: Modifier) -> (set: ModifierSet)
        ensures
            forall|m: Modifier| set.has(m) == (m == modifier || self.has(m)),
    {
        match modifier {
            Modifier::Alt => ModifierSet { alt: true, ..self },
            Modifier::Control => ModifierSet { control: true, ..self },
            Modifier::Shift => ModifierSet { shift: true, ..self },
            Modifier::Meta => ModifierSet { meta: true, ..self },
        }
    }

    /// Whether the set holds the modifier.
    pub fn contains(&self, modifier: Modifier) -> (held: bool)
        ensures
            held == self.has(modifier),
    {
        match modifier {
            Modifier::Alt => self.alt,
            Modifier::Control => self.control,
            Modifier::Shift => self.shift,
            Modifier::Meta => self.meta,
        }
    }

    /// Whether the set holds no modifier.
    pub fn is_empty(&self) -> (none: bool)
        ensures
            none == (forall|m: Modifier| !self.has(m)),
            none == (self.count() == 0),
    {
        let none = !self.alt && !self.control && !self.shift && !self.meta;
        proof {
            if !none {
                assert(self.has(Modifier::Alt) || self.has(Modifier::Control) || self.has(
                    Modifier::Shift,
                ) || self.has(Modifier::Meta));
            }
        }
        none
    }
}

/// Two sets that hold the same modifiers are the same set.
pub proof fn lemma_modifier_set_ext(a: ModifierSet, b: ModifierSet)
    requires
        forall|m: Modifier| a.has(m) == b.has(m),
    ensures
        a == b,
{
    assert(a.has(Modifier::Alt) == b.has(Modifier::Alt));
    assert(a.has(Modifier::Control) == b.has(Modifier::Control));
    assert(a.has(Modifier::Shift) == b.has(Modifier::Shift));
    assert(a.has(Modifier::Meta) == b.has(Modifier::Meta));
}

/// The upper-case name of each key: `F1` to `F12`, and the letter itself.
pub open spec fn key_name(key: KeyCode) -> Seq<char> {
    match key {
        KeyCode::F1 => seq!['F', '1'],
        KeyCode::F2 => seq!['F', '2'],
        KeyCode::F3 => seq!['F', '3'],
        KeyCode::F4 => seq!['F', '4'],
        KeyCode::F5 => seq!['F', '5'],
        KeyCode::F6 => seq!['F', '6'],
        KeyCode::F7 => seq!['F', '7'],
        KeyCode::F8 => seq!['F', '8'],
        KeyCode::F9 => seq!['F', '9'],
        KeyCode::F10 => seq!['F', '1', '0'],
        KeyCode::F11 => seq!['F', '1', '1'],
        KeyCode::F12 => seq!['F', '1', '2'],
        KeyCode::KeyA => seq!['A'],
        KeyCode::KeyB => seq!['B'],
        KeyCode::KeyC => seq!['C'],
        KeyCode::KeyD => seq!['D'],
        KeyCode::KeyE => seq!['E'],
        KeyCode::KeyF => seq!['F'],
        KeyCode::KeyG => seq!['G'],
        KeyCode::KeyH => seq!['H'],
        KeyCode::KeyI => seq!['I'],
        KeyCode::KeyJ => seq!['J'],
        KeyCode::KeyK => seq!['K'],
        KeyCode::KeyL => seq!['L'],
        KeyCode::KeyM => seq!['M'],
        KeyCode::KeyN => seq!['N'],
        KeyCode::KeyO => seq!['O'],
        KeyCode::KeyP => seq!['P'],
        KeyCode::KeyQ => seq!['Q'],
        KeyCode::KeyR => seq!['R'],
        KeyCode::KeyS => seq!['S'],
        KeyCode::KeyT => seq!['T'],
        KeyCode::KeyU => seq!['U'],
        KeyCode::KeyV => seq!['V'],
        KeyCode::KeyW => seq!['W'],
        KeyCode::KeyX => seq!['X'],
        KeyCode::KeyY => seq!['Y'],
        KeyCode::KeyZ => seq!['Z'],
    }
}

/// Whether some key has this upper-case name.
pub open spec fn is_key_name(name: Seq<char>) -> bool {
    exists|key: KeyCode| key_name(key) == name
}

/// No two keys share a name.
pub proof fn lemma_key_names_distinct(a: KeyCode, b: KeyCode)
    requires
        key_name(a) == key_name(b),
    ensures
        a == b,
{
    let n = key_name(a);
    let m = key_name(b);
    assert(n.len() == m.len());
    assert(n[0] == m[0]);
    if n.len() >= 2 {
        assert(n[1] == m[1]);
    }
    if n.len() >= 3 {
        assert(n[2] == m[2]);
    }
}

/// The letter key of an upper-case letter.
fn letter_key(letter: char) -> (key: Option<KeyCode>)
    ensures
        match key {
            Some(k) => key_name(k) == seq![letter],
            None => forall|k: KeyCode| key_name(k) != seq![letter],
        },
{
    let key = match letter {
        'A' => Some(KeyCode::KeyA),
        'B' => Some(KeyCode::KeyB),
        'C' => Some(KeyCode::KeyC),
        'D' => Some(KeyCode::KeyD),
        'E' => Some(KeyCode::KeyE),
        'F' => Some(KeyCode::KeyF),
        'G' => Some(KeyCode::KeyG),
        'H' => Some(KeyCode::KeyH),
        'I' => Some(KeyCode::KeyI),
        'J' => Some(KeyCode::KeyJ),
        'K' => Some(KeyCode::KeyK),
        'L' => Some(KeyCode::KeyL),
        'M' => Some(KeyCode::KeyM),
        'N' => Some(KeyCode::KeyN),
        'O' => Some(KeyCode::KeyO),
        'P' => Some(KeyCode::KeyP),
        'Q' => Some(KeyCode::KeyQ),
        'R' => Some(KeyCode::KeyR),
        'S' => Some(KeyCode::KeyS),
        'T' => Some(KeyCode::KeyT),
        'U' => Some(KeyCode::KeyU),
        'V' => Some(KeyCode::KeyV),
        'W' => Some(KeyCode::KeyW),
        'X' => Some(KeyCode::KeyX),
        'Y' => Some(KeyCode::KeyY),
        'Z' => Some(KeyCode::KeyZ),
        _ => None,
    };
    proof {
        match key {
            Some(k) => {
                assert(key_name(k) =~= seq![letter]);
            },
            None => {
                assert forall|k: KeyCode| key_name(k) != seq![letter] by {
                    if key_name(k) == seq![letter] {
                        assert(key_name(k).len() == 1);
                        assert(key_name(k)[0] == seq![letter][0]);
                    }
                }
            },
        }
    }
    key
}

/// The function key with the given number.
fn function_key(number: u8) -> (key: Option<KeyCode>)
    ensures
        key == match number {
            1u8 => Some(KeyCode::F1),
            2u8 => Some(KeyCode::F2),
            3u8 => Some(KeyCode::F3),
            4u8 => Some(KeyCode::F4),
            5u8 => Some(KeyCode::F5),
            6u8 => Some(KeyCode::F6),
            7u8 => Some(KeyCode::F7),
            8u8 => Some(KeyCode::F8),
            9u8 => Some(KeyCode::F9),
            10u8 => Some(KeyCode::F10),
            11u8 => Some(KeyCode::F11),
            12u8 => Some(KeyCode::F12),
            _ => None,
        },
{
    match number {
        1u8 => Some(KeyCode::F1),
        2u8 => Some(KeyCode::F2),
        3u8 => Some(KeyCode::F3),
        4u8 => Some(KeyCode::F4),
        5u8 => Some(KeyCode::F5),
        6u8 => Some(KeyCode::F6),
        7u8 => Some(KeyCode::F7),
        8u8 => Some(KeyCode::F8),
        9u8 => Some(KeyCode::F9),
        10u8 => Some(KeyCode::F10),
        11u8 => Some(KeyCode::F11),
        12u8 => Some(KeyCode::F12),
        _ => None,
    }
}

/// The value of a decimal digit.
fn digit_value(digit: char) -> (value: Option<u8>)
    ensures
        value == match digit {
            '0' => Some(0u8),
            '1' => Some(1u8),
            '2' => Some(2u8),
            '3' => Some(3u8),
            '4' => Some(4u8),
            '5' => Some(5u8),
            '6' => Some(6u8),
            '7' => Some(7u8),
            '8' => Some(8u8),
            '9' => Some(9u8),
            _ => None,
        },
{
    match digit {
        '0' => Some(0),
        '1' => Some(1),
        '2' => Some(2),
        '3' => Some(3),
        '4' => Some(4),
        '5' => Some(5),
        '6' => Some(6),
        '7' => Some(7),
        '8' => Some(8),
        '9' => Some(9),
        _ => None,
    }
}

/// Reads a key from its upper-case name.
///
/// Returns the key whose name this is, and `None` exactly when no key has
/// this name. Lower-case names are not keys here: see [`parse_key`].
pub fn key_from_name(name: &str) -> (key: Option<KeyCode>)
    ensures
        match key {
            Some(k) => key_name(k) == name@,
            None => !is_key_name(name@),
        },
        forall|k: KeyCode| key_name(k) == name@ ==> key == Some(k),
{
    let length = name.unicode_len();
    let key = if length == 1 {
        letter_key(name.get_char(0))
    } else if length == 2 {
        if name.get_char(0) == 'F' {
            match digit_value(name.get_char(1)) {
                Some(ones) => function_key(ones),
                None => None,
            }
        } else {
            None
        }
    } else if length == 3 {
        if name.get_char(0) == 'F' && name.get_char(1) == '1' {
            match digit_value(name.get_char(2)) {
                Some(ones) => function_key(10 + ones),
                None => None,
            }
        } else {
            None
        }
    } else {
        None
    };
    proof {
        let text = name@;
        match key {
            Some(k) => {
                assert(key_name(k) =~= text);
                assert forall|other: KeyCode| key_name(other) == text implies other == k by {
                    lemma_key_names_distinct(other, k);
                }
            },
            None => {
                assert forall|k: KeyCode| key_name(k) != text by {
                    let n = key_name(k);
                    if n == text {
                        assert(n.len() == text.len());
                        assert(n[0] == text[0]);
                        if n.len() == 1 {
                            assert(n =~= seq![text[0]]);
                        }
                        if n.len() >= 2 {
                            assert(n[1] == text[1]);
                        }
                        if n.len() >= 3 {
                            assert(n[2] == text[2]);
                        }
                    }
                }
            },
        }
    }
    key
}

/// The key a user-supplied token stands for: the key named by the token's
/// upper-case form, if the token is ASCII and there is such a key.
pub open spec fn parsed_key(token: Seq<char>) -> Option<KeyCode> {
    if is_ascii_chars(token) && is_key_name(ascii_uppercased(token)) {
        Some(choose|key: KeyCode| key_name(key) == ascii_uppercased(token))
    } else {
        None
    }
}

/// Parses a key token, ignoring the case of ASCII letters: `F1` to `F12`,
/// or a single letter `A` to `Z`. Anything else is no key; in particular no
/// token with a character outside ASCII is one.
pub fn parse_key(token: &str) -> (key: Option<KeyCode>)
    ensures
        key == parsed_key(token@),
        key is Some ==> vstd::string::is_ascii(token),
        match key {
            Some(k) => key_name(k) == ascii_uppercased(token@),
            None => !is_ascii_chars(token@) || !is_key_name(ascii_uppercased(token@)),
        },
        forall|k: KeyCode|
            is_ascii_chars(token@) && key_name(k) == ascii_uppercased(token@) ==> key == Some(k),
{
    if !token.is_ascii() {
        return None;
    }
    let upper = to_ascii_uppercase(token);
    let key = key_from_name(upper.as_str());
    proof {
        if let Some(k) = key {
            lemma_key_names_distinct(
                k,
                choose|c: KeyCode| key_name(c) == ascii_uppercased(token@),
            );
        }
    }
    key
}

/// The modifier an upper-case name stands for. `ALT` and `OPTION` name the
/// same modifier, as do `CTRL` and `CONTROL`, and `META`, `SUPER`, `CMD` and
/// `COMMAND`.
pub open spec fn modifier_named(name: Seq<char>) -> Option<Modifier> {
    if name == "ALT"@ || name == "OPTION"@ {
        Some(Modifier::Alt)
    } else if name == "CTRL"@ || name == "CONTROL"@ {
        Some(Modifier::Control)
    } else if name == "SHIFT"@ {
        Some(Modifier::Shift)
    } else if name == "META"@ || name == "SUPER"@ || name == "CMD"@ || name == "COMMAND"@ {
        Some(Modifier::Meta)
    } else {
        None
    }
}

/// Reads a modifier from its upper-case name. Any other text is no
/// modifier.
pub fn modifier_from_name(name: &str) -> (modifier: Option<Modifier>)
    ensures
        modifier == modifier_named(name@),
{
    if same_text(name, "ALT") || same_text(name, "OPTION") {
        Some(Modifier::Alt)
    } else if same_text(name, "CTRL") || same_text(name, "CONTROL") {
        Some(Modifier::Control)
    } else if same_text(name, "SHIFT") {
        Some(Modifier::Shift)
    } else if same_text(name, "META") || same_text(name, "SUPER") || same_text(name, "CMD")
        || same_text(name, "COMMAND") {
        Some(Modifier::Meta)
    } else {
        None
    }
}

/// The modifier a user-supplied token stands for, ignoring the case of
/// ASCII letters. A token with a character outside ASCII stands for none.
pub open spec fn recognized(token: Seq<char>) -> Option<Modifier> {
    if is_ascii_chars(token) {
        modifier_named(ascii_uppercased(token))
    } else {
        None
    }
}

/// Whether one of the tokens stands for the modifier.
pub open spec fn names_modifier(tokens: Seq<Seq<char>>, modifier: Modifier) -> bool {
    exists|i: int| 0 <= i < tokens.len() && #[trigger] recognized(tokens[i]) == Some(modifier)
}

/// The modifiers a list of tokens stands for: each modifier that some token
/// names. Tokens that name no modifier count for nothing.
pub open spec fn parsed_modifiers(tokens: Seq<Seq<char>>) -> ModifierSet {
    ModifierSet {
        alt: names_modifier(tokens, Modifier::Alt),
        control: names_modifier(tokens, Modifier::Control),
        shift: names_modifier(tokens, Modifier::Shift),
        meta: names_modifier(tokens, Modifier::Meta),
    }
}

/// The characters of each text in a list.
pub open spec fn texts(list: Seq<String>) -> Seq<Seq<char>> {
    Seq::new(list.len(), |i: int| list[i]@)
}

/// Parses modifier tokens, ignoring the case of ASCII letters. Tokens that
/// name no modifier are dropped, so every list of tokens parses; the empty
/// list gives the empty set.
pub fn parse_modifiers(tokens: &Vec<String>) -> (set: ModifierSet)
    ensures
        set == parsed_modifiers(texts(tokens@)),
        forall|m: Modifier| set.has(m) == names_modifier(texts(tokens@), m),
{
    let ghost all = texts(tokens@);
    let mut set = ModifierSet::empty();
    let mut i: usize = 0;
    while i < tokens.len()
        invariant
            i <= tokens.len(),
            all == texts(tokens@),
            forall|m: Modifier| set.has(m) == names_modifier(all.take(i as int), m),
        decreases tokens.len() - i,
    {
        let token = tokens[i].as_str();
        let found = if token.is_ascii() {
            modifier_from_name(to_ascii_uppercase(token).as_str())
        } else {
            None
        };
        let ghost before = set;
        if let Some(modifier) = found {
            set = set.with(modifier);
        }
        proof {
            let shorter = all.take(i as int);
            let longer = all.take(i + 1);
            assert(longer[i as int] == tokens@[i as int]@);
            assert(recognized(longer[i as int]) == found);
            assert forall|m: Modifier| set.has(m) == names_modifier(longer, m) by {
                if names_modifier(longer, m) {
                    let j = choose|j: int|
                        0 <= j < longer.len() && #[trigger] recognized(longer[j]) == Some(m);
                    if j < i {
                        assert(shorter[j] == longer[j]);
                        assert(names_modifier(shorter, m));
                    }
                }
                if before.has(m) {
                    let j = choose|j: int|
                        0 <= j < shorter.len() && #[trigger] recognized(shorter[j]) == Some(m);
                    assert(shorter[j] == longer[j]);
                    assert(names_modifier(longer, m));
                }
                if found == Some(m) {
                    assert(names_modifier(longer, m));
                }
            }
        }
        i += 1;
    }
    proof {
        assert(all.take(i as int) =~= all);
        lemma_modifier_set_ext(set, parsed_modifiers(all));
    }
    set
}

/// No tokens stand for no modifiers: a bare key.
pub proof fn lemma_no_tokens_no_modifiers()
    ensures
        parsed_modifiers(Seq::<Seq<char>>::empty()) == (ModifierSet {
            alt: false,
            control: false,
            shift: false,
            meta: false,
        }),
{
}

/// A token that names no modifier is dropped: the list stands for the same
/// modifiers with and without it.
pub proof fn lemma_unknown_token_is_dropped(tokens: Seq<Seq<char>>, at: int)
    requires
        0 <= at < tokens.len(),
        recognized(tokens[at]) is None,
    ensures
        parsed_modifiers(tokens) == parsed_modifiers(tokens.remove(at)),
{
    let fewer = tokens.remove(at);
    assert forall|m: Modifier| names_modifier(tokens, m) == names_modifier(fewer, m) by {
        if names_modifier(tokens, m) {
            let i = choose|i: int|
                0 <= i < tokens.len() && #[trigger] recognized(tokens[i]) == Some(m);
            if i < at {
                assert(fewer[i] == tokens[i]);
            } else {
                assert(fewer[i - 1] == tokens[i]);
            }
            assert(names_modifier(fewer, m));
        }
        if names_modifier(fewer, m) {
            let i = choose|i: int|
                0 <= i < fewer.len() && #[trigger] recognized(fewer[i]) == Some(m);
            if i < at {
                assert(fewer[i] == tokens[i]);
            } else {
                assert(fewer[i] == tokens[i + 1]);
            }
            assert(names_modifier(tokens, m));
        }
    }
}

/// The modifiers a list stands for depend on which tokens occur, not on
/// their order or number.
pub proof fn lemma_modifiers_ignore_order(first: Seq<Seq<char>>, second: Seq<Seq<char>>)
    requires
        forall|i: int| 0 <= i < first.len() ==> second.contains(#[trigger] first[i]),
        forall|i: int| 0 <= i < second.len() ==> first.contains(#[trigger] second[i]),
    ensures
        parsed_modifiers(first) == parsed_modifiers(second),
{
    assert forall|m: Modifier| names_modifier(first, m) == names_modifier(second, m) by {
        if names_modifier(first, m) {
            let i = choose|i: int|
                0 <= i < first.len() && #[trigger] recognized(first[i]) == Some(m);
            assert(second.contains(first[i]));
            let j = choose|j: int| 0 <= j < second.len() && second[j] == first[i];
            assert(recognized(second[j]) == Some(m));
        }
        if names_modifier(second, m) {
            let i = choose|i: int|
                0 <= i < second.len() && #[trigger] recognized(second[i]) == Some(m);
            assert(first.contains(second[i]));
            let j = choose|j: int| 0 <= j < first.len() && first[j] == second[i];
            assert(recognized(first[j]) == Some(m));
        }
    }
}

/// Case is ignored: tokens with the same upper-case form, both ASCII or
/// both not, stand for the same key and the same modifier.
pub proof fn lemma_case_is_ignored(first: Seq<char>, second: Seq<char>)
    requires
        is_ascii_chars(first) == is_ascii_chars(second),
        ascii_uppercased(first) == ascii_uppercased(second),
    ensures
        parsed_key(first) == parsed_key(second),
        recognized(first) == recognized(second),
{
}

/// A token with a character outside ASCII is no key and names no modifier.
pub proof fn lemma_only_ascii_tokens_count(token: Seq<char>)
    requires
        !is_ascii_chars(token),
    ensures
        parsed_key(token) is None,
        recognized(token) is None,
{
}

/// An ASCII token whose upper-case form is the name of a key stands for
/// that key and no other.
pub proof fn lemma_parsed_key_is(token: Seq<char>, key: KeyCode)
    requires
        is_ascii_chars(token),
        key_name(key) == ascii_uppercased(token),
    ensures
        parsed_key(token) == Some(key),
{
    lemma_key_names_distinct(key, choose|c: KeyCode| key_name(c) == ascii_uppercased(token));
}

/// Every key is parsed back from its own name.
pub proof fn lemma_key_names_parse(key: KeyCode)
    ensures
        parsed_key(key_name(key)) == Some(key),
{
    let name = key_name(key);
    assert(is_ascii_chars(name));
    assert(ascii_uppercased(name) =~= name);
    lemma_parsed_key_is(name, key);
}

} // verus!
