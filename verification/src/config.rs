//! The hotkey configuration and the application settings.

use vstd::prelude::*;

use crate::text::{join_path, joined_path, str_eq, string_of};

verus! {

/// A modifier key that a hotkey may require.
#[derive(Clone, Copy, Debug, PartialEq, Eq, Structural)]
pub enum Modifier {
    Alt,
    Control,
    Shift,
    Super,
}

/// The set of modifier keys that a hotkey requires.
#[derive(Clone, Copy, Debug, PartialEq, Eq, Structural)]
pub struct ModifierSet {
    pub alt: bool,
    pub control: bool,
    pub shift: bool,
    pub super_key: bool,
}

impl ModifierSet {
    /// The set that holds no modifier.
    pub fn empty() -> (r: ModifierSet)
        ensures
            r.is_empty_set(),
    {
        ModifierSet { alt: false, control: false, shift: false, super_key: false }
    }

    pub open spec fn is_empty_set(self) -> bool {
        !self.alt && !self.control && !self.shift && !self.super_key
    }

    pub open spec fn has(self, m: Modifier) -> bool {
        match m {
            Modifier::Alt => self.alt,
            Modifier::Control => self.control,
            Modifier::Shift => self.shift,
            Modifier::Super => self.super_key,
        }
    }

    /// Whether the set holds no modifier.
    pub fn is_empty(&self) -> (r: bool)
        ensures
            r == self.is_empty_set(),
    {
        !self.alt && !self.control && !self.shift && !self.super_key
    }
}

/// The modifier that a configured name stands for, if any.
pub open spec fn modifier_named(name: Seq<char>) -> Option<Modifier> {
    if name == "Alt"@ {
        Some(Modifier::Alt)
    } else if name == "Ctrl"@ || name == "Control"@ {
        Some(Modifier::Control)
    } else if name == "Shift"@ {
        Some(Modifier::Shift)
    } else if name == "Super"@ || name == "Command"@ || name == "Meta"@ {
        Some(Modifier::Super)
    } else {
        None
    }
}

/// Whether some name of `names` stands for the modifier `m`.
pub open spec fn names_include(names: Seq<Seq<char>>, m: Modifier) -> bool {
    exists|j: int| 0 <= j < names.len() && #[trigger] modifier_named(names[j]) == Some(m)
}

/// The modifiers that a list of names stands for; unknown names are ignored.
pub open spec fn modifiers_named(names: Seq<Seq<char>>) -> ModifierSet {
    ModifierSet {
        alt: names_include(names, Modifier::Alt),
        control: names_include(names, Modifier::Control),
        shift: names_include(names, Modifier::Shift),
        super_key: names_include(names, Modifier::Super),
    }
}

/// A key that a hotkey may be bound to: one of the letter keys.
#[derive(Clone, Copy, Debug, PartialEq, Eq, Structural)]
pub enum KeyCode {
    KeyA,
    KeyB,
    KeyC,
    KeyD,
    KeyE,
    KeyF,
    KeyG,
    KeyH,
    KeyI,
    KeyJ,
    KeyK,
    KeyL,
    KeyM,
    KeyN,
    KeyO,
    KeyP,
    KeyQ,
    KeyR,
    KeyS,
    KeyT,
    KeyU,
    KeyV,
    KeyW,
    KeyX,
    KeyY,
    KeyZ,
}

/// The letter key labelled with the upper-case letter `c`, if any.
pub open spec fn letter_key(c: char) -> Option<KeyCode> {
    if c == 'A' { Some(KeyCode::KeyA) }
    else if c == 'B' { Some(KeyCode::KeyB) }
    else if c == 'C' { Some(KeyCode::KeyC) }
    else if c == 'D' { Some(KeyCode::KeyD) }
    else if c == 'E' { Some(KeyCode::KeyE) }
    else if c == 'F' { Some(KeyCode::KeyF) }
    else if c == 'G' { Some(KeyCode::KeyG) }
    else if c == 'H' { Some(KeyCode::KeyH) }
    else if c == 'I' { Some(KeyCode::KeyI) }
    else if c == 'J' { Some(KeyCode::KeyJ) }
    else if c == 'K' { Some(KeyCode::KeyK) }
    else if c == 'L' { Some(KeyCode::KeyL) }
    else if c == 'M' { Some(KeyCode::KeyM) }
    else if c == 'N' { Some(KeyCode::KeyN) }
    else if c == 'O' { Some(KeyCode::KeyO) }
    else if c == 'P' { Some(KeyCode::KeyP) }
    else if c == 'Q' { Some(KeyCode::KeyQ) }
    else if c == 'R' { Some(KeyCode::KeyR) }
    else if c == 'S' { Some(KeyCode::KeyS) }
    else if c == 'T' { Some(KeyCode::KeyT) }
    else if c == 'U' { Some(KeyCode::KeyU) }
    else if c == 'V' { Some(KeyCode::KeyV) }
    else if c == 'W' { Some(KeyCode::KeyW) }
    else if c == 'X' { Some(KeyCode::KeyX) }
    else if c == 'Y' { Some(KeyCode::KeyY) }
    else if c == 'Z' { Some(KeyCode::KeyZ) }
    else { None }
}

/// The key that a configured key name such as `KeyQ` stands for, if any.
pub open spec fn key_named(name: Seq<char>) -> Option<KeyCode> {
    if name.len() == 4 && name[0] == 'K' && name[1] == 'e' && name[2] == 'y' {
        letter_key(name[3])
    } else {
        None
    }
}

/// The letter on a key.
pub open spec fn key_letter(k: KeyCode) -> char {
    match k {
        KeyCode::KeyA => 'A',
        KeyCode::KeyB => 'B',
        KeyCode::KeyC => 'C',
        KeyCode::KeyD => 'D',
        KeyCode::KeyE => 'E',
        KeyCode::KeyF => 'F',
        KeyCode::KeyG => 'G',
        KeyCode::KeyH => 'H',
        KeyCode::KeyI => 'I',
        KeyCode::KeyJ => 'J',
        KeyCode::KeyK => 'K',
        KeyCode::KeyL => 'L',
        KeyCode::KeyM => 'M',
        KeyCode::KeyN => 'N',
        KeyCode::KeyO => 'O',
        KeyCode::KeyP => 'P',
        KeyCode::KeyQ => 'Q',
        KeyCode::KeyR => 'R',
        KeyCode::KeyS => 'S',
        KeyCode::KeyT => 'T',
        KeyCode::KeyU => 'U',
        KeyCode::KeyV => 'V',
        KeyCode::KeyW => 'W',
        KeyCode::KeyX => 'X',
        KeyCode::KeyY => 'Y',
        KeyCode::KeyZ => 'Z',
    }
}

/// The name under which a key is stored, such as `KeyQ`.
pub open spec fn key_code_name(k: KeyCode) -> Seq<char> {
    seq!['K', 'e', 'y', key_letter(k)]
}

/// The stored key names and the keys correspond one to one: a name stands
/// for a key exactly when it is that key's name.
pub proof fn lemma_key_names(name: Seq<char>, k: KeyCode)
    ensures
        key_named(name) == Some(k) <==> name == key_code_name(k),
{
    if name == key_code_name(k) {
        assert(name.len() == 4 && name[3] == key_letter(k));
    }
    if key_named(name) == Some(k) {
        assert(name =~= key_code_name(k));
    }
}

/// The names that stand for modifiers: `Alt`; `Ctrl` and `Control`;
/// `Shift`; `Super`, `Command` and `Meta`. Any other name stands for none.
pub proof fn lemma_modifier_vocabulary(name: Seq<char>)
    ensures
        modifier_named("Alt"@) == Some(Modifier::Alt),
        modifier_named("Ctrl"@) == Some(Modifier::Control),
        modifier_named("Control"@) == Some(Modifier::Control),
        modifier_named("Shift"@) == Some(Modifier::Shift),
        modifier_named("Super"@) == Some(Modifier::Super),
        modifier_named("Command"@) == Some(Modifier::Super),
        modifier_named("Meta"@) == Some(Modifier::Super),
        modifier_named(name) is Some ==> name == "Alt"@ || name == "Ctrl"@ || name == "Control"@
            || name == "Shift"@ || name == "Super"@ || name == "Command"@ || name == "Meta"@,
{
    reveal_strlit("Alt");
    reveal_strlit("Ctrl");
    reveal_strlit("Control");
    reveal_strlit("Shift");
    reveal_strlit("Super");
    reveal_strlit("Command");
    reveal_strlit("Meta");
    assert("Ctrl"@[0] != "Alt"@[0]);
    assert("Control"@.len() != "Alt"@.len() && "Control"@.len() != "Ctrl"@.len());
    assert("Shift"@[0] != "Alt"@[0] && "Shift"@[0] != "Ctrl"@[0]);
    assert("Shift"@.len() != "Control"@.len());
    assert("Super"@[1] != "Shift"@[1] && "Super"@[0] != "Alt"@[0] && "Super"@[0] != "Ctrl"@[0]);
    assert("Super"@.len() != "Control"@.len());
    assert("Command"@[2] != "Control"@[2] && "Command"@.len() != "Alt"@.len());
    assert("Command"@.len() != "Ctrl"@.len() && "Command"@.len() != "Shift"@.len());
    assert("Meta"@[0] != "Alt"@[0] && "Meta"@[0] != "Ctrl"@[0] && "Meta"@.len() != "Control"@.len());
    assert("Meta"@.len() != "Shift"@.len());
}

/// The modifier set of a list of names is the union of what each name
/// stands for: it holds a modifier exactly when some name stands for it, so
/// no name takes away what another one adds.
pub proof fn lemma_modifiers_union(names: Seq<Seq<char>>, md: Modifier)
    ensures
        modifiers_named(names).has(md) <==> exists|j: int|
            0 <= j < names.len() && #[trigger] modifier_named(names[j]) == Some(md),
{
}

/// The names of two lists together give the union of their modifier sets;
/// in particular adding a name never removes a modifier.
pub proof fn lemma_modifiers_concat(a: Seq<Seq<char>>, b: Seq<Seq<char>>, md: Modifier)
    ensures
        modifiers_named(a + b).has(md) == (modifiers_named(a).has(md) || modifiers_named(b).has(
            md,
        )),
{
    let ab = a + b;
    if modifiers_named(ab).has(md) {
        let j = choose|j: int| 0 <= j < ab.len() && #[trigger] modifier_named(ab[j]) == Some(md);
        if j < a.len() {
            assert(ab[j] == a[j]);
        } else {
            assert(ab[j] == b[j - a.len()]);
        }
    }
    if modifiers_named(a).has(md) {
        let j = choose|j: int| 0 <= j < a.len() && #[trigger] modifier_named(a[j]) == Some(md);
        assert(ab[j] == a[j]);
    }
    if modifiers_named(b).has(md) {
        let j = choose|j: int| 0 <= j < b.len() && #[trigger] modifier_named(b[j]) == Some(md);
        assert(ab[j + a.len()] == b[j]);
    }
}

/// The modifiers that stored settings register: none where no name stands
/// for a modifier, and otherwise the set of every modifier some name stands
/// for.
pub proof fn lemma_expected_modifiers(cfg: ShortcutConfig, md: Modifier)
    ensures
        cfg.expected_modifiers() is None <==> forall|j: int|
            0 <= j < cfg.modifier_names().len() ==> #[trigger] modifier_named(cfg.modifier_names()[j])
                is None,
        cfg.expected_modifiers() matches Some(m) ==> (m.has(md) <==> exists|j: int|
            0 <= j < cfg.modifier_names().len() && #[trigger] modifier_named(
                cfg.modifier_names()[j],
            ) == Some(md)),
{
    let names = cfg.modifier_names();
    if cfg.expected_modifiers() is None {
        assert forall|j: int| 0 <= j < names.len() implies #[trigger] modifier_named(names[j]) is None by {
            match modifier_named(names[j]) {
                Some(x) => {
                    assert(modifiers_named(names).has(x));
                },
                None => {},
            }
        }
    } else {
        let m = modifiers_named(names);
        let x = if m.alt { Modifier::Alt } else if m.control { Modifier::Control } else if m.shift {
            Modifier::Shift
        } else {
            Modifier::Super
        };
        assert(m.has(x));
        let j = choose|j: int| 0 <= j < names.len() && #[trigger] modifier_named(names[j]) == Some(x);
    }
}

fn exec_letter_key(c: char) -> (r: Option<KeyCode>)
    ensures
        r == letter_key(c),
{
    if c == 'A' { Some(KeyCode::KeyA) }
    else if c == 'B' { Some(KeyCode::KeyB) }
    else if c == 'C' { Some(KeyCode::KeyC) }
    else if c == 'D' { Some(KeyCode::KeyD) }
    else if c == 'E' { Some(KeyCode::KeyE) }
    else if c == 'F' { Some(KeyCode::KeyF) }
    else if c == 'G' { Some(KeyCode::KeyG) }
    else if c == 'H' { Some(KeyCode::KeyH) }
    else if c == 'I' { Some(KeyCode::KeyI) }
    else if c == 'J' { Some(KeyCode::KeyJ) }
    else if c == 'K' { Some(KeyCode::KeyK) }
    else if c == 'L' { Some(KeyCode::KeyL) }
    else if c == 'M' { Some(KeyCode::KeyM) }
    else if c == 'N' { Some(KeyCode::KeyN) }
    else if c == 'O' { Some(KeyCode::KeyO) }
    else if c == 'P' { Some(KeyCode::KeyP) }
    else if c == 'Q' { Some(KeyCode::KeyQ) }
    else if c == 'R' { Some(KeyCode::KeyR) }
    else if c == 'S' { Some(KeyCode::KeyS) }
    else if c == 'T' { Some(KeyCode::KeyT) }
    else if c == 'U' { Some(KeyCode::KeyU) }
    else if c == 'V' { Some(KeyCode::KeyV) }
    else if c == 'W' { Some(KeyCode::KeyW) }
    else if c == 'X' { Some(KeyCode::KeyX) }
    else if c == 'Y' { Some(KeyCode::KeyY) }
    else if c == 'Z' { Some(KeyCode::KeyZ) }
    else { None }
}

/// The hotkey as it is stored: modifier names and a key name.
#[derive(Clone, Debug)]
pub struct ShortcutConfig {
    pub modifiers: Vec<String>,
    pub key: String,
}

impl ShortcutConfig {
    /// The modifier names as sequences of characters.
    pub open spec fn modifier_names(&self) -> Seq<Seq<char>> {
        self.modifiers@.map_values(|s: String| s@)
    }

    /// The modifiers that the stored names stand for, or `None` where no
    /// name stands for a modifier.
    pub open spec fn expected_modifiers(&self) -> Option<ModifierSet> {
        if modifiers_named(self.modifier_names()).is_empty_set() {
            None
        } else {
            Some(modifiers_named(self.modifier_names()))
        }
    }

    /// The key that the stored key name stands for.
    pub open spec fn expected_key(&self) -> Option<KeyCode> {
        key_named(self.key@)
    }

    /// The hotkey of a fresh installation: Alt together with the A key.
    pub fn default_shortcut() -> (r: ShortcutConfig)
        ensures
            r.modifier_names() == seq!["Alt"@],
            r.key@ == "KeyA"@,
    {
        let mut modifiers: Vec<String> = Vec::new();
        modifiers.push(string_of("Alt"));
        let r = ShortcutConfig { modifiers, key: string_of("KeyA") };
        assert(r.modifier_names() =~= seq!["Alt"@]);
        r
    }

    /// The modifiers that the stored names stand for, or `None` where no
    /// name stands for a modifier.
    pub fn to_modifiers(&self) -> (r: Option<ModifierSet>)
        ensures
            r == self.expected_modifiers(),
    {
        let ghost names = self.modifier_names();
        let mut m = ModifierSet::empty();
        let n = self.modifiers.len();
        let mut i: usize = 0;
        while i < n
            invariant
                n == self.modifiers@.len(),
                names == self.modifier_names(),
                i <= n,
                forall|md: Modifier| m.has(md) == names_include(names.take(i as int), md),
            decreases n - i,
        {
            let s = self.modifiers[i].as_str();
            assert(s@ == names[i as int]);
            let ghost old_m = m;
            if str_eq(s, "Alt") {
                m.alt = true;
            } else if str_eq(s, "Ctrl") || str_eq(s, "Control") {
                m.control = true;
            } else if str_eq(s, "Shift") {
                m.shift = true;
            } else if str_eq(s, "Super") || str_eq(s, "Command") || str_eq(s, "Meta") {
                m.super_key = true;
            }
            assert(forall|md: Modifier|
                m.has(md) == (old_m.has(md) || modifier_named(names[i as int]) == Some(md)));
            proof {
                let prev = names.take(i as int);
                let next = names.take(i + 1);
                assert forall|md: Modifier| m.has(md) == names_include(next, md) by {
                    if names_include(next, md) {
                        let j = choose|j: int| 0 <= j < next.len() && #[trigger] modifier_named(next[j]) == Some(md);
                        if j < i {
                            assert(prev[j] == next[j]);
                            assert(names_include(prev, md));
                        }
                    }
                    if names_include(prev, md) {
                        let j = choose|j: int| 0 <= j < prev.len() && #[trigger] modifier_named(prev[j]) == Some(md);
                        assert(prev[j] == next[j]);
                    }
                    if modifier_named(names[i as int]) == Some(md) {
                        assert(next[i as int] == names[i as int]);
                    }
                }
            }
            i = i + 1;
        }
        assert(names.take(n as int) =~= names);
        assert(m.has(Modifier::Alt) == modifiers_named(names).alt);
        assert(m.has(Modifier::Control) == modifiers_named(names).control);
        assert(m.has(Modifier::Shift) == modifiers_named(names).shift);
        assert(m.has(Modifier::Super) == modifiers_named(names).super_key);
        assert(m == modifiers_named(names));
        if m.is_empty() {
            None
        } else {
            Some(m)
        }
    }

    /// The key that the stored key name stands for, or `None` for any name
    /// other than `KeyA` through `KeyZ`.
    pub fn to_key(&self) -> (r: Option<KeyCode>)
        ensures
            r == self.expected_key(),
    {
        let k = self.key.as_str();
        if k.unicode_len() != 4 {
            return None;
        }
        if k.get_char(0) != 'K' || k.get_char(1) != 'e' || k.get_char(2) != 'y' {
            return None;
        }
        exec_letter_key(k.get_char(3))
    }
}

/// The application settings.
#[derive(Clone, Debug)]
pub struct AppConfig {
    pub shortcut: ShortcutConfig,
    pub dark_mode: bool,
}

impl Default for AppConfig {
    /// The settings of a fresh installation: the default hotkey and the
    /// light theme.
    fn default() -> (r: AppConfig)
        ensures
            r.shortcut.modifier_names() == seq!["Alt"@],
            r.shortcut.key@ == "KeyA"@,
            !r.dark_mode,
    {
        AppConfig { shortcut: ShortcutConfig::default_shortcut(), dark_mode: false }
    }
}

/// The path of the settings file inside the application data directory.
pub fn config_path(app_data_dir: &str) -> (r: String)
    ensures
        r@ == joined_path(app_data_dir@, "config.json"@),
{
    join_path(app_data_dir, "config.json")
}

/// Each key carries the letter it is named after, and every name `Key`
/// followed by an upper-case letter stands for the key of that letter.
pub proof fn lemma_key_letters(c: char)
    ensures
        key_letter(KeyCode::KeyA) == 'A',
        key_letter(KeyCode::KeyB) == 'B',
        key_letter(KeyCode::KeyC) == 'C',
        key_letter(KeyCode::KeyD) == 'D',
        key_letter(KeyCode::KeyE) == 'E',
        key_letter(KeyCode::KeyF) == 'F',
        key_letter(KeyCode::KeyG) == 'G',
        key_letter(KeyCode::KeyH) == 'H',
        key_letter(KeyCode::KeyI) == 'I',
        key_letter(KeyCode::KeyJ) == 'J',
        key_letter(KeyCode::KeyK) == 'K',
        key_letter(KeyCode::KeyL) == 'L',
        key_letter(KeyCode::KeyM) == 'M',
        key_letter(KeyCode::KeyN) == 'N',
        key_letter(KeyCode::KeyO) == 'O',
        key_letter(KeyCode::KeyP) == 'P',
        key_letter(KeyCode::KeyQ) == 'Q',
        key_letter(KeyCode::KeyR) == 'R',
        key_letter(KeyCode::KeyS) == 'S',
        key_letter(KeyCode::KeyT) == 'T',
        key_letter(KeyCode::KeyU) == 'U',
        key_letter(KeyCode::KeyV) == 'V',
        key_letter(KeyCode::KeyW) == 'W',
        key_letter(KeyCode::KeyX) == 'X',
        key_letter(KeyCode::KeyY) == 'Y',
        key_letter(KeyCode::KeyZ) == 'Z',
        'A' <= c <= 'Z' ==> key_named(seq!['K', 'e', 'y', c]) is Some && key_letter(
            key_named(seq!['K', 'e', 'y', c]).unwrap(),
        ) == c,
        !('A' <= c <= 'Z') ==> key_named(seq!['K', 'e', 'y', c]) is None,
{
}

} // verus!
