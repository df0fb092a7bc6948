//! The global hotkey: which one to register, whether a key press triggers a
//! capture, and how a change of the hotkey is carried out.

use vstd::prelude::*;

use crate::config::{AppConfig, KeyCode, ModifierSet, ShortcutConfig, key_named};
use crate::text::{push_str, string_of};

verus! {

/// The hotkey that a stored configuration registers: its modifiers (`None`
/// for a bare key) and its key, where the key is known.
pub open spec fn startup_hotkey(cfg: ShortcutConfig) -> Option<(Option<ModifierSet>, KeyCode)> {
    match cfg.expected_key() {
        Some(k) => Some((cfg.expected_modifiers(), k)),
        None => None,
    }
}

/// Whether a key event triggers a capture under the stored hotkey.
/// `pressed` tells a press from a release; `modifiers` is the set of modifiers
/// held, `None` where some other modifier (such as Caps Lock) is held too;
/// `key` is the letter key, `None` for any other key.
pub open spec fn hotkey_fires(
    cfg: ShortcutConfig,
    pressed: bool,
    modifiers: Option<ModifierSet>,
    key: Option<KeyCode>,
) -> bool {
    &&& pressed
    &&& match cfg.expected_modifiers() {
        Some(m) => modifiers == Some(m),
        None => true,
    }
    &&& match cfg.expected_key() {
        Some(k) => key == Some(k),
        None => false,
    }
}

/// The hotkey to register for a stored configuration, where its key is
/// known; at start-up, and as the one to release when the hotkey changes.
pub fn registered_hotkey(cfg: &ShortcutConfig) -> (r: Option<(Option<ModifierSet>, KeyCode)>)
    ensures
        r == startup_hotkey(*cfg),
{
    match cfg.to_key() {
        Some(k) => Some((cfg.to_modifiers(), k)),
        None => None,
    }
}

/// Decides whether a key event triggers a capture.
pub fn hotkey_triggers(
    cfg: &ShortcutConfig,
    pressed: bool,
    modifiers: Option<ModifierSet>,
    key: Option<KeyCode>,
) -> (r: bool)
    ensures
        r == hotkey_fires(*cfg, pressed, modifiers, key),
{
    if !pressed {
        return false;
    }
    let modifiers_match = match cfg.to_modifiers() {
        Some(m) => match modifiers {
            Some(held) => held == m,
            None => false,
        },
        None => true,
    };
    let key_match = match cfg.to_key() {
        Some(k) => match key {
            Some(pressed_key) => pressed_key == k,
            None => false,
        },
        None => false,
    };
    modifiers_match && key_match
}

/// The steps of a change of the hotkey: release the old hotkey, register the
/// new one, then save the new settings.
#[derive(Debug)]
pub struct ShortcutUpdate {
    /// The settings to save once the new hotkey is registered.
    pub config: AppConfig,
    /// The hotkey to release first, if the old settings registered one.
    pub unregister: Option<(Option<ModifierSet>, KeyCode)>,
    /// The modifiers of the new hotkey; `None` registers the bare key.
    pub register_modifiers: Option<ModifierSet>,
    /// The key of the new hotkey.
    pub register_key: KeyCode,
}

/// The message that refuses a key name.
pub open spec fn unsupported_key_message(key: Seq<char>) -> Seq<char> {
    "Unsupported key: "@ + key
}

/// Plans a change of the hotkey to the given modifier names and key name,
/// from the settings `old`. Fails, with a message, where the key name is not
/// one of `KeyA` through `KeyZ`; the rest of the settings is kept.
pub fn plan_shortcut_update(old: AppConfig, modifiers: Vec<String>, key: String) -> (r: Result<
    ShortcutUpdate,
    String,
>)
    ensures
        r is Err <==> key_named(key@) is None,
        r matches Err(msg) ==> msg@ == unsupported_key_message(key@),
        r matches Ok(u) ==> {
            &&& u.config.shortcut.modifiers == modifiers
            &&& u.config.shortcut.key == key
            &&& u.config.dark_mode == old.dark_mode
            &&& u.unregister == startup_hotkey(old.shortcut)
            &&& u.register_modifiers == u.config.shortcut.expected_modifiers()
            &&& Some(u.register_key) == u.config.shortcut.expected_key()
        },
{
    let shortcut = ShortcutConfig { modifiers, key };
    let register_modifiers = shortcut.to_modifiers();
    let register_key = match shortcut.to_key() {
        Some(k) => k,
        None => {
            let mut msg = string_of("Unsupported key: ");
            push_str(&mut msg, shortcut.key.as_str());
            return Err(msg);
        },
    };
    let unregister = registered_hotkey(&old.shortcut);
    let config = AppConfig { shortcut, dark_mode: old.dark_mode };
    Ok(ShortcutUpdate { config, unregister, register_modifiers, register_key })
}

/// The hotkey that a change registers is the one that triggers a capture
/// under the saved settings: pressing its key with its modifiers (with any
/// modifiers, where it has none) fires, and no other press does.
pub proof fn lemma_registered_hotkey_fires(
    u: ShortcutUpdate,
    modifiers: Option<ModifierSet>,
    key: Option<KeyCode>,
)
    requires
        u.register_modifiers == u.config.shortcut.expected_modifiers(),
        Some(u.register_key) == u.config.shortcut.expected_key(),
    ensures
        hotkey_fires(u.config.shortcut, true, modifiers, key) <==> (key == Some(u.register_key)
            && match u.register_modifiers {
            Some(m) => modifiers == Some(m),
            None => true,
        }),
{
}

/// The hotkey registered for stored settings is the one that triggers a
/// capture under them: pressing its key with its modifiers (with any
/// modifiers, where it has none) fires, and no other press does.
pub proof fn lemma_startup_hotkey_fires(
    cfg: ShortcutConfig,
    modifiers: Option<ModifierSet>,
    key: Option<KeyCode>,
)
    requires
        startup_hotkey(cfg) is Some,
    ensures
        hotkey_fires(cfg, true, modifiers, key) <==> (key == Some(startup_hotkey(cfg).unwrap().1)
            && match startup_hotkey(cfg).unwrap().0 {
            Some(m) => modifiers == Some(m),
            None => true,
        }),
{
}

/// The settings that a change saves register, at the next start, the same
/// hotkey that the change registered: a hotkey set by the user keeps
/// triggering captures after a restart.
pub proof fn lemma_update_survives_restart(u: ShortcutUpdate)
    requires
        u.register_modifiers == u.config.shortcut.expected_modifiers(),
        Some(u.register_key) == u.config.shortcut.expected_key(),
    ensures
        startup_hotkey(u.config.shortcut) == Some((u.register_modifiers, u.register_key)),
{
}

/// Settings whose key is not known register no hotkey, and no key press
/// triggers a capture under them.
pub proof fn lemma_unknown_key_never_fires(
    cfg: ShortcutConfig,
    pressed: bool,
    modifiers: Option<ModifierSet>,
    key: Option<KeyCode>,
)
    requires
        cfg.expected_key() is None,
    ensures
        startup_hotkey(cfg) is None,
        !hotkey_fires(cfg, pressed, modifiers, key),
{
}

/// A key release never triggers a capture, whatever the settings, the
/// modifiers held and the key.
pub proof fn lemma_release_never_fires(
    cfg: ShortcutConfig,
    modifiers: Option<ModifierSet>,
    key: Option<KeyCode>,
)
    ensures
        !hotkey_fires(cfg, false, modifiers, key),
{
}

/// A press fires exactly when its key is the stored key and, where the
/// stored hotkey has modifiers, exactly those modifiers are held.
pub proof fn lemma_press_fires_exactly(
    cfg: ShortcutConfig,
    modifiers: Option<ModifierSet>,
    key: Option<KeyCode>,
)
    ensures
        hotkey_fires(cfg, true, modifiers, key) <==> (key is Some && key == cfg.expected_key()
            && (cfg.expected_modifiers() is None || modifiers == cfg.expected_modifiers())),
{
}

} // verus!
