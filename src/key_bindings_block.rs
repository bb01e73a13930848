use crate::config::{ConfigKeyBindingKey, KeyBindingMap};
use crate::key::KeyCode;
use vstd::prelude::*;

verus! {

/// One entry of the key-binding line at the bottom of a screen: an action
/// and the key that triggers it, either Control with a character or a
/// plain key.
pub struct KeyBindingItem {
    pub action: String,
    pub ctrl_and_char: Option<char>,
    pub key_code: Option<KeyCode>,
}

impl KeyBindingItem {
    pub fn new_ctrl_and_char(action: &str, ctrl_and_char: char) -> (r: KeyBindingItem)
        ensures
            r.action@ == action@,
            r.ctrl_and_char == Some(ctrl_and_char),
            r.key_code.is_none(),
    {
        KeyBindingItem { action: String::from_str(action), ctrl_and_char: Some(ctrl_and_char), key_code: None }
    }

    pub fn new_key_code(action: &str, key_code: KeyCode) -> (r: KeyBindingItem)
        ensures
            r.action@ == action@,
            r.ctrl_and_char.is_none(),
            r.key_code == Some(key_code),
    {
        KeyBindingItem { action: String::from_str(action), ctrl_and_char: None, key_code: Some(key_code) }
    }
}

/// Builds the entries of the key-binding line from the configured
/// bindings.
pub struct KeyBindingsBlock {
    pub config_key_bindings: KeyBindingMap,
}

impl KeyBindingsBlock {
    pub fn new(config_key_bindings: KeyBindingMap) -> (r: KeyBindingsBlock)
        ensures
            r.config_key_bindings == config_key_bindings,
    {
        KeyBindingsBlock { config_key_bindings }
    }

    /// Leaving a screen with Esc.
    pub fn kb_cancel() -> (r: KeyBindingItem)
        ensures
            r.action@ == "Cancel"@,
            r.ctrl_and_char.is_none(),
            r.key_code == Some(KeyCode::Esc),
    {
        KeyBindingItem::new_key_code("Cancel", KeyCode::Esc)
    }

    pub fn cnf_kb_add(&self) -> (r: KeyBindingItem)
        ensures
            r.action@ == "Add"@,
            r.ctrl_and_char == Some(self.config_key_bindings.spec_get(ConfigKeyBindingKey::KbAdd)),
            r.key_code.is_none(),
    {
        KeyBindingItem::new_ctrl_and_char("Add", self.config_key_bindings.get(ConfigKeyBindingKey::KbAdd))
    }

    pub fn cnf_kb_del(&self) -> (r: KeyBindingItem)
        ensures
            r.action@ == "Del"@,
            r.ctrl_and_char == Some(self.config_key_bindings.spec_get(ConfigKeyBindingKey::KbDel)),
            r.key_code.is_none(),
    {
        KeyBindingItem::new_ctrl_and_char("Del", self.config_key_bindings.get(ConfigKeyBindingKey::KbDel))
    }

    pub fn cnf_kb_download(&self) -> (r: KeyBindingItem)
        ensures
            r.action@ == "Download"@,
            r.ctrl_and_char == Some(self.config_key_bindings.spec_get(ConfigKeyBindingKey::KbDownload)),
            r.key_code.is_none(),
    {
        KeyBindingItem::new_ctrl_and_char("Download", self.config_key_bindings.get(ConfigKeyBindingKey::KbDownload))
    }

    pub fn cnf_kb_info(&self) -> (r: KeyBindingItem)
        ensures
            r.action@ == "Info"@,
            r.ctrl_and_char == Some(self.config_key_bindings.spec_get(ConfigKeyBindingKey::KbInfo)),
            r.key_code.is_none(),
    {
        KeyBindingItem::new_ctrl_and_char("Info", self.config_key_bindings.get(ConfigKeyBindingKey::KbInfo))
    }

    pub fn cnf_kb_help(&self) -> (r: KeyBindingItem)
        ensures
            r.action@ == "Help"@,
            r.ctrl_and_char == Some(self.config_key_bindings.spec_get(ConfigKeyBindingKey::KbHelp)),
            r.key_code.is_none(),
    {
        KeyBindingItem::new_ctrl_and_char("Help", self.config_key_bindings.get(ConfigKeyBindingKey::KbHelp))
    }

    pub fn cnf_kb_home(&self) -> (r: KeyBindingItem)
        ensures
            r.action@ == "Home"@,
            r.ctrl_and_char == Some(self.config_key_bindings.spec_get(ConfigKeyBindingKey::KbHome)),
            r.key_code.is_none(),
    {
        KeyBindingItem::new_ctrl_and_char("Home", self.config_key_bindings.get(ConfigKeyBindingKey::KbHome))
    }

    pub fn cnf_kb_open(&self) -> (r: KeyBindingItem)
        ensures
            r.action@ == "Open"@,
            r.ctrl_and_char == Some(self.config_key_bindings.spec_get(ConfigKeyBindingKey::KbOpen)),
            r.key_code.is_none(),
    {
        KeyBindingItem::new_ctrl_and_char("Open", self.config_key_bindings.get(ConfigKeyBindingKey::KbOpen))
    }

    pub fn cnf_kb_quit(&self) -> (r: KeyBindingItem)
        ensures
            r.action@ == "Quit"@,
            r.ctrl_and_char == Some(self.config_key_bindings.spec_get(ConfigKeyBindingKey::KbQuit)),
            r.key_code.is_none(),
    {
        KeyBindingItem::new_ctrl_and_char("Quit", self.config_key_bindings.get(ConfigKeyBindingKey::KbQuit))
    }

    pub fn cnf_kb_reann(&self) -> (r: KeyBindingItem)
        ensures
            r.action@ == "ReAnnounce"@,
            r.ctrl_and_char == Some(self.config_key_bindings.spec_get(ConfigKeyBindingKey::KbReAnn)),
            r.key_code.is_none(),
    {
        KeyBindingItem::new_ctrl_and_char("ReAnnounce", self.config_key_bindings.get(ConfigKeyBindingKey::KbReAnn))
    }

    pub fn cnf_kb_search(&self) -> (r: KeyBindingItem)
        ensures
            r.action@ == "Search"@,
            r.ctrl_and_char == Some(self.config_key_bindings.spec_get(ConfigKeyBindingKey::KbSearch)),
            r.key_code.is_none(),
    {
        KeyBindingItem::new_ctrl_and_char("Search", self.config_key_bindings.get(ConfigKeyBindingKey::KbSearch))
    }
}

} // verus!
