use vstd::prelude::*;

verus! {

/// The logical actions that a control-key binding can trigger.
#[derive(Clone, Copy, Debug, PartialEq, Eq, Structural, Hash)]
pub enum ConfigKeyBindingKey {
    KbAdd,
    KbDel,
    KbDownload,
    KbInfo,
    KbHelp,
    KbHome,
    KbOpen,
    KbQuit,
    KbReAnn,
    KbSearch,
}

/// The character bound to each action when the configuration names none.
pub open spec fn default_binding(k: ConfigKeyBindingKey) -> char {
    match k {
        ConfigKeyBindingKey::KbAdd => 'a',
        ConfigKeyBindingKey::KbDel => 'd',
        ConfigKeyBindingKey::KbDownload => 'd',
        ConfigKeyBindingKey::KbInfo => 'i',
        ConfigKeyBindingKey::KbHelp => 'h',
        ConfigKeyBindingKey::KbHome => 'b',
        ConfigKeyBindingKey::KbOpen => 'o',
        ConfigKeyBindingKey::KbQuit => 'q',
        ConfigKeyBindingKey::KbReAnn => 'r',
        ConfigKeyBindingKey::KbSearch => 's',
    }
}

/// The binding of `k` after reading `entries` in order over the defaults:
/// the last entry for `k` wins.
pub open spec fn binding_after(entries: Seq<(ConfigKeyBindingKey, char)>, k: ConfigKeyBindingKey) -> char
    decreases entries.len(),
{
    if entries.len() == 0 {
        default_binding(k)
    } else if entries.last().0 == k {
        entries.last().1
    } else {
        binding_after(entries.drop_last(), k)
    }
}

/// A total map from action to trigger character.
#[derive(Clone, Copy, Debug, PartialEq, Eq)]
pub struct KeyBindingMap {
    add: char,
    del: char,
    download: char,
    info: char,
    help: char,
    home: char,
    open: char,
    quit: char,
    reann: char,
    search: char,
}

impl KeyBindingMap {
    pub closed spec fn spec_get(&self, k: ConfigKeyBindingKey) -> char {
        match k {
            ConfigKeyBindingKey::KbAdd => self.add,
            ConfigKeyBindingKey::KbDel => self.del,
            ConfigKeyBindingKey::KbDownload => self.download,
            ConfigKeyBindingKey::KbInfo => self.info,
            ConfigKeyBindingKey::KbHelp => self.help,
            ConfigKeyBindingKey::KbHome => self.home,
            ConfigKeyBindingKey::KbOpen => self.open,
            ConfigKeyBindingKey::KbQuit => self.quit,
            ConfigKeyBindingKey::KbReAnn => self.reann,
            ConfigKeyBindingKey::KbSearch => self.search,
        }
    }

    /// The default bindings.
    pub fn defaults() -> (r: KeyBindingMap)
        ensures
            forall|k: ConfigKeyBindingKey| #[trigger] r.spec_get(k) == default_binding(k),
    {
        KeyBindingMap {
            add: 'a',
            del: 'd',
            download: 'd',
            info: 'i',
            help: 'h',
            home: 'b',
            open: 'o',
            quit: 'q',
            reann: 'r',
            search: 's',
        }
    }

    /// The character bound to `k`.
    pub fn get(&self, k: ConfigKeyBindingKey) -> (r: char)
        ensures
            r == self.spec_get(k),
    {
        match k {
            ConfigKeyBindingKey::KbAdd => self.add,
            ConfigKeyBindingKey::KbDel => self.del,
            ConfigKeyBindingKey::KbDownload => self.download,
            ConfigKeyBindingKey::KbInfo => self.info,
            ConfigKeyBindingKey::KbHelp => self.help,
            ConfigKeyBindingKey::KbHome => self.home,
            ConfigKeyBindingKey::KbOpen => self.open,
            ConfigKeyBindingKey::KbQuit => self.quit,
            ConfigKeyBindingKey::KbReAnn => self.reann,
            ConfigKeyBindingKey::KbSearch => self.search,
        }
    }

    /// Binds `k` to `c`, leaving the other actions as they were.
    pub fn set(&mut self, k: ConfigKeyBindingKey, c: char)
        ensures
            final(self).spec_get(k) == c,
            forall|j: ConfigKeyBindingKey| j != k ==> #[trigger] final(self).spec_get(j) == old(self).spec_get(j),
    {
        match k {
            ConfigKeyBindingKey::KbAdd => self.add = c,
            ConfigKeyBindingKey::KbDel => self.del = c,
            ConfigKeyBindingKey::KbDownload => self.download = c,
            ConfigKeyBindingKey::KbInfo => self.info = c,
            ConfigKeyBindingKey::KbHelp => self.help = c,
            ConfigKeyBindingKey::KbHome => self.home = c,
            ConfigKeyBindingKey::KbOpen => self.open = c,
            ConfigKeyBindingKey::KbQuit => self.quit = c,
            ConfigKeyBindingKey::KbReAnn => self.reann = c,
            ConfigKeyBindingKey::KbSearch => self.search = c,
        }
    }

    /// The bindings that result from reading `entries` in order over the
    /// defaults; an action that no entry names keeps its default.
    pub fn from_entries(entries: &Vec<(ConfigKeyBindingKey, char)>) -> (r: KeyBindingMap)
        ensures
            forall|k: ConfigKeyBindingKey| #[trigger] r.spec_get(k) == binding_after(entries@, k),
    {
        let mut m = KeyBindingMap::defaults();
        let n = entries.len();
        let mut i: usize = 0;
        while i < n
            invariant
                n == entries@.len(),
                i <= n,
                forall|k: ConfigKeyBindingKey| #[trigger] m.spec_get(k) == binding_after(entries@.take(i as int), k),
            decreases n - i,
        {
            let (k, c) = entries[i];
            m.set(k, c);
            proof {
                let s = entries@.take(i as int + 1);
                assert(s.drop_last() =~= entries@.take(i as int));
                assert(s.last() == entries@[i as int]);
            }
            i = i + 1;
        }
        assert(entries@.take(n as int) =~= entries@);
        m
    }
}

/// Command-line parameters of the program.
pub struct Params {
    pub config_file: Option<String>,
}

/// Configuration values as read from the configuration file.
#[derive(Clone)]
pub struct ConfigValues {
    key_bindings: KeyBindingMap,
}

impl ConfigValues {
    pub fn new(key_bindings: KeyBindingMap) -> (r: ConfigValues)
        ensures
            r.spec_key_bindings() == key_bindings,
    {
        ConfigValues { key_bindings }
    }

    pub closed spec fn spec_key_bindings(&self) -> KeyBindingMap {
        self.key_bindings
    }

    pub fn key_bindings(&self) -> (r: &KeyBindingMap)
        ensures
            *r == self.spec_key_bindings(),
    {
        &self.key_bindings
    }
}

/// The program's configuration, immutable once loaded.
#[derive(Clone)]
pub struct Config {
    values: ConfigValues,
}

impl Config {
    /// The configuration made of the bindings read from a configuration
    /// file (`entries`, in file order), completed with the defaults.
    pub fn from_entries(entries: &Vec<(ConfigKeyBindingKey, char)>) -> (r: Config)
        ensures
            forall|k: ConfigKeyBindingKey| #[trigger] r.spec_values().spec_key_bindings().spec_get(k)
                == binding_after(entries@, k),
    {
        Config { values: ConfigValues::new(KeyBindingMap::from_entries(entries)) }
    }

    pub closed spec fn spec_values(&self) -> ConfigValues {
        self.values
    }

    pub fn values(&self) -> (r: ConfigValues)
        ensures
            r.spec_key_bindings() == self.spec_values().spec_key_bindings(),
    {
        ConfigValues { key_bindings: self.values.key_bindings }
    }
}

} // verus!
