//! The configuration model: remotes, their buttons and actions, and the
//! monitored devices.
use vstd::prelude::*;
use crate::text::str_eq;

verus! {

/// The value stored under `key` in an association list where a later entry
/// overrides an earlier one with the same key.
pub open spec fn entry_lookup<V>(s: Seq<(String, V)>, key: Seq<char>) -> Option<V>
    decreases s.len(),
{
    if s.len() == 0 {
        None
    } else if s.last().0@ == key {
        Some(s.last().1)
    } else {
        entry_lookup(s.drop_last(), key)
    }
}

/// Finds the value stored under `key`, searching from the latest entry.
pub fn find_entry<'a, V>(entries: &'a Vec<(String, V)>, key: &str) -> (r: Option<&'a V>)
    ensures
        match r {
            Some(v) => entry_lookup(entries@, key@) == Some(*v),
            None => entry_lookup(entries@, key@) == None::<V>,
        },
{
    let mut i: usize = entries.len();
    assert(entries@.subrange(0, i as int) =~= entries@);
    while i > 0
        invariant
            i <= entries@.len(),
            entry_lookup(entries@.subrange(0, i as int), key@) == entry_lookup(entries@, key@),
        decreases i,
    {
        assert(entries@.subrange(0, i as int).drop_last() =~= entries@.subrange(0, i - 1));
        if str_eq(entries[i - 1].0.as_str(), key) {
            return Some(&entries[i - 1].1);
        }
        i -= 1;
    }
    assert(entries@.subrange(0, 0) =~= Seq::<(String, V)>::empty());
    None
}

/// Pushing an entry makes its key map to its value and leaves the other keys alone.
pub proof fn lemma_entry_lookup_push<V>(s: Seq<(String, V)>, e: (String, V), key: Seq<char>)
    ensures
        entry_lookup(s.push(e), key) == if e.0@ == key {
            Some(e.1)
        } else {
            entry_lookup(s, key)
        },
{
    assert(s.push(e).drop_last() =~= s);
}

/// The kind of a configured action.
#[derive(Clone, Copy, Debug, PartialEq, Eq, Structural)]
pub enum ActionType {
    Http,
    Mqtt,
}

/// The action kind written under `name` in a configuration (`http` or `mqtt`).
pub open spec fn action_type_named(name: Seq<char>) -> Option<ActionType> {
    if name == "http"@ {
        Some(ActionType::Http)
    } else if name == "mqtt"@ {
        Some(ActionType::Mqtt)
    } else {
        None
    }
}

impl ActionType {
    /// Resolves the action kind from its configured name; names are case-sensitive.
    pub fn from_name(name: &str) -> (r: Option<ActionType>)
        ensures
            r == action_type_named(name@),
    {
        if str_eq(name, "http") {
            Some(ActionType::Http)
        } else if str_eq(name, "mqtt") {
            Some(ActionType::Mqtt)
        } else {
            None
        }
    }
}

/// A configured side effect. Which optional fields are needed depends on the
/// kind; they are checked when the action is planned.
#[derive(Clone, Debug, PartialEq, Eq)]
pub struct UnisonConfigAction {
    pub action_type: ActionType,
    /// http: the URL to call.
    pub url: Option<String>,
    /// http: `get` or `post` in any case; `post` when absent.
    pub method: Option<String>,
    /// mqtt: the topic to publish to.
    pub topic: Option<String>,
    /// mqtt: the payload to publish.
    pub payload: Option<String>,
}

/// A button of a remote, optionally bound to an action.
#[derive(Clone, Debug, PartialEq, Eq)]
pub struct UnisonConfigButton {
    pub action: Option<UnisonConfigAction>,
}

/// A remote: its buttons by name.
#[derive(Clone, Debug, PartialEq, Eq)]
pub struct UnisonConfigRemote {
    /// Buttons by name; a later entry overrides an earlier one of the same name.
    pub buttons: Vec<(String, UnisonConfigButton)>,
}

/// A monitored appliance; its position in the device list is its sensing channel.
#[derive(Clone, Debug, PartialEq, Eq)]
pub struct UnisonConfigDevice {
    pub name: String,
    pub on_threshold_milliamps: u32,
}

impl UnisonConfigRemote {
    /// The button configured under `name`.
    pub open spec fn button(&self, name: Seq<char>) -> Option<UnisonConfigButton> {
        entry_lookup(self.buttons@, name)
    }

    /// A remote without buttons.
    pub fn new() -> (r: UnisonConfigRemote)
        ensures
            forall|k: Seq<char>| r.button(k) == None::<UnisonConfigButton>,
    {
        UnisonConfigRemote { buttons: Vec::new() }
    }

    /// Binds `button` to `name`, replacing any button of that name.
    pub fn insert_button(&mut self, name: String, button: UnisonConfigButton)
        ensures
            forall|k: Seq<char>|
                final(self).button(k) == if k == name@ {
                    Some(button)
                } else {
                    old(self).button(k)
                },
    {
        let ghost entry = (name, button);
        self.buttons.push((name, button));
        proof {
            assert forall|k: Seq<char>|
                final(self).button(k) == if k == name@ {
                    Some(button)
                } else {
                    old(self).button(k)
                } by {
                lemma_entry_lookup_push(old(self).buttons@, entry, k);
            }
        }
    }

    /// The button configured under `name`, if any.
    pub fn get_button(&self, name: &str) -> (r: Option<&UnisonConfigButton>)
        ensures
            match r {
                Some(b) => self.button(name@) == Some(*b),
                None => self.button(name@) == None::<UnisonConfigButton>,
            },
    {
        find_entry(&self.buttons, name)
    }
}

/// The whole configuration: remotes by name and the ordered monitored devices.
#[derive(Clone, Debug, PartialEq, Eq)]
pub struct UnisonConfig {
    /// Remotes by name; a later entry overrides an earlier one of the same name.
    pub remotes: Vec<(String, UnisonConfigRemote)>,
    pub devices: Vec<UnisonConfigDevice>,
}

impl UnisonConfig {
    /// The remote configured under `name`.
    pub open spec fn remote(&self, name: Seq<char>) -> Option<UnisonConfigRemote> {
        entry_lookup(self.remotes@, name)
    }

    /// The action bound to a button of a remote; none when the remote is
    /// unknown, the button is unknown or the button has no action.
    pub open spec fn action_for(&self, remote_name: Seq<char>, button_name: Seq<char>) -> Option<
        UnisonConfigAction,
    > {
        match self.remote(remote_name) {
            Some(remote) => match remote.button(button_name) {
                Some(button) => button.action,
                None => None,
            },
            None => None,
        }
    }

    /// A configuration with the given devices and no remotes.
    pub fn new(devices: Vec<UnisonConfigDevice>) -> (r: UnisonConfig)
        ensures
            r.devices == devices,
            forall|k: Seq<char>| r.remote(k) == None::<UnisonConfigRemote>,
    {
        UnisonConfig { remotes: Vec::new(), devices }
    }

    /// Binds `remote` to `name`, replacing any remote of that name.
    pub fn insert_remote(&mut self, name: String, remote: UnisonConfigRemote)
        ensures
            final(self).devices == old(self).devices,
            forall|k: Seq<char>|
                final(self).remote(k) == if k == name@ {
                    Some(remote)
                } else {
                    old(self).remote(k)
                },
    {
        let ghost entry = (name, remote);
        self.remotes.push((name, remote));
        proof {
            assert forall|k: Seq<char>|
                final(self).remote(k) == if k == name@ {
                    Some(remote)
                } else {
                    old(self).remote(k)
                } by {
                lemma_entry_lookup_push(old(self).remotes@, entry, k);
            }
        }
    }

    /// The remote configured under `name`, if any.
    pub fn get_remote(&self, name: &str) -> (r: Option<&UnisonConfigRemote>)
        ensures
            match r {
                Some(x) => self.remote(name@) == Some(*x),
                None => self.remote(name@) == None::<UnisonConfigRemote>,
            },
    {
        find_entry(&self.remotes, name)
    }

    /// The action bound to `button_name` of `remote_name`, if any.
    pub fn lookup(&self, remote_name: &str, button_name: &str) -> (r: Option<&UnisonConfigAction>)
        ensures
            match r {
                Some(a) => self.action_for(remote_name@, button_name@) == Some(*a),
                None => self.action_for(remote_name@, button_name@) == None::<UnisonConfigAction>,
            },
    {
        match self.get_remote(remote_name) {
            None => None,
            Some(remote) => match remote.get_button(button_name) {
                None => None,
                Some(button) => match &button.action {
                    None => None,
                    Some(action) => Some(action),
                },
            },
        }
    }

    /// The device sensed on channel `index`, if one is configured there.
    pub fn device_for_channel(&self, index: usize) -> (r: Option<&UnisonConfigDevice>)
        ensures
            match r {
                Some(d) => index < self.devices@.len() && *d == self.devices@[index as int],
                None => index >= self.devices@.len(),
            },
    {
        if index < self.devices.len() {
            Some(&self.devices[index])
        } else {
            None
        }
    }
}

/// A button press with a remote that is not configured, a button that is not
/// configured, or a button without an action resolves to no action.
pub proof fn lemma_unconfigured_press_has_no_action(
    config: UnisonConfig,
    remote_name: Seq<char>,
    button_name: Seq<char>,
)
    requires
        config.remote(remote_name) is None || config.remote(remote_name)->Some_0.button(
            button_name,
        ) is None || config.remote(remote_name)->Some_0.button(button_name)->Some_0.action is None,
    ensures
        config.action_for(remote_name, button_name) is None,
{
}

} // verus!
