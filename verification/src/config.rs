//! The persisted application settings: the preferred receiver, the
//! reconnect switch, the tray language and the stored pairings.

use vstd::prelude::*;

use crate::model::ReceiverCredentials;
use crate::text::str_eq;

verus! {

/// The language the tray asks for.
#[derive(Debug, Clone, Copy, PartialEq, Eq, Structural)]
pub enum TrayLanguagePreference {
    System,
    EnUs,
    ZhCn,
}

impl Default for TrayLanguagePreference {
    fn default() -> (r: Self)
        ensures
            r == TrayLanguagePreference::System,
    {
        TrayLanguagePreference::System
    }
}

/// The application settings.
#[derive(Debug, Clone, PartialEq, Eq)]
pub struct AppConfig {
    pub auto_reconnect: bool,
    pub preferred_device_id: Option<String>,
    pub tray_language: TrayLanguagePreference,
    /// Stored pairings by receiver id, one entry per id.
    pub paired_receivers: Vec<(String, ReceiverCredentials)>,
}

impl Default for AppConfig {
    fn default() -> (r: Self)
        ensures
            r.auto_reconnect,
            r.preferred_device_id is None,
            r.tray_language == TrayLanguagePreference::System,
            r.paired_receivers@.len() == 0,
    {
        AppConfig {
            auto_reconnect: true,
            preferred_device_id: None,
            tray_language: TrayLanguagePreference::System,
            paired_receivers: Vec::new(),
        }
    }
}

/// The index of the first pairing stored for `id`, at or after `i`.
pub open spec fn paired_index_from(entries: Seq<(String, ReceiverCredentials)>, id: Seq<char>, i: int) -> Option<int>
    decreases entries.len() - i,
{
    if i < 0 || i >= entries.len() {
        None
    } else if entries[i].0@ == id {
        Some(i)
    } else {
        paired_index_from(entries, id, i + 1)
    }
}

/// The pairing stored for `id`.
pub open spec fn paired_lookup(entries: Seq<(String, ReceiverCredentials)>, id: Seq<char>) -> Option<ReceiverCredentials> {
    match paired_index_from(entries, id, 0) {
        Some(i) => Some(entries[i].1),
        None => None,
    }
}

/// What `paired_index_from` finds is the first entry for `id`.
proof fn lemma_paired_index_from(entries: Seq<(String, ReceiverCredentials)>, id: Seq<char>, i: int)
    requires
        0 <= i,
    ensures
        match paired_index_from(entries, id, i) {
            Some(k) => i <= k < entries.len() && entries[k].0@ == id && forall|j: int| i <= j < k ==> entries[j].0@ != id,
            None => forall|j: int| i <= j < entries.len() ==> entries[j].0@ != id,
        },
    decreases entries.len() - i,
{
    if i < entries.len() && entries[i].0@ != id {
        lemma_paired_index_from(entries, id, i + 1);
    }
}

/// The first entry for `id` is found by its position.
proof fn lemma_paired_index_is_first(entries: Seq<(String, ReceiverCredentials)>, id: Seq<char>, k: int)
    requires
        0 <= k < entries.len(),
        entries[k].0@ == id,
        forall|j: int| 0 <= j < k ==> entries[j].0@ != id,
    ensures
        paired_index_from(entries, id, 0) == Some(k),
{
    lemma_paired_index_from(entries, id, 0);
}

/// No entry for `id`.
proof fn lemma_paired_index_none(entries: Seq<(String, ReceiverCredentials)>, id: Seq<char>)
    requires
        forall|j: int| 0 <= j < entries.len() ==> entries[j].0@ != id,
    ensures
        paired_index_from(entries, id, 0) is None,
{
    lemma_paired_index_from(entries, id, 0);
}

impl AppConfig {
    /// Sets the preferred receiver.
    pub fn set_preferred_device_id(&mut self, device_id: Option<String>)
        ensures
            *final(self) == (AppConfig { preferred_device_id: device_id, ..*old(self) }),
    {
        self.preferred_device_id = device_id;
    }

    /// Sets the reconnect switch.
    pub fn set_auto_reconnect(&mut self, enabled: bool)
        ensures
            *final(self) == (AppConfig { auto_reconnect: enabled, ..*old(self) }),
    {
        self.auto_reconnect = enabled;
    }

    /// Stores the pairing of `device_id`, replacing an earlier one.
    pub fn upsert_paired_receiver(&mut self, device_id: String, credentials: ReceiverCredentials)
        ensures
            final(self).auto_reconnect == old(self).auto_reconnect,
            final(self).preferred_device_id == old(self).preferred_device_id,
            final(self).tray_language == old(self).tray_language,
            paired_lookup(final(self).paired_receivers@, device_id@) == Some(credentials),
            forall|k: Seq<char>| k != device_id@ ==> #[trigger] paired_lookup(final(self).paired_receivers@, k)
                == paired_lookup(old(self).paired_receivers@, k),
    {
        let ghost old_entries = self.paired_receivers@;
        let mut i: usize = 0;
        while i < self.paired_receivers.len()
            invariant
                i <= self.paired_receivers@.len(),
                self.paired_receivers@ == old_entries,
                old_entries == old(self).paired_receivers@,
                self.auto_reconnect == old(self).auto_reconnect,
                self.preferred_device_id == old(self).preferred_device_id,
                self.tray_language == old(self).tray_language,
                forall|j: int| 0 <= j < i ==> self.paired_receivers@[j].0@ != device_id@,
            decreases self.paired_receivers@.len() - i,
        {
            if str_eq(self.paired_receivers[i].0.as_str(), device_id.as_str()) {
                let ghost k = i as int;
                let mut entry = self.paired_receivers.remove(i);
                entry.1 = credentials;
                self.paired_receivers.insert(i, entry);
                assert(self.paired_receivers@ =~= old_entries.update(k, (old_entries[k].0, credentials)));
                proof {
                    let new_entries = self.paired_receivers@;
                    lemma_paired_index_is_first(new_entries, device_id@, k);
                    assert forall|key: Seq<char>| key != device_id@ implies #[trigger] paired_lookup(new_entries, key)
                        == paired_lookup(old_entries, key) by {
                        lemma_paired_index_from(old_entries, key, 0);
                        lemma_paired_index_from(new_entries, key, 0);
                        match paired_index_from(old_entries, key, 0) {
                            Some(m) => {
                                lemma_paired_index_is_first(new_entries, key, m);
                            },
                            None => {
                                lemma_paired_index_none(new_entries, key);
                            },
                        }
                    }
                }
                return;
            }
            i = i + 1;
        }
        self.paired_receivers.push((device_id, credentials));
        proof {
            let new_entries = self.paired_receivers@;
            let k = old_entries.len() as int;
            assert(new_entries =~= old_entries.push((device_id, credentials)));
            lemma_paired_index_is_first(new_entries, device_id@, k);
            assert forall|key: Seq<char>| key != device_id@ implies #[trigger] paired_lookup(new_entries, key)
                == paired_lookup(old_entries, key) by {
                lemma_paired_index_from(old_entries, key, 0);
                match paired_index_from(old_entries, key, 0) {
                    Some(m) => {
                        lemma_paired_index_is_first(new_entries, key, m);
                    },
                    None => {
                        lemma_paired_index_none(new_entries, key);
                    },
                }
            }
        }
    }

    /// The pairing stored for `device_id`.
    pub fn paired_receiver(&self, device_id: &str) -> (r: Option<&ReceiverCredentials>)
        ensures
            match paired_lookup(self.paired_receivers@, device_id@) {
                Some(c) => r == Some(&c),
                None => r is None,
            },
    {
        let mut i: usize = 0;
        while i < self.paired_receivers.len()
            invariant
                i <= self.paired_receivers@.len(),
                forall|j: int| 0 <= j < i ==> self.paired_receivers@[j].0@ != device_id@,
            decreases self.paired_receivers@.len() - i,
        {
            if str_eq(self.paired_receivers[i].0.as_str(), device_id) {
                proof {
                    lemma_paired_index_is_first(self.paired_receivers@, device_id@, i as int);
                }
                return Some(&self.paired_receivers[i].1);
            }
            i = i + 1;
        }
        proof {
            lemma_paired_index_none(self.paired_receivers@, device_id@);
        }
        None
    }
}

} // verus!
