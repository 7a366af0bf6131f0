//! The frozen configuration snapshot and its lookup.
//!
//! The snapshot is populated exactly once, before any networking starts, and
//! is read-only afterwards. A lookup is a pure function of the snapshot and
//! the key, so repeated lookups of the same key always agree.

use vstd::prelude::*;

verus! {

/// A key of the configuration snapshot: the network settings the hub needs.
#[derive(Clone, Copy, PartialEq, Eq, Structural, Debug)]
pub enum SettingKey {
    /// Address the publisher binds.
    BindAddr,
    /// Address each subscriber session connects to.
    ConnectAddr,
    UdpPubTopic,
    SerialPubTopic,
    HttpPubTopic,
    UdpSubTopic,
    SerialSubTopic,
    HttpSubTopic,
}

/// What a sequence of (key, value) entries gives for `key`: the value of the
/// first entry with that key, or `None` when no entry has it.
pub open spec fn seq_lookup(entries: Seq<(SettingKey, Seq<char>)>, key: SettingKey) -> Option<
    Seq<char>,
>
    decreases entries.len(),
{
    if entries.len() == 0 {
        None
    } else if entries[0].0 == key {
        Some(entries[0].1)
    } else {
        seq_lookup(entries.drop_first(), key)
    }
}

/// The configuration snapshot: a small, immutable key/value table.
pub struct ConfigProvider {
    entries: Vec<(SettingKey, String)>,
}

impl ConfigProvider {
    /// The snapshot's contents, as the sequence of its entries.
    pub closed spec fn model(&self) -> Seq<(SettingKey, Seq<char>)> {
        self.entries@.map_values(|e: (SettingKey, String)| (e.0, e.1@))
    }

    /// The value the snapshot holds for `key`, or `None` when absent.
    pub open spec fn spec_get(&self, key: SettingKey) -> Option<Seq<char>> {
        seq_lookup(self.model(), key)
    }

    /// Freeze a set of entries into a snapshot. This is the only writer: no
    /// method takes the snapshot by `&mut`, so every later lookup reads the
    /// table built here.
    pub fn new(entries: Vec<(SettingKey, String)>) -> (r: ConfigProvider)
        ensures
            r.model() == entries@.map_values(|e: (SettingKey, String)| (e.0, e.1@)),
    {
        ConfigProvider { entries }
    }

    /// Look `key` up in the snapshot.
    pub fn get(&self, key: SettingKey) -> (r: Option<String>)
        ensures
            match r {
                Some(v) => self.spec_get(key) == Some(v@),
                None => self.spec_get(key) is None,
            },
    {
        let n = self.entries.len();
        proof {
            assert(self.model().skip(0) =~= self.model());
        }
        for i in 0..n
            invariant
                n == self.entries.len(),
                seq_lookup(self.model(), key) == seq_lookup(self.model().skip(i as int), key),
        {
            proof {
                assert(self.model()[i as int] == (self.entries@[i as int].0,
                self.entries@[i as int].1@));
                assert(self.model().skip(i as int)[0] == self.model()[i as int]);
            }
            if self.entries[i].0 == key {
                return Some(self.entries[i].1.clone());
            }
            proof {
                assert(self.model().skip(i as int).drop_first() =~= self.model().skip(
                    i as int + 1,
                ));
            }
        }
        proof {
            assert(self.model().skip(n as int) =~= Seq::<(SettingKey, Seq<char>)>::empty());
        }
        None
    }
}

/// Config lookup is idempotent: two lookups of the same key on the same
/// frozen snapshot return the identical value. There is no re-read of any
/// source and no drift: the result is a function of the snapshot and the key.
pub proof fn lemma_lookup_idempotent(
    c: ConfigProvider,
    key: SettingKey,
    r1: Option<Seq<char>>,
    r2: Option<Seq<char>>,
)
    requires
        r1 == c.spec_get(key),
        r2 == c.spec_get(key),
    ensures
        r1 == r2,
{
}

} // verus!
