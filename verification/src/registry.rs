//! The channel registry.
//!
//! Built once at startup from the configuration snapshot and immutable
//! afterwards: the two endpoints and, per logical channel, the topic it
//! publishes as and the topic it filters on when receiving. Every setting is
//! mandatory; a missing one is a startup-fatal fault and nothing is built.

use crate::config::{ConfigProvider, SettingKey};
use crate::fault::Fault;
use vstd::prelude::*;

verus! {

/// The logical channels, one per transport class.
#[derive(Clone, Copy, PartialEq, Eq, Structural, Debug)]
pub enum ChannelName {
    Udp,
    Serial,
    Http,
}

/// The fixed registration order of the logical channels.
pub open spec fn channel_order() -> Seq<ChannelName> {
    seq![ChannelName::Udp, ChannelName::Serial, ChannelName::Http]
}

/// The setting that names a channel's publish topic.
pub open spec fn pub_topic_key(name: ChannelName) -> SettingKey {
    match name {
        ChannelName::Udp => SettingKey::UdpPubTopic,
        ChannelName::Serial => SettingKey::SerialPubTopic,
        ChannelName::Http => SettingKey::HttpPubTopic,
    }
}

/// The setting that names a channel's subscribe topic.
pub open spec fn sub_topic_key(name: ChannelName) -> SettingKey {
    match name {
        ChannelName::Udp => SettingKey::UdpSubTopic,
        ChannelName::Serial => SettingKey::SerialSubTopic,
        ChannelName::Http => SettingKey::HttpSubTopic,
    }
}

/// The eight mandatory network settings, in the order they are checked.
pub open spec fn required_keys() -> Seq<SettingKey> {
    seq![
        SettingKey::BindAddr,
        SettingKey::ConnectAddr,
        SettingKey::UdpPubTopic,
        SettingKey::SerialPubTopic,
        SettingKey::HttpPubTopic,
        SettingKey::UdpSubTopic,
        SettingKey::SerialSubTopic,
        SettingKey::HttpSubTopic,
    ]
}

/// One logical channel's resolved mapping.
pub struct ChannelConfig {
    pub name: ChannelName,
    pub pub_topic: String,
    pub sub_topic: String,
}

/// The registry: the publisher's bind endpoint, the sessions' connect
/// endpoint, and one mapping per logical channel in registration order.
pub struct ChannelRegistry {
    pub bind_addr: String,
    pub connect_addr: String,
    pub channels: Vec<ChannelConfig>,
}

/// The index of a channel in the registration order.
pub open spec fn channel_index(name: ChannelName) -> int {
    match name {
        ChannelName::Udp => 0,
        ChannelName::Serial => 1,
        ChannelName::Http => 2,
    }
}

impl ChannelRegistry {
    /// Well-formed: one entry per logical channel, in registration order.
    pub open spec fn wf(&self) -> bool {
        &&& self.channels@.len() == 3
        &&& forall|i: int| 0 <= i < 3 ==> (#[trigger] self.channels@[i]).name == channel_order()[i]
    }

    /// The topic the named channel publishes as.
    pub open spec fn spec_pub_topic(&self, name: ChannelName) -> Seq<char> {
        self.channels@[channel_index(name)].pub_topic@
    }

    /// The topic the named channel filters on when receiving.
    pub open spec fn spec_sub_topic(&self, name: ChannelName) -> Seq<char> {
        self.channels@[channel_index(name)].sub_topic@
    }

    /// Build the registry from the frozen snapshot. It fails fast: the first
    /// absent setting, in the order of `required_keys`, is returned as a
    /// startup-fatal fault; it succeeds exactly when every setting is
    /// present, and then every field holds the configured value.
    pub fn build(cfg: &ConfigProvider) -> (r: Result<ChannelRegistry, Fault>)
        ensures
            (r is Ok) <==> (forall|i: int|
                0 <= i < required_keys().len() ==> (#[trigger] cfg.spec_get(required_keys()[i]))
                    is Some),
            match r {
                Ok(reg) => {
                    &&& reg.wf()
                    &&& Some(reg.bind_addr@) == cfg.spec_get(SettingKey::BindAddr)
                    &&& Some(reg.connect_addr@) == cfg.spec_get(SettingKey::ConnectAddr)
                    &&& forall|i: int|
                        0 <= i < 3 ==> Some((#[trigger] reg.channels@[i]).pub_topic@)
                            == cfg.spec_get(pub_topic_key(channel_order()[i]))
                    &&& forall|i: int|
                        0 <= i < 3 ==> Some((#[trigger] reg.channels@[i]).sub_topic@)
                            == cfg.spec_get(sub_topic_key(channel_order()[i]))
                },
                Err(f) => exists|k: SettingKey|
                    f == Fault::MissingSetting(k) && (#[trigger] cfg.spec_get(k)) is None,
            },
    {
        let bind_addr = match require(cfg, SettingKey::BindAddr) {
            Ok(v) => v,
            Err(f) => {
                proof {
                    assert(required_keys()[0] == SettingKey::BindAddr);
                }
                return Err(f);
            },
        };
        let connect_addr = match require(cfg, SettingKey::ConnectAddr) {
            Ok(v) => v,
            Err(f) => {
                proof {
                    assert(required_keys()[1] == SettingKey::ConnectAddr);
                }
                return Err(f);
            },
        };
        let udp_pub = match require(cfg, SettingKey::UdpPubTopic) {
            Ok(v) => v,
            Err(f) => {
                proof {
                    assert(required_keys()[2] == SettingKey::UdpPubTopic);
                }
                return Err(f);
            },
        };
        let serial_pub = match require(cfg, SettingKey::SerialPubTopic) {
            Ok(v) => v,
            Err(f) => {
                proof {
                    assert(required_keys()[3] == SettingKey::SerialPubTopic);
                }
                return Err(f);
            },
        };
        let http_pub = match require(cfg, SettingKey::HttpPubTopic) {
            Ok(v) => v,
            Err(f) => {
                proof {
                    assert(required_keys()[4] == SettingKey::HttpPubTopic);
                }
                return Err(f);
            },
        };
        let udp_sub = match require(cfg, SettingKey::UdpSubTopic) {
            Ok(v) => v,
            Err(f) => {
                proof {
                    assert(required_keys()[5] == SettingKey::UdpSubTopic);
                }
                return Err(f);
            },
        };
        let serial_sub = match require(cfg, SettingKey::SerialSubTopic) {
            Ok(v) => v,
            Err(f) => {
                proof {
                    assert(required_keys()[6] == SettingKey::SerialSubTopic);
                }
                return Err(f);
            },
        };
        let http_sub = match require(cfg, SettingKey::HttpSubTopic) {
            Ok(v) => v,
            Err(f) => {
                proof {
                    assert(required_keys()[7] == SettingKey::HttpSubTopic);
                }
                return Err(f);
            },
        };
        let channels = vec![
            ChannelConfig { name: ChannelName::Udp, pub_topic: udp_pub, sub_topic: udp_sub },
            ChannelConfig {
                name: ChannelName::Serial,
                pub_topic: serial_pub,
                sub_topic: serial_sub,
            },
            ChannelConfig { name: ChannelName::Http, pub_topic: http_pub, sub_topic: http_sub },
        ];
        let reg = ChannelRegistry { bind_addr, connect_addr, channels };
        proof {
            assert forall|i: int| 0 <= i < required_keys().len() implies (#[trigger] cfg.spec_get(
                required_keys()[i],
            )) is Some by {
                if i == 0 {
                } else if i == 1 {
                } else if i == 2 {
                } else if i == 3 {
                } else if i == 4 {
                } else if i == 5 {
                } else if i == 6 {
                } else {
                    assert(required_keys()[i] == SettingKey::HttpSubTopic);
                }
            }
        }
        Ok(reg)
    }

    /// Whether the registry is well-formed, decided at run time: one entry
    /// per logical channel, in registration order.
    pub fn check_wf(&self) -> (r: bool)
        ensures
            r == self.wf(),
    {
        if self.channels.len() != 3 {
            return false;
        }
        let ok = matches!(self.channels[0].name, ChannelName::Udp) && matches!(
            self.channels[1].name,
            ChannelName::Serial,
        ) && matches!(self.channels[2].name, ChannelName::Http);
        proof {
            assert(channel_order()[0] == ChannelName::Udp);
            assert(channel_order()[1] == ChannelName::Serial);
            assert(channel_order()[2] == ChannelName::Http);
        }
        ok
    }

    /// Resolve one logical channel: its publish topic and subscribe topic,
    /// exactly as configured.
    pub fn resolve(&self, name: ChannelName) -> (r: ChannelConfig)
        requires
            self.wf(),
        ensures
            r.name == name,
            r.pub_topic@ == self.spec_pub_topic(name),
            r.sub_topic@ == self.spec_sub_topic(name),
    {
        let i: usize = match name {
            ChannelName::Udp => 0,
            ChannelName::Serial => 1,
            ChannelName::Http => 2,
        };
        let c = &self.channels[i];
        ChannelConfig { name, pub_topic: c.pub_topic.clone(), sub_topic: c.sub_topic.clone() }
    }
}

/// Read one mandatory setting, failing fast when it is absent.
fn require(cfg: &ConfigProvider, key: SettingKey) -> (r: Result<String, Fault>)
    ensures
        match r {
            Ok(v) => cfg.spec_get(key) == Some(v@),
            Err(f) => f == Fault::MissingSetting(key) && cfg.spec_get(key) is None,
        },
{
    match cfg.get(key) {
        Some(v) => Ok(v),
        None => Err(Fault::MissingSetting(key)),
    }
}

} // verus!
