use broadcast_hub::config::{ConfigProvider, SettingKey};
use broadcast_hub::fault::{Fault, Severity};
use broadcast_hub::hub::{plan, HubRun, UnitState};
use broadcast_hub::message::{decode_payload, text_to_bytes, Message};
use broadcast_hub::publisher::{broadcast_payload, PubChannel, Publisher};
use broadcast_hub::registry::{ChannelName, ChannelRegistry};
use broadcast_hub::session::SubscriberSession;

fn full_config() -> ConfigProvider {
    ConfigProvider::new(vec![
        (SettingKey::BindAddr, "tcp://127.0.0.1:7899".to_string()),
        (SettingKey::ConnectAddr, "tcp://127.0.0.1:7899".to_string()),
        (SettingKey::UdpPubTopic, "UDP2".to_string()),
        (SettingKey::SerialPubTopic, "SERIAL2".to_string()),
        (SettingKey::HttpPubTopic, "HTTP2".to_string()),
        (SettingKey::UdpSubTopic, "UDP2".to_string()),
        (SettingKey::SerialSubTopic, "SERIAL2".to_string()),
        (SettingKey::HttpSubTopic, "HTTP2".to_string()),
    ])
}

#[test]
fn config_lookup_present_key() {
    let cfg = full_config();
    assert_eq!(cfg.get(SettingKey::UdpPubTopic), Some("UDP2".to_string()));
    assert_eq!(cfg.get(SettingKey::BindAddr), Some("tcp://127.0.0.1:7899".to_string()));
}

#[test]
fn config_lookup_absent_key() {
    let cfg = ConfigProvider::new(vec![(SettingKey::BindAddr, "tcp://a".to_string())]);
    assert_eq!(cfg.get(SettingKey::HttpSubTopic), None);
}

#[test]
fn config_lookup_idempotent() {
    let cfg = full_config();
    let first = cfg.get(SettingKey::SerialSubTopic);
    let second = cfg.get(SettingKey::SerialSubTopic);
    assert_eq!(first, second);
    assert_eq!(first, Some("SERIAL2".to_string()));
    let gone_first = cfg.get(SettingKey::HttpPubTopic);
    let gone_second = cfg.get(SettingKey::HttpPubTopic);
    assert_eq!(gone_first, gone_second);
}

#[test]
fn config_first_entry_wins() {
    let cfg = ConfigProvider::new(vec![
        (SettingKey::UdpPubTopic, "first".to_string()),
        (SettingKey::UdpPubTopic, "second".to_string()),
    ]);
    assert_eq!(cfg.get(SettingKey::UdpPubTopic), Some("first".to_string()));
}

#[test]
fn payload_formatting_exact() {
    assert_eq!(broadcast_payload(0), "Broadcast #0");
    assert_eq!(broadcast_payload(1), "Broadcast #1");
    assert_eq!(broadcast_payload(10), "Broadcast #10");
    assert_eq!(broadcast_payload(12345), "Broadcast #12345");
    assert_eq!(broadcast_payload(u64::MAX), "Broadcast #18446744073709551615");
}

#[test]
fn decode_valid_payload() {
    let bytes = text_to_bytes("Broadcast #7");
    assert_eq!(decode_payload(&bytes), "Broadcast #7");
}

#[test]
fn decode_non_ascii_round_trip() {
    let bytes = text_to_bytes("h\u{e9}llo \u{2603}");
    assert_eq!(decode_payload(&bytes), "h\u{e9}llo \u{2603}");
}

#[test]
fn invalid_payload_gets_sentinel() {
    let bytes = vec![0xffu8, 0xfe, 0xfd];
    assert_eq!(decode_payload(&bytes), "invalid text");
}

#[test]
fn truncated_utf8_gets_sentinel() {
    // a lone leading byte of a two-byte encoding
    let bytes = vec![0xc3u8];
    assert_eq!(decode_payload(&bytes), "invalid text");
}

#[test]
fn session_substitutes_sentinel_without_failing() {
    let session = SubscriberSession::new("tcp://127.0.0.1:7899".to_string(), "UDP2");
    let msg = Message { topic: b"UDP2".to_vec(), payload: vec![0x80u8, 0x80] };
    let d = session.process(&msg).expect("matching topic must be delivered");
    assert_eq!(d.text, "invalid text");
    assert_eq!(d.topic, b"UDP2".to_vec());
}

#[test]
fn scenario_single_channel_first_tick() {
    let mut publisher = Publisher::new(
        "tcp://127.0.0.1:7899".to_string(),
        vec![PubChannel { name: ChannelName::Udp, topic: "UDP2".to_string() }],
        2000,
    );
    assert_eq!(publisher.tick_ms, 2000);
    let msgs = publisher.next_tick();
    assert_eq!(publisher.seq, 1);
    assert_eq!(msgs.len(), 2);
    let session = SubscriberSession::new("tcp://127.0.0.1:7899".to_string(), "UDP2");
    let d = session.process(&msgs[0]).expect("first tick must reach the UDP2 subscriber");
    assert_eq!(d.topic, b"UDP2".to_vec());
    assert_eq!(d.text, "Broadcast #1");
    // the heartbeat message is not delivered to this session
    assert!(session.process(&msgs[1]).is_none());
}

#[test]
fn scenario_three_channels_tick_order() {
    let mut publisher = Publisher::new(
        "tcp://127.0.0.1:7899".to_string(),
        vec![
            PubChannel { name: ChannelName::Udp, topic: "UDP2".to_string() },
            PubChannel { name: ChannelName::Serial, topic: "SERIAL2".to_string() },
            PubChannel { name: ChannelName::Http, topic: "HTTP2".to_string() },
        ],
        2000,
    );
    let msgs = publisher.next_tick();
    assert_eq!(msgs.len(), 4);
    assert_eq!(msgs[0].topic, b"UDP2".to_vec());
    assert_eq!(msgs[1].topic, b"SERIAL2".to_vec());
    assert_eq!(msgs[2].topic, b"HTTP2".to_vec());
    assert_eq!(msgs[3].topic, b"AAA".to_vec());
    for m in &msgs {
        assert_eq!(m.payload, b"Broadcast #1".to_vec());
    }
    let second = publisher.next_tick();
    assert_eq!(publisher.seq, 2);
    assert_eq!(second.len(), 4);
    for m in &second {
        assert_eq!(m.payload, b"Broadcast #2".to_vec());
    }
}

#[test]
fn one_message_per_topic_per_tick() {
    let mut publisher = Publisher::new(
        "tcp://127.0.0.1:7899".to_string(),
        vec![
            PubChannel { name: ChannelName::Udp, topic: "UDP2".to_string() },
            PubChannel { name: ChannelName::Serial, topic: "SERIAL2".to_string() },
            PubChannel { name: ChannelName::Http, topic: "HTTP2".to_string() },
        ],
        2000,
    );
    let msgs = publisher.next_tick();
    for topic in ["UDP2", "SERIAL2", "HTTP2", "AAA"] {
        let session = SubscriberSession::new("tcp://127.0.0.1:7899".to_string(), topic);
        let got = session.deliveries(&msgs);
        assert_eq!(got.len(), 1, "exactly one message per tick for {}", topic);
        assert_eq!(got[0].topic, topic.as_bytes().to_vec());
    }
}

#[test]
fn topic_isolation_no_cross_leakage() {
    let published = vec![
        Message { topic: b"UDP2".to_vec(), payload: b"one".to_vec() },
        Message { topic: b"SERIAL2".to_vec(), payload: b"two".to_vec() },
        Message { topic: b"UDP2".to_vec(), payload: b"three".to_vec() },
        Message { topic: b"UDP".to_vec(), payload: b"prefix is not equality".to_vec() },
    ];
    let session = SubscriberSession::new("tcp://127.0.0.1:7899".to_string(), "UDP2");
    let got = session.deliveries(&published);
    assert_eq!(got.len(), 2);
    assert_eq!(got[0].payload, b"one".to_vec());
    assert_eq!(got[1].payload, b"three".to_vec());
    for m in &got {
        assert_eq!(m.topic, b"UDP2".to_vec());
    }
}

#[test]
fn payload_received_verbatim() {
    let payload: Vec<u8> = (0u8..=255).collect();
    let published = vec![Message { topic: b"UDP2".to_vec(), payload: payload.clone() }];
    let session = SubscriberSession::new("tcp://127.0.0.1:7899".to_string(), "UDP2");
    let got = session.deliveries(&published);
    assert_eq!(got.len(), 1);
    assert_eq!(got[0].payload, payload);
}

#[test]
fn registry_build_from_full_config() {
    let cfg = full_config();
    let reg = ChannelRegistry::build(&cfg).expect("complete config must build");
    assert!(reg.check_wf());
    assert_eq!(reg.bind_addr, "tcp://127.0.0.1:7899");
    assert_eq!(reg.connect_addr, "tcp://127.0.0.1:7899");
    let serial = reg.resolve(ChannelName::Serial);
    assert_eq!(serial.pub_topic, "SERIAL2");
    assert_eq!(serial.sub_topic, "SERIAL2");
}

#[test]
fn scenario_missing_network_block() {
    let cfg = ConfigProvider::new(vec![]);
    match ChannelRegistry::build(&cfg) {
        Ok(_) => panic!("an empty config must not build"),
        Err(f) => {
            assert_eq!(f, Fault::MissingSetting(SettingKey::BindAddr));
            assert_eq!(f.severity(), Severity::StartupFatal);
        }
    }
}

#[test]
fn missing_single_key_is_named() {
    let cfg = ConfigProvider::new(vec![
        (SettingKey::BindAddr, "tcp://a".to_string()),
        (SettingKey::ConnectAddr, "tcp://b".to_string()),
        (SettingKey::UdpPubTopic, "UDP2".to_string()),
        (SettingKey::SerialPubTopic, "SERIAL2".to_string()),
        (SettingKey::HttpPubTopic, "HTTP2".to_string()),
        (SettingKey::UdpSubTopic, "UDP2".to_string()),
        (SettingKey::SerialSubTopic, "SERIAL2".to_string()),
    ]);
    match ChannelRegistry::build(&cfg) {
        Ok(_) => panic!("a config without the HTTP subscribe topic must not build"),
        Err(f) => assert_eq!(f, Fault::MissingSetting(SettingKey::HttpSubTopic)),
    }
}

#[test]
fn plan_resolves_registry() {
    let cfg = full_config();
    let reg = ChannelRegistry::build(&cfg).unwrap();
    let hub = plan(&reg);
    assert_eq!(hub.publisher.bind_addr, "tcp://127.0.0.1:7899");
    assert_eq!(hub.publisher.tick_ms, 2000);
    assert_eq!(hub.publisher.seq, 0);
    assert_eq!(hub.publisher.channels.len(), 3);
    assert_eq!(hub.publisher.channels[0].topic, "UDP2");
    assert_eq!(hub.publisher.channels[1].topic, "SERIAL2");
    assert_eq!(hub.publisher.channels[2].topic, "HTTP2");
    assert_eq!(hub.sessions.len(), 3);
    for s in &hub.sessions {
        assert_eq!(s.connect_addr, "tcp://127.0.0.1:7899");
    }
    assert_eq!(hub.sessions[0].filter, b"UDP2".to_vec());
    assert_eq!(hub.sessions[1].filter, b"SERIAL2".to_vec());
    assert_eq!(hub.sessions[2].filter, b"HTTP2".to_vec());
    assert_eq!(hub.unit_count(), 4);
}

#[test]
fn scenario_session_failure_isolated() {
    let mut run = HubRun::launch(4);
    assert!(!run.all_terminated());
    // the UDP session's connect fails: fatal for that session only
    run.on_unit_failure(1, Fault::ConnectFailed);
    assert_eq!(run.unit(1), UnitState::Failed(Fault::ConnectFailed));
    assert_eq!(run.unit(0), UnitState::Running, "publisher unaffected");
    assert_eq!(run.unit(2), UnitState::Running, "sibling session unaffected");
    assert_eq!(run.unit(3), UnitState::Running, "sibling session unaffected");
    assert!(!run.all_terminated(), "the hub keeps waiting on the live units");
    run.on_unit_failure(0, Fault::SendFailed);
    run.on_unit_failure(2, Fault::RecvFailed);
    run.on_unit_failure(3, Fault::RecvFailed);
    assert!(run.all_terminated(), "the hub's wait returns once every unit ended");
}

#[test]
fn fault_severity_classes() {
    assert_eq!(Fault::MissingSetting(SettingKey::BindAddr).severity(), Severity::StartupFatal);
    assert_eq!(Fault::BindFailed.severity(), Severity::StartupFatal);
    assert_eq!(Fault::ConnectFailed.severity(), Severity::StartupFatal);
    assert_eq!(Fault::SendFailed.severity(), Severity::RuntimeFatal);
    assert_eq!(Fault::RecvFailed.severity(), Severity::RuntimeFatal);
}
