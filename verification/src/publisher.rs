//! The publishing side of the hub.
//!
//! One bound socket, a fixed tick cadence, and per tick one framed message
//! for each registered channel, in registration order, followed by one on the
//! always-on heartbeat topic. Every message of a tick carries the same
//! human-readable payload embedding the tick's sequence number.

use crate::message::{copy_bytes, text_to_bytes, Message, MessageModel};
use crate::registry::ChannelName;
use crate::session::delivered;
use vstd::prelude::*;
use vstd::string::StringExecFns;
use vstd::utf8::{encode_utf8, encode_utf8_decode_utf8};

verus! {

/// The decimal digit characters.
pub open spec fn digit_char(d: nat) -> char {
    if d == 0 {
        '0'
    } else if d == 1 {
        '1'
    } else if d == 2 {
        '2'
    } else if d == 3 {
        '3'
    } else if d == 4 {
        '4'
    } else if d == 5 {
        '5'
    } else if d == 6 {
        '6'
    } else if d == 7 {
        '7'
    } else if d == 8 {
        '8'
    } else {
        '9'
    }
}

/// The decimal numeral of `n`, most significant digit first, no leading zero
/// except for zero itself.
pub open spec fn dec_digits(n: nat) -> Seq<char>
    decreases n,
{
    if n < 10 {
        seq![digit_char(n)]
    } else {
        dec_digits(n / 10).push(digit_char(n % 10))
    }
}

/// The payload text of the tick with sequence number `n`.
pub open spec fn broadcast_text(n: nat) -> Seq<char> {
    "Broadcast #"@ + dec_digits(n)
}

/// The topic of the fixed extra message every tick emits besides the
/// configured channels: an always-on catch-all channel.
pub open spec fn heartbeat_topic() -> Seq<char> {
    "AAA"@
}

/// A single decimal digit as text.
fn digit_str(d: u64) -> (r: &'static str)
    requires
        d < 10,
    ensures
        r@ == seq![digit_char(d as nat)],
{
    proof {
        reveal_strlit("0");
        reveal_strlit("1");
        reveal_strlit("2");
        reveal_strlit("3");
        reveal_strlit("4");
        reveal_strlit("5");
        reveal_strlit("6");
        reveal_strlit("7");
        reveal_strlit("8");
        reveal_strlit("9");
    }
    let r: &'static str = if d == 0 {
        "0"
    } else if d == 1 {
        "1"
    } else if d == 2 {
        "2"
    } else if d == 3 {
        "3"
    } else if d == 4 {
        "4"
    } else if d == 5 {
        "5"
    } else if d == 6 {
        "6"
    } else if d == 7 {
        "7"
    } else if d == 8 {
        "8"
    } else {
        "9"
    };
    proof {
        assert(r@ =~= seq![digit_char(d as nat)]);
    }
    r
}

/// Append the decimal numeral of `n` to `out`.
fn push_dec_digits(n: u64, out: &mut String)
    ensures
        final(out)@ == old(out)@ + dec_digits(n as nat),
    decreases n,
{
    if n >= 10 {
        push_dec_digits(n / 10, out);
        let ghost mid = out@;
        out.append(digit_str(n % 10));
        proof {
            assert(out@ =~= old(out)@ + dec_digits(n as nat)) by {
                assert(dec_digits(n as nat) == dec_digits((n as nat) / 10).push(
                    digit_char((n as nat) % 10),
                ));
                assert(out@ =~= mid + seq![digit_char((n % 10) as nat)]);
            }
        }
    } else {
        out.append(digit_str(n));
        proof {
            assert(out@ =~= old(out)@ + dec_digits(n as nat));
        }
    }
}

/// Format the payload text of the tick with sequence number `n`.
pub fn broadcast_payload(n: u64) -> (r: String)
    ensures
        r@ == broadcast_text(n as nat),
{
    let mut s = String::from_str("Broadcast #");
    push_dec_digits(n, &mut s);
    s
}

/// A registered publish channel: its logical name and the topic it sends as.
pub struct PubChannel {
    pub name: ChannelName,
    pub topic: String,
}

/// What one tick with sequence number `n` frames for the wire, given the
/// registered publish topics: one message per topic in registration order,
/// then one on the heartbeat topic, all carrying the tick's payload text.
pub open spec fn tick_messages(topics: Seq<Seq<char>>, n: nat) -> Seq<MessageModel> {
    topics.push(heartbeat_topic()).map_values(
        |t: Seq<char>| MessageModel { topic: encode_utf8(t), payload: encode_utf8(broadcast_text(n)) },
    )
}

/// The publisher: one outbound socket bound at `bind_addr`, the registered
/// channels, the tick period, and the count of ticks taken so far.
pub struct Publisher {
    pub bind_addr: String,
    pub channels: Vec<PubChannel>,
    pub tick_ms: u64,
    pub seq: u64,
}

impl Publisher {
    /// The publish topics, in registration order.
    pub open spec fn pub_topics(&self) -> Seq<Seq<char>> {
        self.channels@.map_values(|c: PubChannel| c.topic@)
    }

    /// A publisher that has not ticked yet.
    pub fn new(bind_addr: String, channels: Vec<PubChannel>, tick_ms: u64) -> (r: Publisher)
        ensures
            r.bind_addr == bind_addr,
            r.channels == channels,
            r.tick_ms == tick_ms,
            r.seq == 0,
    {
        Publisher { bind_addr, channels, tick_ms, seq: 0 }
    }

    /// Take one tick: advance the sequence number and frame the messages to
    /// send, one per registered channel in registration order, then the
    /// heartbeat, all with the payload text "Broadcast #<seq>". The caller
    /// sends them sequentially over the one socket, so a stalled transport
    /// delays every topic of the tick equally.
    pub fn next_tick(&mut self) -> (r: Vec<Message>)
        requires
            old(self).seq < u64::MAX,
        ensures
            final(self).seq == old(self).seq + 1,
            final(self).bind_addr == old(self).bind_addr,
            final(self).channels == old(self).channels,
            final(self).tick_ms == old(self).tick_ms,
            r@.map_values(|m: Message| m@) == tick_messages(
                old(self).pub_topics(),
                old(self).seq as nat + 1,
            ),
    {
        self.seq = self.seq + 1;
        let ghost tick: nat = self.seq as nat;
        let payload = broadcast_payload(self.seq);
        let payload_bytes = text_to_bytes(payload.as_str());
        let mut out: Vec<Message> = Vec::new();
        let n = self.channels.len();
        for i in 0..n
            invariant
                n == self.channels.len(),
                payload_bytes@ == encode_utf8(broadcast_text(tick)),
                out@.map_values(|m: Message| m@) =~= self.pub_topics().take(i as int).map_values(
                    |t: Seq<char>| MessageModel {
                        topic: encode_utf8(t),
                        payload: encode_utf8(broadcast_text(tick)),
                    },
                ),
        {
            let msg = Message {
                topic: text_to_bytes(self.channels[i].topic.as_str()),
                payload: copy_bytes(&payload_bytes),
            };
            proof {
                assert(msg@ == MessageModel {
                    topic: encode_utf8(self.pub_topics()[i as int]),
                    payload: encode_utf8(broadcast_text(tick)),
                });
            }
            let ghost prev = out@;
            out.push(msg);
            proof {
                assert(out@.map_values(|m: Message| m@) =~= prev.map_values(|m: Message| m@).push(
                    msg@,
                ));
                assert(self.pub_topics().take(i + 1) =~= self.pub_topics().take(i as int).push(
                    self.pub_topics()[i as int],
                ));
            }
        }
        let heartbeat = Message { topic: text_to_bytes("AAA"), payload: payload_bytes };
        let ghost prev = out@;
        out.push(heartbeat);
        proof {
            assert(self.pub_topics().take(n as int) =~= self.pub_topics());
            assert(out@.map_values(|m: Message| m@) =~= prev.map_values(|m: Message| m@).push(
                heartbeat@,
            ));
            assert(out@.map_values(|m: Message| m@) =~= tick_messages(self.pub_topics(), tick));
        }
        out
    }
}

/// One tick, one message per topic: a session filtered on the encoding of a
/// registered publish topic (or of the heartbeat topic) is delivered exactly
/// one message of the tick, provided the publish set has no duplicate; the
/// order is the registration order, so it is fixed and reproducible.
pub proof fn lemma_one_message_per_topic(topics: Seq<Seq<char>>, n: nat, t: Seq<char>)
    requires
        topics.push(heartbeat_topic()).no_duplicates(),
        topics.push(heartbeat_topic()).contains(t),
    ensures
        delivered(tick_messages(topics, n), encode_utf8(t)).len() == 1,
{
    lemma_delivered_count(topics.push(heartbeat_topic()), n, t);
}

/// What the publisher frames over a window of `count` consecutive ticks, the
/// first of them carrying sequence number `from + 1`.
pub open spec fn window_messages(topics: Seq<Seq<char>>, from: nat, count: nat) -> Seq<
    MessageModel,
>
    decreases count,
{
    if count == 0 {
        Seq::empty()
    } else {
        tick_messages(topics, from + 1) + window_messages(topics, from + 1, (count - 1) as nat)
    }
}

/// Over any window of `count` ticks, a session filtered on the encoding of a
/// registered publish topic (or of the heartbeat topic) is delivered exactly
/// `count` messages: one per tick, none more, none fewer.
pub proof fn lemma_one_message_per_topic_per_window(
    topics: Seq<Seq<char>>,
    from: nat,
    count: nat,
    t: Seq<char>,
)
    requires
        topics.push(heartbeat_topic()).no_duplicates(),
        topics.push(heartbeat_topic()).contains(t),
    ensures
        delivered(window_messages(topics, from, count), encode_utf8(t)).len() == count,
    decreases count,
{
    let pred = |m: MessageModel| m.topic == encode_utf8(t);
    if count == 0 {
        assert(Seq::<MessageModel>::empty().filter(pred) =~= Seq::<MessageModel>::empty()) by {
            reveal(Seq::filter);
        }
    } else {
        Seq::filter_distributes_over_add(
            tick_messages(topics, from + 1),
            window_messages(topics, from + 1, (count - 1) as nat),
            pred,
        );
        lemma_one_message_per_topic(topics, from + 1, t);
        lemma_one_message_per_topic_per_window(topics, from + 1, (count - 1) as nat, t);
    }
}

/// A session filtered on a frame that encodes no topic of the tick's publish
/// set (heartbeat included) is delivered nothing from the tick.
pub proof fn lemma_foreign_topic_silent(topics: Seq<Seq<char>>, n: nat, t: Seq<char>)
    requires
        !topics.push(heartbeat_topic()).contains(t),
    ensures
        delivered(tick_messages(topics, n), encode_utf8(t)).len() == 0,
{
    lemma_delivered_count_general(topics.push(heartbeat_topic()), n, t);
}

/// How many of a tick's messages a filter on `encode_utf8(t)` keeps, counted
/// over an arbitrary topic list: one per occurrence of `t`; with no
/// duplicates, exactly one when present and none when absent.
proof fn lemma_delivered_count(all: Seq<Seq<char>>, n: nat, t: Seq<char>)
    requires
        all.no_duplicates(),
        all.contains(t),
    ensures
        delivered(
            all.map_values(
                |x: Seq<char>| MessageModel {
                    topic: encode_utf8(x),
                    payload: encode_utf8(broadcast_text(n)),
                },
            ),
            encode_utf8(t),
        ).len() == 1,
    decreases all.len(),
{
    let frame = |x: Seq<char>| MessageModel {
        topic: encode_utf8(x),
        payload: encode_utf8(broadcast_text(n)),
    };
    let pred = |m: MessageModel| m.topic == encode_utf8(t);
    let rest = all.drop_last();
    assert(all =~= rest.push(all.last()));
    assert(all.map_values(frame) =~= rest.map_values(frame).push(frame(all.last())));
    rest.map_values(frame).lemma_filter_push(frame(all.last()), pred);
    lemma_encode_injective(all.last(), t);
    if all.last() == t {
        assert(forall|i: int| 0 <= i < rest.len() ==> rest[i] == all[i]);
        assert(!rest.contains(t)) by {
            if rest.contains(t) {
                let i = choose|i: int| 0 <= i < rest.len() && rest[i] == t;
                assert(all[i] == all[all.len() - 1]);
            }
        }
        lemma_delivered_count_general(rest, n, t);
    } else {
        let i = choose|i: int| 0 <= i < all.len() && all[i] == t;
        assert(rest[i] == t);
        assert(rest.no_duplicates());
        lemma_delivered_count(rest, n, t);
    }
}

/// As `lemma_delivered_count`, for a topic absent from the list: the filter
/// keeps nothing.
proof fn lemma_delivered_count_general(all: Seq<Seq<char>>, n: nat, t: Seq<char>)
    requires
        !all.contains(t),
    ensures
        delivered(
            all.map_values(
                |x: Seq<char>| MessageModel {
                    topic: encode_utf8(x),
                    payload: encode_utf8(broadcast_text(n)),
                },
            ),
            encode_utf8(t),
        ).len() == 0,
    decreases all.len(),
{
    let frame = |x: Seq<char>| MessageModel {
        topic: encode_utf8(x),
        payload: encode_utf8(broadcast_text(n)),
    };
    let pred = |m: MessageModel| m.topic == encode_utf8(t);
    if all.len() == 0 {
        assert(all.map_values(frame) =~= Seq::<MessageModel>::empty());
        assert(Seq::<MessageModel>::empty().filter(pred) =~= Seq::<MessageModel>::empty()) by {
            reveal(Seq::filter);
        }
    } else {
        let rest = all.drop_last();
        assert(all =~= rest.push(all.last()));
        assert(all.map_values(frame) =~= rest.map_values(frame).push(frame(all.last())));
        rest.map_values(frame).lemma_filter_push(frame(all.last()), pred);
        lemma_encode_injective(all.last(), t);
        assert(all.last() != t);
        assert(!rest.contains(t)) by {
            if rest.contains(t) {
                let i = choose|i: int| 0 <= i < rest.len() && rest[i] == t;
                assert(all[i] == t);
            }
        }
        lemma_delivered_count_general(rest, n, t);
    }
}

/// UTF-8 encoding is injective: two texts with the same encoding are equal.
proof fn lemma_encode_injective(a: Seq<char>, b: Seq<char>)
    ensures
        (encode_utf8(a) == encode_utf8(b)) == (a == b),
{
    if encode_utf8(a) == encode_utf8(b) {
        encode_utf8_decode_utf8(a);
        encode_utf8_decode_utf8(b);
    }
}

} // verus!
