//! Subscriber sessions and the transport's topic routing.
//!
//! A session owns one inbound connection filtered to a single topic. The
//! transport delivers to it exactly the messages whose topic frame equals the
//! filter, in publish order and with the payload bytes untouched; the session
//! decodes each payload as text and hands the pair to its sink.

use crate::message::{bytes_eq, copy_bytes, decode_payload, payload_text, text_to_bytes, Message,
    MessageModel};
use vstd::prelude::*;
use vstd::utf8::encode_utf8;

verus! {

/// The messages the transport hands a session whose subscription filter is
/// `filter`, out of the sequence published on the socket it is connected to:
/// exactly those whose topic frame equals the filter, in publish order, with
/// payloads untouched.
pub open spec fn delivered(published: Seq<MessageModel>, filter: Seq<u8>) -> Seq<MessageModel> {
    published.filter(|m: MessageModel| m.topic == filter)
}

/// Topic isolation: a session filtered on `filter` receives a message if and
/// only if that message was published and its topic frame equals the filter.
/// It never observes another topic's traffic, though every topic shares the
/// publisher's socket.
pub proof fn lemma_topic_isolation(published: Seq<MessageModel>, filter: Seq<u8>, m: MessageModel)
    ensures
        delivered(published, filter).contains(m) <==> (published.contains(m) && m.topic
            == filter),
{
    let pred = |mm: MessageModel| mm.topic == filter;
    if delivered(published, filter).contains(m) {
        let i = choose|i: int|
            0 <= i < delivered(published, filter).len() && delivered(published, filter)[i] == m;
        published.lemma_filter_pred(pred, i);
        published.lemma_filter_contains_rev(pred, m);
    }
    if published.contains(m) && m.topic == filter {
        let i = choose|i: int| 0 <= i < published.len() && published[i] == m;
        published.lemma_filter_contains(pred, i);
    }
}

/// Round trip through the transport: a payload published under topic `t` is
/// received verbatim, byte-identical, by any session subscribed to `t`, and
/// such a session receives no payload that was not published under `t`.
pub proof fn lemma_payload_round_trip(published: Seq<MessageModel>, t: Seq<u8>, p: Seq<u8>)
    ensures
        delivered(published, t).contains(MessageModel { topic: t, payload: p })
            <==> published.contains(MessageModel { topic: t, payload: p }),
{
    lemma_topic_isolation(published, t, MessageModel { topic: t, payload: p });
}

/// One subscriber session: the endpoint it dials and the topic filter it
/// subscribes with, fixed for the session's whole lifetime. The socket
/// itself lives outside the library.
pub struct SubscriberSession {
    pub connect_addr: String,
    pub filter: Vec<u8>,
}

/// A decoded message as handed to a session's sink: the topic frame and the
/// payload decoded as text.
pub struct Delivery {
    pub topic: Vec<u8>,
    pub text: String,
}

impl SubscriberSession {
    /// A session dialing `connect_addr`, filtered to the given topic.
    pub fn new(connect_addr: String, topic: &str) -> (r: SubscriberSession)
        ensures
            r.connect_addr == connect_addr,
            r.filter@ == encode_utf8(topic@),
    {
        SubscriberSession { connect_addr, filter: text_to_bytes(topic) }
    }

    /// Whether the transport delivers a message with this topic frame to the
    /// session: exactly when the frame equals the session's filter.
    pub fn accepts(&self, topic_frame: &Vec<u8>) -> (r: bool)
        ensures
            r <==> topic_frame@ == self.filter@,
    {
        bytes_eq(topic_frame, &self.filter)
    }

    /// Consume one message: deliver it decoded when its topic frame equals
    /// the session's filter, drop it otherwise. A payload that is not valid
    /// text becomes the sentinel instead of ending the session.
    pub fn process(&self, msg: &Message) -> (r: Option<Delivery>)
        ensures
            r is Some <==> msg.topic@ == self.filter@,
            r is Some ==> r.unwrap().topic@ == msg.topic@ && r.unwrap().text@ == payload_text(
                msg.payload@,
            ),
    {
        if self.accepts(&msg.topic) {
            Some(Delivery { topic: copy_bytes(&msg.topic), text: decode_payload(&msg.payload) })
        } else {
            None
        }
    }

    /// The messages of `published`, in publish order, that the transport
    /// would deliver to this session.
    pub fn deliveries(&self, published: &Vec<Message>) -> (r: Vec<Message>)
        ensures
            r@.map_values(|m: Message| m@) == delivered(
                published@.map_values(|m: Message| m@),
                self.filter@,
            ),
    {
        let mut out: Vec<Message> = Vec::new();
        let n = published.len();
        proof {
            assert(published@.take(0).map_values(|m: Message| m@) =~= Seq::<
                MessageModel,
            >::empty());
            assert(Seq::<MessageModel>::empty().filter(|m: MessageModel| m.topic == self.filter@)
                =~= Seq::<MessageModel>::empty()) by {
                reveal(Seq::filter);
            }
            assert(out@.map_values(|m: Message| m@) =~= Seq::<MessageModel>::empty());
        }
        for i in 0..n
            invariant
                n == published.len(),
                out@.map_values(|m: Message| m@) == delivered(
                    published@.take(i as int).map_values(|m: Message| m@),
                    self.filter@,
                ),
        {
            proof {
                assert(published@.take(i + 1).map_values(|m: Message| m@) =~= published@.take(
                    i as int,
                ).map_values(|m: Message| m@).push(published@[i as int]@));
                published@.take(i as int).map_values(|m: Message| m@).lemma_filter_push(
                    published@[i as int]@,
                    |mm: MessageModel| mm.topic == self.filter@,
                );
            }
            if self.accepts(&published[i].topic) {
                let copied = Message {
                    topic: copy_bytes(&published[i].topic),
                    payload: copy_bytes(&published[i].payload),
                };
                proof {
                    assert(copied@ == published@[i as int]@);
                }
                let ghost prev = out@;
                out.push(copied);
                proof {
                    assert(out@.map_values(|m: Message| m@) =~= prev.map_values(
                        |m: Message| m@,
                    ).push(published@[i as int]@));
                }
            }
        }
        proof {
            assert(published@.take(n as int) =~= published@);
        }
        out
    }
}

} // verus!
