//! The producer's side of the exchange: the record that carries an envelope
//! to its topic.

use crate::envelope::{decode_spec, encode, encode_spec, DecodeError, Envelope, EnvelopeView};
use vstd::prelude::*;

verus! {

/// The broker's `message.timeout.ms` for the producer.
pub const MESSAGE_TIMEOUT_MS: &'static str = "5000";

/// Seconds that a record may wait for room in the producer's queue.
pub const SEND_TIMEOUT_SECS: u64 = 0;

/// Seconds that the producer may take to flush before it is torn down.
pub const FLUSH_TIMEOUT_SECS: u64 = 1;

/// A record ready to be sent.
#[derive(Debug, PartialEq, Eq)]
pub struct Record {
    /// The topic that the record goes to.
    pub topic: String,
    /// The record's routing key. Routing is by topic; the key is the same for
    /// every record.
    pub key: String,
    /// The encoded envelope.
    pub value: Vec<u8>,
}

/// The mathematical value of a [`Record`].
pub struct RecordView {
    pub topic: Seq<char>,
    pub key: Seq<char>,
    pub value: Seq<u8>,
}

impl View for Record {
    type V = RecordView;

    open spec fn view(&self) -> RecordView {
        RecordView { topic: self.topic@, key: self.key@, value: self.value@ }
    }
}

/// The routing key of every record.
pub open spec fn routing_key() -> Seq<char> {
    "key"@
}

/// The record that carries `payload` under the envelope key `key_acc` to
/// `topic_name`.
pub open spec fn produce_spec(
    key_acc: Seq<char>,
    payload: Seq<char>,
    topic_name: Seq<char>,
) -> RecordView {
    RecordView {
        topic: topic_name,
        key: routing_key(),
        value: encode_spec(EnvelopeView { key: key_acc, payload }),
    }
}

/// Wraps `payload` in an envelope keyed `key_acc` and addresses it to
/// `topic_name`. Decoding the record's value gives that envelope back.
pub fn produce(key_acc: &str, payload: String, topic_name: &str) -> (record: Record)
    ensures
        record@ == produce_spec(key_acc@, payload@, topic_name@),
        decode_spec(record@.value) == Ok::<EnvelopeView, DecodeError>(
            EnvelopeView { key: key_acc@, payload: payload@ },
        ),
{
    let envelope = Envelope { key: key_acc.to_owned(), payload };
    Record { topic: topic_name.to_owned(), key: "key".to_owned(), value: encode(&envelope) }
}

} // verus!
