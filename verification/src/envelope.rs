//! The envelope: the `{key, payload}` frame in which every bus message travels.
//! `payload` is itself a JSON document, carried as a string.

use crate::json::{json_text, new_object, parsed_json, parsed_object, put, Json, JsonView};
use vstd::prelude::*;
use vstd::string::StrSliceExecFns;
use vstd::utf8::{decode_utf8, encode_utf8, valid_utf8};

verus! {

/// The outer frame of a bus message.
#[derive(Debug, PartialEq, Eq)]
pub struct Envelope {
    /// Routing discriminator.
    pub key: String,
    /// The inner document, as text.
    pub payload: String,
}

/// The mathematical value of an [`Envelope`].
pub struct EnvelopeView {
    pub key: Seq<char>,
    pub payload: Seq<char>,
}

impl View for Envelope {
    type V = EnvelopeView;

    open spec fn view(&self) -> EnvelopeView {
        EnvelopeView { key: self.key@, payload: self.payload@ }
    }
}

impl EnvelopeView {
    /// Whether the payload is a JSON document, as that of every well-formed
    /// envelope is.
    pub open spec fn well_formed(self) -> bool {
        parsed_json(self.payload) is Some
    }
}

impl Envelope {
    /// The inner document, read from the payload; `None` where the payload is
    /// not JSON.
    pub fn inner(&self) -> (document: Option<Json>)
        ensures
            document is Some <==> self@.well_formed(),
            document matches Some(json) ==> parsed_json(self@.payload) == Some(json@),
    {
        Json::parse(self.payload.as_str())
    }
}

/// Why a message value is no envelope.
#[derive(Debug, Clone, Copy, PartialEq, Eq, Structural)]
pub enum DecodeError {
    /// The bytes are not UTF-8.
    NotUtf8,
    /// The text is not JSON.
    NotJson,
    /// The document is no object with string members `key` and `payload`.
    MissingField,
}

/// Name of the member that holds the routing key.
pub open spec fn key_name() -> Seq<char> {
    "key"@
}

/// Name of the member that holds the inner document.
pub open spec fn payload_name() -> Seq<char> {
    "payload"@
}

/// The envelope that a document frames, if it frames one.
pub open spec fn envelope_of(json: JsonView) -> Result<EnvelopeView, DecodeError> {
    match (json.member(key_name()), json.member(payload_name())) {
        (Some(JsonView::Text(key)), Some(JsonView::Text(payload))) => Ok(
            EnvelopeView { key, payload },
        ),
        _ => Err(DecodeError::MissingField),
    }
}

/// The document that frames an envelope.
pub open spec fn frame_of(envelope: EnvelopeView) -> JsonView {
    JsonView::Object(
        map![
            key_name() => JsonView::Text(envelope.key),
            payload_name() => JsonView::Text(envelope.payload),
        ],
    )
}

/// What `decode` makes of a message value: the envelope that the object in
/// the text frames. A text that is no object lacks the fields if it is JSON
/// at all.
pub open spec fn decode_spec(bytes: Seq<u8>) -> Result<EnvelopeView, DecodeError> {
    if !valid_utf8(bytes) {
        Err(DecodeError::NotUtf8)
    } else {
        match parsed_object(decode_utf8(bytes)) {
            Some(members) => envelope_of(JsonView::Object(members)),
            None => if parsed_json(decode_utf8(bytes)) is Some {
                Err(DecodeError::MissingField)
            } else {
                Err(DecodeError::NotJson)
            },
        }
    }
}

/// The bytes that `encode` writes for an envelope.
pub open spec fn encode_spec(envelope: EnvelopeView) -> Seq<u8> {
    encode_utf8(json_text(frame_of(envelope)))
}

/// The names of the two members differ.
pub proof fn lemma_names_differ()
    ensures
        key_name() != payload_name(),
{
    reveal_strlit("key");
    reveal_strlit("payload");
    assert(key_name().len() == 3);
    assert(payload_name().len() == 7);
}

/// A frame holds exactly the envelope it was made of.
pub proof fn lemma_frame_holds_envelope(envelope: EnvelopeView)
    ensures
        frame_of(envelope).is_text_record(),
        envelope_of(frame_of(envelope)) == Ok::<EnvelopeView, DecodeError>(envelope),
{
    lemma_names_differ();
}

/// `std::str::from_utf8`: the text is there exactly when the bytes are valid
/// UTF-8, and it is then the text that they encode.
#[verifier::external_body]
fn text_of_bytes(bytes: &[u8]) -> (text: Option<&str>)
    ensures
        match text {
            Some(chars) => valid_utf8(bytes@) && chars@ == decode_utf8(bytes@),
            None => !valid_utf8(bytes@),
        },
{
    std::str::from_utf8(bytes).ok()
}

/// Reads the envelope that a parsed document frames.
pub fn envelope_of_json(json: &Json) -> (envelope: Result<Envelope, DecodeError>)
    ensures
        match envelope {
            Ok(e) => envelope_of(json@) == Ok::<EnvelopeView, DecodeError>(e@),
            Err(error) => envelope_of(json@) == Err::<EnvelopeView, DecodeError>(error),
        },
{
    match (json.get("key"), json.get("payload")) {
        (Some(Json::Text(key)), Some(Json::Text(payload))) => Ok(Envelope { key, payload }),
        _ => Err(DecodeError::MissingField),
    }
}

/// Decodes a message value into its envelope.
pub fn decode(bytes: &[u8]) -> (envelope: Result<Envelope, DecodeError>)
    ensures
        match envelope {
            Ok(e) => decode_spec(bytes@) == Ok::<EnvelopeView, DecodeError>(e@),
            Err(error) => decode_spec(bytes@) == Err::<EnvelopeView, DecodeError>(error),
        },
{
    match text_of_bytes(bytes) {
        None => Err(DecodeError::NotUtf8),
        Some(text) => match Json::read_object(text) {
            Some(frame) => envelope_of_json(&frame),
            None => match Json::parse(text) {
                Some(_) => Err(DecodeError::MissingField),
                None => Err(DecodeError::NotJson),
            },
        },
    }
}

/// Encodes an envelope as a message value. Decoding the value gives the
/// envelope back.
pub fn encode(envelope: &Envelope) -> (bytes: Vec<u8>)
    ensures
        bytes@ == encode_spec(envelope@),
        decode_spec(bytes@) == Ok::<EnvelopeView, DecodeError>(envelope@),
{
    let mut object = new_object();
    put(&mut object, "key".to_owned(), &Json::Text(envelope.key.clone()));
    put(&mut object, "payload".to_owned(), &Json::Text(envelope.payload.clone()));
    let frame = Json::Object(object);
    proof {
        lemma_frame_holds_envelope(envelope@);
        assert(frame@->Object_0 =~= frame_of(envelope@)->Object_0);
    }
    let text = frame.to_text();
    proof {
        vstd::utf8::encode_utf8_valid_utf8(text@);
        vstd::utf8::encode_utf8_decode_utf8(text@);
    }
    text.as_str().as_bytes_vec()
}

} // verus!
