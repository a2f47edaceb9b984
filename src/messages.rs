//! The messaging platform's JSON: decoding inbound updates and encoding the
//! outbound send-message envelope.
use vstd::prelude::*;
use vstd::utf8::encode_utf8;
use crate::text::utf8_bytes;
use telegram_bot_raw::{ChatId, MessageKind, SendMessage, Update, UpdateKind};

verus! {

/// What the bot reads of an inbound update.
pub enum Incoming {
    /// A text message `text` in the chat `chat`.
    TextMessage { chat: i64, text: String },
    /// Any other kind of update.
    Other,
}

impl View for Incoming {
    type V = Option<(i64, Seq<char>)>;

    open spec fn view(&self) -> Option<(i64, Seq<char>)> {
        match self {
            Incoming::TextMessage { chat, text } => Some((*chat, text@)),
            Incoming::Other => None,
        }
    }
}

/// A decoded update, or the decoder's error text.
pub type DecodedModel = Result<Option<(i64, Seq<char>)>, Seq<char>>;

/// The model of a decoding result.
pub open spec fn decoded_view(r: Result<Incoming, String>) -> DecodedModel {
    match r {
        Ok(i) => Ok(i@),
        Err(e) => Err(e@),
    }
}

/// What decoding the bytes `body` as an update gives: the chat and text of a
/// text message, `None` for another update, or the error text.
pub uninterp spec fn decoded_update(body: Seq<u8>) -> DecodedModel;

/// Relies on `serde_json::from_slice` into `telegram_bot_raw::Update`, and on
/// `Display` of `serde_json::Error`: the outcome depends on the bytes alone.
/// The update's variants are told apart and their fields moved out.
#[verifier::external_body]
pub(crate) fn decode_update(body: &[u8]) -> (r: Result<Incoming, String>)
    ensures
        decoded_view(r) == decoded_update(body@),
{
    match serde_json::from_slice::<Update>(body) {
        Err(e) => Err(e.to_string()),
        Ok(u) => Ok(match u.kind {
            UpdateKind::Message(m) => match m.kind {
                MessageKind::Text { data, .. } => Incoming::TextMessage { chat: m.chat.id().into(), text: data },
                _ => Incoming::Other,
            },
            _ => Incoming::Other,
        }),
    }
}

/// The JSON bytes of a send-message request of `text` to chat `chat`, or the
/// encoder's error text.
pub uninterp spec fn send_message_json(chat: i64, text: Seq<char>) -> Result<Seq<u8>, Seq<char>>;

/// The model of an encoding result.
pub open spec fn encoded_view(r: Result<Vec<u8>, String>) -> Result<Seq<u8>, Seq<char>> {
    match r {
        Ok(b) => Ok(b@),
        Err(e) => Err(e@),
    }
}

/// Relies on `telegram_bot_raw::SendMessage::new` and `serde_json::to_vec`: the
/// request's JSON depends on the chat and the text alone.
#[verifier::external_body]
pub(crate) fn encode_send_message(chat: i64, text: &str) -> (r: Result<Vec<u8>, String>)
    ensures
        encoded_view(r) == send_message_json(chat, text@),
{
    serde_json::to_vec(&SendMessage::new(ChatId::new(chat), text)).map_err(|e| e.to_string())
}

/// The member naming the platform method that sends a message.
pub const METHOD_MEMBER: &'static str = "\"method\":\"sendMessage\"";

/// `json` with the method member first in it, where `json` is an object;
/// other bytes stay as they are.
pub open spec fn with_method(json: Seq<u8>) -> Seq<u8> {
    if json.len() >= 2 && json[0] == 0x7bu8 {
        let rest = json.subrange(1, json.len() as int);
        if json[1] == 0x7du8 {
            seq![0x7bu8] + encode_utf8(METHOD_MEMBER@) + rest
        } else {
            seq![0x7bu8] + encode_utf8(METHOD_MEMBER@) + seq![0x2cu8] + rest
        }
    } else {
        json
    }
}

/// Adds the method member to the JSON object `json`.
pub fn add_method(json: Vec<u8>) -> (r: Vec<u8>)
    ensures
        r@ == with_method(json@),
{
    if json.len() < 2 || json[0] != 0x7bu8 {
        return json;
    }
    let mut out: Vec<u8> = vec![0x7bu8];
    let mut member = utf8_bytes(METHOD_MEMBER);
    out.append(&mut member);
    if json[1] != 0x7du8 {
        out.push(0x2cu8);
    }
    let ghost head = out@;
    let mut i: usize = 1;
    while i < json.len()
        invariant
            1 <= i <= json@.len(),
            out@ == head + json@.subrange(1, i as int),
        decreases json@.len() - i,
    {
        out.push(json[i]);
        i = i + 1;
        assert(out@ =~= head + json@.subrange(1, i as int));
    }
    assert(json@.subrange(1, json@.len() as int) == json@.subrange(1, i as int));
    out
}

} // verus!
