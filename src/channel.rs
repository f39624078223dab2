use crate::json::{Json, text_field, is_empty_object, is_number_object};
use crate::text::{decimal, decimal_value, lemma_decimal_injective, lemma_decimal_value, same_text, to_decimal};
use vstd::prelude::*;

verus! {

/// Failure to read an envelope.
#[derive(Debug, Clone, PartialEq, Eq)]
pub enum ChannelError {
    /// The text is not JSON; the parser's message.
    Json(String),
    /// The value is not a five-element envelope of the expected kinds.
    InvalidFormat,
}

/// A channel envelope: `[join_ref, msg_ref, topic, event, payload]`.
#[derive(Debug, PartialEq, Eq)]
pub struct Message {
    pub join_ref: Option<String>,
    pub msg_ref: Option<String>,
    pub topic: String,
    pub event: String,
    pub payload: Json,
}

/// A string-or-null element: `Some(None)` for null, nothing for other kinds.
pub open spec fn optional_text(v: Json) -> Option<Option<String>> {
    match v {
        Json::Null => Some(None),
        Json::Str(s) => Some(Some(s)),
        _ => None,
    }
}

/// A string element.
pub open spec fn required_text(v: Json) -> Option<String> {
    match v {
        Json::Str(s) => Some(s),
        _ => None,
    }
}

/// The element that an optional reference is written as.
pub open spec fn text_or_null(o: Option<String>) -> Json {
    match o {
        Some(s) => Json::Str(s),
        None => Json::Null,
    }
}

/// What reading `v` as an envelope gives.
pub open spec fn envelope_parse(v: Json) -> Result<Message, ChannelError> {
    match v {
        Json::Array(items) => {
            if items@.len() == 5 && optional_text(items@[0]) is Some && optional_text(items@[1]) is Some
                && required_text(items@[2]) is Some && required_text(items@[3]) is Some {
                Ok(
                    Message {
                        join_ref: optional_text(items@[0])->Some_0,
                        msg_ref: optional_text(items@[1])->Some_0,
                        topic: required_text(items@[2])->Some_0,
                        event: required_text(items@[3])->Some_0,
                        payload: items@[4],
                    },
                )
            } else {
                Err(ChannelError::InvalidFormat)
            }
        },
        _ => Err(ChannelError::InvalidFormat),
    }
}

/// `v` is the five-element array that writes `m`.
pub open spec fn is_envelope_of(v: Json, m: Message) -> bool {
    &&& v matches Json::Array(items)
    &&& items@.len() == 5
    &&& items@[0] == text_or_null(m.join_ref)
    &&& items@[1] == text_or_null(m.msg_ref)
    &&& items@[2] == Json::Str(m.topic)
    &&& items@[3] == Json::Str(m.event)
    &&& items@[4] == m.payload
}

/// Reading back a written envelope gives the same five fields, nulls included.
pub proof fn lemma_envelope_round_trip(m: Message, v: Json)
    requires
        is_envelope_of(v, m),
    ensures
        envelope_parse(v) == Ok::<Message, ChannelError>(m),
{
    if let Json::Array(items) = v {
        assert(optional_text(items@[0]) == Some(m.join_ref));
        assert(optional_text(items@[1]) == Some(m.msg_ref));
    }
}

/// Every value that reads as an envelope is the one that writes it.
pub proof fn lemma_envelope_parse_exact(v: Json)
    requires
        envelope_parse(v) is Ok,
    ensures
        is_envelope_of(v, envelope_parse(v)->Ok_0),
{
    if let Json::Array(items) = v {
        assert(text_or_null(optional_text(items@[0])->Some_0) == items@[0]);
        assert(text_or_null(optional_text(items@[1])->Some_0) == items@[1]);
    }
}

/// The event of a reply.
pub open spec fn reply_event() -> Seq<char> {
    "phx_reply"@
}

/// `status` of a reply's payload; nothing for other envelopes.
pub open spec fn reply_status_of(m: Message) -> Option<Seq<char>> {
    if m.event@ == reply_event() {
        text_field(m.payload, "status"@)
    } else {
        None
    }
}

fn take_optional_text(v: Json) -> (r: Option<Option<String>>)
    ensures
        r == optional_text(v),
{
    match v {
        Json::Null => Some(None),
        Json::Str(s) => Some(Some(s)),
        _ => None,
    }
}

fn take_text(v: Json) -> (r: Option<String>)
    ensures
        r == required_text(v),
{
    match v {
        Json::Str(s) => Some(s),
        _ => None,
    }
}

fn write_optional(o: Option<String>) -> (r: Json)
    ensures
        r == text_or_null(o),
{
    match o {
        Some(s) => Json::Str(s),
        None => Json::Null,
    }
}

impl Message {
    /// Reads an envelope from a decoded JSON value.
    pub fn from_value(v: Json) -> (r: Result<Message, ChannelError>)
        ensures
            r == envelope_parse(v),
    {
        match v {
            Json::Array(mut items) => {
                if items.len() != 5 {
                    return Err(ChannelError::InvalidFormat);
                }
                let payload = items.pop().unwrap();
                let event = take_text(items.pop().unwrap());
                let topic = take_text(items.pop().unwrap());
                let msg_ref = take_optional_text(items.pop().unwrap());
                let join_ref = take_optional_text(items.pop().unwrap());
                match (join_ref, msg_ref, topic, event) {
                    (Some(join_ref), Some(msg_ref), Some(topic), Some(event)) => {
                        Ok(Message { join_ref, msg_ref, topic, event, payload })
                    },
                    _ => Err(ChannelError::InvalidFormat),
                }
            },
            _ => Err(ChannelError::InvalidFormat),
        }
    }

    /// Writes the envelope as a five-element array, absent references as null.
    pub fn to_value(self) -> (r: Json)
        ensures
            is_envelope_of(r, self),
    {
        let mut items: Vec<Json> = Vec::new();
        items.push(write_optional(self.join_ref));
        items.push(write_optional(self.msg_ref));
        items.push(Json::Str(self.topic));
        items.push(Json::Str(self.event));
        items.push(self.payload);
        Json::Array(items)
    }

    /// Whether the envelope is a reply.
    pub fn is_reply(&self) -> (r: bool)
        ensures
            r == (self.event@ == reply_event()),
    {
        same_text(self.event.as_str(), "phx_reply")
    }

    /// The status of a reply.
    pub fn reply_status(&self) -> (r: Option<&String>)
        ensures
            r matches Some(s) ==> reply_status_of(*self) == Some(s@),
            r is None ==> reply_status_of(*self) is None,
    {
        if self.is_reply() {
            match self.payload.get("status") {
                Some(s) => s.as_str(),
                None => None,
            }
        } else {
            None
        }
    }

    /// Whether the envelope is a reply with status `ok`.
    pub fn reply_ok(&self) -> (r: bool)
        ensures
            r == (reply_status_of(*self) == Some("ok"@)),
    {
        match self.reply_status() {
            Some(s) => same_text(s.as_str(), "ok"),
            None => false,
        }
    }
}

/// Issues references: decimal text of a counter that starts at 1.
#[derive(Debug, Clone, PartialEq, Eq)]
pub struct RefCounter {
    pub next: u64,
}

impl RefCounter {
    pub fn new() -> (r: Self)
        ensures
            r.next == 1,
    {
        RefCounter { next: 1 }
    }

    /// The current count in decimal; the count then advances by one.
    pub fn next(&mut self) -> (r: String)
        requires
            old(self).next < u64::MAX,
        ensures
            r@ == decimal(old(self).next as nat),
            final(self).next == old(self).next + 1,
    {
        let r = to_decimal(self.next);
        self.next = self.next + 1;
        r
    }
}

/// Builds the envelopes of one channel session.
#[derive(Debug, Clone, PartialEq, Eq)]
pub struct ChannelBuilder {
    pub topic: String,
    pub join_ref: String,
    pub refs: RefCounter,
}

/// The reference of the join: the first that a session issues.
pub open spec fn first_ref() -> Seq<char> {
    decimal(1)
}

/// Progress envelopes carry this fixed reference.
pub open spec fn progress_ref() -> Seq<char> {
    "0"@
}

/// References issued from the counter strictly increase as numbers, never
/// repeat, and none is the progress reference: an earlier count `a` and a later
/// count `b` read back as `a < b`, their texts differ, and no count from 1 on is
/// written `0`.
pub proof fn lemma_refs_distinct(a: nat, b: nat)
    requires
        1 <= a < b,
    ensures
        decimal_value(decimal(a)) == a,
        decimal_value(decimal(b)) == b,
        decimal_value(decimal(a)) < decimal_value(decimal(b)),
        decimal(a) != decimal(b),
        decimal(a) != progress_ref(),
        decimal(b) != progress_ref(),
{
    lemma_decimal_value(a);
    lemma_decimal_value(b);
    reveal_strlit("0");
    assert(decimal(0) =~= progress_ref());
    if decimal(a) == decimal(b) {
        lemma_decimal_injective(a, b);
    }
    if decimal(a) == progress_ref() {
        lemma_decimal_injective(a, 0);
    }
    if decimal(b) == progress_ref() {
        lemma_decimal_injective(b, 0);
    }
}

impl ChannelBuilder {
    /// A fresh session on `topic`; its first reference becomes the join reference.
    pub fn new(topic: String) -> (r: Self)
        ensures
            r.topic == topic,
            r.join_ref@ == first_ref(),
            r.refs.next == 2,
    {
        let mut refs = RefCounter::new();
        let join_ref = refs.next();
        ChannelBuilder { topic, join_ref, refs }
    }

    /// The join envelope: the join reference as both references.
    pub fn join(&self, payload: Json) -> (r: Message)
        ensures
            r.join_ref matches Some(j) && j@ == self.join_ref@,
            r.msg_ref matches Some(m) && m@ == self.join_ref@,
            r.topic@ == self.topic@,
            r.event@ == "phx_join"@,
            r.payload == payload,
    {
        Message {
            join_ref: Some(self.join_ref.clone()),
            msg_ref: Some(self.join_ref.clone()),
            topic: self.topic.clone(),
            event: "phx_join".to_owned(),
            payload,
        }
    }

    /// A heartbeat on the `phoenix` topic with a fresh reference.
    pub fn heartbeat(&mut self) -> (r: Message)
        requires
            old(self).refs.next < u64::MAX,
        ensures
            r.join_ref is None,
            r.msg_ref matches Some(m) && m@ == decimal(old(self).refs.next as nat),
            r.topic@ == "phoenix"@,
            r.event@ == "heartbeat"@,
            is_empty_object(r.payload),
            final(self).refs.next == old(self).refs.next + 1,
            final(self).topic == old(self).topic,
            final(self).join_ref == old(self).join_ref,
    {
        let msg_ref = self.refs.next();
        Message {
            join_ref: None,
            msg_ref: Some(msg_ref),
            topic: "phoenix".to_owned(),
            event: "heartbeat".to_owned(),
            payload: Json::empty_object(),
        }
    }

    /// A push on the channel's topic with a fresh reference.
    pub fn push(&mut self, event: &str, payload: Json) -> (r: Message)
        requires
            old(self).refs.next < u64::MAX,
        ensures
            r.join_ref matches Some(j) && j@ == old(self).join_ref@,
            r.msg_ref matches Some(m) && m@ == decimal(old(self).refs.next as nat),
            r.topic@ == old(self).topic@,
            r.event@ == event@,
            r.payload == payload,
            final(self).refs.next == old(self).refs.next + 1,
            final(self).topic == old(self).topic,
            final(self).join_ref == old(self).join_ref,
    {
        let msg_ref = self.refs.next();
        Message {
            join_ref: Some(self.join_ref.clone()),
            msg_ref: Some(msg_ref),
            topic: self.topic.clone(),
            event: event.to_owned(),
            payload,
        }
    }

    /// A progress report: `{"value": percent}` under the fixed reference `"0"`,
    /// which leaves the counter alone.
    pub fn progress(&self, percent: u8) -> (r: Message)
        ensures
            r.join_ref matches Some(j) && j@ == self.join_ref@,
            r.msg_ref matches Some(m) && m@ == progress_ref(),
            r.topic@ == self.topic@,
            r.event@ == "fwup_progress"@,
            is_number_object(r.payload, "value"@, percent as nat),
    {
        Message {
            join_ref: Some(self.join_ref.clone()),
            msg_ref: Some("0".to_owned()),
            topic: self.topic.clone(),
            event: "fwup_progress".to_owned(),
            payload: Json::number_object("value", percent as u64),
        }
    }
}

} // verus!
