//! What an event carries, and the envelope that replies arrive in.

use vstd::prelude::*;
use vstd::string::StringExecFns;
use crate::error::{ClientFault, FoundryClientError};
use crate::json::{lemma_array_view, Json, JsonValue};

verus! {

/// The data of one event or acknowledgement.
#[derive(Debug, PartialEq, Eq)]
pub enum Payload {
    Binary(Vec<u8>),
    /// JSON documents, one per argument of the event.
    Text(Vec<Json>),
    /// One bare string.
    String(String),
}

/// The mathematical value of a [`Payload`].
pub enum PayloadValue {
    Binary(Seq<u8>),
    Text(Seq<JsonValue>),
    String(Seq<char>),
}

impl View for Payload {
    type V = PayloadValue;

    open spec fn view(&self) -> PayloadValue {
        match self {
            Payload::Binary(bytes) => PayloadValue::Binary(bytes@),
            Payload::Text(items) => PayloadValue::Text(items.deep_view()),
            Payload::String(text) => PayloadValue::String(text@),
        }
    }
}

impl DeepView for Payload {
    type V = PayloadValue;

    open spec fn deep_view(&self) -> PayloadValue {
        self@
    }
}

/// A fault in a reply's shape: where it departs, and what was found there.
pub open spec fn shape_fault(path: Seq<char>, found: Seq<char>) -> ClientFault {
    ClientFault::MalformedData { path: path, value: found }
}

/// The document inside a reply's envelope.
///
/// A reply is a JSON payload whose first item is an array; the document is
/// that array's first element. Anything else is a fault of the reply's shape.
pub open spec fn enveloped(reply: PayloadValue) -> Result<JsonValue, ClientFault> {
    match reply {
        PayloadValue::Binary(_) => Err(shape_fault("reply"@, "binary"@)),
        PayloadValue::String(_) => Err(shape_fault("reply"@, "string"@)),
        PayloadValue::Text(items) => if items.len() == 0 {
            Err(shape_fault("reply[0]"@, "nothing"@))
        } else {
            match items[0] {
                JsonValue::Array(inner) => if inner.len() == 0 {
                    Err(shape_fault("reply[0][0]"@, "nothing"@))
                } else {
                    Ok(inner[0])
                },
                other => Err(shape_fault("reply[0]"@, other.kind())),
            }
        },
    }
}

/// The document that the reply to a call of `event` carries.
///
/// No reply within the timeout is a `TimeoutError` that names the event; a
/// reply without the envelope is `MalformedData`.
pub open spec fn reply_document(reply: Option<PayloadValue>, event: Seq<char>) -> Result<
    JsonValue,
    ClientFault,
> {
    match reply {
        None => Err(ClientFault::TimeoutError(event)),
        Some(payload) => enveloped(payload),
    }
}

/// Builds the fault of a reply's shape.
pub fn malformed(path: &str, found: &str) -> (fault: FoundryClientError)
    ensures
        fault@ == shape_fault(path@, found@),
{
    FoundryClientError::MalformedData {
        path: String::from_str(path),
        value: String::from_str(found),
    }
}

impl Payload {
    /// An empty JSON payload: what a request without arguments carries.
    pub fn empty() -> (payload: Payload)
        ensures
            payload@ == PayloadValue::Text(Seq::empty()),
    {
        let payload = Payload::Text(Vec::new());
        assert(payload@->Text_0 =~= Seq::empty());
        payload
    }

    /// The first JSON item of the payload; `None` where the payload is not
    /// JSON or holds no item.
    pub fn first_item(&self) -> (item: Option<&Json>)
        ensures
            match item {
                Some(item) => self@ is Text && self@->Text_0.len() > 0 && self@->Text_0[0]
                    == item@,
                None => !(self@ is Text) || self@->Text_0.len() == 0,
            },
    {
        match self {
            Payload::Text(items) => if items.len() == 0 {
                None
            } else {
                Some(&items[0])
            },
            _ => None,
        }
    }

    /// The document inside this reply's envelope.
    pub fn open_envelope(&self) -> (document: Result<&Json, FoundryClientError>)
        ensures
            match document {
                Ok(document) => enveloped(self@) == Ok::<JsonValue, ClientFault>(document@),
                Err(fault) => enveloped(self@) == Err::<JsonValue, ClientFault>(fault@),
            },
    {
        match self {
            Payload::Binary(_) => Err(malformed("reply", "binary")),
            Payload::String(_) => Err(malformed("reply", "string")),
            Payload::Text(items) => {
                if items.len() == 0 {
                    return Err(malformed("reply[0]", "nothing"));
                }
                match &items[0] {
                    Json::Array(inner) => {
                        proof {
                            lemma_array_view(*inner);
                        }
                        if inner.len() == 0 {
                            Err(malformed("reply[0][0]", "nothing"))
                        } else {
                            Ok(&inner[0])
                        }
                    },
                    other => Err(malformed("reply[0]", other.kind())),
                }
            },
        }
    }
}

/// The document that the reply to a call of `event` carries.
pub fn document_of<'a>(reply: &'a Option<Payload>, event: &str) -> (document: Result<
    &'a Json,
    FoundryClientError,
>)
    ensures
        match document {
            Ok(document) => reply_document(reply.deep_view(), event@) == Ok::<
                JsonValue,
                ClientFault,
            >(document@),
            Err(fault) => reply_document(reply.deep_view(), event@) == Err::<
                JsonValue,
                ClientFault,
            >(fault@),
        },
{
    match reply {
        None => Err(FoundryClientError::TimeoutError(String::from_str(event))),
        Some(payload) => payload.open_envelope(),
    }
}

} // verus!
