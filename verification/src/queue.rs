//! Messages as queues deliver them.
use crate::outside::base64_decode;
use vstd::prelude::*;

verus! {

/// One message of a batch, its body in base64.
#[derive(Debug)]
pub struct ReceivedMessage {
    pub ack_token: String,
    pub body_b64: String,
}

/// One message of a batch over mathematical values.
pub struct ReceivedView {
    pub ack_token: Seq<char>,
    pub body_b64: Seq<char>,
}

impl View for ReceivedMessage {
    type V = ReceivedView;

    open spec fn view(&self) -> ReceivedView {
        ReceivedView { ack_token: self.ack_token@, body_b64: self.body_b64@ }
    }
}

/// What a queue answers to a receive request.
#[derive(Debug)]
pub struct ReceiveResponse {
    pub count: u32,
    pub messages: Vec<ReceivedMessage>,
}

/// A message with the bytes of its body.
#[derive(Debug)]
pub struct Delivery {
    pub ack_token: String,
    pub body: Vec<u8>,
}

/// A message with the bytes of its body, over mathematical values.
pub struct DeliveryView {
    pub ack_token: Seq<char>,
    pub body: Seq<u8>,
}

impl View for Delivery {
    type V = DeliveryView;

    open spec fn view(&self) -> DeliveryView {
        DeliveryView { ack_token: self.ack_token@, body: self.body@ }
    }
}

/// The messages of an answer: none where it counts none.
pub open spec fn counted_messages(answer: ReceiveResponse) -> Seq<ReceivedMessage> {
    if answer.count == 0 {
        Seq::empty()
    } else {
        answer.messages@
    }
}

/// The messages of an answer: none where it counts none.
pub fn receive_messages(answer: ReceiveResponse) -> (r: Vec<ReceivedMessage>)
    ensures
        r@ == counted_messages(answer),
{
    if answer.count == 0 {
        Vec::new()
    } else {
        answer.messages
    }
}

/// The bytes of a message body, where it could be decoded.
pub open spec fn decoded_body(decoded: Option<Seq<u8>>) -> Result<Seq<u8>, Seq<char>> {
    match decoded {
        Some(bytes) => Ok(bytes),
        None => Err("body_b64 decode"@),
    }
}

/// A body or an error over mathematical values.
pub open spec fn body_view(r: Result<Vec<u8>, String>) -> Result<Seq<u8>, Seq<char>> {
    match r {
        Ok(bytes) => Ok(bytes@),
        Err(e) => Err(e@),
    }
}

/// The bytes of a message body, where it could be decoded.
pub fn body_from(decoded: Option<Vec<u8>>) -> (r: Result<Vec<u8>, String>)
    ensures
        body_view(r) == decoded_body(
            match decoded {
                Some(bytes) => Some(bytes@),
                None => None,
            },
        ),
{
    match decoded {
        Some(bytes) => Ok(bytes),
        None => Err("body_b64 decode".to_string()),
    }
}

/// The bytes of a message body.
pub fn message_body(msg: &ReceivedMessage) -> (r: Result<Vec<u8>, String>)
    ensures
        body_view(r) == decoded_body(crate::outside::base64_bytes(msg@.body_b64)),
{
    body_from(base64_decode(msg.body_b64.as_str()))
}

/// An optional delivery or an error over mathematical values.
pub open spec fn delivery_view(r: Result<Option<Delivery>, String>) -> Result<
    Option<DeliveryView>,
    Seq<char>,
> {
    match r {
        Ok(Some(d)) => Ok(Some(d@)),
        Ok(None) => Ok(None),
        Err(e) => Err(e@),
    }
}

/// A message with its body as it was decoded.
pub open spec fn opened(ack_token: Seq<char>, decoded: Option<Seq<u8>>) -> Result<
    Option<DeliveryView>,
    Seq<char>,
> {
    match decoded_body(decoded) {
        Ok(body) => Ok(Some(DeliveryView { ack_token, body })),
        Err(e) => Err(e),
    }
}

/// A message with its body as it was decoded.
pub fn open_message(ack_token: String, decoded: Option<Vec<u8>>) -> (r: Result<
    Option<Delivery>,
    String,
>)
    ensures
        delivery_view(r) == opened(
            ack_token@,
            match decoded {
                Some(bytes) => Some(bytes@),
                None => None,
            },
        ),
{
    match body_from(decoded) {
        Ok(body) => Ok(Some(Delivery { ack_token, body })),
        Err(e) => Err(e),
    }
}

/// The first message of an answer with its decoded body; none where the answer counts none.
pub open spec fn first_delivery(answer: ReceiveResponse) -> Result<Option<DeliveryView>, Seq<char>> {
    let messages = counted_messages(answer);
    if messages.len() == 0 {
        Ok(None)
    } else {
        opened(messages[0]@.ack_token, crate::outside::base64_bytes(messages[0]@.body_b64))
    }
}

/// The first message of an answer with its decoded body; none where the answer counts none.
pub fn take_first(answer: ReceiveResponse) -> (r: Result<Option<Delivery>, String>)
    ensures
        delivery_view(r) == first_delivery(answer),
{
    let mut messages = receive_messages(answer);
    if messages.len() == 0 {
        return Ok(None);
    }
    let first = messages.remove(0);
    let decoded = base64_decode(first.body_b64.as_str());
    open_message(first.ack_token, decoded)
}

} // verus!
