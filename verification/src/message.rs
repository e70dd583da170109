//! The three kinds of RPC message and their encoding as MessagePack arrays.

use crate::datum::{clone_items, copies, is_copy, models_of, Datum, DatumModel, Integer};
use crate::error::RpcError;
use crate::wire::{decode_value, encode_value, wire_image, wire_parse, DecodeFailure, Decoded};
use vstd::prelude::*;

verus! {

/// A call that expects a response with the same ID.
#[derive(Debug, PartialEq)]
pub struct Request {
    pub id: i32,
    pub method: String,
    pub params: Vec<Datum>,
}

/// The outcome of a call: the value it returned, or the error it raised.
#[derive(Debug, PartialEq)]
pub struct Response {
    pub id: i32,
    pub result: Result<Datum, Datum>,
}

/// A call that expects no response.
#[derive(Debug, PartialEq)]
pub struct Notification {
    pub method: String,
    pub params: Vec<Datum>,
}

/// Any message that travels over a connection.
#[derive(Debug, PartialEq)]
pub enum Message {
    Request(Request),
    Response(Response),
    Notification(Notification),
}

/// What a `Message` denotes.
pub ghost enum MessageModel {
    Request { id: i32, method: Seq<char>, params: Seq<DatumModel> },
    Response { id: i32, result: Result<DatumModel, DatumModel> },
    Notification { method: Seq<char>, params: Seq<DatumModel> },
}

/// The model of a call's outcome.
pub open spec fn outcome_model(result: Result<Datum, Datum>) -> Result<DatumModel, DatumModel> {
    match result {
        Ok(v) => Ok(v@),
        Err(e) => Err(e@),
    }
}

impl View for Message {
    type V = MessageModel;

    open spec fn view(&self) -> MessageModel {
        match self {
            Message::Request(r) => MessageModel::Request {
                id: r.id,
                method: r.method@,
                params: models_of(r.params@),
            },
            Message::Response(r) => MessageModel::Response {
                id: r.id,
                result: outcome_model(r.result),
            },
            Message::Notification(n) => MessageModel::Notification {
                method: n.method@,
                params: models_of(n.params@),
            },
        }
    }
}

/// The tag that opens the array of each kind of message.
pub open spec fn tag_of(m: MessageModel) -> int {
    match m {
        MessageModel::Request { .. } => 0,
        MessageModel::Response { .. } => 1,
        MessageModel::Notification { .. } => 2,
    }
}

/// An ID as it stands on the wire: the same 32 bits, read as unsigned and
/// widened with the sign.
pub open spec fn id_on_wire(id: i32) -> int {
    (id as u64) as int
}

/// The ID that a number on the wire stands for: its low 32 bits.
pub open spec fn id_from_wire(n: u64) -> i32 {
    n as i32
}

/// The array that encodes a message.
pub open spec fn frame_of(m: MessageModel) -> DatumModel {
    match m {
        MessageModel::Request { id, method, params } => DatumModel::Array(
            seq![
                DatumModel::Integer(0),
                DatumModel::Integer(id_on_wire(id)),
                DatumModel::String(method),
                DatumModel::Array(params),
            ],
        ),
        MessageModel::Response { id, result } => DatumModel::Array(
            seq![
                DatumModel::Integer(1),
                DatumModel::Integer(id_on_wire(id)),
                match result {
                    Ok(_) => DatumModel::Nil,
                    Err(e) => e,
                },
                match result {
                    Ok(v) => v,
                    Err(_) => DatumModel::Nil,
                },
            ],
        ),
        MessageModel::Notification { method, params } => DatumModel::Array(
            seq![DatumModel::Integer(2), DatumModel::String(method), DatumModel::Array(params)],
        ),
    }
}

/// The number that a value holds, where it is an integer that is not negative.
pub open spec fn uint_of(v: DatumModel) -> Option<u64> {
    match v {
        DatumModel::Integer(n) => if 0 <= n <= u64::MAX {
            Some(n as u64)
        } else {
            None
        },
        _ => None,
    }
}

/// The message that an array of four elements encodes, if any.
pub open spec fn message_of_four(items: Seq<DatumModel>) -> Option<MessageModel>
    recommends
        items.len() == 4,
{
    if uint_of(items[0]) == Some(0u64) {
        if uint_of(items[1]) is Some && items[2] is String && items[3] is Array {
            Some(
                MessageModel::Request {
                    id: id_from_wire(uint_of(items[1])->0),
                    method: items[2]->String_0,
                    params: items[3]->Array_0,
                },
            )
        } else {
            None
        }
    } else if uint_of(items[0]) == Some(1u64) {
        if uint_of(items[1]) is Some {
            Some(
                MessageModel::Response {
                    id: id_from_wire(uint_of(items[1])->0),
                    result: if items[2] is Nil {
                        Ok(items[3])
                    } else {
                        Err(items[2])
                    },
                },
            )
        } else {
            None
        }
    } else {
        None
    }
}

/// The message that an array of three elements encodes, if any.
pub open spec fn message_of_three(items: Seq<DatumModel>) -> Option<MessageModel>
    recommends
        items.len() == 3,
{
    if uint_of(items[0]) == Some(2u64) && items[1] is String && items[2] is Array {
        Some(MessageModel::Notification { method: items[1]->String_0, params: items[2]->Array_0 })
    } else {
        None
    }
}

/// The message that a value encodes, or `None` where it is malformed: not an
/// array, an array whose length does not fit its tag, a tag other than 0, 1
/// or 2, or an element of the wrong type.
pub open spec fn message_of(v: DatumModel) -> Option<MessageModel> {
    match v {
        DatumModel::Array(items) => if items.len() == 4 {
            message_of_four(items)
        } else if items.len() == 3 {
            message_of_three(items)
        } else {
            None
        },
        _ => None,
    }
}

/// A message that encoding can represent: an error outcome is not nil, since
/// nil in the error slot of a response means success.
pub open spec fn representable(m: MessageModel) -> bool {
    match m {
        MessageModel::Response { result: Err(e), .. } => !(e is Nil),
        _ => true,
    }
}

/// An ID written to the wire and read back is the same ID, whatever its sign.
pub proof fn lemma_id_round_trip(id: i32)
    ensures
        0 <= id_on_wire(id) <= u64::MAX,
        id_from_wire(id_on_wire(id) as u64) == id,
{
    assert(((id as u64) as i32) == id) by (bit_vector);
}

/// Encoding a representable message and decoding the array gives the message
/// back.
pub proof fn lemma_frame_round_trip(m: MessageModel)
    requires
        representable(m),
    ensures
        message_of(frame_of(m)) == Some(m),
{
    match m {
        MessageModel::Request { id, method, params } => {
            lemma_id_round_trip(id);
        },
        MessageModel::Response { id, result } => {
            lemma_id_round_trip(id);
        },
        MessageModel::Notification { method, params } => {},
    }
}

/// A value that is not an array is no message.
pub proof fn lemma_rejects_what_is_no_array(v: DatumModel)
    requires
        !(v is Array),
    ensures
        message_of(v) is None,
{
}

/// An array is no message where its length is neither 3 nor 4, where its
/// first element is not 0, 1 or 2, where its length does not fit its tag
/// (4 for a request and a response, 3 for a notification), or where an
/// element has the wrong type: the ID an integer that is not negative, the
/// method a string, the parameters an array.
pub proof fn lemma_rejects_malformed_array(items: Seq<DatumModel>)
    ensures
        items.len() != 3 && items.len() != 4 ==> message_of(DatumModel::Array(items)) is None,
        items.len() >= 1 && uint_of(items[0]) != Some(0u64) && uint_of(items[0]) != Some(1u64)
            && uint_of(items[0]) != Some(2u64) ==> message_of(DatumModel::Array(items)) is None,
        items.len() == 3 && uint_of(items[0]) != Some(2u64) ==> message_of(
            DatumModel::Array(items),
        ) is None,
        items.len() == 4 && uint_of(items[0]) == Some(2u64) ==> message_of(
            DatumModel::Array(items),
        ) is None,
        items.len() == 4 && uint_of(items[1]) is None ==> message_of(DatumModel::Array(items))
            is None,
        items.len() == 4 && uint_of(items[0]) == Some(0u64) && !(items[2] is String) ==> message_of(
            DatumModel::Array(items),
        ) is None,
        items.len() == 4 && uint_of(items[0]) == Some(0u64) && !(items[3] is Array) ==> message_of(
            DatumModel::Array(items),
        ) is None,
        items.len() == 3 && !(items[1] is String) ==> message_of(DatumModel::Array(items)) is None,
        items.len() == 3 && !(items[2] is Array) ==> message_of(DatumModel::Array(items)) is None,
{
}

/// Whatever decodes as a message has one of the three layouts: decoding is
/// defined on them and on nothing else.
pub proof fn lemma_accepts_the_three_layouts(items: Seq<DatumModel>)
    ensures
        message_of(DatumModel::Array(items)) is Some <==> {
            ||| items.len() == 4 && uint_of(items[0]) == Some(0u64) && uint_of(items[1]) is Some
                && items[2] is String && items[3] is Array
            ||| items.len() == 4 && uint_of(items[0]) == Some(1u64) && uint_of(items[1]) is Some
            ||| items.len() == 3 && uint_of(items[0]) == Some(2u64) && items[1] is String
                && items[2] is Array
        },
{
}

/// A response whose error slot is nil decodes as a success with what the
/// result slot holds; any other error slot decodes as a failure with what the
/// error slot holds, whatever the result slot holds.
pub proof fn lemma_response_outcome(id: u64, error: DatumModel, result: DatumModel)
    ensures
        message_of(
            DatumModel::Array(
                seq![DatumModel::Integer(1), DatumModel::Integer(id as int), error, result],
            ),
        ) == Some(
            MessageModel::Response {
                id: id_from_wire(id),
                result: if error is Nil {
                    Ok(result)
                } else {
                    Err(error)
                },
            },
        ),
{
    let items = seq![DatumModel::Integer(1), DatumModel::Integer(id as int), error, result];
    assert(items.len() == 4);
    assert(items[0] == DatumModel::Integer(1));
    assert(items[1] == DatumModel::Integer(id as int));
    assert(items[2] == error);
    assert(items[3] == result);
}

/// Whether `b` is an exact copy of the outcome `a`.
pub open spec fn outcome_copy(a: Result<Datum, Datum>, b: Result<Datum, Datum>) -> bool {
    match a {
        Ok(v) => b is Ok && is_copy(v, b->Ok_0),
        Err(e) => b is Err && is_copy(e, b->Err_0),
    }
}

/// Whether `b` is an exact copy of the message `a`: the same kind, ID and
/// method, and an exact copy of each value.
pub open spec fn message_copy(a: Message, b: Message) -> bool {
    match a {
        Message::Request(q) => b is Request && b->Request_0.id == q.id && b->Request_0.method
            == q.method && copies(q.params@, b->Request_0.params@),
        Message::Response(p) => b is Response && b->Response_0.id == p.id && outcome_copy(
            p.result,
            b->Response_0.result,
        ),
        Message::Notification(n) => b is Notification && b->Notification_0.method == n.method
            && copies(n.params@, b->Notification_0.params@),
    }
}

/// Whether the array `v` is built from the message `m` itself: the tag and
/// the ID as unsigned integers, the method as it is, and an exact copy of
/// each value in its slot, with nil in the slot that a response leaves empty.
pub open spec fn built_from(m: Message, v: Datum) -> bool {
    &&& v is Array
    &&& match m {
        Message::Request(q) => {
            &&& v->Array_0@.len() == 4
            &&& v->Array_0@[0] == Datum::Integer(Integer::U64(0))
            &&& v->Array_0@[1] == Datum::Integer(Integer::U64(q.id as u64))
            &&& v->Array_0@[2] == Datum::String(q.method)
            &&& v->Array_0@[3] is Array
            &&& copies(q.params@, v->Array_0@[3]->Array_0@)
        },
        Message::Response(p) => {
            &&& v->Array_0@.len() == 4
            &&& v->Array_0@[0] == Datum::Integer(Integer::U64(1))
            &&& v->Array_0@[1] == Datum::Integer(Integer::U64(p.id as u64))
            &&& match p.result {
                Ok(x) => v->Array_0@[2] == Datum::Nil && is_copy(x, v->Array_0@[3]),
                Err(e) => is_copy(e, v->Array_0@[2]) && v->Array_0@[3] == Datum::Nil,
            }
        },
        Message::Notification(n) => {
            &&& v->Array_0@.len() == 3
            &&& v->Array_0@[0] == Datum::Integer(Integer::U64(2))
            &&& v->Array_0@[1] == Datum::String(n.method)
            &&& v->Array_0@[2] is Array
            &&& copies(n.params@, v->Array_0@[2]->Array_0@)
        },
    }
}

/// Whether the message `m` holds the values of the array `v` themselves, each
/// as it stands in its slot: the method, the parameters, and for a response
/// the result slot where the error slot is nil, else the error slot.
pub open spec fn taken_from(v: Datum, m: Message) -> bool {
    &&& v is Array
    &&& match m {
        Message::Request(q) => {
            &&& v->Array_0@.len() == 4
            &&& v->Array_0@[2] == Datum::String(q.method)
            &&& v->Array_0@[3] == Datum::Array(q.params)
        },
        Message::Response(p) => {
            &&& v->Array_0@.len() == 4
            &&& p.result == if v->Array_0@[2] is Nil {
                Ok::<Datum, Datum>(v->Array_0@[3])
            } else {
                Err::<Datum, Datum>(v->Array_0@[2])
            }
        },
        Message::Notification(n) => {
            &&& v->Array_0@.len() == 3
            &&& v->Array_0@[1] == Datum::String(n.method)
            &&& v->Array_0@[2] == Datum::Array(n.params)
        },
    }
}

/// A representable message that is encoded as an array and decoded from it
/// comes back as an exact copy: no value changes on the way, down to the
/// variant that carries each integer.
pub proof fn lemma_exact_round_trip(m: Message, v: Datum, back: Message)
    requires
        representable(m@),
        built_from(m, v),
        v@ == frame_of(m@),
        message_of(v@) == Some(back@),
        taken_from(v, back),
    ensures
        message_copy(m, back),
{
    lemma_frame_round_trip(m@);
}

impl Clone for Request {
    fn clone(&self) -> (r: Self)
        ensures
            r.id == self.id,
            r.method == self.method,
            copies(self.params@, r.params@),
            Message::Request(r)@ == Message::Request(*self)@,
    {
        Request { id: self.id, method: self.method.clone(), params: clone_items(&self.params) }
    }
}

impl Clone for Response {
    fn clone(&self) -> (r: Self)
        ensures
            r.id == self.id,
            outcome_copy(self.result, r.result),
            Message::Response(r)@ == Message::Response(*self)@,
    {
        let result = match &self.result {
            Ok(v) => Ok(v.clone()),
            Err(e) => Err(e.clone()),
        };
        Response { id: self.id, result }
    }
}

impl Clone for Notification {
    fn clone(&self) -> (r: Self)
        ensures
            r.method == self.method,
            copies(self.params@, r.params@),
            Message::Notification(r)@ == Message::Notification(*self)@,
    {
        Notification { method: self.method.clone(), params: clone_items(&self.params) }
    }
}

impl Clone for Message {
    fn clone(&self) -> (r: Self)
        ensures
            message_copy(*self, r),
            r@ == self@,
    {
        match self {
            Message::Request(m) => Message::Request(m.clone()),
            Message::Response(m) => Message::Response(m.clone()),
            Message::Notification(m) => Message::Notification(m.clone()),
        }
    }
}

/// What reading one message from the front of `bytes` gives: the message
/// and the number of bytes it takes; `IoError` where the bytes end before a
/// whole value does; `MalformedMessage` where the decoder refuses the bytes
/// or the value is no message.
pub open spec fn unpacked(bytes: Seq<u8>) -> Result<(MessageModel, nat), RpcError> {
    match wire_parse(bytes) {
        Decoded::Incomplete => Err(RpcError::IoError),
        Decoded::Refused => Err(RpcError::MalformedMessage),
        Decoded::Value { value, taken } => match message_of(value) {
            None => Err(RpcError::MalformedMessage),
            Some(m) => Ok((m, taken)),
        },
    }
}

/// Packing a representable message and unpacking the bytes gives the message
/// back, wherever the decoder reads back the array that the encoder wrote.
/// That the decoder does so is a property of the MessagePack codec, which is
/// not proved here.
pub proof fn lemma_bytes_round_trip(m: MessageModel, taken: nat)
    requires
        representable(m),
    ensures
        wire_parse(wire_image(frame_of(m))) == (Decoded::Value { value: frame_of(m), taken })
            ==> unpacked(wire_image(frame_of(m))) == Ok::<(MessageModel, nat), RpcError>(
            (m, taken),
        ),
{
    lemma_frame_round_trip(m);
}

/// The number in `v`, where it is an integer that is not negative.
fn as_uint(v: &Datum) -> (r: Option<u64>)
    ensures
        r == uint_of(v@),
{
    match v {
        Datum::Integer(Integer::U64(n)) => Some(*n),
        Datum::Integer(Integer::I64(n)) => if *n >= 0 {
            Some(*n as u64)
        } else {
            None
        },
        _ => None,
    }
}

impl Message {
    /// The tag of this kind of message: 0 for a request, 1 for a response, 2
    /// for a notification.
    pub fn msgtype(&self) -> (tag: i32)
        ensures
            tag == tag_of(self@),
    {
        match self {
            Message::Request(_) => 0,
            Message::Response(_) => 1,
            Message::Notification(_) => 2,
        }
    }

    /// The array that encodes this message, built from copies of its values.
    pub fn to_value(&self) -> (v: Datum)
        ensures
            built_from(*self, v),
            v@ == frame_of(self@),
    {
        let tag = Datum::Integer(Integer::U64(self.msgtype() as u64));
        let mut items: Vec<Datum> = Vec::new();
        items.push(tag);
        match self {
            Message::Request(r) => {
                items.push(Datum::Integer(Integer::U64(#[verifier::truncate] (r.id as u64))));
                items.push(Datum::String(r.method.clone()));
                items.push(Datum::Array(clone_items(&r.params)));
            },
            Message::Response(r) => {
                items.push(Datum::Integer(Integer::U64(#[verifier::truncate] (r.id as u64))));
                match &r.result {
                    Ok(v) => {
                        items.push(Datum::Nil);
                        items.push(v.clone());
                    },
                    Err(e) => {
                        items.push(e.clone());
                        items.push(Datum::Nil);
                    },
                }
            },
            Message::Notification(n) => {
                items.push(Datum::String(n.method.clone()));
                items.push(Datum::Array(clone_items(&n.params)));
            },
        }
        proof {
            let built = models_of(items@);
            let wanted = frame_of(self@)->Array_0;
            assert(built.len() == wanted.len());
            assert forall|i: int| 0 <= i < built.len() implies built[i] == wanted[i] by {
                assert(built[i] == items@[i]@);
            }
            assert(built =~= wanted);
        }
        Datum::Array(items)
    }

    /// Reads the message that `v` encodes. The message holds the values of
    /// `v` themselves, as they stand in their slots.
    pub fn from_value(v: Datum) -> (r: Result<Message, RpcError>)
        ensures
            match r {
                Ok(m) => message_of(v@) == Some(m@) && taken_from(v, m),
                Err(e) => e == RpcError::MalformedMessage && message_of(v@) is None,
            },
    {
        let mut items = match v {
            Datum::Array(items) => items,
            _ => {
                return Err(RpcError::MalformedMessage);
            },
        };
        let ghost all = models_of(items@);
        assert(v@ == DatumModel::Array(all));
        let n = items.len();
        if n == 4 {
            let fourth = items.pop().unwrap();
            let third = items.pop().unwrap();
            let second = items.pop().unwrap();
            let first = items.pop().unwrap();
            assert(first@ == all[0] && second@ == all[1] && third@ == all[2] && fourth@ == all[3]);
            let tag = as_uint(&first);
            let id = as_uint(&second);
            match (tag, id) {
                (Some(0), Some(id)) => match (third, fourth) {
                    (Datum::String(method), Datum::Array(params)) => Ok(
                        Message::Request(
                            Request { id: #[verifier::truncate] (id as i32), method, params },
                        ),
                    ),
                    _ => Err(RpcError::MalformedMessage),
                },
                (Some(1), Some(id)) => {
                    let result = match third {
                        Datum::Nil => Ok(fourth),
                        _ => Err(third),
                    };
                    Ok(Message::Response(Response { id: #[verifier::truncate] (id as i32), result }))
                },
                _ => Err(RpcError::MalformedMessage),
            }
        } else if n == 3 {
            let third = items.pop().unwrap();
            let second = items.pop().unwrap();
            let first = items.pop().unwrap();
            assert(first@ == all[0] && second@ == all[1] && third@ == all[2]);
            let tag = as_uint(&first);
            match (tag, second, third) {
                (Some(2), Datum::String(method), Datum::Array(params)) => Ok(
                    Message::Notification(Notification { method, params }),
                ),
                _ => Err(RpcError::MalformedMessage),
            }
        } else {
            Err(RpcError::MalformedMessage)
        }
    }

    /// The bytes that carry this message: the MessagePack encoding of its
    /// array, with nothing before or after it.
    pub fn pack(&self) -> (bytes: Vec<u8>)
        ensures
            bytes@ == wire_image(frame_of(self@)),
    {
        let value = self.to_value();
        encode_value(&value)
    }

    /// Reads one message from the front of `bytes`, and says how many bytes
    /// it took. Fails with `IoError` where the bytes end before a whole value
    /// does, and with `MalformedMessage` where the decoder refuses the bytes
    /// or the value read is no message.
    pub fn unpack_frame(bytes: &[u8]) -> (r: Result<(Message, usize), RpcError>)
        ensures
            match unpacked(bytes@) {
                Ok((m, taken)) => r is Ok && r->Ok_0.0@ == m && r->Ok_0.1 == taken && 1 <= taken
                    <= bytes@.len(),
                Err(e) => r == Err::<(Message, usize), RpcError>(e),
            },
    {
        match decode_value(bytes) {
            Err(DecodeFailure::Incomplete) => Err(RpcError::IoError),
            Err(DecodeFailure::Refused) => Err(RpcError::MalformedMessage),
            Ok((value, taken)) => match Message::from_value(value) {
                Ok(message) => Ok((message, taken)),
                Err(e) => Err(e),
            },
        }
    }

    /// Reads one message from the front of `bytes`.
    pub fn unpack(bytes: &[u8]) -> (r: Result<Message, RpcError>)
        ensures
            match unpacked(bytes@) {
                Ok((m, taken)) => r is Ok && r->Ok_0@ == m,
                Err(e) => r == Err::<Message, RpcError>(e),
            },
    {
        match Message::unpack_frame(bytes) {
            Ok((message, _)) => Ok(message),
            Err(e) => Err(e),
        }
    }
}

} // verus!
