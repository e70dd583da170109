use msgpack_rpc::datum::{Datum, Integer};
use msgpack_rpc::error::RpcError;
use msgpack_rpc::message::{Message, Notification, Request, Response};

fn echo_request() -> Message {
    Message::Request(Request {
        id: 0,
        method: "echo".to_owned(),
        params: vec![Datum::String("hello world!".to_owned())],
    })
}

#[test]
fn pack_unpack_request() {
    let request = Message::Request(Request {
        id: 0,
        method: "echo".to_owned(),
        params: vec![Datum::String("hello world!".to_owned())],
    });

    let bytes = request.pack();
    let unpacked_request = Message::unpack(&bytes).unwrap();

    assert_eq!(request, unpacked_request);
}

#[test]
fn pack_unpack_response() {
    let response = Message::Response(Response {
        id: 0,
        result: Ok(Datum::String("test".to_owned())),
    });

    let bytes = response.pack();
    let unpacked_response = Message::unpack(&bytes).unwrap();

    assert_eq!(response, unpacked_response);
}

#[test]
fn pack_unpack_notification() {
    let notification = Message::Notification(Notification {
        method: "ping".to_owned(),
        params: vec![Datum::String("hi".to_owned())],
    });

    let bytes = notification.pack();
    let unpacked_notification = Message::unpack(&bytes).unwrap();

    assert_eq!(notification, unpacked_notification);
}

#[test]
fn msgtype_is_the_tag() {
    assert_eq!(echo_request().msgtype(), 0);
    assert_eq!(Message::Response(Response { id: 4, result: Ok(Datum::Nil) }).msgtype(), 1);
    assert_eq!(
        Message::Notification(Notification { method: "n".to_owned(), params: vec![] }).msgtype(),
        2
    );
}

#[test]
fn request_becomes_the_documented_array() {
    let expected = Datum::Array(vec![
        Datum::Integer(Integer::U64(0)),
        Datum::Integer(Integer::U64(0)),
        Datum::String("echo".to_owned()),
        Datum::Array(vec![Datum::String("hello world!".to_owned())]),
    ]);
    assert_eq!(echo_request().to_value(), expected);
    assert_eq!(Message::from_value(expected), Ok(echo_request()));
}

#[test]
fn response_becomes_the_documented_array() {
    let ok = Message::Response(Response { id: 0, result: Ok(Datum::String("test".to_owned())) });
    assert_eq!(
        ok.to_value(),
        Datum::Array(vec![
            Datum::Integer(Integer::U64(1)),
            Datum::Integer(Integer::U64(0)),
            Datum::Nil,
            Datum::String("test".to_owned()),
        ])
    );
    let failed = Message::Response(Response { id: 7, result: Err(Datum::Boolean(false)) });
    assert_eq!(
        failed.to_value(),
        Datum::Array(vec![
            Datum::Integer(Integer::U64(1)),
            Datum::Integer(Integer::U64(7)),
            Datum::Boolean(false),
            Datum::Nil,
        ])
    );
    assert_eq!(Message::from_value(failed.to_value()), Ok(failed));
}

#[test]
fn notification_becomes_the_documented_array() {
    let ping = Message::Notification(Notification {
        method: "ping".to_owned(),
        params: vec![Datum::String("hi".to_owned())],
    });
    assert_eq!(
        ping.to_value(),
        Datum::Array(vec![
            Datum::Integer(Integer::U64(2)),
            Datum::String("ping".to_owned()),
            Datum::Array(vec![Datum::String("hi".to_owned())]),
        ])
    );
}

#[test]
fn request_bytes() {
    let mut expected: Vec<u8> = vec![0x94, 0x00, 0x00, 0xa4];
    expected.extend_from_slice(b"echo");
    expected.extend_from_slice(&[0x91, 0xac]);
    expected.extend_from_slice(b"hello world!");
    assert_eq!(echo_request().pack(), expected);
}

#[test]
fn response_bytes() {
    let response = Message::Response(Response { id: 0, result: Ok(Datum::String("test".to_owned())) });
    let mut expected: Vec<u8> = vec![0x94, 0x01, 0x00, 0xc0, 0xa4];
    expected.extend_from_slice(b"test");
    assert_eq!(response.pack(), expected);
}

#[test]
fn notification_bytes() {
    let ping = Message::Notification(Notification {
        method: "ping".to_owned(),
        params: vec![Datum::String("hi".to_owned())],
    });
    let mut expected: Vec<u8> = vec![0x93, 0x02, 0xa4];
    expected.extend_from_slice(b"ping");
    expected.extend_from_slice(&[0x91, 0xa2]);
    expected.extend_from_slice(b"hi");
    assert_eq!(ping.pack(), expected);
}

#[test]
fn every_kind_of_value_round_trips_through_bytes() {
    let params = vec![
        Datum::Nil,
        Datum::Boolean(true),
        Datum::Integer(Integer::U64(u64::MAX)),
        Datum::Integer(Integer::I64(-5)),
        Datum::F32(1.5f32.to_bits()),
        Datum::F64((-0.25f64).to_bits()),
        Datum::String("text".to_owned()),
        Datum::Binary(vec![0, 1, 255]),
        Datum::Array(vec![Datum::Array(vec![Datum::Nil])]),
        Datum::Dict(vec![(Datum::String("k".to_owned()), Datum::Integer(Integer::U64(1)))]),
        Datum::Ext(-3, vec![9, 8, 7]),
    ];
    let m = Message::Notification(Notification { method: "all".to_owned(), params });
    assert_eq!(Message::unpack(&m.pack()), Ok(m));
}

#[test]
fn floats_are_written_by_their_bits() {
    let m = Message::Notification(Notification {
        method: "f".to_owned(),
        params: vec![Datum::F64(1.5f64.to_bits()), Datum::F32(1.5f32.to_bits())],
    });
    let expected: Vec<u8> = vec![
        0x93, 0x02, 0xa1, b'f', 0x92, 0xcb, 0x3f, 0xf8, 0, 0, 0, 0, 0, 0, 0xca, 0x3f, 0xc0, 0, 0,
    ];
    assert_eq!(m.pack(), expected);
}

#[test]
fn a_signed_integer_that_is_not_negative_reads_back_unsigned() {
    let m = Message::Notification(Notification {
        method: "n".to_owned(),
        params: vec![Datum::Integer(Integer::I64(5))],
    });
    let back = Message::Notification(Notification {
        method: "n".to_owned(),
        params: vec![Datum::Integer(Integer::U64(5))],
    });
    assert_eq!(Message::unpack(&m.pack()), Ok(back));
}

#[test]
fn ids_keep_their_32_bits() {
    for id in [0, 1, i32::MAX, -1, i32::MIN] {
        let request = Message::Request(Request { id, method: "m".to_owned(), params: vec![] });
        assert_eq!(Message::unpack(&request.pack()), Ok(request.clone()));
        assert_eq!(Message::from_value(request.to_value()), Ok(request));
    }
    let wide = Datum::Array(vec![
        Datum::Integer(Integer::U64(1)),
        Datum::Integer(Integer::U64((1u64 << 40) + 3)),
        Datum::Nil,
        Datum::Nil,
    ]);
    assert_eq!(
        Message::from_value(wide),
        Ok(Message::Response(Response { id: 3, result: Ok(Datum::Nil) }))
    );
}

#[test]
fn tag_and_id_may_come_as_signed_integers() {
    let v = Datum::Array(vec![
        Datum::Integer(Integer::I64(1)),
        Datum::Integer(Integer::I64(9)),
        Datum::Nil,
        Datum::Boolean(true),
    ]);
    assert_eq!(
        Message::from_value(v),
        Ok(Message::Response(Response { id: 9, result: Ok(Datum::Boolean(true)) }))
    );
}

#[test]
fn a_response_with_an_error_ignores_the_result_slot() {
    let v = Datum::Array(vec![
        Datum::Integer(Integer::U64(1)),
        Datum::Integer(Integer::U64(2)),
        Datum::String("bad".to_owned()),
        Datum::Boolean(true),
    ]);
    assert_eq!(
        Message::from_value(v),
        Ok(Message::Response(Response { id: 2, result: Err(Datum::String("bad".to_owned())) }))
    );
}

#[test]
fn a_nil_error_reads_back_as_success() {
    let m = Message::Response(Response { id: 2, result: Err(Datum::Nil) });
    assert_eq!(
        Message::from_value(m.to_value()),
        Ok(Message::Response(Response { id: 2, result: Ok(Datum::Nil) }))
    );
}

#[test]
fn malformed_values_are_rejected() {
    let text = || Datum::String("m".to_owned());
    let list = || Datum::Array(vec![]);
    let uint = |n: u64| Datum::Integer(Integer::U64(n));
    let cases = vec![
        Datum::Nil,
        Datum::String("not an array".to_owned()),
        Datum::Array(vec![]),
        Datum::Array(vec![uint(0)]),
        Datum::Array(vec![uint(3), text(), list()]),
        Datum::Array(vec![uint(3), uint(0), text(), list()]),
        Datum::Array(vec![Datum::Integer(Integer::I64(-1)), text(), list()]),
        Datum::Array(vec![text(), uint(0), text(), list()]),
        Datum::Array(vec![uint(0), uint(0), text()]),
        Datum::Array(vec![uint(0), uint(0), text(), list(), list()]),
        Datum::Array(vec![uint(1), uint(0), Datum::Nil]),
        Datum::Array(vec![uint(2), text(), list(), list()]),
        Datum::Array(vec![uint(0), text(), text(), list()]),
        Datum::Array(vec![uint(0), Datum::Integer(Integer::I64(-1)), text(), list()]),
        Datum::Array(vec![uint(0), uint(0), uint(0), list()]),
        Datum::Array(vec![uint(0), uint(0), text(), text()]),
        Datum::Array(vec![uint(1), Datum::Nil, Datum::Nil, Datum::Nil]),
        Datum::Array(vec![uint(2), Datum::Binary(vec![b'm']), list()]),
        Datum::Array(vec![uint(2), text(), Datum::Dict(vec![])]),
    ];
    for case in cases {
        assert_eq!(Message::from_value(case.clone()), Err(RpcError::MalformedMessage), "{:?}", case);
    }
}

#[test]
fn malformed_bytes_are_rejected() {
    assert_eq!(Message::unpack(&[0xc0]), Err(RpcError::MalformedMessage));
    assert_eq!(Message::unpack(&[0x93, 0x03, 0xa1, b'x', 0x90]), Err(RpcError::MalformedMessage));
    assert_eq!(Message::unpack(&[0x93, 0x00, 0x01, 0xa1, b'm']), Err(RpcError::MalformedMessage));
}

#[test]
fn truncated_bytes_are_an_io_error() {
    assert_eq!(Message::unpack(&[0x94, 0x00, 0x00]), Err(RpcError::IoError));
    assert_eq!(Message::unpack(&[]), Err(RpcError::IoError));
    let mut bytes = echo_request().pack();
    bytes.pop();
    assert_eq!(Message::unpack(&bytes), Err(RpcError::IoError));
}

#[test]
fn unpack_frame_takes_one_message_and_says_how_long_it_was() {
    let first = echo_request();
    let second = Message::Notification(Notification { method: "ping".to_owned(), params: vec![] });
    let mut stream = first.pack();
    let first_len = stream.len();
    stream.extend_from_slice(&second.pack());
    let (m1, n1) = Message::unpack_frame(&stream).unwrap();
    assert_eq!(m1, first);
    assert_eq!(n1, first_len);
    let (m2, n2) = Message::unpack_frame(&stream[n1..]).unwrap();
    assert_eq!(m2, second);
    assert_eq!(n1 + n2, stream.len());
}

#[test]
fn a_string_that_is_not_utf8_reads_as_binary() {
    let bytes = [0x93, 0x02, 0xa1, b'm', 0x91, 0xa2, 0xff, 0xfe];
    assert_eq!(
        Message::unpack(&bytes),
        Ok(Message::Notification(Notification {
            method: "m".to_owned(),
            params: vec![Datum::Binary(vec![0xff, 0xfe])],
        }))
    );
}

#[test]
fn clones_are_equal() {
    let m = echo_request();
    assert_eq!(m.clone(), m);
    let v = Datum::Dict(vec![(Datum::Nil, Datum::Array(vec![Datum::F32(7)]))]);
    assert_eq!(v.clone(), v);
    assert_eq!(Integer::I64(-1).clone(), Integer::I64(-1));
}

#[test]
fn errors_describe_themselves() {
    assert_eq!(RpcError::IoError.describe(), "transport failure");
    assert_eq!(RpcError::MalformedMessage.describe(), "malformed message");
    assert_eq!(RpcError::UnknownResponseId.describe(), "unknown response id");
    assert_eq!(RpcError::TransportClosed.describe(), "transport closed");
    assert_eq!(RpcError::IdSpaceExhausted.describe(), "no free request id");
}

#[test]
fn bytes_nested_too_deep_are_malformed() {
    assert_eq!(Message::unpack(&[0x91; 512]), Err(RpcError::MalformedMessage));
    assert_eq!(Message::unpack_frame(&[0x91; 600]), Err(RpcError::MalformedMessage));
    assert_eq!(Message::unpack(&[0x91; 511]), Err(RpcError::IoError));
}

#[test]
fn values_keep_the_variant_that_carries_each_integer() {
    let signed = Datum::Integer(Integer::I64(5));
    let v = Datum::Array(vec![
        Datum::Integer(Integer::U64(1)),
        Datum::Integer(Integer::U64(0)),
        Datum::Nil,
        signed.clone(),
    ]);
    assert_eq!(
        Message::from_value(v),
        Ok(Message::Response(Response { id: 0, result: Ok(Datum::Integer(Integer::I64(5))) }))
    );
    let nested = Datum::Array(vec![Datum::Dict(vec![(signed.clone(), signed.clone())])]);
    assert_eq!(nested.clone(), nested);
    let m = Message::Request(Request { id: 3, method: "m".to_owned(), params: vec![nested.clone()] });
    assert_eq!(
        m.to_value(),
        Datum::Array(vec![
            Datum::Integer(Integer::U64(0)),
            Datum::Integer(Integer::U64(3)),
            Datum::String("m".to_owned()),
            Datum::Array(vec![nested]),
        ])
    );
    assert_eq!(Message::from_value(m.to_value()), Ok(m.clone()));
    assert_eq!(m.clone(), m);
}
