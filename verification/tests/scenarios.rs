use msgpack_rpc::client::{Client, ClientHandle};
use msgpack_rpc::datum::{Datum, Integer};
use msgpack_rpc::dispatch::{respond, serve, ClientDispatch, Dispatch};
use msgpack_rpc::endpoint::Action;
use msgpack_rpc::message::Message;
use std::sync::mpsc;

type Outcome = Result<Datum, Datum>;

type Slot = mpsc::Sender<Outcome>;

#[derive(Clone, Default)]
struct EchoServer;

impl Dispatch for EchoServer {
    fn dispatch(&mut self, method: &str, args: Vec<Datum>) -> Result<Datum, Datum> {
        match method {
            "echo" => Ok(Datum::Array(args.to_owned())),
            _ => Err(Datum::String("Invalid method name.".to_owned())),
        }
    }
}

#[derive(Clone)]
struct SleepServer;

impl Dispatch for SleepServer {
    fn dispatch(&mut self, method: &str, args: Vec<Datum>) -> Result<Datum, Datum> {
        match method {
            "sleep" => {
                if let Datum::Integer(Integer::U64(secs)) = *args.get(0).unwrap() {
                    Ok(Datum::Integer(Integer::U64(secs)))
                } else {
                    Err(Datum::String(format!("Invalid parameters: {:?}", args)))
                }
            },
            _ => Err(Datum::String(format!("Invalid method: {}", method))),
        }
    }
}

#[derive(Clone)]
struct EchoCallClient;

#[derive(Clone)]
struct EchoCallServer;

impl Dispatch for EchoCallServer {
    fn dispatch(&mut self, method: &str, args: Vec<Datum>) -> Result<Datum, Datum> {
        match method {
            "call" => Ok(Datum::Array(args.to_owned())),
            _ => Err(Datum::String("Invalid server method name.".to_owned())),
        }
    }
}

impl Dispatch for EchoCallClient {
    fn dispatch(&mut self, method: &str, args: Vec<Datum>) -> Result<Datum, Datum> {
        match method {
            "call" => match *args.get(1).unwrap() {
                Datum::String(ref method) if method == "echo" => {
                    Ok(Datum::Array(args.to_owned().split_off(2)))
                },
                _ => Err(Datum::String("Attempted to call invalid method.".to_owned())),
            },
            _ => Err(Datum::String("Invalid client method name.".to_owned())),
        }
    }
}

/// Carries a message over the wire: packs it and unpacks the bytes.
fn over_the_wire(message: &Message) -> Message {
    Message::unpack(&message.pack()).unwrap()
}

/// Hands a response that came over the wire to the client, which completes the slot.
fn deliver<D: Dispatch>(client: &mut ClientHandle<D, Slot>, response: Message) {
    match client.receive(response) {
        Action::Deliver { slot, result } => slot.send(result).unwrap(),
        _ => panic!("the response matched no call"),
    }
}

/// One whole call: request over the wire, served, response over the wire, delivered.
fn call<D: Dispatch, E: Dispatch>(
    client: &mut ClientHandle<D, Slot>,
    server: &mut E,
    method: &str,
    params: Vec<Datum>,
) -> Outcome {
    let (slot, receiver) = mpsc::channel();
    let request = client.async_call(method, params, slot).unwrap();
    let reply = serve(server, over_the_wire(&request)).unwrap();
    deliver(client, over_the_wire(&reply));
    receiver.recv().unwrap()
}

#[test]
fn echo() {
    let mut client: ClientHandle<ClientDispatch, Slot> = Client::new();
    let mut server = EchoServer;

    let result = call(&mut client, &mut server, "echo", vec![Datum::String("Hello, world!".to_owned())]);
    assert_eq!(Datum::Array(vec![Datum::String("Hello, world!".to_owned())]), result.unwrap());
}

#[test]
fn invalid_method_name() {
    let mut client: ClientHandle<ClientDispatch, Slot> = Client::new();
    let mut server = EchoServer;

    let result = call(&mut client, &mut server, "bad_method", vec![]);
    assert_eq!(Datum::String("Invalid method name.".to_owned()), result.unwrap_err());
}

#[test]
fn out_of_order_completion() {
    let mut client: ClientHandle<ClientDispatch, Slot> = Client::new();
    let mut server = SleepServer;

    let (long_slot, long_result) = mpsc::channel();
    let (short_slot, short_result) = mpsc::channel();
    let long = client.async_call("sleep", vec![Datum::Integer(Integer::U64(10_000))], long_slot).unwrap();
    let short = client.async_call("sleep", vec![Datum::Integer(Integer::U64(1))], short_slot).unwrap();

    let short_reply = serve(&mut server, over_the_wire(&short)).unwrap();
    deliver(&mut client, over_the_wire(&short_reply));

    assert!(match short_result.recv().unwrap() {
        Ok(Datum::Integer(Integer::U64(1))) => true,
        _ => false,
    });
    assert!(long_result.try_recv().is_err());

    let long_reply = serve(&mut server, over_the_wire(&long)).unwrap();
    deliver(&mut client, over_the_wire(&long_reply));
    assert!(match long_result.recv().unwrap() {
        Ok(Datum::Integer(Integer::U64(10_000))) => true,
        _ => false,
    });
}

#[test]
fn sleep() {
    let mut client: ClientHandle<ClientDispatch, Slot> = Client::new();
    let mut server = SleepServer;

    let (long_slot, long_result) = mpsc::channel();
    let (short_slot, short_result) = mpsc::channel();
    let long = client.async_call("sleep", vec![Datum::Integer(Integer::U64(2))], long_slot).unwrap();
    let short = client.async_call("sleep", vec![Datum::Integer(Integer::U64(1))], short_slot).unwrap();

    let short_reply = serve(&mut server, over_the_wire(&short)).unwrap();
    let long_reply = serve(&mut server, over_the_wire(&long)).unwrap();
    deliver(&mut client, over_the_wire(&short_reply));
    deliver(&mut client, over_the_wire(&long_reply));

    assert!(match short_result.recv().unwrap() {
        Ok(Datum::Integer(Integer::U64(1))) => true,
        _ => false,
    });

    assert!(match long_result.recv().unwrap() {
        Ok(Datum::Integer(Integer::U64(2))) => true,
        _ => false,
    });
}

/// The server answers "call" by calling the client back with the same
/// arguments over the same connection, and returns what the client answered.
fn call_back<D: Dispatch>(client: &mut ClientHandle<D, Slot>) -> Outcome {
    let mut server: ClientHandle<EchoCallServer, Slot> = Client::with_dispatcher(EchoCallServer);
    let (slot, receiver) = mpsc::channel();
    let params = vec![Datum::String("echo".to_owned()), Datum::String("Hello, world!".to_owned())];
    let request = client.async_call("call", params, slot).unwrap();

    let (id, args) = match server.receive(over_the_wire(&request)) {
        Action::Dispatch { id, method, params } => {
            assert_eq!(method, "call");
            (id, params)
        },
        _ => panic!("the server did not get a request"),
    };
    let mut back_params = vec![Datum::String("call".to_owned())];
    back_params.extend(args);
    let (back_slot, back_receiver) = mpsc::channel();
    let back_request = server.async_call("call", back_params, back_slot).unwrap();

    let back_reply = match client.receive(over_the_wire(&back_request)) {
        Action::Dispatch { id, method, params } => {
            respond(id, client.dispatcher.dispatch(&method, params))
        },
        _ => panic!("the client did not get a request"),
    };
    deliver(&mut server, over_the_wire(&back_reply));
    let answered = back_receiver.recv().unwrap();

    let reply = respond(id, answered);
    deliver(client, over_the_wire(&reply));
    receiver.recv().unwrap()
}

#[test]
fn bidirectional_client() {
    let mut client: ClientHandle<EchoCallClient, Slot> = Client::with_dispatcher(EchoCallClient);
    let result = call_back(&mut client);
    assert_eq!(result.unwrap(), Datum::Array(vec![Datum::String("Hello, world!".to_owned())]));
}

#[test]
fn default_client_dispatch_answers_with_an_error() {
    let mut client: ClientHandle<ClientDispatch, Slot> = Client::new();
    let result = call_back(&mut client);
    assert_eq!(result, Err(Datum::String("Client received request.".to_owned())));
}

#[test]
fn teardown_releases_every_waiting_caller() {
    let mut client: ClientHandle<ClientDispatch, Slot> = Client::new();
    let (slot_a, result_a) = mpsc::channel();
    let (slot_b, result_b) = mpsc::channel();
    client.async_call("a", vec![], slot_a).unwrap();
    client.async_call("b", vec![], slot_b).unwrap();
    for (_, slot) in client.close() {
        slot.send(Err(Datum::String("transport closed".to_owned()))).unwrap();
    }
    assert_eq!(result_a.recv().unwrap(), Err(Datum::String("transport closed".to_owned())));
    assert_eq!(result_b.recv().unwrap(), Err(Datum::String("transport closed".to_owned())));
    let (slot_c, _result_c) = mpsc::channel();
    assert!(client.async_call("c", vec![], slot_c).is_err());
}
