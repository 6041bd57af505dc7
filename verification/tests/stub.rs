use rpc::interface::{
    derive_client_func, derive_handler_arm, service, Expansion, GenericArg, Input, Interface,
    Method,
};
use rpc::stub::{
    demux, dispatch, dispatch_typed, exchange, into_processor, respond, respond_typed, Client,
    Refusal,
};
use rpc::transport::{ClientTransport, Connection};
use rpc::wire::{ClientData, ServerData};
use rpc::{IoError, IoErrorKind, Request, Response, RpcError, ServerError};
use serde_json::Value;
use std::cell::Cell;
use std::rc::Rc;

fn model_of(name: &str, methods: &[&str]) -> Expansion {
    service(&Interface {
        name: name.to_string(),
        methods: methods
            .iter()
            .map(|m| Method {
                name: m.to_string(),
                inputs: vec![Input::Receiver, Input::Typed("u64".to_string())],
                generics: vec![
                    GenericArg::Type("u64".to_string()),
                    GenericArg::Type("String".to_string()),
                ],
            })
            .collect(),
    })
    .unwrap()
}

fn request(variant: &str, payload: u64) -> Request<ClientData> {
    Request::Data(ClientData { variant: variant.to_string(), payload: Value::from(payload) })
}

fn data(variant: &str, payload: u64) -> Response<ServerData> {
    Response::Data(ServerData { variant: variant.to_string(), payload: Value::from(payload) })
}

/// A transport that answers every request with one prepared reply.
struct Fixed {
    reply: Result<Response<ServerData>, RpcError>,
    sent: Rc<Cell<Option<Request<ClientData>>>>,
}

struct FixedConnection {
    reply: Result<Response<ServerData>, RpcError>,
    sent: Rc<Cell<Option<Request<ClientData>>>>,
}

impl Connection<Request<ClientData>, Response<ServerData>> for FixedConnection {
    fn call(&self, req: Request<ClientData>) -> Result<Response<ServerData>, RpcError> {
        self.sent.set(Some(req));
        self.reply.clone()
    }
}

impl ClientTransport<Request<ClientData>, Response<ServerData>> for Fixed {
    type Connection = FixedConnection;

    fn connect(&self) -> FixedConnection {
        FixedConnection { reply: self.reply.clone(), sent: Rc::clone(&self.sent) }
    }
}

fn client(reply: Result<Response<ServerData>, RpcError>) -> Client<Fixed> {
    Client::new(Fixed { reply, sent: Rc::new(Cell::new(None)) }, model_of("Counter", &["counter", "fetch"]))
}

#[test]
fn a_result_is_wrapped_under_the_requests_variant() {
    assert_eq!(respond("Fetch".to_string(), Ok(Value::from(50u64))), data("Fetch", 50));
}

#[test]
fn a_rejection_is_wrapped_as_a_processor_error() {
    assert_eq!(
        respond("Counter".to_string(), Err("increment must be above zero".to_string())),
        Response::Error(ServerError::ProcessorError("increment must be above zero".to_string()))
    );
}

#[test]
fn the_dispatcher_calls_the_method_of_the_variant() {
    let model = model_of("Counter", &["counter", "fetch"]);
    let handler = |method: usize, arg: Value| -> Result<Value, String> {
        Ok(Value::from(arg.as_u64().unwrap() * 10 + method as u64))
    };
    assert_eq!(dispatch(&model, &handler, request("Counter", 4)), data("Counter", 40));
    assert_eq!(dispatch(&model, &handler, request("Fetch", 4)), data("Fetch", 41));
}

#[test]
fn the_dispatcher_answers_a_rejection() {
    let model = model_of("Counter", &["counter", "fetch"]);
    let handler = |_method: usize, _arg: Value| -> Result<Value, String> { Err("no".to_string()) };
    assert_eq!(
        dispatch(&model, &handler, request("Counter", 0)),
        Response::Error(ServerError::ProcessorError("no".to_string()))
    );
}

#[test]
fn a_variant_without_an_arm_is_a_bad_request() {
    let model = model_of("Counter", &["counter", "fetch"]);
    let handler =
        |_method: usize, _arg: Value| -> Result<Value, String> { panic!("no method is called") };
    for variant in ["counter", "Hello", "", "Data"] {
        assert_eq!(
            dispatch(&model, &handler, request(variant, 1)),
            Response::Error(ServerError::BadRequest)
        );
    }
}

#[test]
fn an_empty_interface_answers_every_request_with_a_bad_request() {
    let model = model_of("Nothing", &[]);
    let handler =
        |_method: usize, _arg: Value| -> Result<Value, String> { panic!("no method is called") };
    for variant in ["Hello", "Counter", ""] {
        assert_eq!(
            dispatch(&model, &handler, request(variant, 1)),
            Response::Error(ServerError::BadRequest)
        );
    }
}

#[test]
fn the_same_request_gets_the_same_response_from_a_pure_service() {
    let model = model_of("Counter", &["counter", "fetch"]);
    let handler = |method: usize, arg: Value| -> Result<Value, String> {
        if method == 0 { Ok(arg) } else { Err("fetch is closed".to_string()) }
    };
    for variant in ["Counter", "Fetch", "Other"] {
        let first = dispatch(&model, &handler, request(variant, 7));
        let second = dispatch(&model, &handler, request(variant, 7));
        assert_eq!(first, second);
    }
}

#[test]
fn a_processor_serves_as_the_dispatcher_does() {
    let processor = into_processor(
        model_of("Counter", &["counter", "fetch"]),
        |_method: usize, arg: Value| -> Result<Value, String> { Ok(arg) },
    );
    assert_eq!(processor.process(request("Fetch", 3)), data("Fetch", 3));
    assert_eq!(processor.process(request("Nope", 3)), Response::Error(ServerError::BadRequest));
}

#[test]
fn data_under_the_own_variant_is_the_value() {
    assert_eq!(demux(&"Fetch".to_string(), Ok(data("Fetch", 50))), Ok(Value::from(50u64)));
}

#[test]
fn data_under_another_variant_is_an_invalid_response_type() {
    assert_eq!(
        demux(&"Fetch".to_string(), Ok(data("Counter", 50))),
        Err(RpcError::InvalidResponseType)
    );
    assert_eq!(
        demux(&"Fetch".to_string(), Ok(data("fetch", 50))),
        Err(RpcError::InvalidResponseType)
    );
}

#[test]
fn the_servers_error_is_wrapped() {
    for err in [
        ServerError::BadRequest,
        ServerError::DecodingError("x".to_string()),
        ServerError::ProcessorError("y".to_string()),
    ] {
        assert_eq!(
            demux(&"Fetch".to_string(), Ok(Response::Error(err.clone()))),
            Err(RpcError::Server(err))
        );
    }
}

#[test]
fn the_transports_failure_is_handed_on() {
    let failures = [
        RpcError::Io(IoError::new(IoErrorKind::Other, "connection refused".to_string())),
        RpcError::Codec("expected value".to_string()),
        RpcError::NoSocketAddress,
        RpcError::NotRunning,
    ];
    for failure in failures {
        assert_eq!(demux(&"Fetch".to_string(), Err(failure.clone())), Err(failure));
    }
}

#[test]
fn a_call_sends_the_methods_variant_and_the_argument() {
    let c = client(Ok(data("Fetch", 50)));
    assert_eq!(c.pack(0, Value::from(1u64)), request("Counter", 1));
    assert_eq!(c.call(1, Value::from(0u64)), Ok(Value::from(50u64)));
    assert_eq!(c.t.sent.take(), Some(request("Fetch", 0)));
}

#[test]
fn a_call_never_yields_the_value_of_another_method() {
    let c = client(Ok(data("Fetch", 50)));
    assert_eq!(c.call(0, Value::from(1u64)), Err(RpcError::InvalidResponseType));
}

#[test]
fn a_call_hands_on_what_the_transport_failed_with() {
    let c = client(Err(RpcError::NoSocketAddress));
    assert_eq!(c.call(0, Value::from(1u64)), Err(RpcError::NoSocketAddress));
    let c = client(Ok(Response::Error(ServerError::ProcessorError("no".to_string()))));
    assert_eq!(
        c.call(0, Value::from(1u64)),
        Err(RpcError::Server(ServerError::ProcessorError("no".to_string())))
    );
}

#[test]
fn an_exchange_comes_to_what_the_method_returned() {
    let model = model_of("Counter", &["counter", "fetch"]);
    let handler = |method: usize, arg: Value| -> Result<Value, String> {
        match (method, arg.as_u64()) {
            (0, Some(0)) => Err("increment must be above zero".to_string()),
            (0, Some(v)) => Ok(Value::from(v + 1)),
            _ => Ok(Value::from(50u64)),
        }
    };
    assert_eq!(exchange(&model, &handler, 0, Value::from(4u64)), Ok(Value::from(5u64)));
    assert_eq!(exchange(&model, &handler, 1, Value::from(4u64)), Ok(Value::from(50u64)));
    assert_eq!(
        exchange(&model, &handler, 0, Value::from(0u64)),
        Err(RpcError::Server(ServerError::ProcessorError(
            "increment must be above zero".to_string()
        )))
    );
}

#[test]
fn an_exchange_carries_any_payload() {
    let model = model_of("Echo", &["echo"]);
    let handler = |_method: usize, arg: Value| -> Result<Value, String> { Ok(arg) };
    let nested: Value = serde_json::from_str(
        "{\"Data\":{\"Echo\":[1,-2,3.5,\"x\",null,true,{\"Error\":\"BadRequest\"}]}}",
    )
    .unwrap();
    for payload in [Value::Null, Value::from("deadbeef"), Value::from(u64::MAX), nested] {
        assert_eq!(exchange(&model, &handler, 0, payload.clone()), Ok(payload));
    }
}

fn fetch_stub() -> rpc::interface::ClientFunc {
    derive_client_func(
        &"fetch".to_string(),
        &"Fetch".to_string(),
        &"u64".to_string(),
        &"u64".to_string(),
        &"String".to_string(),
    )
}

#[test]
fn a_stubs_method_packs_under_its_variant() {
    assert_eq!(fetch_stub().pack(Value::from(3u64)), request("Fetch", 3));
}

#[test]
fn a_stubs_method_yields_only_the_value_of_its_own_variant() {
    let stub = fetch_stub();
    assert_eq!(stub.demux(Ok(data("Fetch", 50))), Ok(Value::from(50u64)));
    assert_eq!(stub.demux(Ok(data("Counter", 50))), Err(RpcError::InvalidResponseType));
    assert_eq!(
        stub.demux(Ok(Response::Error(ServerError::ProcessorError("no".to_string())))),
        Err(RpcError::Server(ServerError::ProcessorError("no".to_string())))
    );
    assert_eq!(stub.demux(Err(RpcError::NotRunning)), Err(RpcError::NotRunning));
}

#[test]
fn a_stubs_method_fails_each_time_no_reply_comes() {
    let stub = fetch_stub();
    let transport = rpc::transport::tcp::TcpClientTransport::new(rpc::group::Address::Local(
        "byzantine".to_string(),
    ));
    for _ in 0..3 {
        let reply = transport.receive(Ok(Vec::new()));
        assert!(matches!(reply, Err(RpcError::Codec(_))));
        assert!(stub.demux(reply).is_err());
    }
}

#[test]
fn an_arm_answers_under_its_variant() {
    let arm = derive_handler_arm(&"fetch".to_string(), &"Fetch".to_string());
    assert_eq!(arm.respond(Ok(Value::from(50u64))), data("Fetch", 50));
    assert_eq!(
        arm.respond(Err("no".to_string())),
        Response::Error(ServerError::ProcessorError("no".to_string()))
    );
}

#[test]
fn an_undecodable_payload_is_answered_with_a_decoding_error() {
    let model = model_of("Counter", &["counter", "fetch"]);
    let handler = |method: usize, arg: Value| -> Result<Value, Refusal> {
        match (method, arg.as_u64()) {
            (_, None) => Err(Refusal::Undecodable("invalid type: expected u64".to_string())),
            (0, Some(0)) => Err(Refusal::Rejected("increment must be above zero".to_string())),
            (_, Some(v)) => Ok(Value::from(v + 1)),
        }
    };
    let text = Request::Data(ClientData { variant: "Counter".to_string(), payload: Value::from("x") });
    assert_eq!(
        dispatch_typed(&model, &handler, text),
        Response::Error(ServerError::DecodingError("invalid type: expected u64".to_string()))
    );
    assert_eq!(
        dispatch_typed(&model, &handler, request("Counter", 0)),
        Response::Error(ServerError::ProcessorError("increment must be above zero".to_string()))
    );
    assert_eq!(dispatch_typed(&model, &handler, request("Fetch", 4)), data("Fetch", 5));
    assert_eq!(
        dispatch_typed(&model, &handler, request("Other", 4)),
        Response::Error(ServerError::BadRequest)
    );
}

#[test]
fn a_typed_outcome_is_wrapped_by_its_kind() {
    assert_eq!(respond_typed("Fetch".to_string(), Ok(Value::from(1u64))), data("Fetch", 1));
    assert_eq!(
        respond_typed("Fetch".to_string(), Err(Refusal::Undecodable("a".to_string()))),
        Response::Error(ServerError::DecodingError("a".to_string()))
    );
    assert_eq!(
        respond_typed("Fetch".to_string(), Err(Refusal::Rejected("b".to_string()))),
        Response::Error(ServerError::ProcessorError("b".to_string()))
    );
}
