use rpc::executor::{report, Outcome, Task, WorkerState};
use rpc::group::{Address, IpAddress, SocketAddress};
use rpc::interface::{service, Expansion, GenericArg, Input, Interface, Method};
use rpc::stub::{dispatch, Client};
use rpc::transport::tcp::{serve, TcpClientTransport, TcpServerTransport};
use rpc::transport::{ClientTransport, Connection};
use rpc::wire::{encode_request, ClientData, ServerData};
use rpc::{Lifecycle, Request, Response, RpcError, Server, ServerError};
use serde_json::Value;
use std::rc::Rc;
use std::sync::atomic::{AtomicU64, Ordering};

fn method(name: &str, param: &str, output: &str, error: &str) -> Method {
    Method {
        name: name.to_string(),
        inputs: vec![Input::Receiver, Input::Typed(param.to_string())],
        generics: vec![GenericArg::Type(output.to_string()), GenericArg::Type(error.to_string())],
    }
}

fn socket(addr: &str) -> Address {
    let parsed = match addr {
        "127.0.0.1:2000" => Some(SocketAddress { ip: IpAddress::V4(127, 0, 0, 1), port: 2000 }),
        "127.0.0.1:2001" => Some(SocketAddress { ip: IpAddress::V4(127, 0, 0, 1), port: 2001 }),
        "127.0.0.1:2002" => Some(SocketAddress { ip: IpAddress::V4(127, 0, 0, 1), port: 2002 }),
        _ => None,
    };
    Address::from_str(addr, parsed)
}

/// A transport that hands the request's bytes to the server's side in this
/// process and the reply's bytes back, as one connection would.
struct Wire<P> {
    client: TcpClientTransport,
    processor: Rc<P>,
}

struct WireConnection<P> {
    client: TcpClientTransport,
    processor: Rc<P>,
}

impl<P> Connection<Request<ClientData>, Response<ServerData>> for WireConnection<P>
where
    P: Fn(Request<ClientData>) -> Option<Response<ServerData>>,
{
    fn call(&self, req: Request<ClientData>) -> Result<Response<ServerData>, RpcError> {
        self.client.target()?;
        let bytes = encode_request(req);
        // A job that does not come back leaves the connection closed without a reply.
        let answered = std::cell::Cell::new(true);
        let reply = serve(&bytes, &|req| match (self.processor)(req) {
            Some(resp) => resp,
            None => {
                answered.set(false);
                Response::Error(ServerError::BadRequest)
            }
        });
        let delivered = if answered.get() { reply } else { Vec::new() };
        self.client.receive(Ok(delivered))
    }
}

impl<P> ClientTransport<Request<ClientData>, Response<ServerData>> for Wire<P>
where
    P: Fn(Request<ClientData>) -> Option<Response<ServerData>>,
{
    type Connection = WireConnection<P>;

    fn connect(&self) -> WireConnection<P> {
        WireConnection {
            client: TcpClientTransport::new(self.client.addr.clone()),
            processor: Rc::clone(&self.processor),
        }
    }
}

fn start(addr: &Address) -> Server {
    let mut transport = TcpServerTransport::new(addr.clone());
    let bound = transport.connect(Ok(()));
    let mut srv = Server::new();
    srv.run(transport.get_addr(), bound).unwrap();
    assert_eq!(srv.state, Lifecycle::Running);
    srv
}

fn hello_model() -> Expansion {
    service(&Interface {
        name: "Hello".to_string(),
        methods: vec![method("hello", "String", "String", "String")],
    })
    .unwrap()
}

#[test]
fn main_hello_world() {
    let addr = socket("127.0.0.1:2000");
    let _srv = start(&addr);
    let model = hello_model();
    let served = model.clone();
    let processor = move |req| Some(dispatch(&served, &|_method: usize, arg: Value| Ok(arg), req));
    let c = Client::new(
        Wire { client: TcpClientTransport::new(addr), processor: Rc::new(processor) },
        model,
    );
    let msg = String::from("deadbeef");
    let r = c.call(0, Value::from(msg.clone())).unwrap();
    assert_eq!(Value::from(msg), r);
}

#[test]
fn hello_hello_world() {
    let addr = socket("127.0.0.1:2000");
    let _srv = start(&addr);
    let model = hello_model();
    let served = model.clone();
    let processor = move |req| Some(dispatch(&served, &|_method: usize, arg: Value| Ok(arg), req));
    let c = Client::new(
        Wire { client: TcpClientTransport::new(addr), processor: Rc::new(processor) },
        model,
    );
    let msg = String::from("deadbeef");
    let r = c.call(0, Value::from(msg.clone())).unwrap();
    assert_eq!(r.as_str(), Some(msg.as_str()));
}

fn counter_model() -> Expansion {
    service(&Interface {
        name: "Counter".to_string(),
        methods: vec![
            method("counter", "u64", "u64", "String"),
            method("fetch", "u64", "u64", "String"),
        ],
    })
    .unwrap()
}

fn counter_handler(
    rejection: &'static str,
) -> impl Fn(usize, Value) -> Result<Value, String> {
    let value = AtomicU64::new(0);
    move |method: usize, arg: Value| {
        let v = arg.as_u64().unwrap();
        if method == 0 {
            if v == 0 {
                return Err(rejection.to_string());
            }
            let prev = value.fetch_add(v, Ordering::Relaxed);
            Ok(Value::from(prev + v))
        } else {
            Ok(Value::from(value.load(Ordering::Relaxed)))
        }
    }
}

fn run_counter(rejection: &'static str) {
    let addr = socket("127.0.0.1:2001");
    let _srv = start(&addr);
    let model = counter_model();
    let served = model.clone();
    let handler = counter_handler(rejection);
    let processor = Rc::new(move |req| Some(dispatch(&served, &handler, req)));
    let n = 5;
    let k = 10;
    for _ in 0..n {
        let c = Client::new(
            Wire { client: TcpClientTransport::new(addr.clone()), processor: Rc::clone(&processor) },
            model.clone(),
        );
        for _ in 0..k {
            c.call(0, Value::from(1u64)).unwrap();
        }
    }
    let c = Client::new(Wire { client: TcpClientTransport::new(addr), processor }, model);
    let r = c.call(1, Value::from(0u64)).unwrap();
    assert_eq!(r, Value::from((n * k) as u64));

    // This is where it should panic.
    c.call(0, Value::from(0u64)).unwrap();
}

#[test]
#[should_panic(expected = "increment must be above zero")]
fn main_counter() {
    run_counter("increment must be above zero");
}

#[test]
#[should_panic(expected = "IncrementError")]
fn counter_counter() {
    run_counter("IncrementError");
}

fn byzantine_model() -> Expansion {
    service(&Interface {
        name: "Byzantine".to_string(),
        methods: vec![method("byzantine", "u64", "u64", "String")],
    })
    .unwrap()
}

fn run_byzantine() -> (Result<Value, RpcError>, Result<Value, RpcError>) {
    let addr = socket("127.0.0.1:2002");
    let _srv = start(&addr);
    let model = byzantine_model();
    // The service panics with "example panic in test": the worker books the
    // panic of the job and goes on, and the job never comes back.
    let pool = std::cell::RefCell::new(TcpServerTransport::pool::<u8>());
    let processor = |_req| {
        let mut pool = pool.borrow_mut();
        pool.execute(0).unwrap();
        assert_eq!(pool.take(0), Task::Run(0));
        assert_eq!(
            report(0, &Outcome::Panicked),
            Some("Worker 0 caught a panic.".to_string())
        );
        pool.finish(0, Outcome::Panicked);
        assert_eq!(pool.state(0), Some(WorkerState::Idle));
        None
    };
    let c = Client::new(
        Wire { client: TcpClientTransport::new(addr), processor: Rc::new(processor) },
        model,
    );
    let first = c.call(0, Value::from(0u64));
    let second = c.call(0, Value::from(0u64));
    (first, second)
}

#[test]
fn main_error() {
    let (first, _) = run_byzantine();
    assert!(first.is_err());
}

#[test]
fn byzantine_error() {
    let (first, second) = run_byzantine();
    assert!(first.is_err());
    assert!(matches!(second, Err(RpcError::Codec(_))));
}

#[test]
fn fifty_increments_are_fetched_as_fifty() {
    let addr = socket("127.0.0.1:2001");
    let _srv = start(&addr);
    let model = counter_model();
    let served = model.clone();
    let handler = counter_handler("increment must be above zero");
    let processor = Rc::new(move |req| Some(dispatch(&served, &handler, req)));
    let mut last = Value::Null;
    for _ in 0..5 {
        let c = Client::new(
            Wire { client: TcpClientTransport::new(addr.clone()), processor: Rc::clone(&processor) },
            model.clone(),
        );
        for _ in 0..10 {
            last = c.call(0, Value::from(1u64)).unwrap();
        }
    }
    assert_eq!(last, Value::from(50u64));
    let c = Client::new(Wire { client: TcpClientTransport::new(addr), processor }, model);
    assert_eq!(c.call(1, Value::from(0u64)), Ok(Value::from(50u64)));
}

#[test]
fn an_increment_of_zero_is_rejected_by_the_service() {
    let addr = socket("127.0.0.1:2001");
    let model = counter_model();
    let served = model.clone();
    let handler = counter_handler("increment must be above zero");
    let processor = move |req| Some(dispatch(&served, &handler, req));
    let c = Client::new(
        Wire { client: TcpClientTransport::new(addr), processor: Rc::new(processor) },
        model,
    );
    assert_eq!(
        c.call(0, Value::from(0u64)),
        Err(RpcError::Server(ServerError::ProcessorError(
            "increment must be above zero".to_string()
        )))
    );
    assert_eq!(c.call(1, Value::from(0u64)), Ok(Value::from(0u64)));
}

#[test]
fn a_stub_over_a_local_address_has_no_socket() {
    let model = hello_model();
    let served = model.clone();
    let processor = move |req| Some(dispatch(&served, &|_method: usize, arg: Value| Ok(arg), req));
    let c = Client::new(
        Wire {
            client: TcpClientTransport::new(socket("hello-service")),
            processor: Rc::new(processor),
        },
        model,
    );
    assert_eq!(c.call(0, Value::from("deadbeef")), Err(RpcError::NoSocketAddress));
}

#[test]
fn a_server_survives_the_panics_of_its_service() {
    let (first, second) = run_byzantine();
    assert_eq!(first, second);
    assert_eq!(
        first,
        Err(RpcError::Codec("EOF while parsing a value at line 1 column 0".to_string()))
    );
}
