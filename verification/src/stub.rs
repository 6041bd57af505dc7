//! What an expanded interface does at run time: the dispatcher on the server
//! and the stub on the client.

use vstd::prelude::*;
use crate::error::{RpcError, RpcErrorView, ServerError, ServerErrorView};
use crate::interface::{ClientFunc, Expansion, HandlerArm};
use crate::transport::{ClientTransport, Connection};
use crate::wire::{ClientData, ServerData, Tagged};
use crate::{Request, Response, ResponseView};

verus! {

/// What a service method returned, as a value: its result, or its error as
/// text.
pub open spec fn outcome_view(outcome: Result<serde_json::Value, String>) -> Result<
    serde_json::Value,
    Seq<char>,
> {
    match outcome {
        Ok(value) => Ok(value),
        Err(text) => Err(text@),
    }
}

/// What a client call returned, as a value.
pub open spec fn result_view(result: Result<serde_json::Value, RpcError>) -> Result<
    serde_json::Value,
    RpcErrorView,
> {
    match result {
        Ok(value) => Ok(value),
        Err(e) => Err(e@),
    }
}

/// What a transport returned, as a value.
pub open spec fn reply_view(reply: Result<Response<ServerData>, RpcError>) -> Result<
    ResponseView<Tagged>,
    RpcErrorView,
> {
    match reply {
        Ok(resp) => Ok(resp@),
        Err(e) => Err(e@),
    }
}

/// The response to a request of `variant` whose method returned `outcome`:
/// the result under the same variant, or the error as a processor error.
pub open spec fn responded(variant: Seq<char>, outcome: Result<serde_json::Value, Seq<char>>)
    -> ResponseView<Tagged> {
    match outcome {
        Ok(value) => ResponseView::Data(Tagged { variant, payload: value }),
        Err(text) => ResponseView::Error(ServerErrorView::ProcessorError(text)),
    }
}

/// What a call under `variant` makes of the transport's reply: the payload of
/// data under the same variant; `InvalidResponseType` for data under another;
/// the server's error, wrapped; the transport's failure, as it is.
pub open spec fn demuxed(variant: Seq<char>, reply: Result<ResponseView<Tagged>, RpcErrorView>)
    -> Result<serde_json::Value, RpcErrorView> {
    match reply {
        Ok(ResponseView::Data(data)) => if data.variant == variant {
            Ok(data.payload)
        } else {
            Err(RpcErrorView::InvalidResponseType)
        },
        Ok(ResponseView::Error(err)) => Err(RpcErrorView::Server(err)),
        Err(e) => Err(e),
    }
}

/// Wraps what a service method returned into the response.
pub fn respond(variant: String, outcome: Result<serde_json::Value, String>) -> (resp: Response<
    ServerData,
>)
    ensures
        resp@ == responded(variant@, outcome_view(outcome)),
{
    match outcome {
        Ok(value) => Response::Data(ServerData { variant, payload: value }),
        Err(text) => Response::Error(ServerError::ProcessorError(text)),
    }
}

impl HandlerArm {
    /// Wraps what the arm's method returned into the response: the result
    /// under the arm's variant, or the error as a processor error.
    pub fn respond(&self, outcome: Result<serde_json::Value, String>) -> (resp: Response<
        ServerData,
    >)
        ensures
            resp@ == responded(self.variant@, outcome_view(outcome)),
    {
        respond(self.variant.clone(), outcome)
    }
}

impl ClientFunc {
    /// The request that the stub's method sends for an argument.
    pub fn pack(&self, arg: serde_json::Value) -> (req: Request<ClientData>)
        ensures
            req@ == Request::Data(Tagged { variant: self.variant@, payload: arg }),
    {
        Request::Data(ClientData { variant: self.variant.clone(), payload: arg })
    }

    /// What the stub's method makes of the transport's reply.
    pub fn demux(&self, reply: Result<Response<ServerData>, RpcError>) -> (r: Result<
        serde_json::Value,
        RpcError,
    >)
        ensures
            result_view(r) == demuxed(self.variant@, reply_view(reply)),
    {
        demux(&self.variant, reply)
    }
}

/// Whether `resp` answers `req` as the dispatcher of `model` over `handler`
/// does: a request that no arm serves with a bad request; any other with the
/// response to what the handler returned for the arm's position and the
/// payload.
pub open spec fn dispatched<H>(
    model: &Expansion,
    handler: &H,
    req: Request<Tagged>,
    resp: ResponseView<Tagged>,
) -> bool where H: Fn(usize, serde_json::Value) -> Result<serde_json::Value, String> {
    match req {
        Request::Data(data) => match model.arm_of(data.variant) {
            Some(i) => exists|outcome: Result<serde_json::Value, String>|
                call_ensures(*handler, (i as usize, data.payload), outcome) && resp == responded(
                    data.variant,
                    outcome_view(outcome),
                ),
            None => resp == ResponseView::<Tagged>::Error(ServerErrorView::BadRequest),
        },
    }
}

/// Whether what the handler returns is fixed by the method and the argument.
pub open spec fn determined<H>(handler: &H) -> bool where
    H: Fn(usize, serde_json::Value) -> Result<serde_json::Value, String>,
 {
    forall|
        i: usize,
        arg: serde_json::Value,
        a: Result<serde_json::Value, String>,
        b: Result<serde_json::Value, String>,
    |
        call_ensures(*handler, (i, arg), a) && call_ensures(*handler, (i, arg), b)
            ==> outcome_view(a) == outcome_view(b)
}

/// Serves one request: finds the arm of its variant, calls the handler with
/// the arm's position and the payload, and wraps what came back. A request
/// that no arm serves is a bad request, and the handler is not called.
pub fn dispatch<H>(model: &Expansion, handler: &H, req: Request<ClientData>) -> (resp: Response<
    ServerData,
>) where H: Fn(usize, serde_json::Value) -> Result<serde_json::Value, String>
    requires
        forall|i: usize, arg: serde_json::Value|
            i < model.len() ==> call_requires(handler, (i, arg)),
    ensures
        dispatched(model, handler, req@, resp@),
{
    match req {
        Request::Data(data) => match model.find(data.variant.as_str()) {
            Some(i) => {
                let outcome = handler(i, data.payload);
                model.handlers[i].respond(outcome)
            },
            None => Response::Error(ServerError::BadRequest),
        },
    }
}

/// Why a method gave no result.
#[derive(Clone, Debug, PartialEq, Eq)]
pub enum Refusal {
    /// The payload is no argument of the method; the text says why.
    Undecodable(String),
    /// The service rejected the request; the text is its error, stringified.
    Rejected(String),
}

/// The mathematical value of a [`Refusal`].
pub enum RefusalView {
    Undecodable(Seq<char>),
    Rejected(Seq<char>),
}

impl View for Refusal {
    type V = RefusalView;

    open spec fn view(&self) -> RefusalView {
        match self {
            Refusal::Undecodable(text) => RefusalView::Undecodable(text@),
            Refusal::Rejected(text) => RefusalView::Rejected(text@),
        }
    }
}

/// What a method over typed arguments returned, as a value.
pub open spec fn typed_view(outcome: Result<serde_json::Value, Refusal>) -> Result<
    serde_json::Value,
    RefusalView,
> {
    match outcome {
        Ok(value) => Ok(value),
        Err(refusal) => Err(refusal@),
    }
}

/// The response to a request of `variant` whose method, over typed arguments,
/// returned `outcome`: the result under the same variant; a decoding error
/// for a payload that is no argument of the method; a processor error for a
/// request that the service rejected.
pub open spec fn answered(variant: Seq<char>, outcome: Result<serde_json::Value, RefusalView>)
    -> ResponseView<Tagged> {
    match outcome {
        Ok(value) => ResponseView::Data(Tagged { variant, payload: value }),
        Err(RefusalView::Undecodable(text)) => ResponseView::Error(
            ServerErrorView::DecodingError(text),
        ),
        Err(RefusalView::Rejected(text)) => ResponseView::Error(
            ServerErrorView::ProcessorError(text),
        ),
    }
}

/// Whether `resp` answers `req` as the dispatcher of `model` over a handler
/// with typed arguments does: a request that no arm serves with a bad
/// request; any other with the response to what the handler returned for the
/// arm's position and the payload.
pub open spec fn dispatched_typed<H>(
    model: &Expansion,
    handler: &H,
    req: Request<Tagged>,
    resp: ResponseView<Tagged>,
) -> bool where H: Fn(usize, serde_json::Value) -> Result<serde_json::Value, Refusal> {
    match req {
        Request::Data(data) => match model.arm_of(data.variant) {
            Some(i) => exists|outcome: Result<serde_json::Value, Refusal>|
                call_ensures(*handler, (i as usize, data.payload), outcome) && resp == answered(
                    data.variant,
                    typed_view(outcome),
                ),
            None => resp == ResponseView::<Tagged>::Error(ServerErrorView::BadRequest),
        },
    }
}

/// Wraps what a method over typed arguments returned into the response.
pub fn respond_typed(variant: String, outcome: Result<serde_json::Value, Refusal>) -> (resp:
    Response<ServerData>)
    ensures
        resp@ == answered(variant@, typed_view(outcome)),
{
    match outcome {
        Ok(value) => Response::Data(ServerData { variant, payload: value }),
        Err(Refusal::Undecodable(text)) => Response::Error(ServerError::DecodingError(text)),
        Err(Refusal::Rejected(text)) => Response::Error(ServerError::ProcessorError(text)),
    }
}

/// Serves one request over a handler whose methods take typed arguments: it
/// finds the arm of the request's variant, calls the handler with the arm's
/// position and the payload, and wraps what came back. A payload that the
/// handler could not decode is answered with a decoding error, a request that
/// the service rejected with a processor error, and a request that no arm
/// serves with a bad request, without a call of the handler.
pub fn dispatch_typed<H>(model: &Expansion, handler: &H, req: Request<ClientData>) -> (resp:
    Response<ServerData>) where
    H: Fn(usize, serde_json::Value) -> Result<serde_json::Value, Refusal>,

    requires
        forall|i: usize, arg: serde_json::Value|
            i < model.len() ==> call_requires(handler, (i, arg)),
    ensures
        dispatched_typed(model, handler, req@, resp@),
{
    match req {
        Request::Data(data) => match model.find(data.variant.as_str()) {
            Some(i) => {
                let outcome = handler(i, data.payload);
                respond_typed(data.variant, outcome)
            },
            None => Response::Error(ServerError::BadRequest),
        },
    }
}

/// A service made ready to serve: what its interface expands to, and the
/// handler that calls its methods by position.
pub struct Processor<H> {
    pub model: Expansion,
    pub handler: H,
}

/// Turns a service into its dispatcher. The dispatcher owns the service.
pub fn into_processor<H>(model: Expansion, handler: H) -> (p: Processor<H>) where
    H: Fn(usize, serde_json::Value) -> Result<serde_json::Value, String>,

    ensures
        p.model == model,
        p.handler == handler,
{
    Processor { model, handler }
}

impl<H> Processor<H> where H: Fn(usize, serde_json::Value) -> Result<serde_json::Value, String> {
    /// Whether the dispatcher can serve: the handler takes every method of the
    /// expansion.
    pub open spec fn wf(&self) -> bool {
        forall|i: usize, arg: serde_json::Value|
            i < self.model.len() ==> call_requires(self.handler, (i, arg))
    }

    /// Serves one request, as [`dispatch`] does.
    pub fn process(&self, req: Request<ClientData>) -> (resp: Response<ServerData>)
        requires
            self.wf(),
        ensures
            dispatched(&self.model, &self.handler, req@, resp@),
    {
        dispatch(&self.model, &self.handler, req)
    }
}

/// Sorts out the transport's reply to a call under `variant`.
pub fn demux(variant: &String, reply: Result<Response<ServerData>, RpcError>) -> (r: Result<
    serde_json::Value,
    RpcError,
>)
    ensures
        result_view(r) == demuxed(variant@, reply_view(reply)),
{
    match reply {
        Ok(Response::Data(data)) => if data.variant == *variant {
            Ok(data.payload)
        } else {
            Err(RpcError::InvalidResponseType)
        },
        Ok(Response::Error(err)) => Err(RpcError::from_server_err(err)),
        Err(e) => Err(e),
    }
}

/// The client stub of a service: one call per method, each a single round
/// trip over the transport.
pub struct Client<T> {
    pub t: T,
    pub model: Expansion,
}

impl<T> Client<T> where T: ClientTransport<Request<ClientData>, Response<ServerData>> {
    /// A stub for the service that expands to `model`, over the transport.
    pub fn new(t: T, model: Expansion) -> (c: Client<T>)
        ensures
            c.t == t,
            c.model == model,
    {
        Client { t, model }
    }

    /// The request that a call of the method at position `method` sends.
    pub open spec fn request(&self, method: int, arg: serde_json::Value) -> Request<Tagged> {
        Request::Data(Tagged { variant: self.model.client_funcs@[method].variant@, payload: arg })
    }

    /// Packs the argument of the method at position `method` into its request.
    pub fn pack(&self, method: usize, arg: serde_json::Value) -> (req: Request<ClientData>)
        requires
            method < self.model.client_funcs@.len(),
        ensures
            req@ == self.request(method as int, arg),
    {
        self.model.client_funcs[method].pack(arg)
    }

    /// Whether `r` is what a call of the method at position `method` comes to
    /// over this transport: some connection of the transport, asked with the
    /// method's packed request, gave a reply of which `r` is what the method's
    /// stub makes.
    pub open spec fn called(
        &self,
        method: int,
        arg: serde_json::Value,
        r: Result<serde_json::Value, RpcError>,
    ) -> bool {
        exists|
            conn: T::Connection,
            req: Request<ClientData>,
            reply: Result<Response<ServerData>, RpcError>,
        |
            req@ == self.request(method, arg) && call_ensures(T::connect, (&self.t,), conn)
                && call_ensures(
                <T::Connection as Connection<Request<ClientData>, Response<ServerData>>>::call,
                (&conn, req),
                reply,
            ) && result_view(r) == demuxed(
                self.model.client_funcs@[method].variant@,
                reply_view(reply),
            )
    }

    /// Calls the method at position `method`: packs the argument, asks one
    /// connection of the transport once with the packed request, and sorts
    /// out its reply. A value comes only from data under the method's own
    /// variant, and a failure of the transport comes back as it is.
    pub fn call(&self, method: usize, arg: serde_json::Value) -> (r: Result<
        serde_json::Value,
        RpcError,
    >)
        requires
            method < self.model.client_funcs@.len(),
        ensures
            self.called(method as int, arg, r),
    {
        let req = self.pack(method, arg);
        let ghost sent = req;
        let conn = self.t.connect();
        let reply = conn.call(req);
        let ghost got = reply;
        let r = self.model.client_funcs[method].demux(reply);
        proof {
            assert(sent@ == self.request(method as int, arg));
            assert(call_ensures(T::connect, (&self.t,), conn));
            assert(call_ensures(
                <T::Connection as Connection<Request<ClientData>, Response<ServerData>>>::call,
                (&conn, sent),
                got,
            ));
        }
        r
    }
}

/// What a call comes to where the method returned `outcome`: its result, or
/// its error as the server's processor error.
pub open spec fn delivered(outcome: Result<serde_json::Value, Seq<char>>) -> Result<
    serde_json::Value,
    RpcErrorView,
> {
    match outcome {
        Ok(value) => Ok(value),
        Err(text) => Err(RpcErrorView::Server(ServerErrorView::ProcessorError(text))),
    }
}

/// One call from stub to service and back, within this process: the argument
/// is packed, the request written as a document and read again, dispatched,
/// the response written as a document and read again, and sorted out.
///
/// The method that is called is the one at position `method`, with the very
/// argument, and the call comes to what that method returned: `Ok(value)`
/// where it returned `Ok(value)`, and the server's processor error with the
/// text where it returned `Err(text)`.
pub fn exchange<H>(model: &Expansion, handler: &H, method: usize, arg: serde_json::Value) -> (r:
    Result<serde_json::Value, RpcError>) where
    H: Fn(usize, serde_json::Value) -> Result<serde_json::Value, String>,

    requires
        model.wf(),
        method < model.len(),
        forall|i: usize, arg: serde_json::Value|
            i < model.len() ==> call_requires(handler, (i, arg)),
    ensures
        exists|outcome: Result<serde_json::Value, String>|
            call_ensures(handler, (method, arg), outcome) && result_view(r) == delivered(
                outcome_view(outcome),
            ),
{
    proof {
        lemma_stub_reaches_its_method(*model, method as int);
    }
    let variant = model.client_funcs[method].variant.clone();
    let req = Request::Data(ClientData { variant: variant.clone(), payload: arg });
    let sent = crate::wire::encode_request_document(req);
    let resp = match crate::wire::decode_request_document(&sent) {
        Some(received) => dispatch(model, handler, received),
        None => Response::Error(ServerError::BadRequest),
    };
    let answered = crate::wire::encode_response_document(resp);
    match crate::wire::decode_response_document(&answered) {
        Some(reply) => demux(&variant, Ok(reply)),
        None => Err(RpcError::InvalidResponseType),
    }
}

/// A call whose method returned `Ok(value)` yields `Ok(value)`: the
/// dispatcher's response, handed to the stub of the same method, comes out as
/// the value.
pub proof fn lemma_call_returns_value(variant: Seq<char>, value: serde_json::Value)
    ensures
        demuxed(variant, Ok(responded(variant, Ok(value)))) == Ok::<_, RpcErrorView>(value),
{
}

/// A call whose method returned `Err(text)` yields the server's processor
/// error with that text.
pub proof fn lemma_call_returns_rejection(variant: Seq<char>, text: Seq<char>)
    ensures
        demuxed(variant, Ok(responded(variant, Err(text)))) == Err::<serde_json::Value, _>(
            RpcErrorView::Server(ServerErrorView::ProcessorError(text)),
        ),
{
}

/// A service whose methods' results are fixed by their arguments answers the
/// same request with the same response: any two responses that the
/// dispatcher gives to one request are one.
pub proof fn lemma_same_request_same_response<H>(
    model: &Expansion,
    handler: &H,
    req: Request<Tagged>,
    first: ResponseView<Tagged>,
    second: ResponseView<Tagged>,
) where H: Fn(usize, serde_json::Value) -> Result<serde_json::Value, String>
    requires
        determined(handler),
        dispatched(model, handler, req, first),
        dispatched(model, handler, req, second),
    ensures
        first == second,
{
}

/// A call yields a value only from data under its own variant, and data under
/// any other variant yields `InvalidResponseType`.
pub proof fn lemma_variant_integrity(
    variant: Seq<char>,
    reply: Result<ResponseView<Tagged>, RpcErrorView>,
)
    ensures
        demuxed(variant, reply) is Ok <==> (reply matches Ok(ResponseView::Data(data))
            && data.variant == variant),
        demuxed(variant, reply) matches Ok(value) ==> reply == Ok::<_, RpcErrorView>(
            ResponseView::Data(Tagged { variant, payload: value }),
        ),
        reply matches Ok(ResponseView::Data(data)) && data.variant != variant ==> demuxed(
            variant,
            reply,
        ) == Err::<serde_json::Value, _>(RpcErrorView::InvalidResponseType),
{
}

/// A call whose transport failed, or whose connection delivered no response,
/// yields that failure and no value, whichever method was called and however
/// often.
pub proof fn lemma_failure_is_handed_on(variant: Seq<char>, failure: RpcErrorView)
    ensures
        demuxed(variant, Err(failure)) == Err::<serde_json::Value, _>(failure),
{
}

/// An interface without methods serves nothing: no variant has an arm, so
/// the dispatcher answers every request with a bad request.
pub proof fn lemma_empty_interface_serves_nothing(model: Expansion, variant: Seq<char>)
    requires
        model.len() == 0,
    ensures
        model.arm_of(variant) is None,
{
}

/// The stub and the dispatcher agree on every method: the variant under which
/// the stub of the method at position `i` sends is served by the arm at
/// position `i`, which calls that very method.
pub proof fn lemma_stub_reaches_its_method(model: Expansion, i: int)
    requires
        model.wf(),
        0 <= i < model.len(),
    ensures
        model.arm_of(model.client_funcs@[i].variant@) == Some(i),
        model.handlers@[i].method@ == model.client_funcs@[i].method@,
{
    let variant = model.client_funcs@[i].variant@;
    assert(model.handlers@[i].variant@ == variant);
    assert forall|j: int| 0 <= j < i implies (#[trigger] model.handlers@[j]).variant@ != variant by {
        assert(model.handlers@[j].variant@ != model.handlers@[i].variant@);
    }
    assert(model.first_arm(variant, i));
    model.lemma_first_arm_is_one(variant, i, model.arm_of(variant)->0);
}

} // verus!
