//! The wire format: one JSON document per message, a sum written as an object
//! with a single key, the variant's name, whose value is the payload.
//!
//! `{"Data":{"Hello":"deadbeef"}}` is a request, and a response that carries
//! data; `{"Error":"BadRequest"}` and `{"Error":{"DecodingError":"..."}}` are
//! responses that carry an error.
//!
//! Payloads stay what the JSON library made of them. The envelope around them
//! is built and taken apart here, through the few operations of the JSON
//! library that the end of this file declares.

use vstd::prelude::*;
use vstd::string::*;
use crate::error::{RpcError, RpcErrorView, ServerError, ServerErrorView};
use crate::{Request, Response, ResponseView};

verus! {

/// A value of the request sum: the variant of one method and its argument.
#[derive(Clone, Debug, PartialEq)]
pub struct ClientData {
    pub variant: String,
    pub payload: serde_json::Value,
}

/// A value of the response sum: the variant of one method and its result.
#[derive(Clone, Debug, PartialEq)]
pub struct ServerData {
    pub variant: String,
    pub payload: serde_json::Value,
}

/// The mathematical value of a [`ClientData`] or a [`ServerData`].
pub struct Tagged {
    pub variant: Seq<char>,
    pub payload: serde_json::Value,
}

impl View for ClientData {
    type V = Tagged;

    open spec fn view(&self) -> Tagged {
        Tagged { variant: self.variant@, payload: self.payload }
    }
}

impl View for ServerData {
    type V = Tagged;

    open spec fn view(&self) -> Tagged {
        Tagged { variant: self.variant@, payload: self.payload }
    }
}

/// The text that answers a document which is JSON but no request.
pub open spec fn malformed_request() -> Seq<char> {
    "malformed request"@
}

/// The text that reports a document which is JSON but no response.
pub open spec fn malformed_response() -> Seq<char> {
    "malformed response"@
}

/// The document of a sum's value: `{variant: payload}`.
pub open spec fn tagged_document(data: Tagged) -> serde_json::Value {
    object_of(data.variant, data.payload)
}

/// The sum's value that a document holds: it is an object with one entry.
pub open spec fn document_tagged(doc: serde_json::Value) -> Option<Tagged> {
    match entries_of(doc) {
        Some(entries) => if entries.len() == 1 {
            Some(Tagged { variant: entries[0].0, payload: entries[0].1 })
        } else {
            None
        },
        None => None,
    }
}

/// The document of a request: `{"Data": {variant: payload}}`.
pub open spec fn request_document(req: Request<Tagged>) -> serde_json::Value {
    match req {
        Request::Data(data) => object_of("Data"@, tagged_document(data)),
    }
}

/// The request that a document holds, if it holds one.
pub open spec fn document_request(doc: serde_json::Value) -> Option<Request<Tagged>> {
    match document_tagged(doc) {
        Some(envelope) => if envelope.variant == "Data"@ {
            match document_tagged(envelope.payload) {
                Some(data) => Some(Request::Data(data)),
                None => None,
            }
        } else {
            None
        },
        None => None,
    }
}

/// The document of a server's error: the string `"BadRequest"`, or
/// `{"DecodingError": text}`, or `{"ProcessorError": text}`.
pub open spec fn error_document(err: ServerErrorView) -> serde_json::Value {
    match err {
        ServerErrorView::BadRequest => string_of("BadRequest"@),
        ServerErrorView::DecodingError(text) => object_of("DecodingError"@, string_of(text)),
        ServerErrorView::ProcessorError(text) => object_of("ProcessorError"@, string_of(text)),
    }
}

/// The server's error that a document holds, if it holds one.
pub open spec fn document_error(doc: serde_json::Value) -> Option<ServerErrorView> {
    if text_of(doc) == Some("BadRequest"@) {
        Some(ServerErrorView::BadRequest)
    } else {
        match document_tagged(doc) {
            Some(t) => match text_of(t.payload) {
                Some(text) => if t.variant == "DecodingError"@ {
                    Some(ServerErrorView::DecodingError(text))
                } else if t.variant == "ProcessorError"@ {
                    Some(ServerErrorView::ProcessorError(text))
                } else {
                    None
                },
                None => None,
            },
            None => None,
        }
    }
}

/// The document of a response: `{"Data": {variant: payload}}`, or
/// `{"Error": error}`.
pub open spec fn response_document(resp: ResponseView<Tagged>) -> serde_json::Value {
    match resp {
        ResponseView::Data(data) => object_of("Data"@, tagged_document(data)),
        ResponseView::Error(err) => object_of("Error"@, error_document(err)),
    }
}

/// The response that a document holds, if it holds one.
pub open spec fn document_response(doc: serde_json::Value) -> Option<ResponseView<Tagged>> {
    match document_tagged(doc) {
        Some(envelope) => if envelope.variant == "Data"@ {
            match document_tagged(envelope.payload) {
                Some(data) => Some(ResponseView::Data(data)),
                None => None,
            }
        } else if envelope.variant == "Error"@ {
            match document_error(envelope.payload) {
                Some(err) => Some(ResponseView::Error(err)),
                None => None,
            }
        } else {
            None
        },
        None => None,
    }
}

/// What the bytes of a request decode to on the server: the request, or the
/// decoding error that answers them.
pub open spec fn decoded_request(bytes: Seq<u8>) -> Result<Request<Tagged>, ServerErrorView> {
    match parsed(bytes) {
        Ok(doc) => match document_request(doc) {
            Some(req) => Ok(req),
            None => Err(ServerErrorView::DecodingError(malformed_request())),
        },
        Err(message) => Err(ServerErrorView::DecodingError(message)),
    }
}

/// What the bytes of a response decode to on the client: the response, or the
/// codec failure that reports them.
pub open spec fn decoded_response(bytes: Seq<u8>) -> Result<ResponseView<Tagged>, RpcErrorView> {
    match parsed(bytes) {
        Ok(doc) => match document_response(doc) {
            Some(resp) => Ok(resp),
            None => Err(RpcErrorView::Codec(malformed_response())),
        },
        Err(message) => Err(RpcErrorView::Codec(message)),
    }
}

/// Whether a text is the given literal.
fn is_text(text: &String, literal: &str) -> (b: bool)
    ensures
        b == (text@ == literal@),
{
    *text == String::from_str(literal)
}

/// The single entry of a document that is an object with one entry.
fn single_entry(doc: &serde_json::Value) -> (r: Option<(String, serde_json::Value)>)
    ensures
        match r {
            Some(entry) => document_tagged(*doc) == Some(
                Tagged { variant: entry.0@, payload: entry.1 },
            ),
            None => document_tagged(*doc) is None,
        },
{
    match entries(doc) {
        Some(mut found) => if found.len() == 1 {
            found.pop()
        } else {
            None
        },
        None => None,
    }
}

/// Writes a request as a document. Reading the document gives the request
/// back.
pub fn encode_request_document(req: Request<ClientData>) -> (doc: serde_json::Value)
    ensures
        doc == request_document(req@),
        document_request(doc) == Some(req@),
{
    match req {
        Request::Data(data) => {
            let inner = object(data.variant, data.payload);
            object(String::from_str("Data"), inner)
        },
    }
}

/// Reads a request from a document; `None` where it holds none.
pub fn decode_request_document(doc: &serde_json::Value) -> (r: Option<Request<ClientData>>)
    ensures
        match r {
            Some(req) => document_request(*doc) == Some(req@),
            None => document_request(*doc) is None,
        },
{
    match single_entry(doc) {
        Some((key, inner)) => if is_text(&key, "Data") {
            match single_entry(&inner) {
                Some((variant, payload)) => Some(Request::Data(ClientData { variant, payload })),
                None => None,
            }
        } else {
            None
        },
        None => None,
    }
}

/// Writes a server's error as a document.
fn encode_error_document(err: ServerError) -> (doc: serde_json::Value)
    ensures
        doc == error_document(err@),
        document_error(doc) == Some(err@),
{
    proof {
        reveal_strlit("BadRequest");
        reveal_strlit("DecodingError");
        reveal_strlit("ProcessorError");
    }
    match err {
        ServerError::BadRequest => {
            let doc = string(String::from_str("BadRequest"));
            assert(document_error(doc) == Some(ServerErrorView::BadRequest));
            doc
        },
        ServerError::DecodingError(text) => {
            let doc = object(String::from_str("DecodingError"), string(text));
            assert(document_error(doc) == Some(ServerErrorView::DecodingError(text@)));
            doc
        },
        ServerError::ProcessorError(text) => {
            let doc = object(String::from_str("ProcessorError"), string(text));
            assert("ProcessorError"@.len() == 14 && "DecodingError"@.len() == 13);
            assert(document_error(doc) == Some(ServerErrorView::ProcessorError(text@)));
            doc
        },
    }
}

/// Reads a server's error from a document; `None` where it holds none.
fn decode_error_document(doc: &serde_json::Value) -> (r: Option<ServerError>)
    ensures
        match r {
            Some(err) => document_error(*doc) == Some(err@),
            None => document_error(*doc) is None,
        },
{
    let unit = match text(doc) {
        Some(name) => is_text(&name, "BadRequest"),
        None => false,
    };
    if unit {
        return Some(ServerError::BadRequest);
    }
    match single_entry(doc) {
        Some((variant, payload)) => match text(&payload) {
            Some(message) => if is_text(&variant, "DecodingError") {
                Some(ServerError::DecodingError(message))
            } else if is_text(&variant, "ProcessorError") {
                Some(ServerError::ProcessorError(message))
            } else {
                None
            },
            None => None,
        },
        None => None,
    }
}

/// Writes a response as a document. Reading the document gives the response
/// back.
pub fn encode_response_document(resp: Response<ServerData>) -> (doc: serde_json::Value)
    ensures
        doc == response_document(resp@),
        document_response(doc) == Some(resp@),
{
    proof {
        reveal_strlit("Data");
        reveal_strlit("Error");
    }
    match resp {
        Response::Data(data) => {
            let inner = object(data.variant, data.payload);
            object(String::from_str("Data"), inner)
        },
        Response::Error(err) => {
            let inner = encode_error_document(err);
            assert("Data"@.len() == 4 && "Error"@.len() == 5);
            object(String::from_str("Error"), inner)
        },
    }
}

/// Reads a response from a document; `None` where it holds none.
pub fn decode_response_document(doc: &serde_json::Value) -> (r: Option<Response<ServerData>>)
    ensures
        match r {
            Some(resp) => document_response(*doc) == Some(resp@),
            None => document_response(*doc) is None,
        },
{
    match single_entry(doc) {
        Some((key, inner)) => if is_text(&key, "Data") {
            match single_entry(&inner) {
                Some((variant, payload)) => Some(Response::Data(ServerData { variant, payload })),
                None => None,
            }
        } else if is_text(&key, "Error") {
            match decode_error_document(&inner) {
                Some(err) => Some(Response::Error(err)),
                None => None,
            }
        } else {
            None
        },
        None => None,
    }
}

/// The compact JSON text of a document.
fn bytes_of(doc: &serde_json::Value) -> (bytes: Vec<u8>)
    ensures
        bytes@ == printed(*doc),
{
    match print(doc) {
        Ok(bytes) => bytes,
        Err(_) => vstd::pervasive::unreached(),
    }
}

/// The bytes of a request: the compact JSON text of its document.
pub fn encode_request(req: Request<ClientData>) -> (bytes: Vec<u8>)
    ensures
        bytes@ == printed(request_document(req@)),
{
    let doc = encode_request_document(req);
    bytes_of(&doc)
}

/// The bytes of a response: the compact JSON text of its document.
pub fn encode_response(resp: Response<ServerData>) -> (bytes: Vec<u8>)
    ensures
        bytes@ == printed(response_document(resp@)),
{
    let doc = encode_response_document(resp);
    bytes_of(&doc)
}

/// Decodes the bytes of a request on the server. Bytes that are no JSON text
/// give a decoding error with the parser's message, and JSON that is no
/// request gives one that says so. Empty input is never a request.
pub fn decode_request(bytes: &[u8]) -> (r: Result<Request<ClientData>, ServerError>)
    ensures
        match r {
            Ok(req) => decoded_request(bytes@) == Ok::<_, ServerErrorView>(req@),
            Err(e) => decoded_request(bytes@) == Err::<Request<Tagged>, _>(e@),
        },
        bytes@.len() == 0 ==> r is Err,
        r matches Err(e) ==> e is DecodingError,
{
    match parse(bytes) {
        Ok(doc) => match decode_request_document(&doc) {
            Some(req) => Ok(req),
            None => Err(ServerError::DecodingError(String::from_str("malformed request"))),
        },
        Err(e) => Err(ServerError::DecodingError(error_text(&e))),
    }
}

/// Decodes the bytes of a response on the client. Bytes that are no JSON text
/// give a codec failure with the parser's message, and JSON that is no
/// response gives one that says so. Empty input is never a response.
pub fn decode_response(bytes: &[u8]) -> (r: Result<Response<ServerData>, RpcError>)
    ensures
        match r {
            Ok(resp) => decoded_response(bytes@) == Ok::<_, RpcErrorView>(resp@),
            Err(e) => decoded_response(bytes@) == Err::<ResponseView<Tagged>, _>(e@),
        },
        bytes@.len() == 0 ==> r is Err,
        r matches Err(e) ==> e is Codec,
{
    match parse(bytes) {
        Ok(doc) => match decode_response_document(&doc) {
            Some(resp) => Ok(resp),
            None => Err(RpcError::Codec(String::from_str("malformed response"))),
        },
        Err(e) => Err(RpcError::from_codec(&e)),
    }
}

#[verifier::external_type_specification]
#[verifier::external_body]
pub struct ExValue(serde_json::Value);

#[verifier::external_type_specification]
#[verifier::external_body]
pub struct ExJsonError(serde_json::Error);

/// `Clone` of `serde_json::Value`: the copy is the same document. The derived
/// `Clone` of [`ClientData`] and of [`ServerData`] copies the payload by it.
pub assume_specification[ <serde_json::Value as Clone>::clone ](doc: &serde_json::Value) -> (copy:
    serde_json::Value)
    ensures
        copy == *doc,
;

/// The entries of a document that is an object, each a key and a value, in
/// the order in which the object yields them; `None` for any other document.
pub uninterp spec fn entries_of(doc: serde_json::Value) -> Option<
    Seq<(Seq<char>, serde_json::Value)>,
>;

/// The text of a document that is a string; `None` for any other document.
pub uninterp spec fn text_of(doc: serde_json::Value) -> Option<Seq<char>>;

/// The object with the one entry `key: value`.
pub uninterp spec fn object_of(key: Seq<char>, value: serde_json::Value) -> serde_json::Value;

/// The string document with the given text.
pub uninterp spec fn string_of(text: Seq<char>) -> serde_json::Value;

/// What a byte string parses to: its document, or the parser's message where
/// it is no JSON text.
pub uninterp spec fn parsed(bytes: Seq<u8>) -> Result<serde_json::Value, Seq<char>>;

/// The compact JSON text of a document.
pub uninterp spec fn printed(doc: serde_json::Value) -> Seq<u8>;

/// The message that a failure of the JSON library displays.
pub uninterp spec fn message_of(err: serde_json::Error) -> Seq<char>;

/// The entries of an object, keys as they are read.
pub open spec fn keyed(entries: Seq<(String, serde_json::Value)>) -> Seq<
    (Seq<char>, serde_json::Value),
> {
    entries.map_values(|entry: (String, serde_json::Value)| (entry.0@, entry.1))
}

/// `serde_json::from_slice` at `serde_json::Value`: the document of the bytes,
/// or the failure whose message says why they are no JSON text. Empty input
/// fails (end of input while a value is expected).
#[verifier::external_body]
fn parse(bytes: &[u8]) -> (r: Result<serde_json::Value, serde_json::Error>)
    ensures
        match r {
            Ok(doc) => parsed(bytes@) == Ok::<_, Seq<char>>(doc),
            Err(e) => parsed(bytes@) == Err::<serde_json::Value, _>(message_of(e)),
        },
        bytes@.len() == 0 ==> r is Err,
{
    serde_json::from_slice::<serde_json::Value>(bytes)
}

/// `serde_json::to_vec` at `serde_json::Value`: the compact JSON text of the
/// document. It succeeds on every document: on the way of a `Value` through
/// the serializer every failure is one of the writer, and the writer is a
/// `Vec`, which takes every byte.
#[verifier::external_body]
fn print(doc: &serde_json::Value) -> (r: Result<Vec<u8>, serde_json::Error>)
    ensures
        r is Ok,
        r matches Ok(bytes) ==> bytes@ == printed(*doc),
{
    serde_json::to_vec(doc)
}

/// `Display` of `serde_json::Error`, through `to_string`: the failure's
/// message.
#[verifier::external_body]
pub(crate) fn error_text(err: &serde_json::Error) -> (text: String)
    ensures
        text@ == message_of(*err),
{
    err.to_string()
}

/// `serde_json::Value::as_object`, the entries copied out in the order in which
/// the map yields them.
#[verifier::external_body]
fn entries(doc: &serde_json::Value) -> (r: Option<Vec<(String, serde_json::Value)>>)
    ensures
        match r {
            Some(found) => entries_of(*doc) == Some(keyed(found@)),
            None => entries_of(*doc) is None,
        },
{
    doc.as_object().map(|m| m.iter().map(|(k, v)| (k.clone(), v.clone())).collect())
}

/// `serde_json::Value::as_str`, the text copied out.
#[verifier::external_body]
fn text(doc: &serde_json::Value) -> (r: Option<String>)
    ensures
        match r {
            Some(found) => text_of(*doc) == Some(found@),
            None => text_of(*doc) is None,
        },
{
    doc.as_str().map(|s| s.to_string())
}

/// `serde_json::Value::Object` over a map collected from one entry: an object
/// that holds this entry and no other, and is no string.
#[verifier::external_body]
fn object(key: String, value: serde_json::Value) -> (doc: serde_json::Value)
    ensures
        doc == object_of(key@, value),
        entries_of(doc) == Some(seq![(key@, value)]),
        text_of(doc) is None,
{
    serde_json::Value::Object(serde_json::Map::from_iter([(key, value)]))
}

/// `serde_json::Value::String`: a string document with this text, and no
/// object.
#[verifier::external_body]
fn string(text: String) -> (doc: serde_json::Value)
    ensures
        doc == string_of(text@),
        text_of(doc) == Some(text@),
        entries_of(doc) is None,
{
    serde_json::Value::String(text)
}

} // verus!
