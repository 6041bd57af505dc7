use rpc::transport::tcp::serve;
use rpc::wire::{
    decode_request, decode_request_document, decode_response, decode_response_document,
    encode_request, encode_request_document, encode_response, encode_response_document,
    ClientData, ServerData,
};
use rpc::{Request, Response, RpcError, ServerError};
use serde_json::Value;

fn hello(text: &str) -> Request<ClientData> {
    Request::Data(ClientData { variant: "Hello".to_string(), payload: Value::from(text) })
}

fn responses() -> Vec<Response<ServerData>> {
    vec![
        Response::Data(ServerData { variant: "Counter".to_string(), payload: Value::from(50u64) }),
        Response::Data(ServerData { variant: "Unit".to_string(), payload: Value::Null }),
        Response::Error(ServerError::BadRequest),
        Response::Error(ServerError::DecodingError("expected value".to_string())),
        Response::Error(ServerError::ProcessorError("increment must be above zero".to_string())),
        Response::Error(ServerError::ProcessorError(String::new())),
    ]
}

#[test]
fn a_request_is_an_object_of_objects() {
    let bytes = encode_request(hello("deadbeef"));
    assert_eq!(String::from_utf8(bytes).unwrap(), "{\"Data\":{\"Hello\":\"deadbeef\"}}");
}

#[test]
fn a_response_with_data_has_the_shape_of_a_request() {
    let resp = Response::Data(ServerData { variant: "Fetch".to_string(), payload: Value::from(50u64) });
    let bytes = encode_response(resp);
    assert_eq!(String::from_utf8(bytes).unwrap(), "{\"Data\":{\"Fetch\":50}}");
}

#[test]
fn errors_are_written_by_their_variant() {
    let bad = encode_response(Response::Error(ServerError::BadRequest));
    assert_eq!(String::from_utf8(bad).unwrap(), "{\"Error\":\"BadRequest\"}");
    let text = "expected value at line 1 column 1".to_string();
    let decoding = encode_response(Response::Error(ServerError::DecodingError(text)));
    assert_eq!(
        String::from_utf8(decoding).unwrap(),
        "{\"Error\":{\"DecodingError\":\"expected value at line 1 column 1\"}}"
    );
    let rejected =
        encode_response(Response::Error(ServerError::ProcessorError("no".to_string())));
    assert_eq!(String::from_utf8(rejected).unwrap(), "{\"Error\":{\"ProcessorError\":\"no\"}}");
}

#[test]
fn a_request_comes_back_from_its_document() {
    for req in [hello("deadbeef"), hello(""), hello("{\"Data\":1}")] {
        let doc = encode_request_document(req.clone());
        assert_eq!(decode_request_document(&doc), Some(req));
    }
    let nested = Request::Data(ClientData {
        variant: "Data".to_string(),
        payload: encode_request_document(hello("inner")),
    });
    assert_eq!(decode_request_document(&encode_request_document(nested.clone())), Some(nested));
}

#[test]
fn a_response_comes_back_from_its_document() {
    for resp in responses() {
        let doc = encode_response_document(resp.clone());
        assert_eq!(decode_response_document(&doc), Some(resp));
    }
}

#[test]
fn requests_and_responses_come_back_from_their_bytes() {
    let req = hello("deadbeef");
    assert_eq!(decode_request(&encode_request(req.clone())), Ok(req));
    for resp in responses() {
        assert_eq!(decode_response(&encode_response(resp.clone())), Ok(resp));
    }
}

#[test]
fn whitespace_around_the_document_is_no_part_of_it() {
    let req = decode_request(b" { \"Data\" : { \"Hello\" : \"x\" } }\n").unwrap();
    assert_eq!(req, hello("x"));
}

#[test]
fn bytes_that_are_no_json_are_answered_with_the_parsers_message() {
    assert_eq!(
        decode_request(b"not json"),
        Err(ServerError::DecodingError("expected ident at line 1 column 2".to_string()))
    );
    assert_eq!(
        decode_request(b"garbage"),
        Err(ServerError::DecodingError("expected value at line 1 column 1".to_string()))
    );
    assert_eq!(
        decode_request(b"{\"Data\":"),
        Err(ServerError::DecodingError("EOF while parsing a value at line 1 column 8".to_string()))
    );
}

#[test]
fn empty_input_is_no_request() {
    assert_eq!(
        decode_request(b""),
        Err(ServerError::DecodingError("EOF while parsing a value at line 1 column 0".to_string()))
    );
    assert_eq!(
        decode_response(b""),
        Err(RpcError::Codec("EOF while parsing a value at line 1 column 0".to_string()))
    );
}

#[test]
fn json_that_is_no_request_is_malformed() {
    let malformed = Err(ServerError::DecodingError("malformed request".to_string()));
    for bytes in [
        &b"null"[..],
        b"\"Data\"",
        b"[]",
        b"{}",
        b"{\"Data\":1}",
        b"{\"Data\":{}}",
        b"{\"Data\":{\"A\":1,\"B\":2}}",
        b"{\"Data\":{\"A\":1},\"Error\":\"BadRequest\"}",
        b"{\"Error\":\"BadRequest\"}",
        b"{\"data\":{\"A\":1}}",
    ] {
        assert_eq!(decode_request(bytes), malformed);
    }
}

#[test]
fn json_that_is_no_response_is_malformed() {
    let malformed = Err(RpcError::Codec("malformed response".to_string()));
    for bytes in [
        &b"null"[..],
        b"{}",
        b"{\"Data\":1}",
        b"{\"Error\":\"Other\"}",
        b"{\"Error\":{\"DecodingError\":1}}",
        b"{\"Error\":{\"Unknown\":\"x\"}}",
        b"{\"Error\":{\"DecodingError\":\"a\",\"ProcessorError\":\"b\"}}",
        b"{\"Other\":{\"A\":1}}",
    ] {
        assert_eq!(decode_response(bytes), malformed);
    }
    assert_eq!(
        decode_response(b"not json"),
        Err(RpcError::Codec("expected ident at line 1 column 2".to_string()))
    );
}

#[test]
fn the_server_answers_bytes_that_are_no_json() {
    let reply = serve(b"not json", &|_req| -> Response<ServerData> {
        panic!("the processor is not asked")
    });
    assert_eq!(
        String::from_utf8(reply.clone()).unwrap(),
        "{\"Error\":{\"DecodingError\":\"expected ident at line 1 column 2\"}}"
    );
    assert_eq!(
        decode_response(&reply),
        Ok(Response::Error(ServerError::DecodingError(
            "expected ident at line 1 column 2".to_string()
        )))
    );
}

#[test]
fn the_server_answers_with_what_the_processor_returns() {
    let echo = |req: Request<ClientData>| match req {
        Request::Data(data) => {
            Response::Data(ServerData { variant: data.variant, payload: data.payload })
        }
    };
    let reply = serve(b"{\"Data\":{\"Hello\":\"deadbeef\"}}", &echo);
    assert_eq!(String::from_utf8(reply).unwrap(), "{\"Data\":{\"Hello\":\"deadbeef\"}}");
}

#[test]
fn a_codec_failure_carries_the_message() {
    let err = serde_json::from_slice::<Value>(b"[1,").unwrap_err();
    assert_eq!(
        RpcError::from_codec(&err),
        RpcError::Codec("EOF while parsing a value at line 1 column 3".to_string())
    );
}
