use bb_rust::graphql::error::{outcome_to_payload, response_payload};
use bb_rust::graphql::framing::{frame, strip_quotes, unframe};
use bb_rust::graphql::internal::{
    decode_internal, decode_internal_batch, encode_internal, encode_internal_batch,
    internal_batch_response, internal_response, read_element,
};
use bb_rust::graphql::{GraphQLError, GraphQLRequestBody, GraphqlContext, RawInvocationResult};
use bb_rust::json::RawJson;
use bb_rust::misc::DecompressError;
use std::io::Read;

fn request(query: &str, variables: &str) -> GraphQLRequestBody {
    GraphQLRequestBody {
        query: query.to_string(),
        variables: RawJson::from_text(variables).unwrap(),
        context: GraphqlContext::new("pool".to_string()).set_default_language("en".to_string()),
    }
}

fn unwrap_payload(payload: &[u8]) -> serde_json::Value {
    assert_eq!(payload[0], b'"');
    assert_eq!(payload[payload.len() - 1], b'"');
    let stream = base64::decode(&payload[1..payload.len() - 1]).unwrap();
    let mut text = String::new();
    flate2::read::GzDecoder::new(&stream[..]).read_to_string(&mut text).unwrap();
    serde_json::from_str(&text).unwrap()
}

fn ok(payload: Vec<u8>) -> Result<RawInvocationResult, String> {
    Ok(RawInvocationResult { function_error: None, status_code: Some(200), payload: Some(payload) })
}

#[test]
fn encode_internal_frames_one_element() {
    let payload = encode_internal(&request("query test { company { id } }", "{\"a\":[1]}")).unwrap();
    let value = unwrap_payload(&payload);
    let elements = value.as_array().unwrap();
    assert_eq!(elements.len(), 1);
    let body = elements[0]["body"].as_str().unwrap();
    assert_eq!(
        body,
        "{\"query\":\"query test { company { id } }\",\"variables\":{\"a\":[1]},\
         \"context\":{\"graphqlContext\":{\"defaultLanguage\":\"en\",\"language\":\"\",\
         \"groupIds\":[],\"lineIds\":[],\"peripheralIds\":[],\"userPools\":[],\"userSub\":\"\",\
         \"userPool\":\"pool\",\"requiredBy\":null,\"requires\":null}}}"
    );
    let inner: serde_json::Value = serde_json::from_str(body).unwrap();
    assert_eq!(inner["context"]["graphqlContext"]["userPool"].as_str(), Some("pool"));
}

#[test]
fn encode_internal_batch_shares_one_blob() {
    let bodies = vec![request("q1", "null"), request("q\n2", "{}")];
    let payload = encode_internal_batch(&bodies).unwrap();
    let value = unwrap_payload(&payload);
    let elements = value.as_array().unwrap();
    assert_eq!(elements.len(), 2);
    let first: serde_json::Value =
        serde_json::from_str(elements[0]["body"].as_str().unwrap()).unwrap();
    let second: serde_json::Value =
        serde_json::from_str(elements[1]["body"].as_str().unwrap()).unwrap();
    assert_eq!(first["query"].as_str(), Some("q1"));
    assert!(first["variables"].is_null());
    assert_eq!(second["query"].as_str(), Some("q\n2"));
    // The batch of one is the single request.
    assert_eq!(
        encode_internal_batch(&vec![request("q1", "null")]).unwrap(),
        encode_internal(&request("q1", "null")).unwrap()
    );
    let empty = unwrap_payload(&encode_internal_batch(&vec![]).unwrap());
    assert!(empty.as_array().unwrap().is_empty());
}

#[test]
fn frame_is_quoted_base64_of_gzip() {
    let payload = frame(b"[1,2]").unwrap();
    assert_eq!(payload[0], b'"');
    assert_eq!(payload[payload.len() - 1], b'"');
    let inner = &payload[1..payload.len() - 1];
    let stream = base64::decode(inner).unwrap();
    assert_eq!(base64::encode(&stream).as_bytes(), inner);
    assert_eq!(&stream[..2], &[0x1f, 0x8b]);
    assert_eq!(unframe(&payload).unwrap(), b"[1,2]");
    // The quotes are taken off only where both are there.
    assert_eq!(unframe(inner).unwrap(), b"[1,2]");
}

#[test]
fn strip_quotes_wants_both() {
    assert_eq!(strip_quotes(b"\"abc\""), b"abc");
    assert_eq!(strip_quotes(b"\"\""), b"");
    assert_eq!(strip_quotes(b"\"abc"), b"\"abc");
    assert_eq!(strip_quotes(b"abc\""), b"abc\"");
    assert_eq!(strip_quotes(b"\""), b"\"");
    assert_eq!(strip_quotes(b""), b"");
}

#[test]
fn framed_data_decodes_unchanged() {
    let payload = frame(b"[{\"data\": {\"company\": {\"id\": \"7\"}}, \"errors\": null}]").unwrap();
    let data = decode_internal(&payload).unwrap();
    assert_eq!(data.as_str(), "{\"company\": {\"id\": \"7\"}}");
    let payload = frame(b"[{\"data\":[1,2,3]}]").unwrap();
    assert_eq!(decode_internal(&payload).unwrap().as_str(), "[1,2,3]");
}

#[test]
fn errors_come_before_data() {
    let payload =
        frame(b"[{\"data\":{\"a\":1},\"errors\":[{\"message\":\"bad\",\"locations\":[]}]}]").unwrap();
    match decode_internal(&payload) {
        Err(GraphQLError::RemoteGraphQLError(errors)) => {
            assert_eq!(errors.as_str(), "[{\"message\":\"bad\",\"locations\":[]}]")
        }
        other => panic!("{:?}", other),
    }
    let payload = frame(b"[{\"errors\":\"boom\"}]").unwrap();
    assert_eq!(
        decode_internal(&payload),
        Err(GraphQLError::RemoteGraphQLError(RawJson::string("boom")))
    );
}

#[test]
fn decode_internal_names_what_is_wrong() {
    // No base64.
    assert_eq!(decode_internal(b"\"!!!\""), Err(GraphQLError::MalformedResponse));
    // Base64 of something that is no gzip stream.
    let text = format!("\"{}\"", base64::encode(b"plain"));
    assert_eq!(
        decode_internal(text.as_bytes()),
        Err(GraphQLError::DecodeError(DecompressError::DecoderWriterError))
    );
    // Gzip of something that is no JSON.
    assert_eq!(
        decode_internal(&frame(b"{\"a\"").unwrap()),
        Err(GraphQLError::DecodeError(DecompressError::UnexpectedJsonResponse))
    );
    // JSON of other shapes.
    for text in [
        "{\"data\":1}",
        "[]",
        "[{\"data\":1},{\"data\":2}]",
        "[1]",
        "[{}]",
        "[{\"data\":null}]",
        "[{\"data\":null,\"errors\":null}]",
        "[{\"other\":1}]",
    ] {
        assert_eq!(
            decode_internal(&frame(text.as_bytes()).unwrap()),
            Err(GraphQLError::MalformedResponse),
            "{}",
            text
        );
    }
}

#[test]
fn batch_results_stand_in_order() {
    let payload =
        frame(b"[{\"data\":1},{\"errors\":[\"e\"],\"data\":2},{\"data\":null},{\"data\":\"4\"}]")
            .unwrap();
    let results = decode_internal_batch(&payload, 4).unwrap();
    assert_eq!(results.len(), 4);
    assert_eq!(results[0].as_ref().unwrap().as_str(), "1");
    assert_eq!(
        results[1],
        Err(GraphQLError::RemoteGraphQLError(RawJson::from_text("[\"e\"]").unwrap()))
    );
    assert_eq!(results[2], Err(GraphQLError::MalformedResponse));
    assert_eq!(results[3].as_ref().unwrap().as_str(), "\"4\"");
    // As many elements as requests are wanted.
    assert_eq!(decode_internal_batch(&payload, 3), Err(GraphQLError::MalformedResponse));
    assert_eq!(decode_internal_batch(&payload, 5), Err(GraphQLError::MalformedResponse));
    assert_eq!(decode_internal_batch(&frame(b"[]").unwrap(), 0), Ok(vec![]));
    assert_eq!(decode_internal_batch(b"\"!\"", 0), Err(GraphQLError::MalformedResponse));
}

#[test]
fn read_element_wants_an_object() {
    assert_eq!(
        read_element(&RawJson::from_text("[]").unwrap()),
        Err(GraphQLError::MalformedResponse)
    );
    assert_eq!(
        read_element(&RawJson::from_text("{\"data\":{}}").unwrap()),
        Ok(RawJson::from_text("{}").unwrap())
    );
}

#[test]
fn bad_status_code_whatever_the_payload() {
    let good = frame(b"[{\"data\":1}]").unwrap();
    for payload in [Some(good), Some(b"garbage".to_vec()), Some(vec![]), None] {
        let result = RawInvocationResult {
            function_error: None,
            status_code: Some(500),
            payload: payload.clone(),
        };
        assert_eq!(
            internal_response(Ok(result)),
            Err(GraphQLError::BadStatusCode {
                code: Some(500),
                payload: format!("{:?}", payload)
            })
        );
    }
    let result =
        RawInvocationResult { function_error: None, status_code: None, payload: Some(vec![1, 2]) };
    assert_eq!(
        internal_response(Ok(result)),
        Err(GraphQLError::BadStatusCode { code: None, payload: "Some([1, 2])".to_string() })
    );
}

#[test]
fn function_error_comes_first() {
    let result = RawInvocationResult {
        function_error: Some("Unhandled".to_string()),
        status_code: Some(500),
        payload: Some(frame(b"[{\"data\":1}]").unwrap()),
    };
    assert_eq!(
        internal_response(Ok(result)),
        Err(GraphQLError::RemoteFunctionError("Unhandled".to_string()))
    );
    let result = RawInvocationResult {
        function_error: Some("Unhandled".to_string()),
        status_code: Some(200),
        payload: None,
    };
    assert_eq!(
        internal_batch_response(Ok(result), 1),
        Err(GraphQLError::RemoteFunctionError("Unhandled".to_string()))
    );
}

#[test]
fn failure_to_invoke_is_a_transport_error() {
    assert_eq!(
        internal_response(Err("dispatch failure".to_string())),
        Err(GraphQLError::TransportError("dispatch failure".to_string()))
    );
    assert_eq!(
        internal_batch_response(Err("throttled".to_string()), 2),
        Err(GraphQLError::TransportError("throttled".to_string()))
    );
}

#[test]
fn response_payload_is_taken_out() {
    let result =
        RawInvocationResult { function_error: None, status_code: Some(200), payload: Some(vec![7]) };
    assert_eq!(response_payload(result), Ok(vec![7]));
    let result =
        RawInvocationResult { function_error: None, status_code: Some(202), payload: Some(vec![7]) };
    assert_eq!(
        outcome_to_payload(Ok(result)),
        Err(GraphQLError::BadStatusCode { code: Some(202), payload: "Some([7])".to_string() })
    );
    let result = RawInvocationResult { function_error: None, status_code: Some(500), payload: None };
    assert_eq!(
        response_payload(result),
        Err(GraphQLError::BadStatusCode { code: Some(500), payload: "None".to_string() })
    );
}

#[test]
fn successful_invocation_is_decoded() {
    let result = RawInvocationResult { function_error: None, status_code: Some(200), payload: None };
    assert_eq!(internal_response(Ok(result)), Err(GraphQLError::NoResponsePayload));
    assert_eq!(
        internal_response(ok(frame(b"[{\"data\":{\"x\":1}}]").unwrap())),
        Ok(RawJson::from_text("{\"x\":1}").unwrap())
    );
    let results =
        internal_batch_response(ok(frame(b"[{\"data\":1},{\"data\":2}]").unwrap()), 2).unwrap();
    assert_eq!(results[1], Ok(RawJson::from_text("2").unwrap()));
    assert_eq!(
        internal_batch_response(ok(frame(b"[{\"data\":1}]").unwrap()), 2),
        Err(GraphQLError::MalformedResponse)
    );
}

#[test]
fn framing_round_trips_any_bytes() {
    let mut big = Vec::new();
    for i in 0..200_000u32 {
        big.push((i.wrapping_mul(2654435761) >> 24) as u8);
    }
    let all: Vec<u8> = (0..=255u8).collect();
    for document in [Vec::new(), vec![0], vec![b'"'], b"\"\"".to_vec(), all, big] {
        let payload = frame(&document).unwrap();
        assert_eq!(unframe(&payload).unwrap(), document);
        // What stands between the quotes is base64 without a quote in it.
        assert!(!payload[1..payload.len() - 1].contains(&b'"'));
    }
}
