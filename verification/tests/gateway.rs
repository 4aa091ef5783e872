use bb_rust::graphql::gateway::{decode_gateway, encode_gateway, gateway_response};
use bb_rust::graphql::response::Location;
use bb_rust::graphql::{
    GatewayGraphQLRequestBody, GraphQLError, GraphQLFieldError, ParsedGraphQLResponse,
    RawInvocationResult,
};
use bb_rust::json::RawJson;
use bb_rust::misc::DecompressError;

#[test]
fn encode_gateway_is_plain_json() {
    let body = GatewayGraphQLRequestBody {
        query: "query me {\n  features { id }\n}".to_string(),
        variables: RawJson::from_text("null").unwrap(),
        userpool_id: "eu-west-1_lu59lbvt7".to_string(),
    };
    assert_eq!(
        String::from_utf8(encode_gateway(&body)).unwrap(),
        "{\"query\":\"query me {\\n  features { id }\\n}\",\"variables\":null,\
         \"userPool\":\"eu-west-1_lu59lbvt7\"}"
    );
}

#[test]
fn gateway_body_is_parsed_a_second_time() {
    let data = decode_gateway(b"{\"body\": \"{\\\"x\\\":1}\", \"errors\": null}").unwrap();
    assert_eq!(data.as_str(), "{\"x\":1}");
    let value: serde_json::Value = serde_json::from_str(data.as_str()).unwrap();
    assert_eq!(value["x"].as_u64(), Some(1));
}

#[test]
fn gateway_errors_carry_the_message() {
    let res = decode_gateway(b"{\"body\": null, \"errors\": [{\"message\":\"bad\",\"locations\":[]}]}");
    let errors = match res {
        Err(GraphQLError::RemoteGraphQLError(errors)) => errors,
        other => panic!("{:?}", other),
    };
    let list = GraphQLFieldError::list_from_json(&errors).unwrap();
    assert_eq!(list, vec![GraphQLFieldError { message: "bad".to_string(), locations: vec![] }]);
    // Errors come first also where there is a body.
    let res = decode_gateway(b"{\"body\":\"1\",\"errors\":[{\"message\":\"bad\"}]}");
    assert!(matches!(res, Err(GraphQLError::RemoteGraphQLError(_))));
}

#[test]
fn decode_gateway_names_what_is_wrong() {
    assert_eq!(
        decode_gateway(b"{\"body\""),
        Err(GraphQLError::DecodeError(DecompressError::UnexpectedJsonResponse))
    );
    assert_eq!(decode_gateway(b"[]"), Err(GraphQLError::MalformedResponse));
    assert_eq!(decode_gateway(b"{}"), Err(GraphQLError::MalformedResponse));
    assert_eq!(decode_gateway(b"{\"body\":null}"), Err(GraphQLError::MalformedResponse));
    assert_eq!(decode_gateway(b"{\"body\":{\"x\":1}}"), Err(GraphQLError::MalformedResponse));
    assert_eq!(
        decode_gateway(b"{\"body\":\"{\"}"),
        Err(GraphQLError::DecodeError(DecompressError::UnexpectedJsonResponse))
    );
}

#[test]
fn gateway_response_looks_at_the_invocation_first() {
    let body = b"{\"body\":\"[1]\"}".to_vec();
    let result = RawInvocationResult {
        function_error: None,
        status_code: Some(200),
        payload: Some(body.clone()),
    };
    assert_eq!(gateway_response(Ok(result)), Ok(RawJson::from_text("[1]").unwrap()));
    let result = RawInvocationResult {
        function_error: None,
        status_code: Some(500),
        payload: Some(body.clone()),
    };
    assert_eq!(
        gateway_response(Ok(result)),
        Err(GraphQLError::BadStatusCode { code: Some(500), payload: format!("{:?}", Some(body)) })
    );
    let result = RawInvocationResult {
        function_error: Some("fault".to_string()),
        status_code: Some(200),
        payload: None,
    };
    assert_eq!(gateway_response(Ok(result)), Err(GraphQLError::RemoteFunctionError("fault".to_string())));
    let result = RawInvocationResult { function_error: None, status_code: Some(200), payload: None };
    assert_eq!(gateway_response(Ok(result)), Err(GraphQLError::NoResponsePayload));
    assert_eq!(
        gateway_response(Err("unreachable".to_string())),
        Err(GraphQLError::TransportError("unreachable".to_string()))
    );
}

#[test]
fn response_shapes() {
    let parse = |text: &str| ParsedGraphQLResponse::from_json(&RawJson::from_text(text).unwrap());
    assert_eq!(
        parse("{\"data\":{\"a\":1}}"),
        Some(ParsedGraphQLResponse::Data { data: RawJson::from_text("{\"a\":1}").unwrap() })
    );
    assert_eq!(
        parse("{\"data\":{\"a\":1},\"errors\":[{\"message\":\"m\",\"locations\":[{\"line\":3,\"column\":14}]}]}"),
        Some(ParsedGraphQLResponse::Error {
            errors: vec![GraphQLFieldError {
                message: "m".to_string(),
                locations: vec![Location { line: 3, column: 14 }]
            }]
        })
    );
    // Errors of another shape are never read as data.
    assert_eq!(parse("{\"data\":{\"a\":1},\"errors\":\"boom\"}"), None);
    assert_eq!(parse("{\"data\":1,\"errors\":[{\"message\":1}]}"), None);
    assert_eq!(parse("{\"data\":1,\"errors\":[{\"message\":\"m\",\"locations\":[{\"line\":1}]}]}"), None);
    assert_eq!(parse("{\"data\":1,\"errors\":[{\"message\":\"m\",\"locations\":[{\"line\":-1,\"column\":1}]}]}"), None);
    assert_eq!(parse("{\"errors\":null}"), None);
    assert_eq!(parse("[]"), None);
    assert_eq!(
        parse("{\"errors\":null,\"data\":[]}"),
        Some(ParsedGraphQLResponse::Data { data: RawJson::from_text("[]").unwrap() })
    );
}

#[test]
fn field_errors_and_locations() {
    let doc = RawJson::from_text("{\"column\":2,\"line\":1,\"x\":0}").unwrap();
    assert_eq!(Location::from_json(&doc), Some(Location { line: 1, column: 2 }));
    assert_eq!(Location::from_json(&RawJson::from_text("{\"line\":1}").unwrap()), None);
    let doc = RawJson::from_text("{\"message\":\"m\",\"locations\":null,\"path\":[\"a\"]}").unwrap();
    assert_eq!(
        GraphQLFieldError::from_json(&doc),
        Some(GraphQLFieldError { message: "m".to_string(), locations: vec![] })
    );
    assert_eq!(GraphQLFieldError::from_json(&RawJson::from_text("{\"locations\":[]}").unwrap()), None);
    assert_eq!(GraphQLFieldError::list_from_json(&RawJson::from_text("{}").unwrap()), None);
    assert_eq!(GraphQLFieldError::list_from_json(&RawJson::from_text("[]").unwrap()), Some(vec![]));
}
