use chain_ping::{
    classify_envelope, classify_response, decimal_string, ErrorMember, PingError, RpcEnvelope,
};

#[test]
fn test_http_status_short_circuits() {
    // A non-2xx status is classified from the status code alone, even when
    // the body is not JSON at all.
    let r = classify_response(500, "this body is not json");
    assert!(matches!(r, Err(PingError::ProtocolHttpStatus(500))));
}

#[test]
fn test_http_status_boundaries() {
    let low = classify_response(199, "{}");
    assert!(matches!(low, Err(PingError::ProtocolHttpStatus(199))));
    let high = classify_response(300, "{}");
    assert!(matches!(high, Err(PingError::ProtocolHttpStatus(300))));
    let ok = classify_response(204, "{\"jsonrpc\":\"2.0\",\"result\":\"0x2a\",\"id\":1}");
    assert_eq!(ok.unwrap(), "0x2a");
}

#[test]
fn test_success_extracts_result_string() {
    let r = classify_response(200, "{\"jsonrpc\":\"2.0\",\"result\":\"0x1\",\"id\":1}");
    assert_eq!(r.unwrap(), "0x1");
}

#[test]
fn test_success_with_null_error_member() {
    let r = classify_response(200, "{\"jsonrpc\":\"2.0\",\"result\":\"0x1\",\"error\":null,\"id\":1}");
    assert_eq!(r.unwrap(), "0x1");
}

#[test]
fn test_non_string_result_uses_json_text() {
    let r = classify_response(200, "{\"jsonrpc\":\"2.0\",\"result\":42,\"id\":1}");
    assert_eq!(r.unwrap(), "42");
}

#[test]
fn test_decode_failure() {
    let r = classify_response(200, "not json");
    assert!(matches!(r, Err(PingError::ProtocolDecode)));
}

#[test]
fn test_rpc_error_envelope() {
    let body = "{\"jsonrpc\":\"2.0\",\"error\":{\"code\":-32601,\"message\":\"method not found\"},\"id\":1}";
    let r = classify_response(200, body);
    match r {
        Err(PingError::ProtocolRpcError(text)) => {
            assert_eq!(text, "{\"code\":-32601,\"message\":\"method not found\"}");
        }
        other => panic!("expected an RPC error, got {:?}", other),
    }
}

#[test]
fn test_error_takes_precedence_over_result() {
    // Both members present with a non-null error: classified as an RPC
    // error, never as a success.
    let body = "{\"jsonrpc\":\"2.0\",\"result\":\"0x1\",\"error\":{\"code\":1,\"message\":\"bad\"},\"id\":1}";
    let r = classify_response(200, body);
    assert!(matches!(r, Err(PingError::ProtocolRpcError(_))));
}

#[test]
fn test_missing_result_and_error() {
    let r = classify_response(200, "{\"jsonrpc\":\"2.0\",\"id\":1}");
    assert!(matches!(r, Err(PingError::ProtocolMissingResult)));
}

#[test]
fn test_classify_envelope_directly() {
    let env = RpcEnvelope {
        error: ErrorMember::Present("{\"code\":7}".to_string()),
        result: Some("0x1".to_string()),
    };
    let r = classify_envelope(Some(env));
    match r {
        Err(PingError::ProtocolRpcError(text)) => assert_eq!(text, "{\"code\":7}"),
        other => panic!("expected an RPC error, got {:?}", other),
    }

    let env = RpcEnvelope { error: ErrorMember::Null, result: None };
    assert!(matches!(
        classify_envelope(Some(env)),
        Err(PingError::ProtocolMissingResult)
    ));

    assert!(matches!(classify_envelope(None), Err(PingError::ProtocolDecode)));
}

#[test]
fn test_error_messages() {
    assert_eq!(PingError::TransportTimeout.message(), "Request timed out");
    assert_eq!(PingError::TransportConnection.message(), "Connection failed");
    assert_eq!(PingError::ProtocolHttpStatus(500).message(), "HTTP Error: 500");
    assert_eq!(PingError::ProtocolDecode.message(), "Failed to decode response body");
    assert_eq!(
        PingError::ProtocolRpcError("oops".to_string()).message(),
        "JSON-RPC error: oops"
    );
    assert_eq!(
        PingError::ProtocolMissingResult.message(),
        "Missing 'result' field in response"
    );
}

#[test]
fn test_decimal_rendering() {
    assert_eq!(decimal_string(0), "0");
    assert_eq!(decimal_string(7), "7");
    assert_eq!(decimal_string(404), "404");
    assert_eq!(decimal_string(65535), "65535");
}
