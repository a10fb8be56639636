use rpc_watch::hash::RpcHash;
use rpc_watch::hex_encode;
use rpc_watch::DirectRpcError;
use rpc_watch::DirectRequestStatus;
use rpc_watch::Id;
use rpc_watch::RpcResponse;
use rpc_watch::RpcResponseBuilder;
use rpc_watch::RpcReturnValueBuilder;
use rpc_watch::RpcWatchExtractor;
use rpc_watch::TrustedOperationStatus;

#[test]
fn invalid_rpc_response_returns_error() {
    let watch_extractor = RpcWatchExtractor::<String>::new();
    let rpc_response = RpcResponse {
        id: Id::Number(1u32),
        jsonrpc: String::from("json"),
        result: "hello".to_string(),
    };

    assert!(watch_extractor.must_be_watched(&rpc_response).is_err());
}

#[test]
fn rpc_response_without_watch_flag_must_not_be_watched() {
    let watch_extractor = RpcWatchExtractor::<String>::new();
    let rpc_result = RpcReturnValueBuilder::new()
        .with_do_watch(false)
        .with_status(DirectRequestStatus::TrustedOperationStatus(TrustedOperationStatus::Ready))
        .build();
    let rpc_response = RpcResponseBuilder::new().with_result(rpc_result).build();

    let do_watch = watch_extractor.must_be_watched(&rpc_response).unwrap();

    assert_eq!(None, do_watch);
}

#[test]
fn rpc_response_with_watch_flag_must_be_watched() {
    let hash = String::from("rpc_hash");
    let watch_extractor = RpcWatchExtractor::<String>::new();
    let rpc_return_value = RpcReturnValueBuilder::new()
        .with_do_watch(true)
        .with_value(hash.encode())
        .with_status(DirectRequestStatus::TrustedOperationStatus(TrustedOperationStatus::Ready))
        .build();
    let rpc_response = RpcResponseBuilder::new().with_result(rpc_return_value).build();

    let do_watch = watch_extractor.must_be_watched(&rpc_response).unwrap();

    assert_eq!(Some(hash.clone()), do_watch);
}

#[test]
fn bare_hash_fallback_is_watched() {
    let hash = String::from("rpc_hash");
    let watch_extractor = RpcWatchExtractor::<String>::new();
    let rpc_response = RpcResponse {
        id: Id::Number(1u32),
        jsonrpc: "2.0".to_string(),
        result: hex_encode(&hash.encode()),
    };

    let do_watch = watch_extractor.must_be_watched(&rpc_response).unwrap();

    assert_eq!(Some(hash), do_watch);
}

#[test]
fn watch_flag_with_status_outside_family_is_not_watched() {
    let watch_extractor = RpcWatchExtractor::<String>::new();
    for status in [DirectRequestStatus::Success, DirectRequestStatus::Error] {
        let rpc_result = RpcReturnValueBuilder::new()
            .with_do_watch(true)
            .with_value(String::from("rpc_hash").encode())
            .with_status(status)
            .build();
        let rpc_response = RpcResponseBuilder::new().with_result(rpc_result).build();

        let do_watch = watch_extractor.must_be_watched(&rpc_response).unwrap();

        assert_eq!(None, do_watch);
    }
}

#[test]
fn undecodable_payload_gives_encoding_error() {
    let watch_extractor = RpcWatchExtractor::<String>::new();
    let rpc_result = RpcReturnValueBuilder::new()
        .with_do_watch(true)
        .with_value(vec![0xffu8])
        .with_status(DirectRequestStatus::TrustedOperationStatus(TrustedOperationStatus::Ready))
        .build();
    let rpc_response = RpcResponseBuilder::new().with_result(rpc_result).build();

    let result = watch_extractor.must_be_watched(&rpc_response);

    assert!(matches!(result, Err(DirectRpcError::EncodingError(_))));
}

#[test]
fn non_utf8_payload_gives_encoding_error() {
    // A well-framed byte vector whose contents are not valid UTF-8: the
    // envelope decodes, but the payload is no string hash.
    let watch_extractor = RpcWatchExtractor::<String>::new();
    let framed = rpc_watch::scale::encode_byte_vec(&vec![0xc3u8, 0x28u8]);
    let rpc_result = RpcReturnValueBuilder::new()
        .with_do_watch(true)
        .with_value(framed)
        .with_status(DirectRequestStatus::TrustedOperationStatus(TrustedOperationStatus::Ready))
        .build();
    let rpc_response = RpcResponseBuilder::new().with_result(rpc_result).build();

    let result = watch_extractor.must_be_watched(&rpc_response);

    assert!(matches!(result, Err(DirectRpcError::EncodingError(_))));
}

#[test]
fn unrecognized_response_gives_other_error() {
    let watch_extractor = RpcWatchExtractor::<String>::new();
    let rpc_response = RpcResponse {
        id: Id::Number(7u32),
        jsonrpc: "2.0".to_string(),
        // Valid hex, but the bytes are neither an envelope nor a hash.
        result: "0xff".to_string(),
    };

    let result = watch_extractor.must_be_watched(&rpc_response);

    assert!(matches!(result, Err(DirectRpcError::Other(_))));
}

#[test]
fn classification_is_deterministic() {
    let watch_extractor = RpcWatchExtractor::<String>::new();
    let responses = [
        RpcResponse {
            id: Id::Number(1u32),
            jsonrpc: "2.0".to_string(),
            result: "hello".to_string(),
        },
        RpcResponse {
            id: Id::Number(2u32),
            jsonrpc: "2.0".to_string(),
            result: hex_encode(&String::from("rpc_hash").encode()),
        },
        RpcResponseBuilder::new()
            .with_result(
                RpcReturnValueBuilder::new()
                    .with_do_watch(true)
                    .with_value(String::from("rpc_hash").encode())
                    .with_status(DirectRequestStatus::TrustedOperationStatus(
                        TrustedOperationStatus::Finalized,
                    ))
                    .build(),
            )
            .build(),
    ];
    for rpc_response in responses {
        let first = watch_extractor.must_be_watched(&rpc_response);
        let second = watch_extractor.must_be_watched(&rpc_response);
        assert_eq!(first, second);
    }
}

#[test]
fn envelope_that_looks_like_nothing_else_still_decodes_watched_hash() {
    // Envelope first, fallback second: a valid envelope is never read as a
    // bare hash, even when its payload would decode as one.
    let hash = String::from("h");
    let watch_extractor = RpcWatchExtractor::<String>::new();
    let rpc_result = RpcReturnValueBuilder::new()
        .with_do_watch(true)
        .with_value(hash.encode())
        .with_status(DirectRequestStatus::TrustedOperationStatus(TrustedOperationStatus::Broadcast))
        .build();
    let rpc_response = RpcResponseBuilder::new().with_result(rpc_result).build();

    let do_watch = watch_extractor.must_be_watched(&rpc_response).unwrap();

    assert_eq!(Some(hash), do_watch);
}
