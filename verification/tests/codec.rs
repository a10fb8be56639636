use rpc_watch::hash::RpcHash;
use rpc_watch::hex_decode;
use rpc_watch::hex_encode;
use rpc_watch::scale::decode_bool;
use rpc_watch::scale::decode_byte_vec;
use rpc_watch::scale::decode_compact;
use rpc_watch::scale::encode_byte_vec;
use rpc_watch::scale::encode_compact;
use rpc_watch::status::decode_status;
use rpc_watch::status::decode_trusted_status;
use rpc_watch::status::encode_status;
use rpc_watch::status::encode_trusted_status;
use rpc_watch::DirectRequestStatus;
use rpc_watch::RpcReturnValue;
use rpc_watch::TrustedOperationStatus;

#[test]
fn hex_decode_reads_pairs_and_strips_prefix() {
    assert_eq!(hex_decode("0x00ff"), Some(vec![0u8, 255u8]));
    assert_eq!(hex_decode("00fF"), Some(vec![0u8, 255u8]));
    assert_eq!(hex_decode("0x"), Some(vec![]));
    assert_eq!(hex_decode(""), Some(vec![]));
    // The prefix is stripped as often as it occurs, the way
    // `trim_start_matches` strips it.
    assert_eq!(hex_decode("0x0x00"), Some(vec![0u8]));
    assert_eq!(hex_decode("0x123"), None);
    assert_eq!(hex_decode("0xzz"), None);
    assert_eq!(hex_decode("hello"), None);
}

#[test]
fn hex_encode_writes_prefixed_lowercase_pairs() {
    assert_eq!(hex_encode(&vec![]), "0x");
    assert_eq!(hex_encode(&vec![0u8, 255u8, 26u8]), "0x00ff1a");
    assert_eq!(hex_decode(&hex_encode(&vec![1u8, 2u8, 3u8])), Some(vec![1u8, 2u8, 3u8]));
}

#[test]
fn compact_encodes_each_mode_minimally() {
    assert_eq!(encode_compact(0), vec![0u8]);
    assert_eq!(encode_compact(1), vec![4u8]);
    assert_eq!(encode_compact(63), vec![252u8]);
    assert_eq!(encode_compact(64), vec![1u8, 1u8]);
    assert_eq!(encode_compact(16383), vec![253u8, 255u8]);
    assert_eq!(encode_compact(16384), vec![2u8, 0u8, 1u8, 0u8]);
    assert_eq!(encode_compact(0x3fffffff), vec![254u8, 255u8, 255u8, 255u8]);
    assert_eq!(encode_compact(0x40000000), vec![3u8, 0u8, 0u8, 0u8, 64u8]);
    assert_eq!(encode_compact(u32::MAX), vec![3u8, 255u8, 255u8, 255u8, 255u8]);
}

#[test]
fn compact_round_trips_at_mode_boundaries() {
    for v in [0u32, 1, 63, 64, 16383, 16384, 0x3fffffff, 0x40000000, u32::MAX] {
        let enc = encode_compact(v);
        let n = enc.len();
        assert_eq!(decode_compact(&enc, 0), Some((v, n)));
    }
}

#[test]
fn compact_rejects_overlong_modes() {
    // Value 0 written in the two-byte mode.
    assert_eq!(decode_compact(&vec![1u8, 0u8], 0), None);
    // Value 0 written in the four-byte mode.
    assert_eq!(decode_compact(&vec![2u8, 0u8, 0u8, 0u8], 0), None);
    // Value 0 written in the big-integer mode.
    assert_eq!(decode_compact(&vec![3u8, 0u8, 0u8, 0u8, 0u8], 0), None);
    // A big-integer marker promising more than four bytes.
    assert_eq!(decode_compact(&vec![7u8, 0u8, 0u8, 0u8, 0u8], 0), None);
}

#[test]
fn bool_decodes_only_zero_and_one() {
    assert_eq!(decode_bool(&vec![0u8], 0), Some((false, 1)));
    assert_eq!(decode_bool(&vec![1u8], 0), Some((true, 1)));
    assert_eq!(decode_bool(&vec![2u8], 0), None);
    assert_eq!(decode_bool(&vec![], 0), None);
}

#[test]
fn byte_vec_round_trips_and_checks_length() {
    let data = vec![9u8, 8u8, 7u8];
    let enc = encode_byte_vec(&data);
    assert_eq!(enc, vec![12u8, 9u8, 8u8, 7u8]);
    let n = enc.len();
    assert_eq!(decode_byte_vec(&enc, 0), Some((data, n)));
    // Length prefix promising more bytes than remain.
    assert_eq!(decode_byte_vec(&vec![12u8, 9u8], 0), None);
}

#[test]
fn status_tags_round_trip() {
    let statuses = vec![
        TrustedOperationStatus::Submitted,
        TrustedOperationStatus::Future,
        TrustedOperationStatus::Ready,
        TrustedOperationStatus::Broadcast,
        TrustedOperationStatus::InSidechainBlock(vec![5u8; 32]),
        TrustedOperationStatus::Retracted,
        TrustedOperationStatus::FinalityTimeout,
        TrustedOperationStatus::Finalized,
        TrustedOperationStatus::Usurped,
        TrustedOperationStatus::Dropped,
        TrustedOperationStatus::Invalid,
    ];
    for (tag, status) in statuses.into_iter().enumerate() {
        let enc = encode_trusted_status(&status);
        assert_eq!(enc[0], tag as u8);
        let n = enc.len();
        assert_eq!(decode_trusted_status(&enc, 0), Some((status, n)));
    }
    for status in [
        DirectRequestStatus::Success,
        DirectRequestStatus::TrustedOperationStatus(TrustedOperationStatus::Ready),
        DirectRequestStatus::Error,
    ] {
        let enc = encode_status(&status);
        let n = enc.len();
        assert_eq!(decode_status(&enc, 0), Some((status, n)));
    }
    // A truncated in-block hash.
    assert_eq!(decode_trusted_status(&vec![4u8, 0u8], 0), None);
    // An unknown tag.
    assert_eq!(decode_trusted_status(&vec![11u8], 0), None);
    assert_eq!(decode_status(&vec![3u8], 0), None);
}

#[test]
fn envelope_round_trips_through_hex() {
    let envelope = RpcReturnValue::new(
        vec![1u8, 2u8, 3u8],
        true,
        DirectRequestStatus::TrustedOperationStatus(TrustedOperationStatus::InSidechainBlock(
            vec![7u8; 32],
        )),
    );
    let hex = envelope.to_hex();
    let decoded = RpcReturnValue::from_hex(&hex).unwrap();
    assert_eq!(envelope, decoded);
}

#[test]
fn envelope_wire_order_is_value_flag_status() {
    let envelope = RpcReturnValue::new(vec![0xabu8], true, DirectRequestStatus::Error);
    // Payload: compact length 1, then the byte; flag: 1; status tag: 2.
    assert_eq!(envelope.encode(), vec![4u8, 0xabu8, 1u8, 2u8]);
    assert_eq!(envelope.to_hex(), "0x04ab0102");
}

#[test]
fn string_hash_codec_round_trips() {
    let hash = String::from("rpc_hash");
    let enc = hash.encode();
    // Compact length 8, then the UTF-8 bytes.
    assert_eq!(enc, vec![32u8, 114u8, 112u8, 99u8, 95u8, 104u8, 97u8, 115u8, 104u8]);
    assert_eq!(<String as RpcHash>::decode(&enc), Some(hash));
    // Trailing bytes are ignored.
    let mut with_tail = enc.clone();
    with_tail.push(0u8);
    assert_eq!(<String as RpcHash>::decode(&with_tail), Some(String::from("rpc_hash")));
    // A non-ASCII string survives the round trip.
    let umlauts = String::from("größe");
    assert_eq!(<String as RpcHash>::decode(&umlauts.encode()), Some(umlauts));
}

#[test]
fn builders_fill_defaults() {
    let envelope = rpc_watch::RpcReturnValueBuilder::new().build();
    assert_eq!(
        envelope,
        RpcReturnValue::new(
            vec![],
            false,
            DirectRequestStatus::TrustedOperationStatus(TrustedOperationStatus::Submitted),
        )
    );
    let response = rpc_watch::RpcResponseBuilder::new().build();
    assert_eq!(response.id, rpc_watch::Id::Number(1));
    assert_eq!(response.jsonrpc, "2.0");
    assert_eq!(response.result, envelope.to_hex());
}
