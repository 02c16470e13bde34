use attestation_agent::eaa_kbc::{Action, AnnotationPacket, ChannelState, EAAKbc, Event, Step};
use attestation_agent::error::DecryptError;
use attestation_agent::exchange::{
    decrypted_payload_of, decryption_request, get_kbs_sockaddr_from_url, get_kek_request, keks_of,
    read_decryption_reply, read_version_reply, received_text, version_of, version_request,
    RESPONSE_BUFFER_LEN,
};
use attestation_agent::protocol::{DecryptionResponse, GetKekResponse, VersionResponse};

fn annotation_text(url: &str, kid: &str, wrapped_data: &[u8], iv: &[u8], wrap_type: &str) -> String {
    format!(
        "{{\"url\":{},\"kid\":{},\"wrapped_data\":{},\"iv\":{},\"wrap_type\":{}}}",
        serde_json::to_string(url).unwrap(),
        serde_json::to_string(kid).unwrap(),
        serde_json::to_string(wrapped_data).unwrap(),
        serde_json::to_string(iv).unwrap(),
        serde_json::to_string(wrap_type).unwrap()
    )
}

/// A key broker service that knows one ciphertext and its plaintext.
fn kbs_reply(request: &str, ciphertext: &[u8], plaintext: &[u8]) -> Vec<u8> {
    let request: serde_json::Value = serde_json::from_str(request).unwrap();
    let command = request.get("command").and_then(|c| c.as_str()).unwrap().to_string();
    if command == "version" {
        return b"{\"status\":\"OK\",\"version\":\"v1\"}".to_vec();
    }
    assert_eq!(command, "Decrypt");
    format!(
        "{{\"status\":\"OK\",\"data\":{{\"{}\":\"{}\"}}}}",
        base64::encode(ciphertext),
        base64::encode(plaintext)
    )
    .into_bytes()
}

/// Runs a decryption against the service above and counts the connections made.
fn decrypt_with_kbs(
    module: &mut EAAKbc,
    messages: &str,
    ciphertext: &[u8],
    plaintext: &[u8],
    connections: &mut usize,
) -> Result<Vec<u8>, DecryptError> {
    let mut step = module.decrypt_payload(messages);
    loop {
        let event = match step {
            Step::Next(Action::Connect { address }) => {
                assert_eq!(address, "127.0.0.1:1122");
                *connections += 1;
                Event::Connected
            }
            Step::Next(Action::Negotiate { config }) => {
                assert!(config.mutual_attestation);
                assert!(!config.session_cache);
                assert_eq!(config.attester, "nullattester");
                assert_eq!(config.verifier, "nullverifier");
                assert_eq!(config.tls_library, "openssl");
                Event::Negotiated
            }
            Step::Next(Action::Exchange { request }) => {
                Event::Received(kbs_reply(&request, ciphertext, plaintext))
            }
            Step::Decrypted(plaintext) => return Ok(plaintext),
            Step::KeksStored => panic!("no keys were asked for"),
            Step::Failed(error) => return Err(error),
        };
        step = module.advance(event);
    }
}

/// Brings a module to a live channel with the service at `url`.
fn connected_module(url: &str) -> EAAKbc {
    let mut module = EAAKbc::new();
    let mut connections = 0;
    let text = annotation_text(url, "k0", &[1, 2, 3], &[4, 5, 6], "aesm256-cbc");
    let result = decrypt_with_kbs(&mut module, &text, &[1, 2, 3], &[7, 7], &mut connections);
    assert_eq!(result, Ok(vec![7, 7]));
    assert_eq!(module.state(), ChannelState::Ready);
    module
}

/// Stores one key in the cache of a module with a live channel.
fn store_key(module: &mut EAAKbc, kid: &str, kek: &[u8]) {
    let step = module.kbs_get_kek();
    assert!(matches!(step, Step::Next(Action::Exchange { .. })));
    let reply = format!("{{\"status\":\"OK\",\"data\":{{\"{}\":\"{}\"}}}}", kid, base64::encode(kek));
    assert_eq!(module.advance(Event::Received(reply.into_bytes())), Step::KeksStored);
}

#[test]
fn test_decrypt_payload() {
    let plain_payload: Vec<u8> = [101, 121, 74, 122, 107, 87, 69, 112, 122, 83, 87,
    112, 118, 97, 87, 70, 73, 85, 106, 66, 106, 83, 69, 48, 50, 84, 72, 107, 53, 99,
    108, 112, 89, 97, 51, 82, 106, 83, 69, 112, 50, 90, 71, 49, 115, 97, 49, 112,
    89, 83, 88, 90, 104, 77, 108, 89, 49, 84, 70, 104, 87, 77, 61, 61].to_vec();

    let encrypted_payload: Vec<u8> = [244, 176, 166, 37, 9, 240, 84, 85, 236, 190,
    165, 125, 208, 226, 30, 189, 79, 212, 58, 48, 4, 184, 245, 145, 180, 221, 25, 55,
    165, 131, 104, 74, 100, 79, 210, 231, 183, 60, 129, 69, 16, 55, 85, 227, 127, 118,
    178, 88, 222, 135, 176, 14, 124, 89, 24, 226, 129, 127, 47, 193, 42, 219, 237,
    127, 12, 77, 107, 86, 214, 164, 111, 47, 107, 101, 91, 173, 208, 99, 230, 154].to_vec();

    let kek: Vec<u8> = [217, 155, 119, 5, 176, 186, 122, 22, 130, 149, 179, 163, 54, 114,
    112, 176, 221, 155, 55, 27, 245, 20, 202, 139, 155, 167, 240, 163, 55, 17, 218, 234].to_vec();
    assert_eq!(kek.len(), 32);

    let iv: Vec<u8> = [116, 235, 143, 99, 70, 83, 228, 96, 9, 250, 168, 201, 234, 13, 84, 211].to_vec();

    let annotation = annotation_text(
        "http://key-url-example/zhangjiale",
        "676913bf-9af2-4bbd-bee9-25359e2ca2e6",
        &encrypted_payload,
        &iv,
        "aesm256-cbc",
    );

    let mut eaa_kbc = EAAKbc::new();
    let mut connections = 0;

    assert_eq!(
        decrypt_with_kbs(&mut eaa_kbc, &annotation, &encrypted_payload, &plain_payload, &mut connections)
            .unwrap(),
        plain_payload
    );
    assert_eq!(connections, 1);
    assert_eq!(eaa_kbc.kbs_url(), "http://key-url-example/zhangjiale");
    assert_eq!(eaa_kbc.protocol_version(), "v1");
}

#[test]
fn scenario_mock_kbs_returns_plaintext_unchanged() {
    let wrapped_data: Vec<u8> = (0u8..32).collect();
    let iv: Vec<u8> = (100u8..116).collect();
    let plaintext = b"secret payload".to_vec();
    let text = annotation_text("kbs://A", "k1", &wrapped_data, &iv, "aesm256-cbc");
    let mut module = EAAKbc::new();

    let step = module.decrypt_payload(&text);
    assert_eq!(step, Step::Next(Action::Connect { address: "127.0.0.1:1122".to_string() }));
    assert_eq!(module.state(), ChannelState::Connecting);
    assert!(matches!(module.advance(Event::Connected), Step::Next(Action::Negotiate { .. })));
    assert_eq!(module.state(), ChannelState::Negotiating);
    assert_eq!(
        module.advance(Event::Negotiated),
        Step::Next(Action::Exchange { request: "{\"command\":\"version\"}".to_string() })
    );
    assert_eq!(module.state(), ChannelState::VersionExchange);
    let step = module.advance(Event::Received(b"{\"status\":\"OK\",\"version\":\"0.1.0\"}".to_vec()));
    let expected_request = "{\"blobs\":[{\"algorithm\":\"AES\",\
        \"encrypted_data\":\"AAECAwQFBgcICQoLDA0ODxAREhMUFRYXGBkaGxwdHh8=\",\
        \"iv\":\"ZGVmZ2hpamtsbW5vcHFycw==\",\"key_length\":256,\"kid\":\"k1\"}],\
        \"command\":\"Decrypt\"}";
    assert_eq!(step, Step::Next(Action::Exchange { request: expected_request.to_string() }));
    assert_eq!(module.state(), ChannelState::Decrypting);
    assert_eq!(module.kbs_url(), "kbs://A");
    assert_eq!(module.protocol_version(), "0.1.0");

    let reply = "{\"status\":\"OK\",\"data\":{\"AAECAwQFBgcICQoLDA0ODxAREhMUFRYXGBkaGxwdHh8=\":\"c2VjcmV0IHBheWxvYWQ=\"}}";
    assert_eq!(module.advance(Event::Received(reply.as_bytes().to_vec())), Step::Decrypted(plaintext));
    assert_eq!(module.state(), ChannelState::Ready);
}

#[test]
fn same_url_reuses_channel_and_keeps_keys() {
    let mut module = connected_module("kbs://A");
    store_key(&mut module, "k9", &[9, 8, 7, 6]);
    assert_eq!(module.kek_count(), 1);

    let mut connections = 0;
    let text = annotation_text("kbs://A", "k1", &[10, 11], &[12], "aesm256-cbc");
    let result = decrypt_with_kbs(&mut module, &text, &[10, 11], &[42], &mut connections);
    assert_eq!(result, Ok(vec![42]));
    assert_eq!(connections, 0);
    assert_eq!(module.kek_count(), 1);
    assert_eq!(module.cached_kek("k9"), Some(vec![9, 8, 7, 6]));
}

#[test]
fn same_url_keeps_keys_when_remote_fails() {
    let mut module = connected_module("kbs://A");
    store_key(&mut module, "k9", &[9, 8, 7, 6]);
    let text = annotation_text("kbs://A", "k1", &[10, 11], &[12], "aesm256-cbc");
    assert!(matches!(module.decrypt_payload(&text), Step::Next(Action::Exchange { .. })));
    let step = module.advance(Event::Received(b"{\"status\":\"Fail\",\"error\":\"no such key\"}".to_vec()));
    assert_eq!(step, Step::Failed(DecryptError::RemoteError("no such key".to_string())));
    assert_eq!(module.state(), ChannelState::Ready);
    assert_eq!(module.cached_kek("k9"), Some(vec![9, 8, 7, 6]));
}

#[test]
fn other_url_reconnects_and_clears_keys() {
    let mut module = connected_module("kbs://A");
    store_key(&mut module, "k9", &[9, 8, 7, 6]);

    let mut connections = 0;
    let text = annotation_text("kbs://B", "k1", &[10, 11], &[12], "aesm256-cbc");
    let result = decrypt_with_kbs(&mut module, &text, &[10, 11], &[42], &mut connections);
    assert_eq!(result, Ok(vec![42]));
    assert_eq!(connections, 1);
    assert_eq!(module.kek_count(), 0);
    assert_eq!(module.cached_kek("k9"), None);
    assert_eq!(module.kbs_url(), "kbs://B");
}

#[test]
fn other_url_clears_keys_when_connection_fails() {
    let mut module = connected_module("kbs://A");
    store_key(&mut module, "k9", &[9, 8, 7, 6]);
    let text = annotation_text("kbs://B", "k1", &[10, 11], &[12], "aesm256-cbc");
    assert!(matches!(module.decrypt_payload(&text), Step::Next(Action::Connect { .. })));
    assert_eq!(module.kek_count(), 0);
    assert_eq!(module.advance(Event::ConnectFailed), Step::Failed(DecryptError::ConnectionError));
    assert_eq!(module.state(), ChannelState::Disconnected);
    assert_eq!(module.kek_count(), 0);
    assert_eq!(module.kbs_url(), "");
}

#[test]
fn malformed_annotation_changes_nothing() {
    let mut module = connected_module("kbs://A");
    store_key(&mut module, "k9", &[9, 8, 7, 6]);
    assert_eq!(module.decrypt_payload("not json"), Step::Failed(DecryptError::ParseError));
    assert_eq!(
        module.decrypt_payload("{\"url\":\"kbs://B\",\"kid\":\"k1\"}"),
        Step::Failed(DecryptError::ParseError)
    );
    assert_eq!(
        module.decrypt_payload(
            "{\"url\":\"kbs://B\",\"kid\":\"k1\",\"wrapped_data\":[256],\"iv\":[],\"wrap_type\":\"x\"}"
        ),
        Step::Failed(DecryptError::ParseError)
    );
    assert_eq!(module.state(), ChannelState::Ready);
    assert_eq!(module.kbs_url(), "kbs://A");
    assert_eq!(module.cached_kek("k9"), Some(vec![9, 8, 7, 6]));
}

#[test]
fn negotiation_failure_disconnects() {
    let mut module = EAAKbc::new();
    let text = annotation_text("kbs://A", "k1", &[1], &[2], "aesm256-cbc");
    assert!(matches!(module.decrypt_payload(&text), Step::Next(Action::Connect { .. })));
    assert!(matches!(module.advance(Event::Connected), Step::Next(Action::Negotiate { .. })));
    assert_eq!(module.advance(Event::NegotiationFailed), Step::Failed(DecryptError::NegotiationError));
    assert_eq!(module.state(), ChannelState::Disconnected);
}

#[test]
fn refused_version_disconnects() {
    let mut module = EAAKbc::new();
    let text = annotation_text("kbs://A", "k1", &[1], &[2], "aesm256-cbc");
    module.decrypt_payload(&text);
    module.advance(Event::Connected);
    module.advance(Event::Negotiated);
    let step = module.advance(Event::Received(b"{\"status\":\"Fail\"}".to_vec()));
    assert_eq!(step, Step::Failed(DecryptError::ConnectionError));
    assert_eq!(module.state(), ChannelState::Disconnected);
    assert_eq!(module.kbs_url(), "");
}

#[test]
fn transport_failure_during_exchange_disconnects_and_clears_keys() {
    let mut module = connected_module("kbs://A");
    store_key(&mut module, "k9", &[9, 8, 7, 6]);
    let text = annotation_text("kbs://A", "k1", &[10, 11], &[12], "aesm256-cbc");
    assert!(matches!(module.decrypt_payload(&text), Step::Next(Action::Exchange { .. })));
    assert_eq!(module.advance(Event::ReceiveFailed), Step::Failed(DecryptError::ConnectionError));
    assert_eq!(module.state(), ChannelState::Disconnected);
    assert_eq!(module.kek_count(), 0);
}

#[test]
fn unexpected_event_disconnects() {
    let mut module = connected_module("kbs://A");
    assert_eq!(module.advance(Event::Connected), Step::Failed(DecryptError::ConnectionError));
    assert_eq!(module.state(), ChannelState::Disconnected);
}

#[test]
fn get_kek_adds_keys_without_clearing_others() {
    let mut module = connected_module("kbs://A");
    store_key(&mut module, "a", &[1, 2, 3]);
    store_key(&mut module, "b", &[9, 8, 7, 6]);
    assert_eq!(module.kek_count(), 2);
    store_key(&mut module, "a", &[5]);
    assert_eq!(module.kek_count(), 2);
    assert_eq!(module.cached_kek("a"), Some(vec![5]));
    assert_eq!(module.cached_kek("b"), Some(vec![9, 8, 7, 6]));
}

#[test]
fn get_kek_needs_live_channel() {
    let mut module = EAAKbc::new();
    assert_eq!(module.kbs_get_kek(), Step::Failed(DecryptError::ConnectionError));
    assert_eq!(module.state(), ChannelState::Disconnected);
}

#[test]
fn get_kek_with_undecodable_key_stores_nothing() {
    let mut module = connected_module("kbs://A");
    module.kbs_get_kek();
    let step = module.advance(Event::Received(
        b"{\"status\":\"OK\",\"data\":{\"a\":\"AQID\",\"b\":\"***\"}}".to_vec(),
    ));
    assert_eq!(step, Step::Failed(DecryptError::ParseError));
    assert_eq!(module.kek_count(), 0);
    assert_eq!(module.state(), ChannelState::Ready);
}

#[test]
fn new_module_is_disconnected_and_reports_empty_url() {
    let module = EAAKbc::new();
    assert_eq!(module.state(), ChannelState::Disconnected);
    assert_eq!(module.kek_count(), 0);
    assert_eq!(module.check().kbs_info, vec![String::new()]);
    let module = connected_module("kbs://A");
    assert_eq!(module.check().kbs_info, vec!["kbs://A".to_string()]);
}

#[test]
fn annotation_packet_is_read_from_text() {
    let text = annotation_text("kbs://A", "k1", &[0, 255], &[7], "aesm256-cbc");
    let packet = AnnotationPacket::from_text(&text).unwrap();
    assert_eq!(
        packet,
        AnnotationPacket {
            url: "kbs://A".to_string(),
            kid: "k1".to_string(),
            wrapped_data: vec![0, 255],
            iv: vec![7],
            wrap_type: "aesm256-cbc".to_string(),
        }
    );
    assert_eq!(AnnotationPacket::from_text("[1,2]"), None);
    assert_eq!(
        AnnotationPacket::from_text(
            "{\"url\":\"u\",\"kid\":\"k\",\"wrapped_data\":[-1],\"iv\":[],\"wrap_type\":\"x\"}"
        ),
        None
    );
    assert_eq!(
        AnnotationPacket::from_text(
            "{\"url\":\"u\",\"kid\":\"k\",\"wrapped_data\":[1.5],\"iv\":[],\"wrap_type\":\"x\"}"
        ),
        None
    );
    assert_eq!(
        AnnotationPacket::from_text(
            "{\"url\":7,\"kid\":\"k\",\"wrapped_data\":[],\"iv\":[],\"wrap_type\":\"x\"}"
        ),
        None
    );
}

#[test]
fn ok_response_without_requested_entry_is_protocol_violation() {
    let response = DecryptionResponse {
        status: "OK".to_string(),
        data: Some(vec![("b3RoZXI=".to_string(), "AQID".to_string())]),
        error: None,
    };
    assert_eq!(decrypted_payload_of(&response, "AAEC"), Err(DecryptError::ProtocolViolation));
    let response = DecryptionResponse { status: "OK".to_string(), data: None, error: None };
    assert_eq!(decrypted_payload_of(&response, "AAEC"), Err(DecryptError::ProtocolViolation));
    let response = DecryptionResponse { status: "OK".to_string(), data: Some(vec![]), error: None };
    assert_eq!(decrypted_payload_of(&response, "AAEC"), Err(DecryptError::ProtocolViolation));
}

#[test]
fn fail_response_carries_remote_message() {
    let response = DecryptionResponse {
        status: "Fail".to_string(),
        data: None,
        error: Some("no such key".to_string()),
    };
    assert_eq!(
        decrypted_payload_of(&response, "AAEC"),
        Err(DecryptError::RemoteError("no such key".to_string()))
    );
    let response = DecryptionResponse { status: "Fail".to_string(), data: None, error: None };
    assert_eq!(decrypted_payload_of(&response, "AAEC"), Err(DecryptError::RemoteError(String::new())));
}

#[test]
fn other_status_is_unrecognized() {
    let response = DecryptionResponse {
        status: "ok".to_string(),
        data: Some(vec![("AAEC".to_string(), "AQID".to_string())]),
        error: None,
    };
    assert_eq!(decrypted_payload_of(&response, "AAEC"), Err(DecryptError::UnrecognizedStatus));
    let response = GetKekResponse { status: "Maybe".to_string(), data: None, error: None };
    assert_eq!(keks_of(&response), Err(DecryptError::UnrecognizedStatus));
}

#[test]
fn ok_response_grants_decoded_entry() {
    let response = DecryptionResponse {
        status: "OK".to_string(),
        data: Some(vec![
            ("b3RoZXI=".to_string(), "CQgHBg==".to_string()),
            ("AAEC".to_string(), "AQID".to_string()),
        ]),
        error: None,
    };
    assert_eq!(decrypted_payload_of(&response, "AAEC"), Ok(vec![1, 2, 3]));
    assert_eq!(decrypted_payload_of(&response, "b3RoZXI="), Ok(vec![9, 8, 7, 6]));
    let response = DecryptionResponse {
        status: "OK".to_string(),
        data: Some(vec![("AAEC".to_string(), "not base64!".to_string())]),
        error: None,
    };
    assert_eq!(decrypted_payload_of(&response, "AAEC"), Err(DecryptError::ParseError));
}

#[test]
fn later_entry_of_same_name_counts() {
    let response = DecryptionResponse {
        status: "OK".to_string(),
        data: Some(vec![
            ("AAEC".to_string(), "AQID".to_string()),
            ("AAEC".to_string(), "CQgHBg==".to_string()),
        ]),
        error: None,
    };
    assert_eq!(decrypted_payload_of(&response, "AAEC"), Ok(vec![9, 8, 7, 6]));
}

#[test]
fn kek_response_grants_all_keys_or_fails() {
    let response = GetKekResponse {
        status: "OK".to_string(),
        data: Some(vec![
            ("a".to_string(), "AQID".to_string()),
            ("b".to_string(), "CQgHBg==".to_string()),
        ]),
        error: None,
    };
    assert_eq!(
        keks_of(&response),
        Ok(vec![("a".to_string(), vec![1, 2, 3]), ("b".to_string(), vec![9, 8, 7, 6])])
    );
    let response = GetKekResponse { status: "OK".to_string(), data: None, error: None };
    assert_eq!(keks_of(&response), Err(DecryptError::ProtocolViolation));
    let response = GetKekResponse {
        status: "Fail".to_string(),
        data: None,
        error: Some("denied".to_string()),
    };
    assert_eq!(keks_of(&response), Err(DecryptError::RemoteError("denied".to_string())));
}

#[test]
fn version_is_granted_only_by_ok() {
    let ok = VersionResponse { status: "OK".to_string(), version: Some("0.1.0".to_string()) };
    assert_eq!(version_of(&ok), Some("0.1.0".to_string()));
    let fail = VersionResponse { status: "Fail".to_string(), version: Some("0.1.0".to_string()) };
    assert_eq!(version_of(&fail), None);
    let empty = VersionResponse { status: "OK".to_string(), version: None };
    assert_eq!(version_of(&empty), None);
    assert_eq!(read_version_reply(b"{\"status\":\"OK\",\"version\":\"2\"}".to_vec()), Some("2".to_string()));
    assert_eq!(read_version_reply(b"{\"status\":\"OK\",\"version\":2}".to_vec()), None);
    assert_eq!(read_version_reply(vec![0xff, 0xfe]), None);
}

#[test]
fn requests_have_exact_text() {
    assert_eq!(version_request(), Some("{\"command\":\"version\"}".to_string()));
    assert_eq!(
        get_kek_request("k1"),
        Some("{\"command\":\"Get KEK\",\"kids\":[\"k1\"]}".to_string())
    );
    assert_eq!(
        decryption_request("k1", &vec![1, 2, 3], &vec![9, 8, 7, 6]),
        Some(
            "{\"blobs\":[{\"algorithm\":\"AES\",\"encrypted_data\":\"AQID\",\"iv\":\"CQgHBg==\",\
             \"key_length\":256,\"kid\":\"k1\"}],\"command\":\"Decrypt\"}"
                .to_string()
        )
    );
}

#[test]
fn every_url_resolves_to_local_endpoint() {
    assert_eq!(get_kbs_sockaddr_from_url("kbs://A"), Ok("127.0.0.1:1122".to_string()));
    assert_eq!(get_kbs_sockaddr_from_url(""), Ok("127.0.0.1:1122".to_string()));
}

#[test]
fn reply_is_cut_off_at_buffer_length() {
    assert_eq!(RESPONSE_BUFFER_LEN, 4096);
    let mut long = vec![b'a'; 5000];
    assert_eq!(received_text(long.clone()).map(|text| text.len()), Some(4096));
    long[4095] = 0xc3;
    long[4096] = 0xa9;
    assert_eq!(received_text(long), None);
    assert_eq!(received_text(b"abc".to_vec()), Some("abc".to_string()));
    assert_eq!(received_text(vec![0x80]), None);
}

#[test]
fn malformed_reply_is_parse_error() {
    assert_eq!(read_decryption_reply(b"{".to_vec(), "AAEC"), Err(DecryptError::ParseError));
    assert_eq!(read_decryption_reply(b"{\"data\":{}}".to_vec(), "AAEC"), Err(DecryptError::ParseError));
    assert_eq!(
        read_decryption_reply(b"{\"status\":\"OK\",\"data\":{\"AAEC\":7}}".to_vec(), "AAEC"),
        Err(DecryptError::ParseError)
    );
    assert_eq!(
        read_decryption_reply(b"{\"status\":\"OK\",\"data\":null,\"error\":null}".to_vec(), "AAEC"),
        Err(DecryptError::ProtocolViolation)
    );
    assert_eq!(
        read_decryption_reply(b"{\"status\":\"OK\",\"data\":{\"AAEC\":\"AQID\"}}".to_vec(), "AAEC"),
        Ok(vec![1, 2, 3])
    );
}

#[test]
fn failed_handshake_keeps_version_and_sends_nothing() {
    let mut module = connected_module("kbs://A");
    assert_eq!(module.protocol_version(), "v1");
    let text = annotation_text("kbs://B", "k1", &[10, 11], &[12], "aesm256-cbc");
    assert!(matches!(module.decrypt_payload(&text), Step::Next(Action::Connect { .. })));
    assert_eq!(module.protocol_version(), "v1");
    assert!(matches!(module.advance(Event::Connected), Step::Next(Action::Negotiate { .. })));
    assert_eq!(module.advance(Event::NegotiationFailed), Step::Failed(DecryptError::NegotiationError));
    assert_eq!(module.state(), ChannelState::Disconnected);
    assert_eq!(module.protocol_version(), "v1");
    assert_eq!(module.kbs_url(), "");
    assert_eq!(module.kek_count(), 0);
}

#[test]
fn version_is_written_by_granted_reply_only() {
    let mut module = connected_module("kbs://A");
    let text = annotation_text("kbs://B", "k1", &[10, 11], &[12], "aesm256-cbc");
    module.decrypt_payload(&text);
    module.advance(Event::Connected);
    module.advance(Event::Negotiated);
    let step = module.advance(Event::Received(b"{\"status\":\"Fail\",\"version\":\"v9\"}".to_vec()));
    assert_eq!(step, Step::Failed(DecryptError::ConnectionError));
    assert_eq!(module.protocol_version(), "v1");

    module.decrypt_payload(&text);
    module.advance(Event::Connected);
    module.advance(Event::Negotiated);
    let step = module.advance(Event::Received(b"{\"status\":\"OK\",\"version\":\"v2\"}".to_vec()));
    assert!(matches!(step, Step::Next(Action::Exchange { .. })));
    assert_eq!(module.protocol_version(), "v2");
    assert_eq!(module.advance(Event::TransmitFailed), Step::Failed(DecryptError::ConnectionError));
    assert_eq!(module.protocol_version(), "v2");
}

#[test]
fn last_annotation_is_held_by_module() {
    let mut module = EAAKbc::new();
    assert_eq!(module.encrypted_payload(), Vec::<u8>::new());
    assert_eq!(module.key_id(), "");
    assert_eq!(module.iv(), Vec::<u8>::new());
    assert_eq!(module.encrypt_type(), "");
    let text = annotation_text("kbs://A", "k1", &[10, 11], &[12], "aesm256-cbc");
    module.decrypt_payload(&text);
    assert_eq!(module.encrypted_payload(), vec![10, 11]);
    assert_eq!(module.key_id(), "k1");
    assert_eq!(module.iv(), vec![12]);
    assert_eq!(module.encrypt_type(), "aesm256-cbc");
    assert_eq!(module.decrypt_payload("{"), Step::Failed(DecryptError::ParseError));
    assert_eq!(module.key_id(), "k1");
}
