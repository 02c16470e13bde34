use attestation_agent::entries::lookup;
use attestation_agent::fields::text_of_json;
use attestation_agent::protocol::{
    Blob, DecryptionRequest, DecryptionResponse, GetKekRequest, GetKekResponse, VersionRequest,
    VersionResponse,
};

fn parse(text: &str) -> serde_json::Value {
    serde_json::from_str(text).unwrap()
}

#[test]
fn version_request_is_written() {
    let request = VersionRequest { command: "version".to_string() };
    assert_eq!(text_of_json(&request.to_json()), Some("{\"command\":\"version\"}".to_string()));
}

#[test]
fn decryption_request_is_written_with_all_blobs() {
    let blob = |kid: &str| Blob {
        kid: kid.to_string(),
        encrypted_data: "AQID".to_string(),
        algorithm: "AES".to_string(),
        key_length: 256,
        iv: "CQgHBg==".to_string(),
    };
    let request = DecryptionRequest { command: "Decrypt".to_string(), blobs: vec![blob("a"), blob("b")] };
    let value = request.to_json();
    assert_eq!(value.get("command").and_then(|c| c.as_str()), Some("Decrypt"));
    let blobs = value.get("blobs").and_then(|b| b.as_array()).unwrap();
    assert_eq!(blobs.len(), 2);
    assert_eq!(blobs[0], blob("a").to_json());
    assert_eq!(blobs[1].get("kid").and_then(|k| k.as_str()), Some("b"));
    assert_eq!(blobs[1].get("key_length").and_then(|k| k.as_u64()), Some(256));
    assert_eq!(blobs[1].get("encrypted_data").and_then(|k| k.as_str()), Some("AQID"));
    assert_eq!(blobs[1].get("algorithm").and_then(|k| k.as_str()), Some("AES"));
    assert_eq!(blobs[1].get("iv").and_then(|k| k.as_str()), Some("CQgHBg=="));
    let empty = DecryptionRequest { command: "Decrypt".to_string(), blobs: vec![] };
    assert_eq!(text_of_json(&empty.to_json()), Some("{\"blobs\":[],\"command\":\"Decrypt\"}".to_string()));
}

#[test]
fn get_kek_request_is_written() {
    let request = GetKekRequest {
        command: "Get KEK".to_string(),
        kids: vec!["k1".to_string(), "k\"2".to_string()],
    };
    assert_eq!(
        text_of_json(&request.to_json()),
        Some("{\"command\":\"Get KEK\",\"kids\":[\"k1\",\"k\\\"2\"]}".to_string())
    );
}

#[test]
fn version_response_is_read() {
    assert_eq!(
        VersionResponse::from_json(&parse("{\"status\":\"OK\",\"version\":\"0.1.0\"}")),
        Some(VersionResponse { status: "OK".to_string(), version: Some("0.1.0".to_string()) })
    );
    assert_eq!(
        VersionResponse::from_json(&parse("{\"status\":\"Fail\",\"version\":null}")),
        Some(VersionResponse { status: "Fail".to_string(), version: None })
    );
    assert_eq!(
        VersionResponse::from_json(&parse("{\"status\":\"Fail\"}")),
        Some(VersionResponse { status: "Fail".to_string(), version: None })
    );
    assert_eq!(VersionResponse::from_json(&parse("{\"version\":\"0.1.0\"}")), None);
    assert_eq!(VersionResponse::from_json(&parse("{\"status\":1}")), None);
    assert_eq!(VersionResponse::from_json(&parse("\"OK\"")), None);
}

#[test]
fn decryption_response_is_read() {
    let response = DecryptionResponse::from_json(&parse(
        "{\"status\":\"OK\",\"data\":{\"b\":\"2\",\"a\":\"1\"},\"extra\":true}",
    ))
    .unwrap();
    assert_eq!(response.status, "OK");
    assert_eq!(response.error, None);
    let data = response.data.unwrap();
    assert_eq!(data.len(), 2);
    assert_eq!(lookup(&data, "a"), Some(&"1".to_string()));
    assert_eq!(lookup(&data, "b"), Some(&"2".to_string()));
    assert_eq!(lookup(&data, "c"), None);

    assert_eq!(
        DecryptionResponse::from_json(&parse("{\"status\":\"Fail\",\"error\":\"no such key\"}")),
        Some(DecryptionResponse {
            status: "Fail".to_string(),
            data: None,
            error: Some("no such key".to_string()),
        })
    );
    assert_eq!(DecryptionResponse::from_json(&parse("{\"status\":\"OK\",\"data\":[]}")), None);
    assert_eq!(DecryptionResponse::from_json(&parse("{\"status\":\"OK\",\"data\":{\"a\":1}}")), None);
    assert_eq!(DecryptionResponse::from_json(&parse("{\"status\":\"OK\",\"error\":7}")), None);
    assert_eq!(DecryptionResponse::from_json(&parse("{\"data\":{}}")), None);
}

#[test]
fn get_kek_response_is_read() {
    assert_eq!(
        GetKekResponse::from_json(&parse("{\"status\":\"OK\",\"data\":{\"k1\":\"AQID\"},\"error\":null}")),
        Some(GetKekResponse {
            status: "OK".to_string(),
            data: Some(vec![("k1".to_string(), "AQID".to_string())]),
            error: None,
        })
    );
    assert_eq!(GetKekResponse::from_json(&parse("[]")), None);
}
