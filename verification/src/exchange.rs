//! One round trip with a key broker service, seen from the client: the text
//! of each request, and what each reply means. Nothing here touches a
//! channel; the functions take and return plain bytes and text.

use vstd::prelude::*;
use vstd::utf8::*;
use crate::encoding::{
    base64_bytes, base64_text, decode, encodable, encode, same_text, string_from_utf8,
};
use crate::entries::{entries_map, lemma_entries_map_agrees, lemma_entries_map_names, lookup};
use crate::error::{decrypt_result_view, DecryptError, DecryptFailure};
use crate::fields::{text_of_json, text_view};
use crate::json::{json_parsing, json_rendering, parse_text};
use crate::protocol::{
    answer_of, decryption_request_json, get_kek_request_json, version_answer_of,
    version_request_json, Answer, Blob, BlobModel, DecryptionRequest, DecryptionResponse,
    GetKekRequest, GetKekResponse, VersionAnswer, VersionRequest, VersionResponse,
};

verus! {

/// The most bytes of a reply that are read; what lies beyond is cut off.
pub const RESPONSE_BUFFER_LEN: usize = 4096;

/// The part of a reply that is read.
pub open spec fn kept(bytes: Seq<u8>) -> Seq<u8> {
    if bytes.len() <= RESPONSE_BUFFER_LEN {
        bytes
    } else {
        bytes.take(RESPONSE_BUFFER_LEN as int)
    }
}

/// The text of a reply: the part that is read, where it is well-formed UTF-8.
pub open spec fn reply_text(bytes: Seq<u8>) -> Option<Seq<char>> {
    if valid_utf8(kept(bytes)) {
        Some(decode_utf8(kept(bytes)))
    } else {
        None
    }
}

/// The text of the version request.
pub open spec fn version_request_text() -> Option<Seq<char>> {
    json_rendering(version_request_json("version"@))
}

/// The one blob of a decryption request: AES with a 256-bit key, payload and
/// IV in base64.
pub open spec fn request_blob(kid: Seq<char>, payload: Seq<u8>, iv: Seq<u8>) -> BlobModel {
    BlobModel {
        kid,
        encrypted_data: base64_text(payload),
        algorithm: "AES"@,
        key_length: 256,
        iv: base64_text(iv),
    }
}

/// The text of the decryption request for one payload; `None` where payload
/// or IV is too long for base64 or the request cannot be written.
pub open spec fn decryption_request_text(kid: Seq<char>, payload: Seq<u8>, iv: Seq<u8>) -> Option<
    Seq<char>,
> {
    if encodable(payload.len()) && encodable(iv.len()) {
        json_rendering(decryption_request_json("Decrypt"@, seq![request_blob(kid, payload, iv)]))
    } else {
        None
    }
}

/// The text of the request for the key-encryption key of one key id.
pub open spec fn get_kek_request_text(kid: Seq<char>) -> Option<Seq<char>> {
    json_rendering(get_kek_request_json("Get KEK"@, seq![kid]))
}

/// The message of a failed answer: the service's own, or none.
pub open spec fn remote_message(answer: Answer) -> Seq<char> {
    match answer.error {
        Some(message) => message,
        None => Seq::empty(),
    }
}

/// The version that a version answer grants: the answer must say `OK` and carry one.
pub open spec fn granted_version(answer: VersionAnswer) -> Option<Seq<char>> {
    if answer.status == "OK"@ {
        answer.version
    } else {
        None
    }
}

/// What an answer to a decryption request means for the payload whose base64
/// text is `requested`.
pub open spec fn payload_outcome(answer: Answer, requested: Seq<char>) -> Result<
    Seq<u8>,
    DecryptFailure,
> {
    if answer.status == "OK"@ {
        match answer.data {
            Some(data) => if data.contains_key(requested) {
                match base64_bytes(data[requested]) {
                    Some(plaintext) => Ok(plaintext),
                    None => Err(DecryptFailure::ParseError),
                }
            } else {
                Err(DecryptFailure::ProtocolViolation)
            },
            None => Err(DecryptFailure::ProtocolViolation),
        }
    } else if answer.status == "Fail"@ {
        Err(DecryptFailure::RemoteError(remote_message(answer)))
    } else {
        Err(DecryptFailure::UnrecognizedStatus)
    }
}

/// What an answer to a request for keys means: the keys by key id, all of
/// them or none.
pub open spec fn keks_outcome(answer: Answer) -> Result<Map<Seq<char>, Seq<u8>>, DecryptFailure> {
    if answer.status == "OK"@ {
        match answer.data {
            Some(data) => if forall|kid: Seq<char>|
                data.contains_key(kid) ==> (#[trigger] base64_bytes(data[kid])) is Some {
                Ok(data.map_values(|text: Seq<char>| base64_bytes(text)->0))
            } else {
                Err(DecryptFailure::ParseError)
            },
            None => Err(DecryptFailure::ProtocolViolation),
        }
    } else if answer.status == "Fail"@ {
        Err(DecryptFailure::RemoteError(remote_message(answer)))
    } else {
        Err(DecryptFailure::UnrecognizedStatus)
    }
}

/// The answer that the bytes of a reply hold.
pub open spec fn reply_answer(bytes: Seq<u8>) -> Option<Answer> {
    match reply_text(bytes) {
        Some(text) => match json_parsing(text) {
            Some(model) => answer_of(model),
            None => None,
        },
        None => None,
    }
}

/// The version that the bytes of a reply grant.
pub open spec fn version_reply(bytes: Seq<u8>) -> Option<Seq<char>> {
    match reply_text(bytes) {
        Some(text) => match json_parsing(text) {
            Some(model) => match version_answer_of(model) {
                Some(answer) => granted_version(answer),
                None => None,
            },
            None => None,
        },
        None => None,
    }
}

/// What the bytes of a reply to a decryption request mean.
pub open spec fn decryption_reply(bytes: Seq<u8>, requested: Seq<char>) -> Result<
    Seq<u8>,
    DecryptFailure,
> {
    match reply_answer(bytes) {
        Some(answer) => payload_outcome(answer, requested),
        None => Err(DecryptFailure::ParseError),
    }
}

/// What the bytes of a reply to a request for keys mean.
pub open spec fn kek_reply(bytes: Seq<u8>) -> Result<Map<Seq<char>, Seq<u8>>, DecryptFailure> {
    match reply_answer(bytes) {
        Some(answer) => keks_outcome(answer),
        None => Err(DecryptFailure::ParseError),
    }
}

/// The view of keys read from a reply, or of the failure to read them.
pub open spec fn keks_view(keks: Result<Vec<(String, Vec<u8>)>, DecryptError>) -> Result<
    Map<Seq<char>, Seq<u8>>,
    DecryptFailure,
> {
    match keks {
        Ok(entries) => Ok(entries_map(entries@)),
        Err(error) => Err(error@),
    }
}

/// Where a service is reached. Every URL resolves to the one local endpoint.
pub fn get_kbs_sockaddr_from_url(kbs_url: &str) -> (address: Result<String, DecryptError>)
    ensures
        address matches Ok(text) && text@ == "127.0.0.1:1122"@,
{
    Ok("127.0.0.1:1122".to_string())
}

/// Reads the text of a reply, cutting it off at the buffer's length.
pub fn received_text(bytes: Vec<u8>) -> (text: Option<String>)
    ensures
        text_view(text) == reply_text(bytes@),
{
    let ghost whole = bytes@;
    let mut read = bytes;
    read.truncate(RESPONSE_BUFFER_LEN);
    assert(read@ =~= kept(whole));
    string_from_utf8(read)
}

/// Writes the version request.
pub fn version_request() -> (text: Option<String>)
    ensures
        text_view(text) == version_request_text(),
{
    let request = VersionRequest { command: "version".to_string() };
    text_of_json(&request.to_json())
}

/// Writes the decryption request for one payload.
pub fn decryption_request(kid: &str, payload: &Vec<u8>, iv: &Vec<u8>) -> (text: Option<String>)
    ensures
        text_view(text) == decryption_request_text(kid@, payload@, iv@),
{
    let encrypted_data = match encode(payload.as_slice()) {
        Some(text) => text,
        None => {
            return None;
        },
    };
    let iv_text = match encode(iv.as_slice()) {
        Some(text) => text,
        None => {
            return None;
        },
    };
    let blob = Blob {
        kid: kid.to_owned(),
        encrypted_data,
        algorithm: "AES".to_string(),
        key_length: 256,
        iv: iv_text,
    };
    let mut blobs: Vec<Blob> = Vec::new();
    blobs.push(blob);
    let request = DecryptionRequest { command: "Decrypt".to_string(), blobs };
    assert(request.blob_models() =~= seq![request_blob(kid@, payload@, iv@)]);
    text_of_json(&request.to_json())
}

/// Writes the request for the key-encryption key of one key id.
pub fn get_kek_request(kid: &str) -> (text: Option<String>)
    ensures
        text_view(text) == get_kek_request_text(kid@),
{
    let mut kids: Vec<String> = Vec::new();
    kids.push(kid.to_owned());
    let request = GetKekRequest { command: "Get KEK".to_string(), kids };
    assert(request.kids.deep_view() =~= seq![kid@]);
    text_of_json(&request.to_json())
}

/// The version that a version response grants.
pub fn version_of(response: &VersionResponse) -> (version: Option<String>)
    ensures
        text_view(version) == granted_version(response@),
{
    if same_text(response.status.as_str(), "OK") {
        response.version.clone()
    } else {
        None
    }
}

/// The message of a failed response.
fn message_of(error: &Option<String>) -> (message: String)
    ensures
        message@ == match text_view(*error) {
            Some(text) => text,
            None => Seq::empty(),
        },
{
    match error {
        Some(text) => text.clone(),
        None => String::new(),
    }
}

/// The plaintext that a decryption response grants for the payload whose
/// base64 text is `requested`. A response that says `OK` and has no entry
/// for the payload violates the protocol; one that says `Fail` is a remote
/// error with the service's message.
pub fn decrypted_payload_of(response: &DecryptionResponse, requested: &str) -> (outcome: Result<
    Vec<u8>,
    DecryptError,
>)
    ensures
        decrypt_result_view(outcome) == payload_outcome(response@, requested@),
{
    if same_text(response.status.as_str(), "OK") {
        match &response.data {
            Some(entries) => match lookup(entries, requested) {
                Some(text) => match decode(text.as_str()) {
                    Some(plaintext) => Ok(plaintext),
                    None => Err(DecryptError::ParseError),
                },
                None => Err(DecryptError::ProtocolViolation),
            },
            None => Err(DecryptError::ProtocolViolation),
        }
    } else if same_text(response.status.as_str(), "Fail") {
        Err(DecryptError::RemoteError(message_of(&response.error)))
    } else {
        Err(DecryptError::UnrecognizedStatus)
    }
}

/// The keys that a response to a request for keys grants, as named entries.
pub fn keks_of(response: &GetKekResponse) -> (outcome: Result<Vec<(String, Vec<u8>)>, DecryptError>)
    ensures
        keks_view(outcome) == keks_outcome(response@),
{
    if same_text(response.status.as_str(), "OK") {
        match &response.data {
            Some(entries) => {
                let ghost data = entries_map(entries@);
                let mut keks: Vec<(String, Vec<u8>)> = Vec::new();
                let mut i: usize = 0;
                proof {
                    lemma_entries_map_names(entries@);
                }
                while i < entries.len()
                    invariant
                        i <= entries@.len(),
                        data == entries_map(entries@),
                        response@.data == Some(data),
                        response@.status == "OK"@,
                        forall|j: int| 0 <= j < entries@.len() ==> data.contains_key(#[trigger] entries@[j].0@),
                        keks@.len() == i,
                        forall|j: int|
                            0 <= j < i ==> (#[trigger] keks@[j]).0@ == entries@[j].0@ && base64_bytes(
                                data[entries@[j].0@],
                            ) == Some(keks@[j].1@),
                    decreases entries@.len() - i,
                {
                    assert(data.contains_key(entries@[i as int].0@));
                    match lookup(entries, entries[i].0.as_str()) {
                        Some(text) => match decode(text.as_str()) {
                            Some(kek) => {
                                keks.push((entries[i].0.clone(), kek));
                            },
                            None => {
                                assert(base64_bytes(data[entries@[i as int].0@]) is None);
                                return Err(DecryptError::ParseError);
                            },
                        },
                        None => {
                            return Err(DecryptError::ParseError);
                        },
                    }
                    i += 1;
                }
                proof {
                    assert forall|kid: Seq<char>| data.contains_key(kid) implies (#[trigger] base64_bytes(
                        data[kid],
                    )) is Some by {
                        let j = choose|j: int| 0 <= j < entries@.len() && #[trigger] entries@[j].0@ == kid;
                        assert(keks@[j].0@ == kid);
                    }
                    let target = data.map_values(|text: Seq<char>| base64_bytes(text)->0);
                    assert forall|j: int| 0 <= j < keks@.len() implies target.contains_key(
                        #[trigger] keks@[j].0@,
                    ) && target[keks@[j].0@] == keks@[j].1.deep_view() by {
                        assert(keks@[j].1.deep_view() =~= keks@[j].1@);
                    }
                    lemma_entries_map_names(keks@);
                    lemma_entries_map_agrees(keks@, target);
                    assert forall|kid: Seq<char>| #[trigger]
                        target.contains_key(kid) implies entries_map(keks@).contains_key(kid) by {
                        let j = choose|j: int| 0 <= j < entries@.len() && #[trigger] entries@[j].0@ == kid;
                        assert(keks@[j].0@ == kid);
                    }
                    assert(entries_map(keks@) =~= target);
                }
                Ok(keks)
            },
            None => Err(DecryptError::ProtocolViolation),
        }
    } else if same_text(response.status.as_str(), "Fail") {
        Err(DecryptError::RemoteError(message_of(&response.error)))
    } else {
        Err(DecryptError::UnrecognizedStatus)
    }
}

/// Reads the version that a reply grants.
pub fn read_version_reply(bytes: Vec<u8>) -> (version: Option<String>)
    ensures
        text_view(version) == version_reply(bytes@),
{
    let text = match received_text(bytes) {
        Some(text) => text,
        None => {
            return None;
        },
    };
    let value = match parse_text(text.as_str()) {
        Ok(value) => value,
        Err(_) => {
            return None;
        },
    };
    match VersionResponse::from_json(&value) {
        Some(response) => version_of(&response),
        None => None,
    }
}

/// Reads what a reply to a decryption request means.
pub fn read_decryption_reply(bytes: Vec<u8>, requested: &str) -> (outcome: Result<
    Vec<u8>,
    DecryptError,
>)
    ensures
        decrypt_result_view(outcome) == decryption_reply(bytes@, requested@),
{
    let text = match received_text(bytes) {
        Some(text) => text,
        None => {
            return Err(DecryptError::ParseError);
        },
    };
    let value = match parse_text(text.as_str()) {
        Ok(value) => value,
        Err(_) => {
            return Err(DecryptError::ParseError);
        },
    };
    match DecryptionResponse::from_json(&value) {
        Some(response) => decrypted_payload_of(&response, requested),
        None => Err(DecryptError::ParseError),
    }
}

/// Reads what a reply to a request for keys means.
pub fn read_kek_reply(bytes: Vec<u8>) -> (outcome: Result<Vec<(String, Vec<u8>)>, DecryptError>)
    ensures
        keks_view(outcome) == kek_reply(bytes@),
{
    let text = match received_text(bytes) {
        Some(text) => text,
        None => {
            return Err(DecryptError::ParseError);
        },
    };
    let value = match parse_text(text.as_str()) {
        Ok(value) => value,
        Err(_) => {
            return Err(DecryptError::ParseError);
        },
    };
    match GetKekResponse::from_json(&value) {
        Some(response) => keks_of(&response),
        None => Err(DecryptError::ParseError),
    }
}

} // verus!
