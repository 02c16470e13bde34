//! The sample module that decrypts locally: it holds a fixed key and a
//! fixed nonce, for illustration only, and opens AES-256-GCM payloads with
//! them. It talks to no service and keeps nothing but the last payload and a
//! log of the key URLs it was shown.

use aes_gcm::aead::{Aead, NewAead};
use vstd::prelude::*;
use crate::error::{decrypt_result_view, DecryptError, DecryptFailure};
use crate::fields::{bytes_member, json_bytes_member, json_text_member, text_member};
use crate::json::{json_model, json_parsing, parse_text, JsonModel};
use crate::kbc_manager::{KbcCheckInfo, KbcInterface};

verus! {

#[verifier::external_type_specification]
#[verifier::external_body]
pub struct ExAeadError(aes_gcm::Error);

/// The key that the module decrypts with.
pub const SAMPLE_KEY: [u8; 32] = [
    112, 97, 115, 115, 112, 104, 114, 97, 115, 101, 119, 104, 105, 99, 104, 110,
    101, 101, 100, 115, 116, 111, 98, 101, 51, 50, 98, 121, 116, 101, 115, 33,
];

/// The nonce that the module decrypts with.
pub const SAMPLE_NONCE: [u8; 12] = [117, 110, 105, 113, 117, 101, 32, 110, 111, 110, 99, 101];

/// The length of the integrity tag that ends every sealed payload.
pub const TAG_LEN: usize = 16;

/// The plaintext that AES-256-GCM opens from a sealed payload with a key and a
/// nonce and no associated data, or `None` where the payload does not
/// authenticate.
pub uninterp spec fn aes256_gcm_opening(key: Seq<u8>, nonce: Seq<u8>, sealed: Seq<u8>) -> Option<
    Seq<u8>,
>;

/// Calls `Aes256Gcm::new` and `Aead::decrypt`. Trusted: the outcome depends on
/// key, nonce and payload alone and is named [`aes256_gcm_opening`]; a
/// payload shorter than the tag is refused, and a plaintext is its payload
/// without the tag, so shorter by the tag's length. The crate panics on a key
/// that is not 32 bytes long or a nonce that is not 12, which `requires`
/// leaves out.
#[verifier::external_body]
fn aes256_gcm_open(key: &[u8], nonce: &[u8], sealed: &[u8]) -> (opened: Result<
    Vec<u8>,
    aes_gcm::Error,
>)
    requires
        key@.len() == 32,
        nonce@.len() == 12,
    ensures
        match opened {
            Ok(plaintext) => aes256_gcm_opening(key@, nonce@, sealed@) == Some(plaintext@),
            Err(_) => aes256_gcm_opening(key@, nonce@, sealed@) is None,
        },
        sealed@.len() < TAG_LEN ==> opened is Err,
        opened matches Ok(plaintext) ==> plaintext@.len() + TAG_LEN == sealed@.len(),
{
    let cipher = aes_gcm::Aes256Gcm::new(aes_gcm::Key::from_slice(key));
    cipher.decrypt(aes_gcm::Nonce::from_slice(nonce), sealed)
}

/// What travels with an artifact that this module can decrypt.
#[derive(Debug, Clone, PartialEq, Eq)]
pub struct AnnotationPacket {
    /// Where the key broker service is; logged, never contacted.
    pub key_url: String,
    /// The sealed payload: ciphertext followed by its tag.
    pub wrapped_key: Vec<u8>,
    pub wrap_type: String,
}

/// The mathematical value of an [`AnnotationPacket`].
pub ghost struct AnnotationModel {
    pub key_url: Seq<char>,
    pub wrapped_key: Seq<u8>,
    pub wrap_type: Seq<char>,
}

impl View for AnnotationPacket {
    type V = AnnotationModel;

    open spec fn view(&self) -> AnnotationModel {
        AnnotationModel {
            key_url: self.key_url@,
            wrapped_key: self.wrapped_key@,
            wrap_type: self.wrap_type@,
        }
    }
}

/// The annotation that a JSON document holds: all three members are required.
pub open spec fn annotation_of(model: JsonModel) -> Option<AnnotationModel> {
    match (
        json_text_member(model, "key_url"@),
        json_bytes_member(model, "wrapped_key"@),
        json_text_member(model, "wrap_type"@),
    ) {
        (Some(key_url), Some(wrapped_key), Some(wrap_type)) => Some(
            AnnotationModel { key_url, wrapped_key, wrap_type },
        ),
        _ => None,
    }
}

/// The annotation that a text holds: the text must be JSON and hold one.
pub open spec fn annotation_of_text(text: Seq<char>) -> Option<AnnotationModel> {
    match json_parsing(text) {
        Some(model) => annotation_of(model),
        None => None,
    }
}

/// What decrypting a sealed payload gives: its plaintext, or an authentication failure.
pub open spec fn opening_outcome(sealed: Seq<u8>) -> Result<Seq<u8>, DecryptFailure> {
    match aes256_gcm_opening(SAMPLE_KEY@, SAMPLE_NONCE@, sealed) {
        Some(plaintext) => Ok(plaintext),
        None => Err(DecryptFailure::AuthenticationFailure),
    }
}

/// What decrypting an annotation gives. It depends on the annotation alone:
/// the same annotation gives the same result however often it is decrypted.
pub open spec fn decrypt_outcome(messages: Seq<char>) -> Result<Seq<u8>, DecryptFailure> {
    match annotation_of_text(messages) {
        Some(packet) => opening_outcome(packet.wrapped_key),
        None => Err(DecryptFailure::ParseError),
    }
}

impl AnnotationPacket {
    /// Reads the annotation from a JSON document; `None` where the document holds none.
    pub fn from_json(value: &serde_json::Value) -> (packet: Option<AnnotationPacket>)
        ensures
            match packet {
                Some(packet) => annotation_of(json_model(*value)) == Some(packet@),
                None => annotation_of(json_model(*value)) is None,
            },
    {
        let key_url = match text_member(value, "key_url") {
            Some(key_url) => key_url,
            None => {
                return None;
            },
        };
        let wrapped_key = match bytes_member(value, "wrapped_key") {
            Some(wrapped_key) => wrapped_key,
            None => {
                return None;
            },
        };
        let wrap_type = match text_member(value, "wrap_type") {
            Some(wrap_type) => wrap_type,
            None => {
                return None;
            },
        };
        Some(AnnotationPacket { key_url, wrapped_key, wrap_type })
    }

    /// Reads the annotation from its JSON text; `None` where the text holds none.
    pub fn from_text(text: &str) -> (packet: Option<AnnotationPacket>)
        ensures
            match packet {
                Some(packet) => annotation_of_text(text@) == Some(packet@),
                None => annotation_of_text(text@) is None,
            },
    {
        match parse_text(text) {
            Ok(value) => AnnotationPacket::from_json(&value),
            Err(_) => None,
        }
    }
}

/// Opens a sealed payload with the module's key and nonce. A payload that
/// is shorter than the tag never authenticates; a plaintext is shorter than
/// its payload by the tag's length.
pub fn open_sealed(sealed: &Vec<u8>) -> (outcome: Result<Vec<u8>, DecryptError>)
    ensures
        decrypt_result_view(outcome) == opening_outcome(sealed@),
        sealed@.len() < TAG_LEN ==> outcome == Err::<Vec<u8>, DecryptError>(
            DecryptError::AuthenticationFailure,
        ),
        outcome matches Ok(plaintext) ==> plaintext@.len() + TAG_LEN == sealed@.len(),
{
    match aes256_gcm_open(SAMPLE_KEY.as_slice(), SAMPLE_NONCE.as_slice(), sealed.as_slice()) {
        Ok(plaintext) => Ok(plaintext),
        Err(_) => Err(DecryptError::AuthenticationFailure),
    }
}

/// The local-decrypt module.
pub struct SampleKbc {
    encrypted_payload: Vec<u8>,
    kbs_info: Vec<String>,
}

impl SampleKbc {
    /// The sealed payload of the last annotation that was read.
    pub closed spec fn payload(&self) -> Seq<u8> {
        self.encrypted_payload@
    }

    /// The key URLs of all annotations read so far, oldest first.
    pub closed spec fn seen_urls(&self) -> Seq<Seq<char>> {
        self.kbs_info.deep_view()
    }

    /// A module that has seen nothing yet.
    pub fn new() -> (module: SampleKbc)
        ensures
            module.payload() == Seq::<u8>::empty(),
            module.seen_urls() == Seq::<Seq<char>>::empty(),
    {
        let module = SampleKbc { encrypted_payload: Vec::new(), kbs_info: Vec::new() };
        module
    }
}

impl KbcInterface for SampleKbc {
    /// Reports the key URLs seen so far.
    fn check(&self) -> (info: KbcCheckInfo)
        ensures
            info.kbs_info.deep_view() == self.seen_urls(),
    {
        let mut urls: Vec<String> = Vec::new();
        let mut i: usize = 0;
        while i < self.kbs_info.len()
            invariant
                i <= self.kbs_info@.len(),
                urls@.len() == i,
                forall|j: int| 0 <= j < i ==> (#[trigger] urls@[j])@ == self.kbs_info@[j]@,
            decreases self.kbs_info@.len() - i,
        {
            urls.push(self.kbs_info[i].clone());
            i += 1;
        }
        KbcCheckInfo { kbs_info: urls }
    }

    /// Reads the annotation, logs its key URL, keeps its payload and opens the
    /// payload. A malformed annotation changes nothing. A payload shorter
    /// than the tag fails authentication; a plaintext is shorter than its
    /// payload by the tag's length.
    fn decrypt_payload(&mut self, messages: &str) -> (outcome: Result<Vec<u8>, DecryptError>)
        ensures
            decrypt_result_view(outcome) == decrypt_outcome(messages@),
            match annotation_of_text(messages@) {
                Some(packet) => {
                    &&& final(self).seen_urls() == old(self).seen_urls().push(packet.key_url)
                    &&& final(self).payload() == packet.wrapped_key
                    &&& packet.wrapped_key.len() < TAG_LEN ==> outcome == Err::<
                        Vec<u8>,
                        DecryptError,
                    >(DecryptError::AuthenticationFailure)
                    &&& outcome matches Ok(plaintext) ==> plaintext@.len() + TAG_LEN
                        == packet.wrapped_key.len()
                },
                None => *final(self) == *old(self),
            },
    {
        let packet = match AnnotationPacket::from_text(messages) {
            Some(packet) => packet,
            None => {
                return Err(DecryptError::ParseError);
            },
        };
        self.kbs_info.push(packet.key_url);
        self.encrypted_payload = packet.wrapped_key;
        open_sealed(&self.encrypted_payload)
    }
}

} // verus!
