//! The messages exchanged with a key broker service, and their JSON forms.
//!
//! Requests are written, responses are read. Every response carries a
//! `status`; the payload members `data` and `error` may be left out or `null`.

use vstd::prelude::*;
use crate::fields::{
    data_view, json_optional_text, json_optional_text_map, json_text_member, optional_text,
    optional_text_map, text_member, text_view, texts_model, texts_value,
};
use crate::json::{
    array_value, insert_field, json_model, models_of, new_object, no_fields, object_value,
    text_value, unsigned_value, JsonModel, NumberModel,
};

verus! {

/// Asks the service which protocol version it speaks.
#[derive(Debug, Clone, PartialEq, Eq)]
pub struct VersionRequest {
    pub command: String,
}

/// The service's answer to a [`VersionRequest`].
#[derive(Debug, Clone, PartialEq, Eq)]
pub struct VersionResponse {
    pub status: String,
    pub version: Option<String>,
}

/// Asks the service to decrypt the blobs it carries.
#[derive(Debug, Clone, PartialEq, Eq)]
pub struct DecryptionRequest {
    pub command: String,
    pub blobs: Vec<Blob>,
}

/// One encrypted payload of a [`DecryptionRequest`]; the binary members are base64 text.
#[derive(Debug, Clone, PartialEq, Eq)]
pub struct Blob {
    pub kid: String,
    pub encrypted_data: String,
    pub algorithm: String,
    pub key_length: u32,
    pub iv: String,
}

/// The service's answer to a [`DecryptionRequest`]: `data` maps the base64
/// text of each ciphertext to the base64 text of its plaintext.
#[derive(Debug, Clone, PartialEq, Eq)]
pub struct DecryptionResponse {
    pub status: String,
    pub data: Option<Vec<(String, String)>>,
    pub error: Option<String>,
}

/// Asks the service for the key-encryption keys of the listed key ids.
#[derive(Debug, Clone, PartialEq, Eq)]
pub struct GetKekRequest {
    pub command: String,
    pub kids: Vec<String>,
}

/// The service's answer to a [`GetKekRequest`]: `data` maps each key id to
/// the base64 text of its key.
#[derive(Debug, Clone, PartialEq, Eq)]
pub struct GetKekResponse {
    pub status: String,
    pub data: Option<Vec<(String, String)>>,
    pub error: Option<String>,
}

/// The mathematical value of a [`VersionResponse`].
pub ghost struct VersionAnswer {
    pub status: Seq<char>,
    pub version: Option<Seq<char>>,
}

/// The mathematical value of a [`Blob`].
pub ghost struct BlobModel {
    pub kid: Seq<char>,
    pub encrypted_data: Seq<char>,
    pub algorithm: Seq<char>,
    pub key_length: u32,
    pub iv: Seq<char>,
}

/// The mathematical value of a [`DecryptionResponse`] and of a [`GetKekResponse`].
pub ghost struct Answer {
    pub status: Seq<char>,
    pub data: Option<Map<Seq<char>, Seq<char>>>,
    pub error: Option<Seq<char>>,
}

impl View for VersionResponse {
    type V = VersionAnswer;

    open spec fn view(&self) -> VersionAnswer {
        VersionAnswer { status: self.status@, version: text_view(self.version) }
    }
}

impl View for Blob {
    type V = BlobModel;

    open spec fn view(&self) -> BlobModel {
        BlobModel {
            kid: self.kid@,
            encrypted_data: self.encrypted_data@,
            algorithm: self.algorithm@,
            key_length: self.key_length,
            iv: self.iv@,
        }
    }
}

impl View for DecryptionResponse {
    type V = Answer;

    open spec fn view(&self) -> Answer {
        Answer { status: self.status@, data: data_view(self.data), error: text_view(self.error) }
    }
}

impl View for GetKekResponse {
    type V = Answer;

    open spec fn view(&self) -> Answer {
        Answer { status: self.status@, data: data_view(self.data), error: text_view(self.error) }
    }
}

/// The version answer that a JSON document holds, if it holds one.
pub open spec fn version_answer_of(model: JsonModel) -> Option<VersionAnswer> {
    match (json_text_member(model, "status"@), json_optional_text(model, "version"@)) {
        (Some(status), Some(version)) => Some(VersionAnswer { status, version }),
        _ => None,
    }
}

/// The answer that a JSON document holds, if it holds one.
pub open spec fn answer_of(model: JsonModel) -> Option<Answer> {
    match (
        json_text_member(model, "status"@),
        json_optional_text_map(model, "data"@),
        json_optional_text(model, "error"@),
    ) {
        (Some(status), Some(data), Some(error)) => Some(Answer { status, data, error }),
        _ => None,
    }
}

/// The JSON form of a version request.
pub open spec fn version_request_json(command: Seq<char>) -> JsonModel {
    JsonModel::Object(no_fields().insert("command"@, JsonModel::String(command)))
}

/// The JSON form of a blob.
pub open spec fn blob_json(blob: BlobModel) -> JsonModel {
    JsonModel::Object(
        no_fields().insert("kid"@, JsonModel::String(blob.kid)).insert(
            "encrypted_data"@,
            JsonModel::String(blob.encrypted_data),
        ).insert("algorithm"@, JsonModel::String(blob.algorithm)).insert(
            "key_length"@,
            JsonModel::Number(NumberModel::PosInt(blob.key_length as u64)),
        ).insert("iv"@, JsonModel::String(blob.iv)),
    )
}

/// The JSON form of a decryption request.
pub open spec fn decryption_request_json(command: Seq<char>, blobs: Seq<BlobModel>) -> JsonModel {
    JsonModel::Object(
        no_fields().insert("command"@, JsonModel::String(command)).insert(
            "blobs"@,
            JsonModel::Array(Seq::new(blobs.len(), |j: int| blob_json(blobs[j]))),
        ),
    )
}

/// The JSON form of a request for key-encryption keys.
pub open spec fn get_kek_request_json(command: Seq<char>, kids: Seq<Seq<char>>) -> JsonModel {
    JsonModel::Object(
        no_fields().insert("command"@, JsonModel::String(command)).insert("kids"@, texts_model(kids)),
    )
}

impl VersionRequest {
    /// The request as a JSON document.
    pub fn to_json(&self) -> (value: serde_json::Value)
        ensures
            json_model(value) == version_request_json(self.command@),
    {
        let mut object = new_object();
        insert_field(&mut object, "command".to_string(), text_value(self.command.clone()));
        object_value(object)
    }
}

impl VersionResponse {
    /// Reads the response from a JSON document; `None` where the document holds none.
    pub fn from_json(value: &serde_json::Value) -> (response: Option<VersionResponse>)
        ensures
            match response {
                Some(response) => version_answer_of(json_model(*value)) == Some(response@),
                None => version_answer_of(json_model(*value)) is None,
            },
    {
        let status = match text_member(value, "status") {
            Some(status) => status,
            None => {
                return None;
            },
        };
        let version = match optional_text(value, "version") {
            Some(version) => version,
            None => {
                return None;
            },
        };
        Some(VersionResponse { status, version })
    }
}

impl Blob {
    /// The blob as a JSON document.
    pub fn to_json(&self) -> (value: serde_json::Value)
        ensures
            json_model(value) == blob_json(self@),
    {
        let mut object = new_object();
        insert_field(&mut object, "kid".to_string(), text_value(self.kid.clone()));
        insert_field(
            &mut object,
            "encrypted_data".to_string(),
            text_value(self.encrypted_data.clone()),
        );
        insert_field(&mut object, "algorithm".to_string(), text_value(self.algorithm.clone()));
        insert_field(&mut object, "key_length".to_string(), unsigned_value(self.key_length as u64));
        insert_field(&mut object, "iv".to_string(), text_value(self.iv.clone()));
        object_value(object)
    }
}

impl DecryptionRequest {
    /// The blobs of the request, by their mathematical values.
    pub open spec fn blob_models(&self) -> Seq<BlobModel> {
        Seq::new(self.blobs@.len(), |j: int| self.blobs@[j]@)
    }

    /// The request as a JSON document.
    pub fn to_json(&self) -> (value: serde_json::Value)
        ensures
            json_model(value) == decryption_request_json(self.command@, self.blob_models()),
    {
        let mut items: Vec<serde_json::Value> = Vec::new();
        let mut i: usize = 0;
        while i < self.blobs.len()
            invariant
                i <= self.blobs@.len(),
                items@.len() == i,
                forall|j: int| 0 <= j < i ==> json_model(#[trigger] items@[j]) == blob_json(self.blobs@[j]@),
            decreases self.blobs@.len() - i,
        {
            items.push(self.blobs[i].to_json());
            i += 1;
        }
        assert(models_of(items@) =~= Seq::new(
            self.blob_models().len(),
            |j: int| blob_json(self.blob_models()[j]),
        ));
        let mut object = new_object();
        insert_field(&mut object, "command".to_string(), text_value(self.command.clone()));
        insert_field(&mut object, "blobs".to_string(), array_value(items));
        object_value(object)
    }
}

impl DecryptionResponse {
    /// Reads the response from a JSON document; `None` where the document holds none.
    pub fn from_json(value: &serde_json::Value) -> (response: Option<DecryptionResponse>)
        ensures
            match response {
                Some(response) => answer_of(json_model(*value)) == Some(response@),
                None => answer_of(json_model(*value)) is None,
            },
    {
        let status = match text_member(value, "status") {
            Some(status) => status,
            None => {
                return None;
            },
        };
        let data = match optional_text_map(value, "data") {
            Some(data) => data,
            None => {
                return None;
            },
        };
        let error = match optional_text(value, "error") {
            Some(error) => error,
            None => {
                return None;
            },
        };
        Some(DecryptionResponse { status, data, error })
    }
}

impl GetKekRequest {
    /// The request as a JSON document.
    pub fn to_json(&self) -> (value: serde_json::Value)
        ensures
            json_model(value) == get_kek_request_json(self.command@, self.kids.deep_view()),
    {
        let mut object = new_object();
        insert_field(&mut object, "command".to_string(), text_value(self.command.clone()));
        insert_field(&mut object, "kids".to_string(), texts_value(&self.kids));
        object_value(object)
    }
}

impl GetKekResponse {
    /// Reads the response from a JSON document; `None` where the document holds none.
    pub fn from_json(value: &serde_json::Value) -> (response: Option<GetKekResponse>)
        ensures
            match response {
                Some(response) => answer_of(json_model(*value)) == Some(response@),
                None => answer_of(json_model(*value)) is None,
            },
    {
        let status = match text_member(value, "status") {
            Some(status) => status,
            None => {
                return None;
            },
        };
        let data = match optional_text_map(value, "data") {
            Some(data) => data,
            None => {
                return None;
            },
        };
        let error = match optional_text(value, "error") {
            Some(error) => error,
            None => {
                return None;
            },
        };
        Some(GetKekResponse { status, data, error })
    }
}

} // verus!
