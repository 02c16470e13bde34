//! The request layer in front of the registry: it reads a key-unwrap request,
//! finds the module that the request names, lets the registry dispatch the
//! annotation to it and writes the reply. How requests arrive and replies
//! leave is not its business; it works on their bytes.
//!
//! A request has the form that key providers share: an operation, the
//! parameters for wrapping a key and the parameters for unwrapping one. This
//! agent unwraps only; the parameters for wrapping are read and not used.

use vstd::prelude::*;
use vstd::string::*;
use vstd::utf8::*;
use crate::encoding::{base64_bytes, decode, string_from_utf8};
use crate::entries::entries_map;
use crate::error::{dispatch_result_view, DispatchError, DispatchFailure};
use crate::fields::{
    bytes_model, bytes_value, given_member, json_given, json_optional_text, json_text_member,
    json_texts_map, optional_text, text_member, text_of_json, text_view, texts_map_of,
};
use crate::json::{
    as_object, insert_field, json_member, json_model, json_parsing, json_rendering, member,
    new_object, no_fields, object_value, parse_text, JsonModel,
};
use crate::kbc_manager::{kbc_get_name, selected_name, KbcManager};

verus! {

/// A request to the key provider.
#[derive(Debug, Clone, PartialEq, Eq)]
pub struct KeyProviderInput {
    op: String,
    pub keywrapparams: KeyWrapParams,
    pub keyunwrapparams: KeyUnwrapParams,
}

/// What a key-wrap request carries: the encryption parameters and the data
/// to wrap, as base64 text.
#[derive(Debug, Clone, PartialEq, Eq)]
pub struct KeyWrapParams {
    pub ec: Option<Ec>,
    pub optsdata: Option<String>,
}

/// The encryption parameters of a request, by parameter name, and the
/// decryption parameters that go with them.
#[allow(non_snake_case)]
#[derive(Debug, Clone, PartialEq, Eq)]
pub struct Ec {
    pub Parameters: Vec<(String, Vec<String>)>,
    pub DecryptConfig: Option<Dc>,
}

/// The reply to a key-wrap request.
#[derive(Debug, Clone, PartialEq, Eq)]
pub struct KeyWrapOutput {
    pub keywrapresults: KeyWrapResults,
}

/// What a key-wrap reply carries: the annotation that holds the wrapped key.
#[derive(Debug, Clone, PartialEq, Eq)]
pub struct KeyWrapResults {
    pub annotation: Vec<u8>,
}

/// What a key-unwrap request carries: the decryption parameters and the
/// annotation of the artifact, as base64 text.
#[derive(Debug, Clone, PartialEq, Eq)]
pub struct KeyUnwrapParams {
    pub dc: Option<Dc>,
    pub annotation: Option<String>,
}

/// The decryption parameters of a request, by parameter name.
#[allow(non_snake_case)]
#[derive(Debug, Clone, PartialEq, Eq)]
pub struct Dc {
    pub Parameters: Vec<(String, Vec<String>)>,
}

/// The reply to a key-unwrap request.
#[derive(Debug, Clone, PartialEq, Eq)]
pub struct KeyUnwrapOutput {
    pub keyunwrapresults: KeyUnwrapResults,
}

/// What a key-unwrap reply carries: the decrypted payload.
#[derive(Debug, Clone, PartialEq, Eq)]
pub struct KeyUnwrapResults {
    pub optsdata: Vec<u8>,
}

/// The mathematical value of the decryption parameters.
pub type ParametersModel = Map<Seq<char>, Seq<Seq<char>>>;

/// The mathematical value of a [`KeyUnwrapParams`].
pub ghost struct UnwrapParamsModel {
    pub dc: Option<ParametersModel>,
    pub annotation: Option<Seq<char>>,
}

/// The mathematical value of an [`Ec`].
pub ghost struct EcModel {
    pub parameters: ParametersModel,
    pub decrypt_config: Option<ParametersModel>,
}

/// The mathematical value of a [`KeyWrapParams`].
pub ghost struct WrapParamsModel {
    pub ec: Option<EcModel>,
    pub optsdata: Option<Seq<char>>,
}

/// The mathematical value of a [`KeyProviderInput`].
pub ghost struct InputModel {
    pub op: Seq<char>,
    pub keywrapparams: WrapParamsModel,
    pub keyunwrapparams: UnwrapParamsModel,
}

impl View for Dc {
    type V = ParametersModel;

    open spec fn view(&self) -> ParametersModel {
        entries_map(self.Parameters@)
    }
}

/// The view of optional decryption parameters.
pub open spec fn dc_view(dc: Option<Dc>) -> Option<ParametersModel> {
    match dc {
        Some(dc) => Some(dc@),
        None => None,
    }
}

impl View for KeyUnwrapParams {
    type V = UnwrapParamsModel;

    open spec fn view(&self) -> UnwrapParamsModel {
        UnwrapParamsModel { dc: dc_view(self.dc), annotation: text_view(self.annotation) }
    }
}

impl View for Ec {
    type V = EcModel;

    open spec fn view(&self) -> EcModel {
        EcModel {
            parameters: entries_map(self.Parameters@),
            decrypt_config: dc_view(self.DecryptConfig),
        }
    }
}

/// The view of optional encryption parameters.
pub open spec fn ec_view(ec: Option<Ec>) -> Option<EcModel> {
    match ec {
        Some(ec) => Some(ec@),
        None => None,
    }
}

impl View for KeyWrapParams {
    type V = WrapParamsModel;

    open spec fn view(&self) -> WrapParamsModel {
        WrapParamsModel { ec: ec_view(self.ec), optsdata: text_view(self.optsdata) }
    }
}

impl View for KeyProviderInput {
    type V = InputModel;

    closed spec fn view(&self) -> InputModel {
        InputModel {
            op: self.op@,
            keywrapparams: self.keywrapparams@,
            keyunwrapparams: self.keyunwrapparams@,
        }
    }
}

/// The decryption parameters that a JSON document holds: its member
/// `Parameters` maps names to lists of texts.
pub open spec fn dc_of(model: JsonModel) -> Option<ParametersModel> {
    match json_member(model, "Parameters"@) {
        Some(parameters) => json_texts_map(parameters),
        None => None,
    }
}

/// Optional decryption parameters: left out, or a document that holds some.
pub open spec fn optional_dc_of(model: JsonModel, key: Seq<char>) -> Option<Option<ParametersModel>> {
    match json_given(model, key) {
        None => Some(None),
        Some(inner) => match dc_of(inner) {
            Some(parameters) => Some(Some(parameters)),
            None => None,
        },
    }
}

/// The key-unwrap parameters that a JSON document holds.
pub open spec fn unwrap_params_of(model: JsonModel) -> Option<UnwrapParamsModel> {
    match (optional_dc_of(model, "dc"@), json_optional_text(model, "annotation"@)) {
        (Some(dc), Some(annotation)) => if model is Object {
            Some(UnwrapParamsModel { dc, annotation })
        } else {
            None
        },
        _ => None,
    }
}

/// The encryption parameters that a JSON document holds: its member
/// `Parameters` maps names to lists of texts, and its member `DecryptConfig`,
/// where given, holds decryption parameters.
pub open spec fn ec_of(model: JsonModel) -> Option<EcModel> {
    match (json_member(model, "Parameters"@), optional_dc_of(model, "DecryptConfig"@)) {
        (Some(parameters), Some(decrypt_config)) => match json_texts_map(parameters) {
            Some(parameters) => Some(EcModel { parameters, decrypt_config }),
            None => None,
        },
        _ => None,
    }
}

/// Optional encryption parameters: left out, or a document that holds some.
pub open spec fn optional_ec_of(model: JsonModel, key: Seq<char>) -> Option<Option<EcModel>> {
    match json_given(model, key) {
        None => Some(None),
        Some(inner) => match ec_of(inner) {
            Some(ec) => Some(Some(ec)),
            None => None,
        },
    }
}

/// The key-wrap parameters that a JSON document holds.
pub open spec fn wrap_params_of(model: JsonModel) -> Option<WrapParamsModel> {
    match (optional_ec_of(model, "ec"@), json_optional_text(model, "optsdata"@)) {
        (Some(ec), Some(optsdata)) => if model is Object {
            Some(WrapParamsModel { ec, optsdata })
        } else {
            None
        },
        _ => None,
    }
}

/// The request that a JSON document holds: the operation and both sets of
/// parameters are required.
pub open spec fn input_of(model: JsonModel) -> Option<InputModel> {
    match (
        json_text_member(model, "op"@),
        json_member(model, "keywrapparams"@),
        json_member(model, "keyunwrapparams"@),
    ) {
        (Some(op), Some(wrap), Some(unwrap)) => match (wrap_params_of(wrap), unwrap_params_of(unwrap)) {
            (Some(keywrapparams), Some(keyunwrapparams)) => Some(
                InputModel { op, keywrapparams, keyunwrapparams },
            ),
            _ => None,
        },
        _ => None,
    }
}

/// The text that base64 bytes hold, where they are well-formed UTF-8.
pub open spec fn decoded_text(text: Seq<char>) -> Option<Seq<char>> {
    match base64_bytes(text) {
        Some(bytes) => if valid_utf8(bytes) {
            Some(decode_utf8(bytes))
        } else {
            None
        },
        None => None,
    }
}

/// The annotation text and the decryption parameters of a request. A request
/// without decryption parameters is addressed to nobody.
pub open spec fn annotation_and_dc_of(input: InputModel) -> Result<
    (Seq<char>, ParametersModel),
    DispatchFailure,
> {
    match input.keyunwrapparams.annotation {
        None => Err(DispatchFailure::ParseError),
        Some(encoded) => match decoded_text(encoded) {
            None => Err(DispatchFailure::ParseError),
            Some(annotation) => match input.keyunwrapparams.dc {
                None => Err(DispatchFailure::InvalidRequestOrigin),
                Some(dc) => Ok((annotation, dc)),
            },
        },
    }
}

/// The request that the bytes of an input hold.
pub open spec fn input_of_bytes(bytes: Seq<u8>) -> Option<InputModel> {
    if valid_utf8(bytes) {
        match json_parsing(decode_utf8(bytes)) {
            Some(model) => input_of(model),
            None => None,
        }
    } else {
        None
    }
}

/// The annotation text and the decryption parameters in the bytes of an input.
pub open spec fn annotation_and_dc_in(bytes: Seq<u8>) -> Result<
    (Seq<char>, ParametersModel),
    DispatchFailure,
> {
    match input_of_bytes(bytes) {
        Some(input) => annotation_and_dc_of(input),
        None => Err(DispatchFailure::ParseError),
    }
}

/// The module name and the annotation text that the bytes of an input select.
pub open spec fn selection_in(bytes: Seq<u8>) -> Result<(Seq<char>, Seq<char>), DispatchFailure> {
    match annotation_and_dc_in(bytes) {
        Ok((annotation, dc)) => match selected_name(dc) {
            Ok(name) => Ok((name, annotation)),
            Err(failure) => Err(failure),
        },
        Err(failure) => Err(failure),
    }
}

/// The JSON form of the key-wrap reply that carries `annotation`.
pub open spec fn wrap_output_json(annotation: Seq<u8>) -> JsonModel {
    JsonModel::Object(
        no_fields().insert(
            "keywrapresults"@,
            JsonModel::Object(no_fields().insert("annotation"@, bytes_model(annotation))),
        ),
    )
}

/// The JSON form of the reply that carries `optsdata`.
pub open spec fn output_json(optsdata: Seq<u8>) -> JsonModel {
    JsonModel::Object(
        no_fields().insert(
            "keyunwrapresults"@,
            JsonModel::Object(no_fields().insert("optsdata"@, bytes_model(optsdata))),
        ),
    )
}

/// The bytes of the reply to a request, for what the registry returned.
pub open spec fn reply_bytes(dispatched: Result<Seq<u8>, DispatchFailure>) -> Result<
    Seq<u8>,
    DispatchFailure,
> {
    match dispatched {
        Ok(plaintext) => match json_rendering(output_json(plaintext)) {
            Some(text) => Ok(encode_utf8(text)),
            None => Err(DispatchFailure::ParseError),
        },
        Err(failure) => Err(failure),
    }
}

/// The view of an annotation text with decryption parameters, or of the failure to find them.
pub open spec fn annotation_and_dc_view(found: Result<(String, Dc), DispatchError>) -> Result<
    (Seq<char>, ParametersModel),
    DispatchFailure,
> {
    match found {
        Ok((annotation, dc)) => Ok((annotation@, dc@)),
        Err(error) => Err(error@),
    }
}

impl Dc {
    /// Reads the decryption parameters from a JSON document.
    pub fn from_json(value: &serde_json::Value) -> (dc: Option<Dc>)
        ensures
            dc_view(dc) == dc_of(json_model(*value)),
    {
        match member(value, "Parameters") {
            Some(parameters) => match texts_map_of(parameters) {
                Some(entries) => Some(Dc { Parameters: entries }),
                None => None,
            },
            None => None,
        }
    }
}

impl Ec {
    /// Reads the encryption parameters from a JSON document.
    pub fn from_json(value: &serde_json::Value) -> (ec: Option<Ec>)
        ensures
            ec_view(ec) == ec_of(json_model(*value)),
    {
        let parameters = match member(value, "Parameters") {
            Some(parameters) => parameters,
            None => {
                return None;
            },
        };
        let decrypt_config = match given_member(value, "DecryptConfig") {
            None => None,
            Some(inner) => match Dc::from_json(inner) {
                Some(dc) => Some(dc),
                None => {
                    return None;
                },
            },
        };
        match texts_map_of(parameters) {
            Some(entries) => Some(Ec { Parameters: entries, DecryptConfig: decrypt_config }),
            None => None,
        }
    }
}

impl KeyWrapParams {
    /// Reads the key-wrap parameters from a JSON document.
    pub fn from_json(value: &serde_json::Value) -> (params: Option<KeyWrapParams>)
        ensures
            match params {
                Some(params) => wrap_params_of(json_model(*value)) == Some(params@),
                None => wrap_params_of(json_model(*value)) is None,
            },
    {
        if as_object(value).is_none() {
            return None;
        }
        let ec = match given_member(value, "ec") {
            None => None,
            Some(inner) => match Ec::from_json(inner) {
                Some(ec) => Some(ec),
                None => {
                    return None;
                },
            },
        };
        let optsdata = match optional_text(value, "optsdata") {
            Some(optsdata) => optsdata,
            None => {
                return None;
            },
        };
        Some(KeyWrapParams { ec, optsdata })
    }
}

impl KeyUnwrapParams {
    /// Reads the key-unwrap parameters from a JSON document.
    pub fn from_json(value: &serde_json::Value) -> (params: Option<KeyUnwrapParams>)
        ensures
            match params {
                Some(params) => unwrap_params_of(json_model(*value)) == Some(params@),
                None => unwrap_params_of(json_model(*value)) is None,
            },
    {
        if as_object(value).is_none() {
            return None;
        }
        let dc = match given_member(value, "dc") {
            None => None,
            Some(inner) => match Dc::from_json(inner) {
                Some(dc) => Some(dc),
                None => {
                    return None;
                },
            },
        };
        let annotation = match optional_text(value, "annotation") {
            Some(annotation) => annotation,
            None => {
                return None;
            },
        };
        Some(KeyUnwrapParams { dc, annotation })
    }
}

impl KeyProviderInput {
    /// Reads the request from a JSON document.
    pub fn from_json(value: &serde_json::Value) -> (input: Option<KeyProviderInput>)
        ensures
            match input {
                Some(input) => input_of(json_model(*value)) == Some(input@),
                None => input_of(json_model(*value)) is None,
            },
    {
        let op = match text_member(value, "op") {
            Some(op) => op,
            None => {
                return None;
            },
        };
        let keywrapparams = match member(value, "keywrapparams") {
            Some(inner) => match KeyWrapParams::from_json(inner) {
                Some(params) => params,
                None => {
                    return None;
                },
            },
            None => {
                return None;
            },
        };
        let keyunwrapparams = match member(value, "keyunwrapparams") {
            Some(inner) => match KeyUnwrapParams::from_json(inner) {
                Some(params) => params,
                None => {
                    return None;
                },
            },
            None => {
                return None;
            },
        };
        Some(KeyProviderInput { op, keywrapparams, keyunwrapparams })
    }

    /// Reads the request from the bytes of an input.
    pub fn from_bytes(input_byte: Vec<u8>) -> (input: Option<KeyProviderInput>)
        ensures
            match input {
                Some(input) => input_of_bytes(input_byte@) == Some(input@),
                None => input_of_bytes(input_byte@) is None,
            },
    {
        let input_string = match string_from_utf8(input_byte) {
            Some(text) => text,
            None => {
                return None;
            },
        };
        match parse_text(input_string.as_str()) {
            Ok(value) => KeyProviderInput::from_json(&value),
            Err(_) => None,
        }
    }

    /// The annotation text and the decryption parameters of the request.
    pub fn annotation_and_dc(self) -> (found: Result<(String, Dc), DispatchError>)
        ensures
            annotation_and_dc_view(found) == annotation_and_dc_of(self@),
    {
        let base64_annotation = match self.keyunwrapparams.annotation {
            Some(annotation) => annotation,
            None => {
                return Err(DispatchError::ParseError);
            },
        };
        let vec_annotation = match decode(base64_annotation.as_str()) {
            Some(bytes) => bytes,
            None => {
                return Err(DispatchError::ParseError);
            },
        };
        let jsonstring_annotation = match string_from_utf8(vec_annotation) {
            Some(text) => text,
            None => {
                return Err(DispatchError::ParseError);
            },
        };
        match self.keyunwrapparams.dc {
            Some(dc) => Ok((jsonstring_annotation, dc)),
            None => Err(DispatchError::InvalidRequestOrigin),
        }
    }
}

/// Finds the annotation text and the decryption parameters in the bytes of an input.
pub fn get_annotation_and_dc_from_input(input_byte: Vec<u8>) -> (found: Result<
    (String, Dc),
    DispatchError,
>)
    ensures
        annotation_and_dc_view(found) == annotation_and_dc_in(input_byte@),
{
    match KeyProviderInput::from_bytes(input_byte) {
        Some(input) => input.annotation_and_dc(),
        None => Err(DispatchError::ParseError),
    }
}

impl KeyWrapOutput {
    /// The reply as a JSON document.
    pub fn to_json(&self) -> (value: serde_json::Value)
        ensures
            json_model(value) == wrap_output_json(self.keywrapresults.annotation@),
    {
        let mut results = new_object();
        insert_field(&mut results, "annotation".to_string(), bytes_value(&self.keywrapresults.annotation));
        let mut output = new_object();
        insert_field(&mut output, "keywrapresults".to_string(), object_value(results));
        object_value(output)
    }
}

impl KeyUnwrapOutput {
    /// The reply as a JSON document.
    pub fn to_json(&self) -> (value: serde_json::Value)
        ensures
            json_model(value) == output_json(self.keyunwrapresults.optsdata@),
    {
        let mut results = new_object();
        insert_field(&mut results, "optsdata".to_string(), bytes_value(&self.keyunwrapresults.optsdata));
        let mut output = new_object();
        insert_field(&mut output, "keyunwrapresults".to_string(), object_value(results));
        object_value(output)
    }
}

/// Writes the reply for what the registry returned: the payload in a reply
/// document, or the error as it is.
pub fn unwrap_reply(dispatched: Result<Vec<u8>, DispatchError>) -> (reply: Result<
    Vec<u8>,
    DispatchError,
>)
    ensures
        dispatch_result_view(reply) == reply_bytes(dispatch_result_view(dispatched)),
{
    match dispatched {
        Ok(decrypted_optsdata) => {
            let output_struct = KeyUnwrapOutput {
                keyunwrapresults: KeyUnwrapResults { optsdata: decrypted_optsdata },
            };
            match text_of_json(&output_struct.to_json()) {
                Some(output_string) => Ok(output_string.as_str().as_bytes_vec()),
                None => Err(DispatchError::ParseError),
            }
        },
        Err(error) => Err(error),
    }
}

/// The key provider: it serves key-unwrap requests from a registry.
#[derive(Clone)]
pub struct KeyProvider;

impl KeyProvider {
    /// Serves one key-unwrap request, given as the bytes of its JSON text,
    /// and returns the bytes of the reply. A request that is malformed, that
    /// names no module, or that names a module that is not registered, is
    /// refused and touches no module. Otherwise the named module decrypts,
    /// and the reply is made from what it returns by [`unwrap_reply`].
    pub fn un_wrap_key(&mut self, manager: &mut KbcManager, input: Vec<u8>) -> (reply: Result<
        Vec<u8>,
        DispatchError,
    >)
        requires
            old(manager).wf(),
        ensures
            final(manager).wf(),
            final(manager).names() == old(manager).names(),
            match selection_in(input@) {
                Err(failure) => {
                    &&& *final(manager) == *old(manager)
                    &&& dispatch_result_view(reply) == Err::<Seq<u8>, DispatchFailure>(failure)
                },
                Ok((name, annotation)) => if old(manager).has(name) {
                    reply is Ok || reply matches Err(DispatchError::ModuleError(_))
                        || reply matches Err(DispatchError::ParseError)
                } else {
                    &&& *final(manager) == *old(manager)
                    &&& reply == Err::<Vec<u8>, DispatchError>(DispatchError::UnknownModule)
                },
            },
    {
        let (annotation, dc) = match get_annotation_and_dc_from_input(input) {
            Ok(found) => found,
            Err(error) => {
                return Err(error);
            },
        };
        let kbc_name_string = match kbc_get_name(dc.Parameters) {
            Ok(name) => name,
            Err(error) => {
                return Err(error);
            },
        };
        let dispatched = manager.call_kbc_decrypt(kbc_name_string.as_str(), annotation.as_str());
        unwrap_reply(dispatched)
    }
}

} // verus!
