//! The module that decrypts through a key broker service, reached over an
//! attested channel.
//!
//! The module never touches the channel itself. It is a state machine: a
//! call that starts an operation, or an event that reports what the channel
//! did, moves it to its next state and yields either the next thing to do on
//! the channel or the end of the operation. Whoever owns the channel performs
//! the action and reports back with [`EAAKbc::advance`].
//!
//! A channel that is being set up passes through `Connecting`, `Negotiating`
//! and `VersionExchange`; once the version is exchanged the channel is live
//! and the pending decryption request goes out at once (`Decrypting`). A live
//! channel without a request under way is `Ready`. Whenever the channel
//! fails, the module is `Disconnected` again and every cached key is gone.
//! The protocol version is written by a granted version reply and by
//! nothing else: it outlasts the channel that it was exchanged on.

use vstd::hash_map::StringHashMap;
use vstd::prelude::*;
use crate::encoding::{base64_text, encodable, encode, same_text};
use crate::entries::entries_map;
use crate::error::{DecryptError, DecryptFailure};
use crate::exchange::{
    decryption_reply, decryption_request, decryption_request_text, get_kbs_sockaddr_from_url,
    get_kek_request, get_kek_request_text, kek_reply, read_decryption_reply, read_kek_reply,
    read_version_reply, version_reply, version_request, version_request_text,
};
use crate::fields::{bytes_member, json_bytes_member, json_text_member, text_member};
use crate::json::{json_model, json_parsing, parse_text, JsonModel};
use crate::kbc_manager::KbcCheckInfo;

verus! {

/// What travels with an artifact that this module can decrypt.
#[derive(Debug, Clone, PartialEq, Eq)]
pub struct AnnotationPacket {
    /// The key broker service that holds the key.
    pub url: String,
    /// The id of the key.
    pub kid: String,
    /// The encrypted payload.
    pub wrapped_data: Vec<u8>,
    /// The initialization vector of the encryption.
    pub iv: Vec<u8>,
    pub wrap_type: String,
}

/// The mathematical value of an [`AnnotationPacket`].
pub ghost struct AnnotationModel {
    pub url: Seq<char>,
    pub kid: Seq<char>,
    pub wrapped_data: Seq<u8>,
    pub iv: Seq<u8>,
    pub wrap_type: Seq<char>,
}

impl View for AnnotationPacket {
    type V = AnnotationModel;

    open spec fn view(&self) -> AnnotationModel {
        AnnotationModel {
            url: self.url@,
            kid: self.kid@,
            wrapped_data: self.wrapped_data@,
            iv: self.iv@,
            wrap_type: self.wrap_type@,
        }
    }
}

/// The annotation that a JSON document holds: all five members are required.
pub open spec fn annotation_of(model: JsonModel) -> Option<AnnotationModel> {
    match (
        json_text_member(model, "url"@),
        json_text_member(model, "kid"@),
        json_bytes_member(model, "wrapped_data"@),
        json_bytes_member(model, "iv"@),
        json_text_member(model, "wrap_type"@),
    ) {
        (Some(url), Some(kid), Some(wrapped_data), Some(iv), Some(wrap_type)) => Some(
            AnnotationModel { url, kid, wrapped_data, iv, wrap_type },
        ),
        _ => None,
    }
}

/// The annotation that a text holds: the text must be JSON and hold one.
pub open spec fn annotation_of_text(text: Seq<char>) -> Option<AnnotationModel> {
    match json_parsing(text) {
        Some(model) => annotation_of(model),
        None => None,
    }
}

impl AnnotationPacket {
    /// Reads the annotation from a JSON document; `None` where the document holds none.
    pub fn from_json(value: &serde_json::Value) -> (packet: Option<AnnotationPacket>)
        ensures
            match packet {
                Some(packet) => annotation_of(json_model(*value)) == Some(packet@),
                None => annotation_of(json_model(*value)) is None,
            },
    {
        let url = match text_member(value, "url") {
            Some(url) => url,
            None => {
                return None;
            },
        };
        let kid = match text_member(value, "kid") {
            Some(kid) => kid,
            None => {
                return None;
            },
        };
        let wrapped_data = match bytes_member(value, "wrapped_data") {
            Some(wrapped_data) => wrapped_data,
            None => {
                return None;
            },
        };
        let iv = match bytes_member(value, "iv") {
            Some(iv) => iv,
            None => {
                return None;
            },
        };
        let wrap_type = match text_member(value, "wrap_type") {
            Some(wrap_type) => wrap_type,
            None => {
                return None;
            },
        };
        Some(AnnotationPacket { url, kid, wrapped_data, iv, wrap_type })
    }

    /// Reads the annotation from its JSON text; `None` where the text holds none.
    pub fn from_text(text: &str) -> (packet: Option<AnnotationPacket>)
        ensures
            match packet {
                Some(packet) => annotation_of_text(text@) == Some(packet@),
                None => annotation_of_text(text@) is None,
            },
    {
        match parse_text(text) {
            Ok(value) => AnnotationPacket::from_json(&value),
            Err(_) => None,
        }
    }
}

/// Where the module stands with its channel.
#[derive(Debug, Clone, Copy, PartialEq, Eq)]
pub enum ChannelState {
    /// No channel.
    Disconnected,
    /// A transport connection is being opened.
    Connecting,
    /// The attested handshake is under way.
    Negotiating,
    /// The version request is under way.
    VersionExchange,
    /// The channel is live and a decryption request is under way.
    Decrypting,
    /// The channel is live and a request for keys is under way.
    FetchingKek,
    /// The channel is live and idle.
    Ready,
}

/// Whether a state has a live channel: one whose version has been exchanged.
pub open spec fn channel_live(state: ChannelState) -> bool {
    state is Ready || state is Decrypting || state is FetchingKek
}

/// How the attested handshake is to be run.
#[derive(Debug, Clone, PartialEq, Eq)]
pub struct ChannelConfig {
    pub mutual_attestation: bool,
    pub attester: String,
    pub verifier: String,
    pub tls_library: String,
    pub session_cache: bool,
}

/// The mathematical value of a [`ChannelConfig`].
pub ghost struct ConfigModel {
    pub mutual_attestation: bool,
    pub attester: Seq<char>,
    pub verifier: Seq<char>,
    pub tls_library: Seq<char>,
    pub session_cache: bool,
}

impl View for ChannelConfig {
    type V = ConfigModel;

    open spec fn view(&self) -> ConfigModel {
        ConfigModel {
            mutual_attestation: self.mutual_attestation,
            attester: self.attester@,
            verifier: self.verifier@,
            tls_library: self.tls_library@,
            session_cache: self.session_cache,
        }
    }
}

/// The handshake that the module asks for: mutual attestation with the null
/// attester and the null verifier over OpenSSL, without a session cache.
pub open spec fn handshake_config() -> ConfigModel {
    ConfigModel {
        mutual_attestation: true,
        attester: "nullattester"@,
        verifier: "nullverifier"@,
        tls_library: "openssl"@,
        session_cache: false,
    }
}

/// What the owner of the channel is to do next.
#[derive(Debug, Clone, PartialEq, Eq)]
pub enum Action {
    /// Drop any channel that exists and open a transport connection to `address`.
    Connect { address: String },
    /// Run the attested handshake on the connection.
    Negotiate { config: ChannelConfig },
    /// Send `request`, then read one reply of bounded length.
    Exchange { request: String },
}

/// The mathematical value of an [`Action`].
pub ghost enum ActionModel {
    Connect { address: Seq<char> },
    Negotiate { config: ConfigModel },
    Exchange { request: Seq<char> },
}

impl View for Action {
    type V = ActionModel;

    open spec fn view(&self) -> ActionModel {
        match *self {
            Action::Connect { address } => ActionModel::Connect { address: address@ },
            Action::Negotiate { config } => ActionModel::Negotiate { config: config@ },
            Action::Exchange { request } => ActionModel::Exchange { request: request@ },
        }
    }
}

/// What the channel did.
#[derive(Debug, Clone, PartialEq, Eq)]
pub enum Event {
    Connected,
    ConnectFailed,
    Negotiated,
    NegotiationFailed,
    /// The request was sent and these bytes came back.
    Received(Vec<u8>),
    TransmitFailed,
    ReceiveFailed,
}

/// The mathematical value of an [`Event`].
pub ghost enum EventModel {
    Connected,
    ConnectFailed,
    Negotiated,
    NegotiationFailed,
    Received(Seq<u8>),
    TransmitFailed,
    ReceiveFailed,
}

impl View for Event {
    type V = EventModel;

    open spec fn view(&self) -> EventModel {
        match *self {
            Event::Connected => EventModel::Connected,
            Event::ConnectFailed => EventModel::ConnectFailed,
            Event::Negotiated => EventModel::Negotiated,
            Event::NegotiationFailed => EventModel::NegotiationFailed,
            Event::Received(bytes) => EventModel::Received(bytes@),
            Event::TransmitFailed => EventModel::TransmitFailed,
            Event::ReceiveFailed => EventModel::ReceiveFailed,
        }
    }
}

/// Where an operation stands after a step: more to do on the channel, or done.
#[derive(Debug, Clone, PartialEq, Eq)]
pub enum Step {
    /// Perform the action and report what happened.
    Next(Action),
    /// The decryption is done; this is the plaintext.
    Decrypted(Vec<u8>),
    /// The keys that were asked for are in the cache.
    KeksStored,
    /// The operation failed.
    Failed(DecryptError),
}

/// The mathematical value of a [`Step`].
pub ghost enum StepModel {
    Next(ActionModel),
    Decrypted(Seq<u8>),
    KeksStored,
    Failed(DecryptFailure),
}

impl View for Step {
    type V = StepModel;

    open spec fn view(&self) -> StepModel {
        match *self {
            Step::Next(action) => StepModel::Next(action@),
            Step::Decrypted(plaintext) => StepModel::Decrypted(plaintext@),
            Step::KeksStored => StepModel::KeksStored,
            Step::Failed(error) => StepModel::Failed(error@),
        }
    }
}

/// The mathematical value of the module.
pub ghost struct EaaModel {
    /// The URL of the service that the live channel leads to; empty without one.
    pub kbs_url: Seq<char>,
    /// The version that the last version exchange granted; empty before the first.
    pub protocol_version: Seq<char>,
    /// The payload, key id, IV and wrap type of the last annotation read.
    pub encrypted_payload: Seq<u8>,
    pub key_id: Seq<char>,
    pub iv: Seq<u8>,
    pub encrypt_type: Seq<char>,
    /// The keys obtained over the live channel, by key id.
    pub kek_cache: Map<Seq<char>, Seq<u8>>,
    pub state: ChannelState,
    /// The URL of the service that a channel is being set up to; empty otherwise.
    pub pending_url: Seq<char>,
}

impl EaaModel {
    /// The module's invariant: keys and a current URL exist only with a live
    /// channel, and a payload whose decryption is under way had a base64 text.
    pub open spec fn wf(self) -> bool {
        &&& !channel_live(self.state) ==> self.kek_cache == Map::<Seq<char>, Seq<u8>>::empty()
            && self.kbs_url == Seq::<char>::empty()
        &&& self.state is Decrypting ==> encodable(self.encrypted_payload.len())
    }

    /// The module with what the annotation carries taken in.
    pub open spec fn loaded(self, annotation: AnnotationModel) -> EaaModel {
        EaaModel {
            encrypted_payload: annotation.wrapped_data,
            key_id: annotation.kid,
            iv: annotation.iv,
            encrypt_type: annotation.wrap_type,
            ..self
        }
    }

    /// The module without a channel: no URL and no keys. The version last
    /// exchanged stays.
    pub open spec fn disconnected(self) -> EaaModel {
        EaaModel {
            kbs_url: Seq::empty(),
            kek_cache: Map::empty(),
            state: ChannelState::Disconnected,
            pending_url: Seq::empty(),
            ..self
        }
    }

    /// The module in another state.
    pub open spec fn at(self, state: ChannelState) -> EaaModel {
        EaaModel { state, ..self }
    }
}

/// The address of the service at `url`.
pub open spec fn socket_address(url: Seq<char>) -> Seq<char> {
    "127.0.0.1:1122"@
}

/// Setting up a new channel to `url`: whatever channel and keys there were
/// are dropped, and a connection is asked for.
pub open spec fn connection_begun(s: EaaModel, url: Seq<char>) -> (EaaModel, StepModel) {
    (
        EaaModel { state: ChannelState::Connecting, pending_url: url, ..s.disconnected() },
        StepModel::Next(ActionModel::Connect { address: socket_address(url) }),
    )
}

/// Sending the version request on a channel whose handshake is done.
pub open spec fn version_asked(s: EaaModel) -> (EaaModel, StepModel) {
    match version_request_text() {
        Some(request) => (
            s.at(ChannelState::VersionExchange),
            StepModel::Next(ActionModel::Exchange { request }),
        ),
        None => (s.disconnected(), StepModel::Failed(DecryptFailure::ConnectionError)),
    }
}

/// Sending the decryption request for the payload that the module holds, on
/// a live channel.
pub open spec fn decryption_asked(s: EaaModel) -> (EaaModel, StepModel) {
    match decryption_request_text(s.key_id, s.encrypted_payload, s.iv) {
        Some(request) => (
            s.at(ChannelState::Decrypting),
            StepModel::Next(ActionModel::Exchange { request }),
        ),
        None => (s.at(ChannelState::Ready), StepModel::Failed(DecryptFailure::ParseError)),
    }
}

/// Starting a decryption. A malformed annotation changes nothing. An
/// annotation for the service of the live channel uses that channel; any
/// other starts a new one.
pub open spec fn decrypt_begun(s: EaaModel, messages: Seq<char>) -> (EaaModel, StepModel) {
    match annotation_of_text(messages) {
        None => (s, StepModel::Failed(DecryptFailure::ParseError)),
        Some(annotation) => if channel_live(s.state) && annotation.url == s.kbs_url {
            decryption_asked(s.loaded(annotation))
        } else {
            connection_begun(s.loaded(annotation), annotation.url)
        },
    }
}

/// Starting a request for the key of the key id that the module holds. It
/// needs a live channel.
pub open spec fn kek_fetch_begun(s: EaaModel) -> (EaaModel, StepModel) {
    if channel_live(s.state) {
        match get_kek_request_text(s.key_id) {
            Some(request) => (
                s.at(ChannelState::FetchingKek),
                StepModel::Next(ActionModel::Exchange { request }),
            ),
            None => (s.at(ChannelState::Ready), StepModel::Failed(DecryptFailure::ParseError)),
        }
    } else {
        (s, StepModel::Failed(DecryptFailure::ConnectionError))
    }
}

/// What a reply to the version request leads to: with a version granted the
/// channel is live, its URL is current, and the decryption request goes out.
pub open spec fn version_received(s: EaaModel, bytes: Seq<u8>) -> (EaaModel, StepModel) {
    match version_reply(bytes) {
        Some(version) => decryption_asked(
            EaaModel {
                kbs_url: s.pending_url,
                protocol_version: version,
                pending_url: Seq::empty(),
                ..s
            },
        ),
        None => (s.disconnected(), StepModel::Failed(DecryptFailure::ConnectionError)),
    }
}

/// What a reply to the decryption request leads to. The channel stays live
/// and the keys stay, whatever the reply says.
pub open spec fn decryption_received(s: EaaModel, bytes: Seq<u8>) -> (EaaModel, StepModel) {
    (
        s.at(ChannelState::Ready),
        match decryption_reply(bytes, base64_text(s.encrypted_payload)) {
            Ok(plaintext) => StepModel::Decrypted(plaintext),
            Err(failure) => StepModel::Failed(failure),
        },
    )
}

/// What a reply to the request for keys leads to: the granted keys are added
/// to the cache, replacing those of the same key id and no others.
pub open spec fn keks_received(s: EaaModel, bytes: Seq<u8>) -> (EaaModel, StepModel) {
    match kek_reply(bytes) {
        Ok(keks) => (
            EaaModel {
                kek_cache: s.kek_cache.union_prefer_right(keks),
                state: ChannelState::Ready,
                ..s
            },
            StepModel::KeksStored,
        ),
        Err(failure) => (s.at(ChannelState::Ready), StepModel::Failed(failure)),
    }
}

/// The channel failed, or reported what nothing was waiting for.
pub open spec fn channel_failed(s: EaaModel, failure: DecryptFailure) -> (EaaModel, StepModel) {
    (s.disconnected(), StepModel::Failed(failure))
}

/// What an event leads to. In each state one event carries the operation
/// on; every other event is a failure of the channel.
pub open spec fn event_handled(s: EaaModel, event: EventModel) -> (EaaModel, StepModel) {
    match s.state {
        ChannelState::Connecting => match event {
            EventModel::Connected => (
                s.at(ChannelState::Negotiating),
                StepModel::Next(ActionModel::Negotiate { config: handshake_config() }),
            ),
            _ => channel_failed(s, DecryptFailure::ConnectionError),
        },
        ChannelState::Negotiating => match event {
            EventModel::Negotiated => version_asked(s),
            _ => channel_failed(s, DecryptFailure::NegotiationError),
        },
        ChannelState::VersionExchange => match event {
            EventModel::Received(bytes) => version_received(s, bytes),
            _ => channel_failed(s, DecryptFailure::ConnectionError),
        },
        ChannelState::Decrypting => match event {
            EventModel::Received(bytes) => decryption_received(s, bytes),
            _ => channel_failed(s, DecryptFailure::ConnectionError),
        },
        ChannelState::FetchingKek => match event {
            EventModel::Received(bytes) => keks_received(s, bytes),
            _ => channel_failed(s, DecryptFailure::ConnectionError),
        },
        ChannelState::Ready => channel_failed(s, DecryptFailure::ConnectionError),
        ChannelState::Disconnected => channel_failed(s, DecryptFailure::ConnectionError),
    }
}

/// The module.
pub struct EAAKbc {
    kbs_url: String,
    protocol_version: String,
    encrypted_payload: Vec<u8>,
    key_id: String,
    iv: Vec<u8>,
    encrypt_type: String,
    kek_cache: StringHashMap<Vec<u8>>,
    state: ChannelState,
    pending_url: String,
}

impl View for EAAKbc {
    type V = EaaModel;

    closed spec fn view(&self) -> EaaModel {
        EaaModel {
            kbs_url: self.kbs_url@,
            protocol_version: self.protocol_version@,
            encrypted_payload: self.encrypted_payload@,
            key_id: self.key_id@,
            iv: self.iv@,
            encrypt_type: self.encrypt_type@,
            kek_cache: self.kek_cache@.map_values(|kek: Vec<u8>| kek@),
            state: self.state,
            pending_url: self.pending_url@,
        }
    }
}

impl EAAKbc {
    /// A module without a channel that has read nothing yet.
    pub fn new() -> (module: EAAKbc)
        ensures
            module@.wf(),
            module@ == (EaaModel {
                kbs_url: Seq::empty(),
                protocol_version: Seq::empty(),
                encrypted_payload: Seq::empty(),
                key_id: Seq::empty(),
                iv: Seq::empty(),
                encrypt_type: Seq::empty(),
                kek_cache: Map::empty(),
                state: ChannelState::Disconnected,
                pending_url: Seq::empty(),
            }),
    {
        let module = EAAKbc {
            kbs_url: String::new(),
            protocol_version: String::new(),
            encrypted_payload: Vec::new(),
            key_id: String::new(),
            iv: Vec::new(),
            encrypt_type: String::new(),
            kek_cache: StringHashMap::new(),
            state: ChannelState::Disconnected,
            pending_url: String::new(),
        };
        assert(module@.kek_cache =~= Map::<Seq<char>, Seq<u8>>::empty());
        module
    }

    /// Reports the service of the live channel; the URL is empty without one.
    pub fn check(&self) -> (info: KbcCheckInfo)
        ensures
            info.kbs_info.deep_view() == seq![self@.kbs_url],
    {
        let mut kbs_info_vec: Vec<String> = Vec::new();
        kbs_info_vec.push(self.kbs_url.clone());
        KbcCheckInfo { kbs_info: kbs_info_vec }
    }

    /// Where the module stands with its channel.
    pub fn state(&self) -> (state: ChannelState)
        ensures
            state == self@.state,
    {
        self.state
    }

    /// The URL of the service that the live channel leads to; empty without one.
    pub fn kbs_url(&self) -> (url: String)
        ensures
            url@ == self@.kbs_url,
    {
        self.kbs_url.clone()
    }

    /// The protocol version that the last version exchange granted; empty
    /// before the first.
    pub fn protocol_version(&self) -> (version: String)
        ensures
            version@ == self@.protocol_version,
    {
        self.protocol_version.clone()
    }

    /// The encrypted payload of the last annotation read.
    pub fn encrypted_payload(&self) -> (payload: Vec<u8>)
        ensures
            payload@ == self@.encrypted_payload,
    {
        self.encrypted_payload.clone()
    }

    /// The key id of the last annotation read.
    pub fn key_id(&self) -> (kid: String)
        ensures
            kid@ == self@.key_id,
    {
        self.key_id.clone()
    }

    /// The initialization vector of the last annotation read.
    pub fn iv(&self) -> (iv: Vec<u8>)
        ensures
            iv@ == self@.iv,
    {
        self.iv.clone()
    }

    /// The wrap type of the last annotation read.
    pub fn encrypt_type(&self) -> (wrap_type: String)
        ensures
            wrap_type@ == self@.encrypt_type,
    {
        self.encrypt_type.clone()
    }

    /// The cached key of a key id, if there is one.
    pub fn cached_kek(&self, kid: &str) -> (kek: Option<Vec<u8>>)
        ensures
            match kek {
                Some(kek) => self@.kek_cache.contains_key(kid@) && self@.kek_cache[kid@] == kek@,
                None => !self@.kek_cache.contains_key(kid@),
            },
    {
        match self.kek_cache.get(kid) {
            Some(kek) => Some(kek.clone()),
            None => None,
        }
    }

    /// How many keys are cached.
    pub fn kek_count(&self) -> (count: usize)
        ensures
            count == self@.kek_cache.dom().len(),
    {
        assert(self@.kek_cache.dom() =~= self.kek_cache@.dom());
        self.kek_cache.len()
    }

    /// Whether the module has a live channel.
    fn is_live(&self) -> (live: bool)
        ensures
            live == channel_live(self@.state),
    {
        match self.state {
            ChannelState::Ready => true,
            ChannelState::Decrypting => true,
            ChannelState::FetchingKek => true,
            _ => false,
        }
    }

    /// Forgets the channel, its URL and the keys obtained over it.
    fn disconnect(&mut self)
        ensures
            final(self)@ == old(self)@.disconnected(),
    {
        self.kbs_url = String::new();
        self.kek_cache.clear();
        self.state = ChannelState::Disconnected;
        self.pending_url = String::new();
        assert(self@.kek_cache =~= Map::<Seq<char>, Seq<u8>>::empty());
    }

    /// Drops the channel and asks for a connection to the service at `url`.
    /// Every cached key is discarded.
    fn establish_new_kbs_connection(&mut self, url: String) -> (step: Step)
        ensures
            (final(self)@, step@) == connection_begun(old(self)@, url@),
    {
        self.disconnect();
        match get_kbs_sockaddr_from_url(url.as_str()) {
            Ok(address) => {
                self.pending_url = url;
                self.state = ChannelState::Connecting;
                Step::Next(Action::Connect { address })
            },
            Err(_) => Step::Failed(DecryptError::ConnectionError),
        }
    }

    /// Sends the version request on a channel whose handshake is done.
    fn kbs_query_version(&mut self) -> (step: Step)
        ensures
            (final(self)@, step@) == version_asked(old(self)@),
    {
        match version_request() {
            Some(request) => {
                self.state = ChannelState::VersionExchange;
                Step::Next(Action::Exchange { request })
            },
            None => {
                self.disconnect();
                Step::Failed(DecryptError::ConnectionError)
            },
        }
    }

    /// Sends the decryption request for the payload that the module holds.
    fn kbs_decrypt_payload(&mut self) -> (step: Step)
        ensures
            (final(self)@, step@) == decryption_asked(old(self)@),
    {
        match decryption_request(self.key_id.as_str(), &self.encrypted_payload, &self.iv) {
            Some(request) => {
                self.state = ChannelState::Decrypting;
                Step::Next(Action::Exchange { request })
            },
            None => {
                self.state = ChannelState::Ready;
                Step::Failed(DecryptError::ParseError)
            },
        }
    }

    /// Sends the request for the key of the key id that the module holds.
    /// Without a live channel it fails and changes nothing.
    pub fn kbs_get_kek(&mut self) -> (step: Step)
        requires
            old(self)@.wf(),
        ensures
            final(self)@.wf(),
            (final(self)@, step@) == kek_fetch_begun(old(self)@),
    {
        if !self.is_live() {
            return Step::Failed(DecryptError::ConnectionError);
        }
        match get_kek_request(self.key_id.as_str()) {
            Some(request) => {
                self.state = ChannelState::FetchingKek;
                Step::Next(Action::Exchange { request })
            },
            None => {
                self.state = ChannelState::Ready;
                Step::Failed(DecryptError::ParseError)
            },
        }
    }

    /// Starts the decryption that the annotation `messages` describes.
    pub fn decrypt_payload(&mut self, messages: &str) -> (step: Step)
        requires
            old(self)@.wf(),
        ensures
            final(self)@.wf(),
            (final(self)@, step@) == decrypt_begun(old(self)@, messages@),
    {
        let annotation_packet = match AnnotationPacket::from_text(messages) {
            Some(packet) => packet,
            None => {
                return Step::Failed(DecryptError::ParseError);
            },
        };
        self.encrypted_payload = annotation_packet.wrapped_data;
        self.key_id = annotation_packet.kid;
        self.iv = annotation_packet.iv;
        self.encrypt_type = annotation_packet.wrap_type;
        if self.is_live() && same_text(self.kbs_url.as_str(), annotation_packet.url.as_str()) {
            self.kbs_decrypt_payload()
        } else {
            self.establish_new_kbs_connection(annotation_packet.url)
        }
    }

    /// Adds the keys to the cache, in order.
    fn store_keks(&mut self, keks: Vec<(String, Vec<u8>)>)
        ensures
            final(self)@ == (EaaModel {
                kek_cache: old(self)@.kek_cache.union_prefer_right(entries_map(keks@)),
                ..old(self)@
            }),
    {
        let mut i: usize = 0;
        assert(self@.kek_cache =~= old(self)@.kek_cache.union_prefer_right(
            entries_map(keks@.take(0)),
        ));
        while i < keks.len()
            invariant
                i <= keks@.len(),
                self@ == (EaaModel {
                    kek_cache: old(self)@.kek_cache.union_prefer_right(
                        entries_map(keks@.take(i as int)),
                    ),
                    ..old(self)@
                }),
            decreases keks@.len() - i,
        {
            let ghost before = self@.kek_cache;
            self.kek_cache.insert(keks[i].0.clone(), keks[i].1.clone());
            proof {
                assert(keks@.take(i + 1).drop_last() == keks@.take(i as int));
                assert(keks@[i as int].1.deep_view() =~= keks@[i as int].1@);
                assert(self@.kek_cache =~= before.insert(keks@[i as int].0@, keks@[i as int].1@));
                assert(self@.kek_cache =~= old(self)@.kek_cache.union_prefer_right(
                    entries_map(keks@.take(i + 1)),
                ));
            }
            i += 1;
        }
        assert(keks@.take(i as int) == keks@);
    }

    /// Takes in what the channel did and says what follows.
    pub fn advance(&mut self, event: Event) -> (step: Step)
        requires
            old(self)@.wf(),
        ensures
            final(self)@.wf(),
            (final(self)@, step@) == event_handled(old(self)@, event@),
    {
        match self.state {
            ChannelState::Connecting => match event {
                Event::Connected => {
                    self.state = ChannelState::Negotiating;
                    Step::Next(
                        Action::Negotiate {
                            config: ChannelConfig {
                                mutual_attestation: true,
                                attester: "nullattester".to_string(),
                                verifier: "nullverifier".to_string(),
                                tls_library: "openssl".to_string(),
                                session_cache: false,
                            },
                        },
                    )
                },
                _ => {
                    self.disconnect();
                    Step::Failed(DecryptError::ConnectionError)
                },
            },
            ChannelState::Negotiating => match event {
                Event::Negotiated => self.kbs_query_version(),
                _ => {
                    self.disconnect();
                    Step::Failed(DecryptError::NegotiationError)
                },
            },
            ChannelState::VersionExchange => match event {
                Event::Received(bytes) => match read_version_reply(bytes) {
                    Some(version) => {
                        self.kbs_url = self.pending_url.clone();
                        self.protocol_version = version;
                        self.pending_url = String::new();
                        self.kbs_decrypt_payload()
                    },
                    None => {
                        self.disconnect();
                        Step::Failed(DecryptError::ConnectionError)
                    },
                },
                _ => {
                    self.disconnect();
                    Step::Failed(DecryptError::ConnectionError)
                },
            },
            ChannelState::Decrypting => match event {
                Event::Received(bytes) => {
                    self.state = ChannelState::Ready;
                    let requested = match encode(self.encrypted_payload.as_slice()) {
                        Some(text) => text,
                        None => {
                            return Step::Failed(DecryptError::ParseError);
                        },
                    };
                    match read_decryption_reply(bytes, requested.as_str()) {
                        Ok(plaintext) => Step::Decrypted(plaintext),
                        Err(error) => Step::Failed(error),
                    }
                },
                _ => {
                    self.disconnect();
                    Step::Failed(DecryptError::ConnectionError)
                },
            },
            ChannelState::FetchingKek => match event {
                Event::Received(bytes) => {
                    self.state = ChannelState::Ready;
                    match read_kek_reply(bytes) {
                        Ok(keks) => {
                            self.store_keks(keks);
                            Step::KeksStored
                        },
                        Err(error) => Step::Failed(error),
                    }
                },
                _ => {
                    self.disconnect();
                    Step::Failed(DecryptError::ConnectionError)
                },
            },
            ChannelState::Ready => {
                self.disconnect();
                Step::Failed(DecryptError::ConnectionError)
            },
            ChannelState::Disconnected => {
                self.disconnect();
                Step::Failed(DecryptError::ConnectionError)
            },
        }
    }
}

} // verus!
