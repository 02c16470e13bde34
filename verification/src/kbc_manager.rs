//! The registry of trust modules: a table from module names to module
//! instances, and the dispatch of a request to the module it names.

use vstd::prelude::*;
use vstd::utf8::*;
use crate::encoding::{base64_bytes, decode, string_from_utf8};
use crate::entries::{entries_map, lookup};
use crate::error::{DecryptError, DispatchError, DispatchFailure};
use crate::sample_kbc::SampleKbc;

verus! {

/// What every trust module offers. A module is used by one caller at a time.
pub trait KbcInterface: Send + Sync {
    /// Reports what the module knows of its key broker services; changes nothing.
    fn check(&self) -> KbcCheckInfo;

    /// Decrypts what the annotation `messages` describes.
    fn decrypt_payload(&mut self, messages: &str) -> Result<Vec<u8>, DecryptError>;
}

/// What a module reports of itself.
pub struct KbcCheckInfo {
    /// The key broker service endpoints that the module knows.
    pub kbs_info: Vec<String>,
}

/// One row of the table: a module and the name it is registered under.
struct Slot {
    name: String,
    instance: Box<dyn KbcInterface>,
}

/// The table of modules. No name occurs twice in it.
pub struct KbcManager {
    kbc_instance_list: Vec<Slot>,
}

/// A row for `instance` under `name`. Rows are made here and nowhere else:
/// of a trait object the verifier knows nothing but what a contract says.
fn slot(name: String, instance: Box<dyn KbcInterface>) -> (row: Slot)
    ensures
        row.name == name,
{
    Slot { name, instance }
}

/// The name under which [`KbcManager::init`] registers the local-decrypt module.
pub open spec fn sample_kbc_name() -> Seq<char> {
    "sample_kbc"@
}

/// The request parameter that holds the module name for this agent.
pub open spec fn agent_parameter() -> Seq<char> {
    "kata_cc_attestation_agent"@
}

/// What the registry returns for what the selected module returned.
pub open spec fn module_outcome(outcome: Result<Vec<u8>, DecryptError>) -> Result<
    Vec<u8>,
    DispatchError,
> {
    match outcome {
        Ok(plaintext) => Ok(plaintext),
        Err(error) => Err(DispatchError::ModuleError(error)),
    }
}

/// Hands a module's plaintext on, and its error as a module error.
pub fn dispatch_outcome(outcome: Result<Vec<u8>, DecryptError>) -> (result: Result<
    Vec<u8>,
    DispatchError,
>)
    ensures
        result == module_outcome(outcome),
{
    match outcome {
        Ok(plaintext) => Ok(plaintext),
        Err(error) => Err(DispatchError::ModuleError(error)),
    }
}

impl KbcManager {
    /// The registered names, in the order of registration.
    pub closed spec fn names(&self) -> Seq<Seq<char>> {
        Seq::new(self.kbc_instance_list@.len(), |j: int| self.kbc_instance_list@[j].name@)
    }

    /// The instance registered at place `j` of [`KbcManager::names`].
    pub closed spec fn instance(&self, j: int) -> Box<dyn KbcInterface> {
        self.kbc_instance_list@[j].instance
    }

    /// Whether a module is registered under `name`.
    pub open spec fn has(&self, name: Seq<char>) -> bool {
        self.names().contains(name)
    }

    /// The table's invariant: no name occurs twice.
    pub open spec fn wf(&self) -> bool {
        self.names().no_duplicates()
    }

    /// An empty table.
    pub fn new() -> (manager: KbcManager)
        ensures
            manager.wf(),
            manager.names() == Seq::<Seq<char>>::empty(),
    {
        let manager = KbcManager { kbc_instance_list: Vec::new() };
        manager
    }

    /// Where `name` stands in the table, if it does.
    fn position(&self, name: &str) -> (found: Option<usize>)
        ensures
            match found {
                Some(index) => index < self.names().len() && self.names()[index as int] == name@,
                None => !self.has(name@),
            },
    {
        let wanted = name.to_owned();
        let mut i: usize = 0;
        while i < self.kbc_instance_list.len()
            invariant
                i <= self.kbc_instance_list@.len(),
                wanted@ == name@,
                forall|j: int| 0 <= j < i ==> self.names()[j] != name@,
            decreases self.kbc_instance_list@.len() - i,
        {
            if self.kbc_instance_list[i].name == wanted {
                return Some(i);
            }
            i += 1;
        }
        None
    }

    /// Registers `instance` under `name`, unless the name is taken: a
    /// registered name keeps its instance. Returns whether it registered.
    pub fn register(&mut self, name: String, instance: Box<dyn KbcInterface>) -> (registered: bool)
        requires
            old(self).wf(),
        ensures
            final(self).wf(),
            registered == !old(self).has(name@),
            registered ==> final(self).names() == old(self).names().push(name@),
            !registered ==> *final(self) == *old(self),
            forall|j: int|
                0 <= j < old(self).names().len() ==> #[trigger] final(self).instance(j) == old(
                    self,
                ).instance(j),
    {
        match self.position(name.as_str()) {
            Some(_) => false,
            None => {
                let ghost fresh = name@;
                self.kbc_instance_list.push(slot(name, instance));
                assert(self.names() =~= old(self).names().push(fresh));
                true
            },
        }
    }

    /// Registers the modules that this library brings: the local-decrypt
    /// module, under [`sample_kbc_name`]. On a table that has it, nothing changes.
    pub fn init(&mut self)
        requires
            old(self).wf(),
        ensures
            final(self).wf(),
            final(self).has(sample_kbc_name()),
            old(self).has(sample_kbc_name()) ==> *final(self) == *old(self),
            !old(self).has(sample_kbc_name()) ==> final(self).names() == old(self).names().push(
                sample_kbc_name(),
            ),
    {
        let registered = self.register("sample_kbc".to_string(), Box::new(SampleKbc::new()));
        proof {
            if registered {
                assert(self.names()[self.names().len() - 1] == sample_kbc_name());
            }
        }
    }

    /// Hands `messages` to the module registered under `kbc_name`. An unknown
    /// name is refused and nothing is touched. Otherwise exactly the named
    /// module runs; what it returns is passed through [`dispatch_outcome`],
    /// so the result is its plaintext or its error as a module error.
    pub fn call_kbc_decrypt(&mut self, kbc_name: &str, messages: &str) -> (result: Result<
        Vec<u8>,
        DispatchError,
    >)
        requires
            old(self).wf(),
        ensures
            final(self).wf(),
            final(self).names() == old(self).names(),
            !old(self).has(kbc_name@) ==> *final(self) == *old(self) && result == Err::<
                Vec<u8>,
                DispatchError,
            >(DispatchError::UnknownModule),
            old(self).has(kbc_name@) ==> result is Ok || result matches Err(
                DispatchError::ModuleError(_),
            ),
            forall|j: int|
                0 <= j < old(self).names().len() && old(self).names()[j] != kbc_name@
                    ==> #[trigger] final(self).instance(j) == old(self).instance(j),
    {
        let index = match self.position(kbc_name) {
            Some(index) => index,
            None => {
                return Err(DispatchError::UnknownModule);
            },
        };
        let outcome = self.kbc_instance_list[index].instance.decrypt_payload(messages);
        assert(self.names() =~= old(self).names());
        dispatch_outcome(outcome)
    }
}

/// What [`kbc_get_name`] makes of the decoded bytes of the name parameter.
pub open spec fn name_of_bytes(bytes: Seq<u8>) -> Result<Seq<char>, DispatchFailure> {
    if valid_utf8(bytes) {
        Ok(decode_utf8(bytes))
    } else {
        Err(DispatchFailure::ParseError)
    }
}

/// The module name that the request parameters select.
pub open spec fn selected_name(parameters: Map<Seq<char>, Seq<Seq<char>>>) -> Result<
    Seq<char>,
    DispatchFailure,
> {
    if !parameters.contains_key(agent_parameter()) {
        Err(DispatchFailure::InvalidRequestOrigin)
    } else if parameters[agent_parameter()].len() == 0 {
        Err(DispatchFailure::InvalidRequestOrigin)
    } else {
        match base64_bytes(parameters[agent_parameter()][0]) {
            Some(bytes) => name_of_bytes(bytes),
            None => Err(DispatchFailure::ParseError),
        }
    }
}

/// The view of a module name or the failure to find one.
pub open spec fn name_result_view(result: Result<String, DispatchError>) -> Result<
    Seq<char>,
    DispatchFailure,
> {
    match result {
        Ok(name) => Ok(name@),
        Err(error) => Err(error@),
    }
}

/// Reads a module name from the decoded bytes of the name parameter.
pub fn name_from_bytes(bytes: Vec<u8>) -> (result: Result<String, DispatchError>)
    ensures
        name_result_view(result) == name_of_bytes(bytes@),
{
    match string_from_utf8(bytes) {
        Some(name) => Ok(name),
        None => Err(DispatchError::ParseError),
    }
}

/// Finds the module name in the parameters of a request. The parameter
/// addressed to this agent holds it, base64-encoded, as its first value. A
/// request without that parameter, or without a value in it, was not sent to
/// this agent.
pub fn kbc_get_name(parameters: Vec<(String, Vec<String>)>) -> (result: Result<String, DispatchError>)
    ensures
        name_result_view(result) == selected_name(entries_map(parameters@)),
{
    let parameter_list = match lookup(&parameters, "kata_cc_attestation_agent") {
        Some(list) => list,
        None => {
            return Err(DispatchError::InvalidRequestOrigin);
        },
    };
    if parameter_list.len() == 0 {
        return Err(DispatchError::InvalidRequestOrigin);
    }
    match decode(parameter_list[0].as_str()) {
        Some(bytes) => name_from_bytes(bytes),
        None => Err(DispatchError::ParseError),
    }
}

} // verus!
