//! The names of keys, the records kept for them, and the store that keeps
//! those records.

use vstd::prelude::*;
use parsec_interface::requests::ProviderId;
use psa_crypto::types::key::Attributes;

verus! {

/// The name under which an authenticated client is known.
#[derive(Debug, Hash)]
pub struct ApplicationName {
    name: String,
}

impl View for ApplicationName {
    type V = Seq<char>;

    closed spec fn view(&self) -> Seq<char> {
        self.name@
    }
}

impl ApplicationName {
    pub fn new(name: String) -> (app_name: Self)
        ensures
            app_name@ == name@,
    {
        ApplicationName { name }
    }

    pub fn get_name(&self) -> (name: &str)
        ensures
            name@ == self@,
    {
        self.name.as_str()
    }
}

impl PartialEq for ApplicationName {
    fn eq(&self, other: &Self) -> (equal: bool) {
        self.name == other.name
    }
}

impl vstd::std_specs::cmp::PartialEqSpecImpl for ApplicationName {
    open spec fn obeys_eq_spec() -> bool {
        true
    }

    open spec fn eq_spec(&self, other: &Self) -> bool {
        self@ == other@
    }
}

impl Eq for ApplicationName {

}

impl Clone for ApplicationName {
    fn clone(&self) -> (copy: Self)
        ensures
            copy@ == self@,
    {
        ApplicationName { name: self.name.clone() }
    }
}

/// A key triple as contracts speak of it.
pub struct KeyTripleView {
    pub app_name: Seq<char>,
    pub provider_id: ProviderId,
    pub key_name: Seq<char>,
}

/// The name of a key: the application that owns it, the provider that holds
/// it, and the name that the application chose.
#[derive(Debug, Hash)]
pub struct KeyTriple {
    app_name: ApplicationName,
    provider_id: ProviderId,
    key_name: String,
}

impl View for KeyTriple {
    type V = KeyTripleView;

    closed spec fn view(&self) -> KeyTripleView {
        KeyTripleView {
            app_name: self.app_name@,
            provider_id: self.provider_id,
            key_name: self.key_name@,
        }
    }
}

impl KeyTriple {
    pub fn new(app_name: ApplicationName, provider_id: ProviderId, key_name: String) -> (key_triple:
        Self)
        ensures
            key_triple@ == (KeyTripleView {
                app_name: app_name@,
                provider_id,
                key_name: key_name@,
            }),
    {
        KeyTriple { app_name, provider_id, key_name }
    }

    pub fn app_name(&self) -> (app_name: &ApplicationName)
        ensures
            app_name@ == self@.app_name,
    {
        &self.app_name
    }

    pub fn provider_id(&self) -> (provider_id: ProviderId)
        ensures
            provider_id == self@.provider_id,
    {
        self.provider_id
    }

    pub fn key_name(&self) -> (key_name: &str)
        ensures
            key_name@ == self@.key_name,
    {
        self.key_name.as_str()
    }
}

/// The number that stands for a provider on the wire.
pub open spec fn provider_code(provider_id: ProviderId) -> u8 {
    match provider_id {
        ProviderId::Core => 0,
        ProviderId::MbedCrypto => 1,
        ProviderId::Pkcs11 => 2,
        ProviderId::Tpm => 3,
        ProviderId::TrustedService => 4,
        ProviderId::CryptoAuthLib => 5,
    }
}

fn code_of(provider_id: ProviderId) -> (code: u8)
    ensures
        code == provider_code(provider_id),
{
    match provider_id {
        ProviderId::Core => 0,
        ProviderId::MbedCrypto => 1,
        ProviderId::Pkcs11 => 2,
        ProviderId::Tpm => 3,
        ProviderId::TrustedService => 4,
        ProviderId::CryptoAuthLib => 5,
    }
}

impl PartialEq for KeyTriple {
    fn eq(&self, other: &Self) -> (equal: bool) {
        self.app_name == other.app_name && code_of(self.provider_id) == code_of(other.provider_id)
            && self.key_name == other.key_name
    }
}

impl vstd::std_specs::cmp::PartialEqSpecImpl for KeyTriple {
    open spec fn obeys_eq_spec() -> bool {
        true
    }

    open spec fn eq_spec(&self, other: &Self) -> bool {
        self@ == other@
    }
}

impl Eq for KeyTriple {

}

impl Clone for KeyTriple {
    fn clone(&self) -> (copy: Self)
        ensures
            copy@ == self@,
    {
        KeyTriple {
            app_name: self.app_name.clone(),
            provider_id: self.provider_id,
            key_name: self.key_name.clone(),
        }
    }
}

/// The four bytes under which an identifier is kept in a record, lowest byte
/// first.
pub open spec fn key_id_bytes(key_id: u32) -> Seq<u8> {
    seq![
        (key_id % 256) as u8,
        ((key_id / 256) % 256) as u8,
        ((key_id / 65536) % 256) as u8,
        (key_id / 16777216) as u8,
    ]
}

/// The identifier that the bytes of a record stand for. Anything but four
/// bytes stands for none.
pub open spec fn key_id_of(bytes: Seq<u8>) -> Option<u32> {
    if bytes.len() == 4 {
        Some((bytes[0] + 256 * bytes[1] + 65536 * bytes[2] + 16777216 * bytes[3]) as u32)
    } else {
        None
    }
}

/// Reading an identifier back from its bytes gives the identifier.
pub proof fn key_id_survives_encoding(key_id: u32)
    ensures
        key_id_of(key_id_bytes(key_id)) == Some(key_id),
{
}

/// A record as contracts speak of it.
pub struct KeyInfoView {
    pub id: Seq<u8>,
    pub attributes: Attributes,
}

/// What the store keeps for a key: the backend's identifier, as bytes, and
/// the attributes with which the key was created.
#[derive(Debug, PartialEq)]
pub struct KeyInfo {
    pub id: Vec<u8>,
    pub attributes: Attributes,
}

impl View for KeyInfo {
    type V = KeyInfoView;

    open spec fn view(&self) -> KeyInfoView {
        KeyInfoView { id: self.id@, attributes: self.attributes }
    }
}

impl Clone for KeyInfo {
    fn clone(&self) -> (copy: Self)
        ensures
            copy@ == self@,
    {
        let id = self.id.clone();
        assert(id@ =~= self.id@);
        KeyInfo { id, attributes: self.attributes }
    }
}

/// The record that binds a key to the identifier `key_id`.
pub open spec fn record_of(key_id: u32, attributes: Attributes) -> KeyInfoView {
    KeyInfoView { id: key_id_bytes(key_id), attributes }
}

impl KeyInfo {
    /// The record for a key that the backend knows as `key_id`.
    pub fn new(key_id: u32, attributes: Attributes) -> (key_info: Self)
        ensures
            key_info@ == record_of(key_id, attributes),
    {
        let mut id: Vec<u8> = Vec::new();
        id.push((key_id % 256) as u8);
        id.push(((key_id / 256) % 256) as u8);
        id.push(((key_id / 65536) % 256) as u8);
        id.push((key_id / 16777216) as u8);
        assert(id@ =~= key_id_bytes(key_id));
        KeyInfo { id, attributes }
    }

    /// The identifier that the record holds, if its bytes are one.
    pub fn key_id(&self) -> (key_id: Option<u32>)
        ensures
            key_id == key_id_of(self@.id),
    {
        if self.id.len() == 4 {
            let b0: u32 = self.id[0] as u32;
            let b1: u32 = self.id[1] as u32;
            let b2: u32 = self.id[2] as u32;
            let b3: u32 = self.id[3] as u32;
            Some(b0 + 256 * b1 + 65536 * b2 + 16777216 * b3)
        } else {
            None
        }
    }
}

/// A store of key records, one for each triple at most.
///
/// A store may fail at any call and says so with a text of its own, unless
/// it is one that never fails. Of a call that fails nothing is known: a
/// store that was asked to change may then hold anything.
pub trait ManageKeyInfo {
    /// The records that the store holds. A store written outside of verified
    /// code has no way to say what it holds; the contracts below then speak
    /// of a mapping that only its author knows.
    open spec fn bindings(&self) -> Map<KeyTripleView, KeyInfoView> {
        arbitrary()
    }

    /// Whether every call to the store succeeds. Nothing of the kind is
    /// taken for granted of a store that does not say so.
    open spec fn never_fails(&self) -> bool {
        false
    }

    /// The record of `key_triple`, or `None` if the store has none.
    fn get(&self, key_triple: &KeyTriple) -> (r: Result<Option<&KeyInfo>, String>)
        ensures
            self.never_fails() ==> r is Ok,
            r matches Ok(found) ==> (match found {
                Some(key_info) => self.bindings().contains_key(key_triple@) && key_info@
                    == self.bindings()[key_triple@],
                None => !self.bindings().contains_key(key_triple@),
            }),
    ;

    /// Binds `key_triple` to `key_info` and returns the record that it
    /// replaced, if there was one.
    fn insert(&mut self, key_triple: KeyTriple, key_info: KeyInfo) -> (r: Result<
        Option<KeyInfo>,
        String,
    >)
        ensures
            final(self).never_fails() == old(self).never_fails(),
            old(self).never_fails() ==> r is Ok,
            r matches Ok(previous) ==> {
                &&& final(self).bindings() == old(self).bindings().insert(key_triple@, key_info@)
                &&& match previous {
                    Some(key_info) => old(self).bindings().contains_key(key_triple@) && key_info@
                        == old(self).bindings()[key_triple@],
                    None => !old(self).bindings().contains_key(key_triple@),
                }
            },
    ;

    /// Removes the record of `key_triple` and returns it, if there was one.
    fn remove(&mut self, key_triple: &KeyTriple) -> (r: Result<Option<KeyInfo>, String>)
        ensures
            final(self).never_fails() == old(self).never_fails(),
            old(self).never_fails() ==> r is Ok,
            r matches Ok(previous) ==> {
                &&& final(self).bindings() == old(self).bindings().remove(key_triple@)
                &&& match previous {
                    Some(key_info) => old(self).bindings().contains_key(key_triple@) && key_info@
                        == old(self).bindings()[key_triple@],
                    None => !old(self).bindings().contains_key(key_triple@),
                }
            },
    ;

    /// Whether the store holds a record for `key_triple`.
    fn contains(&self, key_triple: &KeyTriple) -> (r: Result<bool, String>)
        ensures
            self.never_fails() ==> r is Ok,
            r matches Ok(found) ==> found == self.bindings().contains_key(key_triple@),
    ;
}

} // verus!
