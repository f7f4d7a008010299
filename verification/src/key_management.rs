//! Key management for the Mbed Crypto provider.
//!
//! The provider keeps the store of key records and the allocator of
//! identifiers. The backend, which keeps the keys themselves, is handed to
//! each operation as a function. The operation decides whether the backend
//! is called and under which identifier, and what becomes of the store once
//! the backend has answered.
//!
//! Each operation is also there in steps, for a caller that calls the
//! backend itself: the first step says under which identifier the backend is
//! to work, the last takes what the backend answered and brings the store in
//! line with it.

use vstd::prelude::*;
use parsec_interface::requests::ProviderId;
use psa_crypto::types::key::Attributes;
use psa_crypto::types::status::Error;
use crate::error::{from_store, KeyError};
use crate::id_allocator::{IdAllocator, KEY_ID_MAX};
use crate::key_info::{
    key_id_of, record_of, ApplicationName, KeyInfo, KeyTriple, KeyTripleView, ManageKeyInfo,
};
use crate::lifecycle::{
    create, destroy, export, exported, reserve, settle_creation, settle_destruction,
    stored_key_id, ProviderView,
};

verus! {

/// The identifier in the answer of a store that was asked for a record.
pub open spec fn looked_up(found: Result<Option<&KeyInfo>, String>) -> Result<u32, KeyError> {
    match found {
        Ok(Some(key_info)) => match key_id_of(key_info@.id) {
            Some(key_id) => Ok(key_id),
            None => Err(KeyError::StoreFailure),
        },
        Ok(None) => Err(KeyError::DoesNotExist),
        Err(_) => Err(KeyError::StoreFailure),
    }
}

/// Reads the identifier out of what the store answered.
pub fn key_id_from(found: Result<Option<&KeyInfo>, String>) -> (r: Result<u32, KeyError>)
    ensures
        r == looked_up(found),
{
    match from_store(found) {
        Ok(Some(key_info)) => match key_info.key_id() {
            Some(key_id) => Ok(key_id),
            None => Err(KeyError::StoreFailure),
        },
        Ok(None) => Err(KeyError::DoesNotExist),
        Err(error) => Err(error),
    }
}

/// Gets the identifier of a key from the store.
///
/// Fails with `DoesNotExist` if the store has no record of the triple, and
/// with `StoreFailure` if the store fails or the record holds no identifier.
pub fn get_key_id<S: ManageKeyInfo>(key_triple: &KeyTriple, store_handle: &S) -> (r: Result<
    u32,
    KeyError,
>)
    ensures
        r == stored_key_id(store_handle.bindings(), key_triple@) || (!store_handle.never_fails()
            && r == Err::<u32, KeyError>(KeyError::StoreFailure)),
{
    key_id_from(store_handle.get(key_triple))
}

/// Takes the next identifier and records it for the triple.
///
/// Fails with `ResourceExhausted`, leaving the store alone, once the
/// allocator has nothing left. A record that the triple already had is
/// replaced.
pub fn create_key_id<S: ManageKeyInfo>(
    key_triple: KeyTriple,
    key_attributes: Attributes,
    store_handle: &mut S,
    max_current_id: &mut IdAllocator,
) -> (r: Result<u32, KeyError>)
    ensures
        final(store_handle).never_fails() == old(store_handle).never_fails(),
        old(max_current_id)@ <= final(max_current_id)@ <= KEY_ID_MAX,
        old(max_current_id)@ >= KEY_ID_MAX ==> {
            &&& r == Err::<u32, KeyError>(KeyError::ResourceExhausted)
            &&& final(max_current_id)@ == KEY_ID_MAX
            &&& final(store_handle).bindings() == old(store_handle).bindings()
        },
        old(max_current_id)@ < KEY_ID_MAX ==> {
            &&& final(max_current_id)@ == old(max_current_id)@ + 1
            &&& (!old(store_handle).never_fails() && r == Err::<u32, KeyError>(
                KeyError::StoreFailure,
            )) || {
                &&& r == Ok::<u32, KeyError>(final(max_current_id)@ as u32)
                &&& final(store_handle).bindings() == old(store_handle).bindings().insert(
                    key_triple@,
                    record_of(final(max_current_id)@ as u32, key_attributes),
                )
            }
        },
{
    let new_key_id: u32 = max_current_id.allocate()?;
    let key_info = KeyInfo::new(new_key_id, key_attributes);
    match from_store(store_handle.insert(key_triple, key_info)) {
        Ok(_) => Ok(new_key_id),
        Err(error) => Err(error),
    }
}

/// Takes the record of the triple out of the store. The identifier that it
/// held is not given back to the allocator.
pub fn remove_key_id<S: ManageKeyInfo>(key_triple: &KeyTriple, store_handle: &mut S) -> (r: Result<
    (),
    KeyError,
>)
    ensures
        final(store_handle).never_fails() == old(store_handle).never_fails(),
        match r {
            Ok(_) => final(store_handle).bindings() == old(store_handle).bindings().remove(
                key_triple@,
            ),
            Err(error) => error == KeyError::StoreFailure && !old(store_handle).never_fails(),
        },
{
    match from_store(store_handle.remove(key_triple)) {
        Ok(_) => Ok(()),
        Err(error) => Err(error),
    }
}

/// Asks the store whether it has a record of the triple.
pub fn key_info_exists<S: ManageKeyInfo>(key_triple: &KeyTriple, store_handle: &S) -> (r: Result<
    bool,
    KeyError,
>)
    ensures
        match r {
            Ok(found) => found == store_handle.bindings().contains_key(key_triple@),
            Err(error) => error == KeyError::StoreFailure && !store_handle.never_fails(),
        },
{
    from_store(store_handle.contains(key_triple))
}

/// What the backend handed back from an export, with the buffer by its
/// contents.
pub open spec fn written_view(written: Result<(Vec<u8>, usize), Error>) -> Result<
    (Seq<u8>, usize),
    Error,
> {
    match written {
        Ok((data, produced)) => Ok((data@, produced)),
        Err(error) => Err(error),
    }
}

/// The answer to an export, with the key by its bytes.
pub open spec fn answer_view(answer: Result<Vec<u8>, KeyError>) -> Result<Seq<u8>, KeyError> {
    match answer {
        Ok(data) => Ok(data@),
        Err(error) => Err(error),
    }
}

/// The triple under which this provider knows the key `key_name` of an
/// application.
pub open spec fn mbed_key_triple(app_name: Seq<char>, key_name: Seq<char>) -> KeyTripleView {
    KeyTripleView { app_name, provider_id: ProviderId::MbedCrypto, key_name }
}

/// A key of this provider as contracts speak of it.
pub struct KeyBindingView {
    pub key_triple: KeyTripleView,
    pub key_id: u32,
}

/// A key of this provider: its triple and the identifier under which the
/// backend is to know it.
#[derive(Debug)]
pub struct KeyBinding {
    key_triple: KeyTriple,
    key_id: u32,
}

impl View for KeyBinding {
    type V = KeyBindingView;

    closed spec fn view(&self) -> KeyBindingView {
        KeyBindingView { key_triple: self.key_triple@, key_id: self.key_id }
    }
}

impl KeyBinding {
    pub fn key_triple(&self) -> (key_triple: &KeyTriple)
        ensures
            key_triple@ == self@.key_triple,
    {
        &self.key_triple
    }

    pub fn key_id(&self) -> (key_id: u32)
        ensures
            key_id == self@.key_id,
    {
        self.key_id
    }
}

/// The key store of the Mbed Crypto provider and the allocator of its
/// identifiers.
///
/// Whoever holds a provider exclusively holds both: a creation or a
/// destruction keeps that hold from its first step to its last.
pub struct MbedProvider<S: ManageKeyInfo> {
    key_info_store: S,
    id_counter: IdAllocator,
}

impl<S: ManageKeyInfo> View for MbedProvider<S> {
    type V = ProviderView;

    closed spec fn view(&self) -> ProviderView {
        ProviderView { bindings: self.key_info_store.bindings(), counter: self.id_counter@ }
    }
}

impl<S: ManageKeyInfo> MbedProvider<S> {
    /// Whether the store of the provider is one that never fails.
    pub closed spec fn store_never_fails(&self) -> bool {
        self.key_info_store.never_fails()
    }

    /// A provider over a store and an allocator.
    ///
    /// Identifiers are new among those that the allocator issued. For them to
    /// be new to the store as well, the allocator is to start at or above the
    /// largest identifier in the records that the store already holds.
    pub fn new(key_info_store: S, id_counter: IdAllocator) -> (provider: Self)
        ensures
            provider@ == (ProviderView {
                bindings: key_info_store.bindings(),
                counter: id_counter@,
            }),
            provider.store_never_fails() == key_info_store.never_fails(),
    {
        MbedProvider { key_info_store, id_counter }
    }

    /// The store, for reading.
    pub fn key_info_store(&self) -> (store: &S)
        ensures
            store.bindings() == self@.bindings,
            store.never_fails() == self.store_never_fails(),
    {
        &self.key_info_store
    }

    /// The last identifier that was issued.
    pub fn id_counter(&self) -> (counter: u32)
        ensures
            counter == self@.counter,
            counter <= KEY_ID_MAX,
    {
        self.id_counter.counter()
    }

    /// The triple of the key `key_name` of an application.
    pub fn key_triple(app_name: ApplicationName, key_name: String) -> (key_triple: KeyTriple)
        ensures
            key_triple@ == mbed_key_triple(app_name@, key_name@),
    {
        KeyTriple::new(app_name, ProviderId::MbedCrypto, key_name)
    }

    /// First step of generating or importing a key: reserves the triple.
    ///
    /// On success the backend is to create the key under the identifier of
    /// the binding, and `settle_key_creation` is to hear how that went.
    /// Fails with `AlreadyExists` if the triple has a record, and with
    /// `ResourceExhausted` if no identifier is left.
    pub fn reserve_key(
        &mut self,
        app_name: ApplicationName,
        key_name: String,
        attributes: Attributes,
    ) -> (r: Result<KeyBinding, KeyError>)
        ensures
            final(self).store_never_fails() == old(self).store_never_fails(),
            old(self)@.counter <= final(self)@.counter <= KEY_ID_MAX,
            final(self)@.counter <= old(self)@.counter + 1,
            ({
                let key_triple = mbed_key_triple(app_name@, key_name@);
                let reserved = reserve(old(self)@, key_triple, attributes);
                match r {
                    Ok(binding) => {
                        &&& final(self)@ == reserved.0
                        &&& reserved.1 == Ok::<u32, KeyError>(binding@.key_id)
                        &&& binding@.key_triple == key_triple
                    },
                    Err(error) => (error == KeyError::StoreFailure
                        && !old(self).store_never_fails()) || {
                        &&& final(self)@ == reserved.0
                        &&& reserved.1 == Err::<u32, KeyError>(error)
                    },
                }
            }),
    {
        proof {
            use_type_invariant(&self.id_counter);
        }
        let key_triple = Self::key_triple(app_name, key_name);
        if key_info_exists(&key_triple, &self.key_info_store)? {
            return Err(KeyError::AlreadyExists);
        }
        let key_id: u32 = create_key_id(
            key_triple.clone(),
            attributes,
            &mut self.key_info_store,
            &mut self.id_counter,
        )?;
        Ok(KeyBinding { key_triple, key_id })
    }

    /// Last step of generating or importing a key, given what the backend
    /// answered.
    ///
    /// If the backend created the key, nothing is left to do. If it failed,
    /// the record of the reservation is taken out and the backend's code is
    /// reported; should the store fail at that, `StoreFailure` is reported
    /// in its place. The identifier is not issued again either way.
    pub fn settle_key_creation(&mut self, binding: KeyBinding, outcome: Result<(), Error>) -> (r:
        Result<(), KeyError>)
        ensures
            final(self).store_never_fails() == old(self).store_never_fails(),
            final(self)@.counter == old(self)@.counter,
            (outcome is Err && !old(self).store_never_fails() && r == Err::<(), KeyError>(
                KeyError::StoreFailure,
            )) || (final(self)@, r) == settle_creation(old(self)@, binding@.key_triple, outcome),
    {
        match outcome {
            Ok(_) => Ok(()),
            Err(error) => {
                remove_key_id(&binding.key_triple, &mut self.key_info_store)?;
                Err(KeyError::BackendFailure(error))
            },
        }
    }

    /// Generates a key for the triple of `app_name` and `key_name`.
    ///
    /// `generate` is the backend: it is called once, with the attributes and
    /// the identifier of the reservation, and only if the reservation
    /// succeeded. The caller holds the provider exclusively, so no other
    /// request sees the triple between reservation and settlement.
    pub fn psa_generate_key_internal<F>(
        &mut self,
        app_name: ApplicationName,
        key_name: String,
        attributes: Attributes,
        generate: F,
    ) -> (r: Result<(), KeyError>) where F: FnOnce(Attributes, u32) -> Result<(), Error>
        requires
            forall|key_id: u32|
                0 < key_id <= KEY_ID_MAX ==> call_requires(generate, (attributes, key_id)),
        ensures
            final(self).store_never_fails() == old(self).store_never_fails(),
            old(self)@.counter <= final(self)@.counter <= KEY_ID_MAX,
            ({
                let key_triple = mbed_key_triple(app_name@, key_name@);
                (!old(self).store_never_fails() && r == Err::<(), KeyError>(
                    KeyError::StoreFailure,
                )) || exists|
                    outcome: Result<(), Error>,
                |
                    {
                        &&& (final(self)@, r) == #[trigger] create(
                            old(self)@,
                            key_triple,
                            attributes,
                            outcome,
                        )
                        &&& reserve(old(self)@, key_triple, attributes).1 matches Ok(key_id)
                            ==> call_ensures(generate, (attributes, key_id), outcome)
                    }
            }),
    {
        let ghost key_triple = mbed_key_triple(app_name@, key_name@);
        let binding = match self.reserve_key(app_name, key_name, attributes) {
            Ok(binding) => binding,
            Err(error) => {
                proof {
                    if error != KeyError::StoreFailure || old(self).store_never_fails() {
                        let outcome: Result<(), Error> = Ok(());
                        assert((self@, Err::<(), KeyError>(error)) == create(
                            old(self)@,
                            key_triple,
                            attributes,
                            outcome,
                        ));
                    }
                }
                return Err(error);
            },
        };
        let outcome = generate(attributes, binding.key_id());
        let r = self.settle_key_creation(binding, outcome);
        proof {
            if r != Err::<(), KeyError>(KeyError::StoreFailure) || old(
                self,
            ).store_never_fails() {
                assert((self@, r) == create(old(self)@, key_triple, attributes, outcome));
            }
        }
        r
    }

    /// Imports the key `key_data` for the triple of `app_name` and `key_name`.
    ///
    /// `import` is the backend: it is called once, with the attributes, the
    /// identifier of the reservation and the key, and only if the
    /// reservation succeeded.
    pub fn psa_import_key_internal<F>(
        &mut self,
        app_name: ApplicationName,
        key_name: String,
        attributes: Attributes,
        key_data: Vec<u8>,
        import: F,
    ) -> (r: Result<(), KeyError>) where F: FnOnce(Attributes, u32, Vec<u8>) -> Result<(), Error>
        requires
            forall|key_id: u32|
                0 < key_id <= KEY_ID_MAX ==> call_requires(import, (attributes, key_id, key_data)),
        ensures
            final(self).store_never_fails() == old(self).store_never_fails(),
            old(self)@.counter <= final(self)@.counter <= KEY_ID_MAX,
            ({
                let key_triple = mbed_key_triple(app_name@, key_name@);
                (!old(self).store_never_fails() && r == Err::<(), KeyError>(
                    KeyError::StoreFailure,
                )) || exists|
                    outcome: Result<(), Error>,
                |
                    {
                        &&& (final(self)@, r) == #[trigger] create(
                            old(self)@,
                            key_triple,
                            attributes,
                            outcome,
                        )
                        &&& reserve(old(self)@, key_triple, attributes).1 matches Ok(key_id)
                            ==> call_ensures(import, (attributes, key_id, key_data), outcome)
                    }
            }),
    {
        let ghost key_triple = mbed_key_triple(app_name@, key_name@);
        let binding = match self.reserve_key(app_name, key_name, attributes) {
            Ok(binding) => binding,
            Err(error) => {
                proof {
                    if error != KeyError::StoreFailure || old(self).store_never_fails() {
                        let outcome: Result<(), Error> = Ok(());
                        assert((self@, Err::<(), KeyError>(error)) == create(
                            old(self)@,
                            key_triple,
                            attributes,
                            outcome,
                        ));
                    }
                }
                return Err(error);
            },
        };
        let outcome = import(attributes, binding.key_id(), key_data);
        let r = self.settle_key_creation(binding, outcome);
        proof {
            if r != Err::<(), KeyError>(KeyError::StoreFailure) || old(
                self,
            ).store_never_fails() {
                assert((self@, r) == create(old(self)@, key_triple, attributes, outcome));
            }
        }
        r
    }

    /// Exports the public key of the triple of `app_name` and `key_name`.
    ///
    /// `output_size` and `export_public` are the backend. The first is
    /// asked how large a buffer the key of an identifier needs. The second
    /// gets the identifier and a buffer of that many zero bytes, and gives
    /// the buffer back together with the number of bytes that it wrote.
    /// The caller needs the provider for reading only.
    pub fn psa_export_public_key_internal<F, G>(
        &self,
        app_name: ApplicationName,
        key_name: String,
        output_size: F,
        export_public: G,
    ) -> (r: Result<Vec<u8>, KeyError>) where
        F: FnOnce(u32) -> Result<usize, Error>,
        G: FnOnce(u32, Vec<u8>) -> Result<(Vec<u8>, usize), Error>,

        requires
            forall|key_id: u32| call_requires(output_size, (key_id,)),
            forall|key_id: u32, buffer: Vec<u8>| call_requires(export_public, (key_id, buffer)),
        ensures
            ({
                let key_triple = mbed_key_triple(app_name@, key_name@);
                let answer = answer_view(r);
                let stored = stored_key_id(self@.bindings, key_triple);
                (!self.store_never_fails() && answer == Err::<Seq<u8>, KeyError>(
                    KeyError::StoreFailure,
                )) || exists|
                    size: Result<usize, Error>,
                    written: Result<(Vec<u8>, usize), Error>,
                |
                    {
                        &&& answer == #[trigger] export(
                            self@.bindings,
                            key_triple,
                            size,
                            written_view(written),
                        )
                        &&& stored is Ok ==> call_ensures(output_size, (stored->Ok_0,), size)
                        &&& stored is Ok && size is Ok ==> exists|buffer: Vec<u8>|
                            {
                                &&& buffer@ == Seq::new(size->Ok_0 as nat, |i: int| 0u8)
                                &&& #[trigger] call_ensures(
                                    export_public,
                                    (stored->Ok_0, buffer),
                                    written,
                                )
                            }
                    }
            }),
    {
        let ghost key_triple = mbed_key_triple(app_name@, key_name@);
        let ghost unasked: Result<(Vec<u8>, usize), Error> = arbitrary();
        let ghost unseen = written_view(unasked);
        let binding = match self.locate_key(app_name, key_name) {
            Ok(binding) => binding,
            Err(error) => {
                proof {
                    if error != KeyError::StoreFailure || self.store_never_fails() {
                        let size: Result<usize, Error> = arbitrary();
                        assert(Err::<Seq<u8>, KeyError>(error) == export(
                            self@.bindings,
                            key_triple,
                            size,
                            unseen,
                        ));
                    }
                }
                return Err(error);
            },
        };
        let key_id: u32 = binding.key_id();
        let size = output_size(key_id);
        let length: usize = match size {
            Ok(length) => length,
            Err(error) => {
                proof {
                    assert(Err::<Seq<u8>, KeyError>(KeyError::BackendFailure(error)) == export(
                        self@.bindings,
                        key_triple,
                        size,
                        unseen,
                    ));
                }
                return Err(KeyError::BackendFailure(error));
            },
        };
        let buffer = export_buffer(length);
        let ghost handed = buffer;
        let written = export_public(key_id, buffer);
        let ghost seen = written_view(written);
        let r = match written {
            Ok((data, produced)) => settle_export(data, Ok(produced)),
            Err(error) => Err(KeyError::BackendFailure(error)),
        };
        proof {
            assert(answer_view(r) == export(self@.bindings, key_triple, size, seen));
            assert(call_ensures(export_public, (key_id, handed), written));
        }
        r
    }

    /// Destroys the key of the triple of `app_name` and `key_name`.
    ///
    /// `destroy_key` is the backend: it is called once, with the identifier
    /// that the record of the triple holds, and only if there is one. The
    /// record is taken out only after the backend has destroyed the key.
    pub fn psa_destroy_key_internal<F>(
        &mut self,
        app_name: ApplicationName,
        key_name: String,
        destroy_key: F,
    ) -> (r: Result<(), KeyError>) where F: FnOnce(u32) -> Result<(), Error>
        requires
            forall|key_id: u32| call_requires(destroy_key, (key_id,)),
        ensures
            final(self).store_never_fails() == old(self).store_never_fails(),
            final(self)@.counter == old(self)@.counter,
            ({
                let key_triple = mbed_key_triple(app_name@, key_name@);
                (!old(self).store_never_fails() && r == Err::<(), KeyError>(
                    KeyError::StoreFailure,
                )) || exists|
                    outcome: Result<(), Error>,
                |
                    {
                        &&& (final(self)@, r) == #[trigger] destroy(old(self)@, key_triple, outcome)
                        &&& stored_key_id(old(self)@.bindings, key_triple) matches Ok(key_id)
                            ==> call_ensures(destroy_key, (key_id,), outcome)
                    }
            }),
    {
        let ghost key_triple = mbed_key_triple(app_name@, key_name@);
        let binding = match self.locate_key(app_name, key_name) {
            Ok(binding) => binding,
            Err(error) => {
                proof {
                    if error != KeyError::StoreFailure || old(self).store_never_fails() {
                        let outcome: Result<(), Error> = Ok(());
                        assert((self@, Err::<(), KeyError>(error)) == destroy(
                            old(self)@,
                            key_triple,
                            outcome,
                        ));
                    }
                }
                return Err(error);
            },
        };
        let outcome = destroy_key(binding.key_id());
        let r = self.settle_key_destruction(binding, outcome);
        proof {
            if r != Err::<(), KeyError>(KeyError::StoreFailure) || old(
                self,
            ).store_never_fails() {
                assert((self@, r) == destroy(old(self)@, key_triple, outcome));
            }
        }
        r
    }

    /// Finds the identifier under which the backend knows a key: the first
    /// step of exporting and of destroying it.
    pub fn locate_key(&self, app_name: ApplicationName, key_name: String) -> (r: Result<
        KeyBinding,
        KeyError,
    >)
        ensures
            ({
                let key_triple = mbed_key_triple(app_name@, key_name@);
                let stored = stored_key_id(self@.bindings, key_triple);
                match r {
                    Ok(binding) => {
                        &&& stored == Ok::<u32, KeyError>(binding@.key_id)
                        &&& binding@.key_triple == key_triple
                    },
                    Err(error) => (error == KeyError::StoreFailure && !self.store_never_fails())
                        || stored == Err::<u32, KeyError>(error),
                }
            }),
    {
        let key_triple = Self::key_triple(app_name, key_name);
        let key_id: u32 = get_key_id(&key_triple, &self.key_info_store)?;
        Ok(KeyBinding { key_triple, key_id })
    }

    /// Last step of destroying a key, given what the backend answered.
    ///
    /// Only if the backend destroyed the key is its record taken out. If the
    /// backend failed, the record stays and the backend's code is reported.
    pub fn settle_key_destruction(&mut self, binding: KeyBinding, outcome: Result<(), Error>) -> (r:
        Result<(), KeyError>)
        ensures
            final(self).store_never_fails() == old(self).store_never_fails(),
            final(self)@.counter == old(self)@.counter,
            (outcome is Ok && !old(self).store_never_fails() && r == Err::<(), KeyError>(
                KeyError::StoreFailure,
            )) || (final(self)@, r) == settle_destruction(old(self)@, binding@.key_triple, outcome),
    {
        match outcome {
            Ok(_) => {
                remove_key_id(&binding.key_triple, &mut self.key_info_store)?;
                Ok(())
            },
            Err(error) => Err(KeyError::BackendFailure(error)),
        }
    }
}

/// A buffer of `size` zero bytes for the backend to export a key into.
pub fn export_buffer(size: usize) -> (buffer: Vec<u8>)
    ensures
        buffer@ == Seq::new(size as nat, |i: int| 0u8),
{
    let mut buffer: Vec<u8> = Vec::new();
    buffer.resize(size, 0u8);
    assert(buffer@ =~= Seq::new(size as nat, |i: int| 0u8));
    buffer
}

/// Last step of exporting a public key, given the buffer that the backend
/// wrote into and the length that it reported: cuts the buffer to that
/// length.
pub fn settle_export(buffer: Vec<u8>, outcome: Result<usize, Error>) -> (r: Result<
    Vec<u8>,
    KeyError,
>)
    ensures
        match r {
            Ok(data) => outcome matches Ok(produced) && data@ == exported(buffer@, produced as nat),
            Err(error) => outcome matches Err(code) && error == KeyError::BackendFailure(code),
        },
{
    match outcome {
        Ok(produced) => {
            let mut data = buffer;
            data.resize(produced, 0u8);
            assert(data@ =~= exported(buffer@, produced as nat));
            Ok(data)
        },
        Err(error) => Err(KeyError::BackendFailure(error)),
    }
}

} // verus!
