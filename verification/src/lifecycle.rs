//! What each key operation does, stated over the records of the store and
//! the counter of the allocator.
//!
//! A triple is absent while the store holds no record for it. Creating a key
//! first reserves it: it gets the next identifier and a record. Then the
//! backend creates the key material under that identifier. If the backend
//! fails, the record is taken out again, and the identifier stays used.
//! Destroying a key asks the backend first and takes the record out only
//! once the backend has let go of the key.
//!
//! The functions here describe the calls in which the store answers. What a
//! call leaves behind when the store fails is for the store to say.

use vstd::prelude::*;
use psa_crypto::types::key::Attributes;
use psa_crypto::types::status::Error;
use crate::error::KeyError;
use crate::id_allocator::{issue, KEY_ID_MAX};
use crate::key_info::{key_id_of, record_of, KeyInfoView, KeyTripleView};

verus! {

/// A provider as contracts speak of it: the records in its store and the
/// counter of its allocator.
pub struct ProviderView {
    pub bindings: Map<KeyTripleView, KeyInfoView>,
    pub counter: nat,
}

/// The identifier that the records hold for a triple.
pub open spec fn stored_key_id(
    bindings: Map<KeyTripleView, KeyInfoView>,
    key_triple: KeyTripleView,
) -> Result<u32, KeyError> {
    if !bindings.contains_key(key_triple) {
        Err(KeyError::DoesNotExist)
    } else {
        match key_id_of(bindings[key_triple].id) {
            Some(key_id) => Ok(key_id),
            None => Err(KeyError::StoreFailure),
        }
    }
}

/// Reserving a key: a triple that has a record is refused; otherwise the
/// allocator is asked, and the identifier it issues is recorded.
pub open spec fn reserve(state: ProviderView, key_triple: KeyTripleView, attributes: Attributes) -> (
    ProviderView,
    Result<u32, KeyError>,
) {
    if state.bindings.contains_key(key_triple) {
        (state, Err(KeyError::AlreadyExists))
    } else {
        match issue(state.counter).1 {
            Ok(key_id) => (
                ProviderView {
                    bindings: state.bindings.insert(key_triple, record_of(key_id, attributes)),
                    counter: issue(state.counter).0,
                },
                Ok(key_id),
            ),
            Err(error) => (
                ProviderView { bindings: state.bindings, counter: issue(state.counter).0 },
                Err(error),
            ),
        }
    }
}

/// Settling a reservation once the backend has answered: its success leaves
/// the record in place, its failure takes the record out and is reported.
pub open spec fn settle_creation(
    state: ProviderView,
    key_triple: KeyTripleView,
    outcome: Result<(), Error>,
) -> (ProviderView, Result<(), KeyError>) {
    match outcome {
        Ok(_) => (state, Ok(())),
        Err(error) => (
            ProviderView { bindings: state.bindings.remove(key_triple), counter: state.counter },
            Err(KeyError::BackendFailure(error)),
        ),
    }
}

/// Creating a key, by generation or by import: the reservation, and, where
/// it succeeds, its settlement with what the backend answered.
pub open spec fn create(
    state: ProviderView,
    key_triple: KeyTripleView,
    attributes: Attributes,
    outcome: Result<(), Error>,
) -> (ProviderView, Result<(), KeyError>) {
    let reserved = reserve(state, key_triple, attributes);
    match reserved.1 {
        Ok(_) => settle_creation(reserved.0, key_triple, outcome),
        Err(error) => (reserved.0, Err(error)),
    }
}

/// Settling a destruction once the backend has answered: its success takes
/// the record out, its failure leaves everything as it was and is reported.
pub open spec fn settle_destruction(
    state: ProviderView,
    key_triple: KeyTripleView,
    outcome: Result<(), Error>,
) -> (ProviderView, Result<(), KeyError>) {
    match outcome {
        Ok(_) => (
            ProviderView { bindings: state.bindings.remove(key_triple), counter: state.counter },
            Ok(()),
        ),
        Err(error) => (state, Err(KeyError::BackendFailure(error))),
    }
}

/// Destroying a key: the backend is asked only for a triple whose record
/// holds an identifier.
pub open spec fn destroy(state: ProviderView, key_triple: KeyTripleView, outcome: Result<(), Error>) -> (
    ProviderView,
    Result<(), KeyError>,
) {
    match stored_key_id(state.bindings, key_triple) {
        Ok(_) => settle_destruction(state, key_triple, outcome),
        Err(error) => (state, Err(error)),
    }
}

/// The bytes of an exported key: the first `produced` bytes of the buffer.
/// Should the backend claim more than the buffer holds, zeros make up the
/// length.
pub open spec fn exported(buffer: Seq<u8>, produced: nat) -> Seq<u8> {
    if produced <= buffer.len() {
        buffer.take(produced as int)
    } else {
        buffer + Seq::new((produced - buffer.len()) as nat, |i: int| 0u8)
    }
}

/// Exporting a public key: the backend is asked only for a triple whose
/// record holds an identifier, first for the size of the buffer and then for
/// the key. A failure of either is reported; otherwise the answer is what
/// the backend wrote, cut to the length that it reported.
pub open spec fn export(
    bindings: Map<KeyTripleView, KeyInfoView>,
    key_triple: KeyTripleView,
    size: Result<usize, Error>,
    written: Result<(Seq<u8>, usize), Error>,
) -> Result<Seq<u8>, KeyError> {
    match stored_key_id(bindings, key_triple) {
        Err(error) => Err(error),
        Ok(_) => match size {
            Err(error) => Err(KeyError::BackendFailure(error)),
            Ok(_) => match written {
                Err(error) => Err(KeyError::BackendFailure(error)),
                Ok((buffer, produced)) => Ok(exported(buffer, produced as nat)),
            },
        },
    }
}

/// A key that is created for a triple without a record gets a record with
/// the next identifier, and creating a key for the same triple once more is
/// refused with `AlreadyExists`, whatever the backend would have answered.
///
/// The first creation is one in which an identifier is left and the backend
/// succeeds.
pub proof fn creation_binds_once(
    state: ProviderView,
    key_triple: KeyTripleView,
    attributes: Attributes,
    second_attributes: Attributes,
    second_outcome: Result<(), Error>,
)
    requires
        !state.bindings.contains_key(key_triple),
        state.counter < KEY_ID_MAX,
    ensures
        ({
            let first = create(state, key_triple, attributes, Ok(()));
            let second = create(first.0, key_triple, second_attributes, second_outcome);
            &&& first.1 == Ok::<(), KeyError>(())
            &&& first.0.bindings.contains_key(key_triple)
            &&& stored_key_id(first.0.bindings, key_triple) == Ok::<u32, KeyError>(
                (state.counter + 1) as u32,
            )
            &&& second.1 == Err::<(), KeyError>(KeyError::AlreadyExists)
            &&& second.0 == first.0
        }),
{
    crate::key_info::key_id_survives_encoding((state.counter + 1) as u32);
}

/// Destroying a key that was just created takes its record out again: the
/// store then holds what it held before the creation.
pub proof fn destruction_unbinds(
    state: ProviderView,
    key_triple: KeyTripleView,
    attributes: Attributes,
)
    requires
        !state.bindings.contains_key(key_triple),
        state.counter < KEY_ID_MAX,
    ensures
        ({
            let created = create(state, key_triple, attributes, Ok(()));
            let destroyed = destroy(created.0, key_triple, Ok(()));
            &&& destroyed.1 == Ok::<(), KeyError>(())
            &&& !destroyed.0.bindings.contains_key(key_triple)
            &&& destroyed.0.bindings == state.bindings
            &&& destroyed.0.counter == state.counter + 1
        }),
{
    crate::key_info::key_id_survives_encoding((state.counter + 1) as u32);
    let created = create(state, key_triple, attributes, Ok(()));
    assert(created.0.bindings.remove(key_triple) =~= state.bindings);
}

/// Destroying a key of a triple without a record fails with `DoesNotExist`
/// and changes nothing, whatever the backend would have answered.
pub proof fn destruction_of_absent_key_fails(
    state: ProviderView,
    key_triple: KeyTripleView,
    outcome: Result<(), Error>,
)
    requires
        !state.bindings.contains_key(key_triple),
    ensures
        destroy(state, key_triple, outcome) == (state, Err::<(), KeyError>(KeyError::DoesNotExist)),
{
}

/// A key that the backend refuses to destroy keeps its record.
pub proof fn failed_destruction_keeps_record(
    state: ProviderView,
    key_triple: KeyTripleView,
    error: Error,
)
    requires
        stored_key_id(state.bindings, key_triple) is Ok,
    ensures
        destroy(state, key_triple, Err(error)) == (
            state,
            Err::<(), KeyError>(KeyError::BackendFailure(error)),
        ),
{
}

/// A creation at which the backend fails leaves no record behind: the store
/// holds what it held before. The identifier of the attempt stays used.
pub proof fn failed_creation_leaves_no_record(
    state: ProviderView,
    key_triple: KeyTripleView,
    attributes: Attributes,
    error: Error,
)
    requires
        !state.bindings.contains_key(key_triple),
        state.counter < KEY_ID_MAX,
    ensures
        ({
            let failed = create(state, key_triple, attributes, Err(error));
            &&& failed.1 == Err::<(), KeyError>(KeyError::BackendFailure(error))
            &&& !failed.0.bindings.contains_key(key_triple)
            &&& failed.0.bindings == state.bindings
            &&& failed.0.counter == state.counter + 1
        }),
{
    let reserved = reserve(state, key_triple, attributes);
    assert(reserved.0.bindings.remove(key_triple) =~= state.bindings);
}

/// Once the counter stands at the maximum, creating a key for a triple
/// without a record fails with `ResourceExhausted`, and the counter stays at
/// the maximum.
pub proof fn exhausted_provider_creates_nothing(
    state: ProviderView,
    key_triple: KeyTripleView,
    attributes: Attributes,
    outcome: Result<(), Error>,
)
    requires
        state.counter == KEY_ID_MAX,
        !state.bindings.contains_key(key_triple),
    ensures
        create(state, key_triple, attributes, outcome) == (
            state,
            Err::<(), KeyError>(KeyError::ResourceExhausted),
        ),
{
}

/// An exported key is as long as the backend said, and holds what the
/// backend wrote: where the backend stayed within the buffer, the key is the
/// start of the buffer and nothing of the rest of it.
pub proof fn exported_key_is_what_was_produced(buffer: Seq<u8>, produced: nat)
    ensures
        exported(buffer, produced).len() == produced,
        produced <= buffer.len() ==> exported(buffer, produced) == buffer.subrange(
            0,
            produced as int,
        ),
        forall|i: int|
            0 <= i < produced && i < buffer.len() ==> #[trigger] exported(buffer, produced)[i]
                == buffer[i],
        forall|i: int|
            buffer.len() <= i < produced ==> #[trigger] exported(buffer, produced)[i] == 0u8,
{
}

/// One call to a provider together with what the backend answered, or would
/// have answered, in it.
pub enum Request {
    Create { key_triple: KeyTripleView, attributes: Attributes, outcome: Result<(), Error> },
    Destroy { key_triple: KeyTripleView, outcome: Result<(), Error> },
}

/// The provider after a request.
pub open spec fn serve(state: ProviderView, request: Request) -> ProviderView {
    match request {
        Request::Create { key_triple, attributes, outcome } => create(
            state,
            key_triple,
            attributes,
            outcome,
        ).0,
        Request::Destroy { key_triple, outcome } => destroy(state, key_triple, outcome).0,
    }
}

/// The identifier that a request uses up: that of its reservation, whether or
/// not the backend then creates the key.
pub open spec fn used_by(state: ProviderView, request: Request) -> Option<u32> {
    match request {
        Request::Create { key_triple, attributes, outcome } => match reserve(
            state,
            key_triple,
            attributes,
        ).1 {
            Ok(key_id) => Some(key_id),
            Err(_) => None,
        },
        Request::Destroy { .. } => None,
    }
}

/// The provider after a sequence of requests.
pub open spec fn serve_all(state: ProviderView, requests: Seq<Request>) -> ProviderView
    decreases requests.len(),
{
    if requests.len() == 0 {
        state
    } else {
        serve_all(serve(state, requests[0]), requests.skip(1))
    }
}

/// The identifiers that a sequence of requests uses up, in the order of the
/// requests.
pub open spec fn used_ids(state: ProviderView, requests: Seq<Request>) -> Seq<u32>
    decreases requests.len(),
{
    if requests.len() == 0 {
        Seq::empty()
    } else {
        let rest = used_ids(serve(state, requests[0]), requests.skip(1));
        match used_by(state, requests[0]) {
            Some(key_id) => seq![key_id] + rest,
            None => rest,
        }
    }
}

/// No request lowers the counter, none brings it past the maximum, and a
/// request that uses an identifier up moves the counter to it.
pub proof fn counter_only_grows(state: ProviderView, request: Request)
    requires
        state.counter <= KEY_ID_MAX,
    ensures
        state.counter <= serve(state, request).counter <= KEY_ID_MAX,
        used_by(state, request) matches Some(key_id) ==> key_id == state.counter + 1 && serve(
            state,
            request,
        ).counter == key_id,
{
}

/// A reservation gets a larger identifier than any reservation before it,
/// whatever happened to the provider in between, as long as its counter was
/// not lowered. No operation of a provider lowers it.
pub proof fn later_reservation_gets_larger_identifier(
    earlier: ProviderView,
    first_triple: KeyTripleView,
    first_attributes: Attributes,
    later: ProviderView,
    second_triple: KeyTripleView,
    second_attributes: Attributes,
)
    requires
        reserve(earlier, first_triple, first_attributes).1 is Ok,
        reserve(earlier, first_triple, first_attributes).0.counter <= later.counter,
        reserve(later, second_triple, second_attributes).1 is Ok,
    ensures
        reserve(earlier, first_triple, first_attributes).1->Ok_0 < reserve(
            later,
            second_triple,
            second_attributes,
        ).1->Ok_0 <= KEY_ID_MAX,
{
}

/// Over any sequence of creations and destructions, with the backend
/// answering as it will, the identifiers that are used up grow strictly: no
/// two requests get the same one, and one that was used is not issued again,
/// not after its key was destroyed and not after the backend failed to
/// create it. All of them lie above the counter at the start and at most at
/// the maximum.
pub proof fn identifiers_are_never_reissued(state: ProviderView, requests: Seq<Request>)
    requires
        state.counter <= KEY_ID_MAX,
    ensures
        ({
            let ids = used_ids(state, requests);
            &&& forall|i: int| 0 <= i < ids.len() ==> state.counter < #[trigger] ids[i] <= KEY_ID_MAX
            &&& forall|i: int, j: int| 0 <= i < j < ids.len() ==> ids[i] < ids[j]
            &&& state.counter <= serve_all(state, requests).counter <= KEY_ID_MAX
        }),
    decreases requests.len(),
{
    if requests.len() > 0 {
        let next = serve(state, requests[0]);
        counter_only_grows(state, requests[0]);
        identifiers_are_never_reissued(next, requests.skip(1));
        let rest = used_ids(next, requests.skip(1));
        let ids = used_ids(state, requests);
        match used_by(state, requests[0]) {
            Some(key_id) => {
                assert(ids =~= seq![key_id] + rest);
                assert forall|i: int| 0 <= i < ids.len() implies state.counter < #[trigger] ids[i]
                    <= KEY_ID_MAX by {
                    if i > 0 {
                        assert(ids[i] == rest[i - 1]);
                    }
                }
                assert forall|i: int, j: int| 0 <= i < j < ids.len() implies ids[i] < ids[j] by {
                    assert(ids[j] == rest[j - 1]);
                    if i > 0 {
                        assert(ids[i] == rest[i - 1]);
                    }
                }
            },
            None => {
                assert(ids =~= rest);
            },
        }
    }
}

/// Once the counter stands at the maximum it stays there, and no request
/// uses an identifier up any more.
pub proof fn exhausted_provider_stays_exhausted(state: ProviderView, requests: Seq<Request>)
    requires
        state.counter == KEY_ID_MAX,
    ensures
        used_ids(state, requests).len() == 0,
        serve_all(state, requests).counter == KEY_ID_MAX,
    decreases requests.len(),
{
    if requests.len() > 0 {
        counter_only_grows(state, requests[0]);
        exhausted_provider_stays_exhausted(serve(state, requests[0]), requests.skip(1));
    }
}

} // verus!
