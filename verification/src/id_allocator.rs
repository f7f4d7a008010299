//! The source of backend key identifiers.

use vstd::prelude::*;
use crate::error::KeyError;
use crate::outside::key_id_user_max;

verus! {

/// The largest identifier that the backend accepts for a key of a client.
pub const KEY_ID_MAX: u32 = 0x3fff_ffff;

/// One step of the counter: from a counter below the maximum the next number
/// is issued and becomes the counter; from the maximum nothing is issued and
/// the counter stays there.
pub open spec fn issue(counter: nat) -> (nat, Result<u32, KeyError>) {
    if counter < KEY_ID_MAX {
        (counter + 1, Ok((counter + 1) as u32))
    } else {
        (KEY_ID_MAX as nat, Err(KeyError::ResourceExhausted))
    }
}

/// Hands out identifiers in increasing order and never hands one out twice.
///
/// Its view is the counter: the last identifier that was issued.
pub struct IdAllocator {
    counter: u32,
}

impl View for IdAllocator {
    type V = nat;

    closed spec fn view(&self) -> nat {
        self.counter as nat
    }
}

impl IdAllocator {
    /// The counter never passes the maximum.
    #[verifier::type_invariant]
    pub open spec fn within_limit(&self) -> bool {
        self@ <= KEY_ID_MAX
    }

    /// An allocator whose next identifier follows `last_issued`. A value above
    /// the maximum counts as the maximum.
    pub fn new(last_issued: u32) -> (allocator: Self)
        ensures
            allocator@ == if last_issued <= KEY_ID_MAX {
                last_issued as nat
            } else {
                KEY_ID_MAX as nat
            },
    {
        let max: u32 = key_id_user_max();
        if last_issued <= max {
            IdAllocator { counter: last_issued }
        } else {
            IdAllocator { counter: max }
        }
    }

    /// The last identifier that was issued.
    pub fn counter(&self) -> (counter: u32)
        ensures
            counter == self@,
            counter <= KEY_ID_MAX,
    {
        proof {
            use_type_invariant(self);
        }
        self.counter
    }

    /// Issues the next identifier, or fails with `ResourceExhausted` once the
    /// counter stands at the maximum.
    pub fn allocate(&mut self) -> (r: Result<u32, KeyError>)
        ensures
            (final(self)@, r) == issue(old(self)@),
            old(self)@ <= final(self)@ <= KEY_ID_MAX,
    {
        proof {
            use_type_invariant(&*self);
        }
        let max: u32 = key_id_user_max();
        let new_key_id: u32 = self.counter + 1;
        if new_key_id > max {
            self.counter = max;
            return Err(KeyError::ResourceExhausted);
        }
        self.counter = new_key_id;
        Ok(new_key_id)
    }
}

} // verus!
