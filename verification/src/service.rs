//! The service id: which of up to four generators issued an identifier.

use vstd::prelude::*;
use crate::error::SnowflakeError;
use crate::layout::MAX_2_BITS;

verus! {

/// A service id that is known to fit in 2 bits.
#[derive(Clone, Copy, Debug)]
pub struct ServiceId {
    id: u16,
}

impl View for ServiceId {
    type V = int;

    closed spec fn view(&self) -> int {
        self.id as int
    }
}

impl ServiceId {
    #[verifier::type_invariant]
    pub open spec fn valid(self) -> bool {
        0 <= self@ <= MAX_2_BITS
    }

    /// Accepts `id` when it fits in 2 bits.
    pub fn new(id: u16) -> (made: Result<ServiceId, SnowflakeError>)
        ensures
            id <= MAX_2_BITS <==> made is Ok,
            made matches Ok(service) ==> service@ == id,
            made matches Err(e) ==> e == SnowflakeError::InvalidServiceIdError,
    {
        if id > MAX_2_BITS {
            return Err(SnowflakeError::InvalidServiceIdError);
        }
        Ok(ServiceId { id })
    }

    /// The id as a number.
    pub fn get(&self) -> (id: u16)
        ensures
            id == self@,
            id <= MAX_2_BITS,
    {
        proof {
            use_type_invariant(self);
        }
        self.id
    }
}

} // verus!
