//! The accounting of a connection pool: how many connections are out, and
//! what a request for one is told.
//!
//! A pool owns a bounded number of connections. A request is granted while
//! one is free. While none is free the request waits, but never past the
//! pool's timeout: then it fails with `PoolExhausted`. The pool that holds
//! the connections does the waiting; what it decides is decided here.

use crate::error::DriverError;
use vstd::prelude::*;

verus! {

/// What a request for a connection is told.
#[derive(Debug, Clone, Copy, PartialEq, Eq, Structural)]
pub enum Admission {
    /// A connection is checked out for the request.
    Granted,
    /// No connection is free. Ask again when one is returned, or after this
    /// many milliseconds at the latest.
    Wait(u64),
}

/// The checked-out count of one pool.
pub struct PoolHandle {
    backend: String,
    max_size: usize,
    checked_out: usize,
    timeout: u64,
}

impl PoolHandle {
    #[verifier::type_invariant]
    closed spec fn bounded(&self) -> bool {
        self.checked_out <= self.max_size
    }

    /// The backend whose connections the pool holds.
    pub closed spec fn identity(&self) -> Seq<char> {
        self.backend@
    }

    /// The most connections that can be out at once.
    pub closed spec fn capacity(&self) -> nat {
        self.max_size as nat
    }

    /// The connections that are out.
    pub closed spec fn out(&self) -> nat {
        self.checked_out as nat
    }

    /// The longest a request waits, in milliseconds.
    pub closed spec fn patience(&self) -> u64 {
        self.timeout
    }

    /// A pool of `max_size` connections to `backend`, none of them out,
    /// whose requests wait `timeout` milliseconds at most.
    pub fn new(backend: &str, max_size: usize, timeout: u64) -> (pool: PoolHandle)
        ensures
            pool.identity() == backend@,
            pool.capacity() == max_size,
            pool.out() == 0,
            pool.patience() == timeout,
    {
        PoolHandle { backend: String::from_str(backend), max_size, checked_out: 0, timeout }
    }

    /// The backend whose connections the pool holds.
    pub fn backend(&self) -> (name: &str)
        ensures
            name@ == self.identity(),
    {
        self.backend.as_str()
    }

    /// The most connections that can be out at once.
    pub fn max_size(&self) -> (n: usize)
        ensures
            n == self.capacity(),
    {
        self.max_size
    }

    /// The connections that are out. Never more than the pool has.
    pub fn checked_out(&self) -> (n: usize)
        ensures
            n == self.out(),
            n <= self.capacity(),
    {
        proof {
            use_type_invariant(self);
        }
        self.checked_out
    }

    /// The connections that are free.
    pub fn available(&self) -> (n: usize)
        ensures
            n == self.capacity() - self.out(),
    {
        proof {
            use_type_invariant(self);
        }
        self.max_size - self.checked_out
    }

    /// Answers a request that has waited `waited` milliseconds so far.
    ///
    /// While a connection is free the request is granted and the count of
    /// connections out grows by one. While none is free the request is told
    /// to wait for what is left of the timeout, and once the timeout has
    /// passed it fails with `PoolExhausted`. Nothing but a grant changes
    /// the count.
    pub fn acquire(&mut self, waited: u64) -> (answer: Result<Admission, DriverError>)
        ensures
            final(self).identity() == old(self).identity(),
            final(self).capacity() == old(self).capacity(),
            final(self).patience() == old(self).patience(),
            answer == admission(
                old(self).out(),
                old(self).capacity(),
                old(self).patience(),
                waited,
            ),
            answer == Ok::<Admission, DriverError>(Admission::Granted) ==> final(self).out()
                == old(self).out() + 1,
            answer != Ok::<Admission, DriverError>(Admission::Granted) ==> final(self).out()
                == old(self).out(),
    {
        proof {
            use_type_invariant(&*self);
        }
        if self.checked_out < self.max_size {
            self.checked_out = self.checked_out + 1;
            Ok(Admission::Granted)
        } else if waited >= self.timeout {
            Err(DriverError::PoolExhausted)
        } else {
            Ok(Admission::Wait(self.timeout - waited))
        }
    }

    /// Takes back a connection. Returns whether one was out; a pool with
    /// none out stays as it is.
    pub fn release(&mut self) -> (returned: bool)
        ensures
            final(self).identity() == old(self).identity(),
            final(self).capacity() == old(self).capacity(),
            final(self).patience() == old(self).patience(),
            returned == (old(self).out() > 0),
            returned ==> final(self).out() == old(self).out() - 1,
            !returned ==> final(self).out() == old(self).out(),
    {
        proof {
            use_type_invariant(&*self);
        }
        if self.checked_out > 0 {
            self.checked_out = self.checked_out - 1;
            true
        } else {
            false
        }
    }
}

/// What a request is told by a pool with `out` of `capacity` connections
/// out, after it has waited `waited` of `patience` milliseconds.
pub open spec fn admission(out: nat, capacity: nat, patience: u64, waited: u64) -> Result<
    Admission,
    DriverError,
> {
    if out < capacity {
        Ok(Admission::Granted)
    } else if waited >= patience {
        Err(DriverError::PoolExhausted)
    } else {
        Ok(Admission::Wait((patience - waited) as u64))
    }
}

/// A request never waits past the timeout: what it is told to wait, added
/// to what it has waited, is the timeout, and a request that has waited
/// that long is granted or fails.
pub proof fn law_wait_is_bounded(out: nat, capacity: nat, patience: u64, waited: u64)
    ensures
        admission(out, capacity, patience, waited) matches Ok(Admission::Wait(more)) ==> waited
            + more == patience && more > 0,
        waited >= patience ==> !(admission(out, capacity, patience, waited) matches Ok(
            Admission::Wait(_),
        )),
{
}

/// A request fails only with `PoolExhausted`, and only when no connection
/// is free and the timeout has passed. A request to a pool with a free
/// connection is granted at once.
pub proof fn law_exhaustion_needs_a_full_pool(out: nat, capacity: nat, patience: u64, waited: u64)
    ensures
        admission(out, capacity, patience, waited) is Err <==> out >= capacity && waited
            >= patience,
        admission(out, capacity, patience, waited) matches Err(e) ==> e is PoolExhausted,
        out < capacity ==> admission(out, capacity, patience, waited) == Ok::<
            Admission,
            DriverError,
        >(Admission::Granted),
{
}

} // verus!
