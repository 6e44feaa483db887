//! The failure kinds of the library.
//!
//! Failures that come out of a backend client are carried as text: the
//! caller that talks to the backend renders the client's own error and picks
//! the kind.

use vstd::prelude::*;

verus! {

/// Why a driver could not hand out a connection.
#[derive(Debug, Clone, PartialEq, Eq)]
pub enum DriverError {
    /// Every connection of the pool stayed checked out until the pool's
    /// timeout ran out. The caller may try again later.
    PoolExhausted,
    /// The backend could not be reached, or refused the connection.
    ConnectionFailed(String),
}

impl DriverError {
    /// Whether trying again can help: only an exhausted pool is transient.
    pub open spec fn retryable(self) -> bool {
        self is PoolExhausted
    }

    /// Whether the caller may try again after backing off.
    pub fn is_retryable(&self) -> (r: bool)
        ensures
            r == self.retryable(),
    {
        match self {
            DriverError::PoolExhausted => true,
            DriverError::ConnectionFailed(_) => false,
        }
    }

    /// The text that [`DriverError::message`] renders.
    pub open spec fn text(self) -> Seq<char> {
        match self {
            DriverError::PoolExhausted => "Pool exhausted"@,
            DriverError::ConnectionFailed(m) => "Connection failed: "@ + m@,
        }
    }

    /// A line for logs.
    pub fn message(&self) -> (r: String)
        ensures
            r@ == self.text(),
    {
        match self {
            DriverError::PoolExhausted => String::from_str("Pool exhausted"),
            DriverError::ConnectionFailed(m) => String::from_str("Connection failed: ").concat(
                m.as_str(),
            ),
        }
    }
}

/// A failure of a backend, seen from the repository layer.
#[derive(Debug, Clone, PartialEq, Eq)]
pub enum DatabaseError {
    /// No connection could be obtained.
    Driver(DriverError),
    /// The backend reported a failure while it worked on a statement or on a
    /// transaction.
    Backend(String),
}

impl DatabaseError {
    /// The text that [`DatabaseError::message`] renders.
    pub open spec fn text(self) -> Seq<char> {
        match self {
            DatabaseError::Driver(e) => "Error while attempting to establish connection: "@
                + e.text(),
            DatabaseError::Backend(m) => "Backend error: "@ + m@,
        }
    }

    /// A line for logs.
    pub fn message(&self) -> (r: String)
        ensures
            r@ == self.text(),
    {
        match self {
            DatabaseError::Driver(e) => {
                let inner = e.message();
                String::from_str("Error while attempting to establish connection: ").concat(
                    inner.as_str(),
                )
            },
            DatabaseError::Backend(m) => String::from_str("Backend error: ").concat(m.as_str()),
        }
    }

    /// Whether the failure is an exhausted pool, the one kind worth retrying.
    pub open spec fn retryable(self) -> bool {
        self matches DatabaseError::Driver(e) && e.retryable()
    }

    /// Whether the caller may try again after backing off.
    pub fn is_retryable(&self) -> (r: bool)
        ensures
            r == self.retryable(),
    {
        match self {
            DatabaseError::Driver(e) => e.is_retryable(),
            DatabaseError::Backend(_) => false,
        }
    }
}

/// A failure of a repository adapter.
#[derive(Debug, Clone, PartialEq, Eq)]
pub enum AdapterError {
    /// No row or document matches. Callers branch on this kind.
    DoesNotExist,
    /// The write would break a constraint of the store.
    Conflict(String),
    /// Anything else the backend reported.
    Database(DatabaseError),
}

impl AdapterError {
    /// Whether the failure says that the entry is missing.
    pub fn is_not_found(&self) -> (r: bool)
        ensures
            r == (*self is DoesNotExist),
    {
        match self {
            AdapterError::DoesNotExist => true,
            _ => false,
        }
    }
}

/// A failure of the cache.
#[derive(Debug, Clone, PartialEq, Eq)]
pub enum CacheError {
    /// Nothing live is stored under the key.
    Miss,
    /// The cache could not be reached. This is never reported as a miss.
    Unavailable(String),
    /// The payload under the key is not what the caller asked for.
    Malformed(String),
}

/// How a failure is shown at the request boundary.
#[derive(Debug, Clone, Copy, PartialEq, Eq)]
pub enum ResponseClass {
    /// The service cannot serve the request now.
    ServiceUnavailable,
    /// What was asked for does not exist.
    NotFound,
    /// The caller has used up its attempts.
    TooManyAttempts,
    /// Any other failure; no detail is shown.
    Failure,
}

impl AdapterError {
    /// The class under which an adapter failure is shown.
    pub open spec fn class(self) -> ResponseClass {
        match self {
            AdapterError::DoesNotExist => ResponseClass::NotFound,
            AdapterError::Conflict(_) => ResponseClass::Failure,
            AdapterError::Database(DatabaseError::Driver(_)) => ResponseClass::ServiceUnavailable,
            AdapterError::Database(DatabaseError::Backend(_)) => ResponseClass::Failure,
        }
    }

    /// Picks the class under which the failure is shown to the user.
    pub fn response_class(&self) -> (r: ResponseClass)
        ensures
            r == self.class(),
    {
        match self {
            AdapterError::DoesNotExist => ResponseClass::NotFound,
            AdapterError::Conflict(_) => ResponseClass::Failure,
            AdapterError::Database(e) => match e {
                DatabaseError::Driver(_) => ResponseClass::ServiceUnavailable,
                DatabaseError::Backend(_) => ResponseClass::Failure,
            },
        }
    }
}

} // verus!
